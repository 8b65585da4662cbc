//! What holds of every run of a relay, whatever the events and however the
//! caller's actions turn out.
//!
//! A run is a relay and the events reported to it, one after the other. The
//! relay takes the events it accepts and passes over the others; the trace of
//! the run is where the relay stands afterwards and what it asked for on the
//! way.

use crate::error::{BusError, Status};
use crate::frame::{
    decoded, end_signal, first_payload, frame_bytes, has_frame, law_frame_round_trip,
    lemma_split_first, lemma_stream_then_rest, length_prefix, stream_bytes, ByteOrder,
    MAX_PAYLOAD, PREFIX_LEN,
};
use crate::relay::{ActionView, EventView, Phase, RelayState, RelayView};
use crate::session::{shutdown_reply, PublishView, RabbitView};
use crate::table::publish_entries;
use vstd::prelude::*;

verus! {

/// Where a run has led and what was asked for on the way.
pub struct Trace {
    /// The relay after the last event.
    pub state: RelayView,
    /// The actions asked for, in the order they were asked.
    pub actions: Seq<ActionView>,
}

/// The trace of the run of `start` over `events`.
pub open spec fn run(start: RelayView, events: Seq<EventView>) -> Trace
    decreases events.len(),
{
    if events.len() == 0 {
        Trace { state: start, actions: Seq::empty() }
    } else {
        let before = run(start, events.drop_last());
        if before.state.accepts(events.last()) {
            Trace {
                state: before.state.step(events.last()).0,
                actions: before.actions.push(before.state.step(events.last()).1),
            }
        } else {
            before
        }
    }
}

/// The payloads that `actions` publish, in the order they are published.
pub open spec fn published(actions: Seq<ActionView>) -> Seq<Seq<u8>>
    decreases actions.len(),
{
    if actions.len() == 0 {
        Seq::empty()
    } else {
        match actions.last() {
            ActionView::Publish(request) => published(actions.drop_last()).push(request.payload),
            _ => published(actions.drop_last()),
        }
    }
}

/// The byte strings that `actions` write to the local sink, in the order they
/// are written.
pub open spec fn written(actions: Seq<ActionView>) -> Seq<Seq<u8>>
    decreases actions.len(),
{
    if actions.len() == 0 {
        Seq::empty()
    } else {
        match actions.last() {
            ActionView::Write(bytes) => written(actions.drop_last()).push(bytes),
            _ => written(actions.drop_last()),
        }
    }
}

/// How often `actions` close the channel.
pub open spec fn channel_closes(actions: Seq<ActionView>) -> nat
    decreases actions.len(),
{
    if actions.len() == 0 {
        0
    } else if actions.last() is CloseChannel {
        channel_closes(actions.drop_last()) + 1
    } else {
        channel_closes(actions.drop_last())
    }
}

/// How often `actions` close the connection.
pub open spec fn connection_closes(actions: Seq<ActionView>) -> nat
    decreases actions.len(),
{
    if actions.len() == 0 {
        0
    } else if actions.last() is CloseConnection {
        connection_closes(actions.drop_last()) + 1
    } else {
        connection_closes(actions.drop_last())
    }
}

/// The local bytes that the run of `start` over `events` takes in, in the
/// order they arrive.
pub open spec fn taken_in(start: RelayView, events: Seq<EventView>) -> Seq<u8>
    decreases events.len(),
{
    if events.len() == 0 {
        Seq::empty()
    } else {
        match events.last() {
            EventView::LocalBytes(bytes) => if run(start, events.drop_last()).state.accepts(
                events.last(),
            ) {
                taken_in(start, events.drop_last()) + bytes
            } else {
                taken_in(start, events.drop_last())
            },
            _ => taken_in(start, events.drop_last()),
        }
    }
}

/// The frames of the deliveries that the run of `start` over `events` takes
/// and that fit a frame, in the order they arrive.
pub open spec fn frames_due(start: RelayView, events: Seq<EventView>) -> Seq<Seq<u8>>
    decreases events.len(),
{
    if events.len() == 0 {
        Seq::empty()
    } else {
        match events.last() {
            EventView::Delivery(payload) => if run(start, events.drop_last()).state.accepts(
                events.last(),
            ) && payload.len() <= MAX_PAYLOAD {
                frames_due(start, events.drop_last()).push(frame_bytes(payload, start.order))
            } else {
                frames_due(start, events.drop_last())
            },
            _ => frames_due(start, events.drop_last()),
        }
    }
}

/// Whether every complete frame among the pending bytes is on its way: only
/// while a publish is in flight, or once the run is over, may the pending
/// bytes begin with a complete frame.
pub open spec fn drained(relay: RelayView) -> bool {
    relay.phase.spec_state() == RelayState::Terminated || relay.phase == Phase::Publishing
        || !has_frame(relay.pending, relay.order)
}

/// The run over a single event is the step of that event, if it is accepted.
pub proof fn lemma_run_one(start: RelayView, event: EventView)
    ensures
        run(start, seq![event]) == if start.accepts(event) {
            Trace { state: start.step(event).0, actions: seq![start.step(event).1] }
        } else {
            Trace { state: start, actions: Seq::empty() }
        },
{
    reveal_with_fuel(run, 2);
}

/// A run can be cut anywhere: the run over `first` and then `later` is the
/// run over `first`, continued from where it stands by the run over `later`.
pub proof fn lemma_run_continues(start: RelayView, first: Seq<EventView>, later: Seq<EventView>)
    ensures
        run(start, first + later).state == run(run(start, first).state, later).state,
        run(start, first + later).actions == run(start, first).actions + run(
            run(start, first).state,
            later,
        ).actions,
    decreases later.len(),
{
    if later.len() > 0 {
        lemma_run_continues(start, first, later.drop_last());
        assert((first + later).drop_last() =~= first + later.drop_last());
    }
}

/// A step never changes what a relay was configured with.
pub proof fn lemma_run_keeps_configuration(start: RelayView, events: Seq<EventView>)
    ensures
        run(start, events).state.address == start.address,
        run(start, events).state.session == start.session,
        run(start, events).state.order == start.order,
    decreases events.len(),
{
    if events.len() > 0 {
        lemma_run_keeps_configuration(start, events.drop_last());
    }
}

/// A frame that arrives whole at a waiting relay which holds no other bytes
/// is published at once: to the exchange of the session, with an empty
/// routing key, with exactly the payload of the frame, and tagged in
/// `from-id` with the identity of the relay. This holds for every payload
/// that a frame can carry, the empty one included.
pub proof fn law_frame_is_published(relay: RelayView, payload: Seq<u8>)
    requires
        relay.phase == Phase::Waiting,
        relay.pending.len() == 0,
        payload.len() <= MAX_PAYLOAD,
    ensures
        relay.accepts(EventView::LocalBytes(frame_bytes(payload, relay.order))),
        relay.step(EventView::LocalBytes(frame_bytes(payload, relay.order))).1
            == ActionView::Publish(
            PublishView {
                exchange: relay.session.exchange,
                routing_key: Seq::empty(),
                from_id: relay.session.queue,
                payload,
                mandatory: false,
                immediate: false,
            },
        ),
        relay.step(EventView::LocalBytes(frame_bytes(payload, relay.order))).0 == (RelayView {
            phase: Phase::Publishing,
            pending: Seq::empty(),
            ..relay
        }),
        publish_entries(relay.session.publish(payload))["from-id"@] == relay.session.queue,
{
    law_frame_round_trip(payload, relay.order);
}

/// A delivery that reaches a waiting relay is written to the local side as
/// one frame: the length of the payload as prefix, then exactly the payload,
/// so that decoding what was written gives the payload back.
pub proof fn law_delivery_is_forwarded(relay: RelayView, payload: Seq<u8>)
    requires
        relay.phase == Phase::Waiting,
        payload.len() <= MAX_PAYLOAD,
    ensures
        relay.accepts(EventView::Delivery(payload)),
        relay.step(EventView::Delivery(payload)) == (
            relay.at(Phase::Forwarding),
            ActionView::Write(frame_bytes(payload, relay.order)),
        ),
        frame_bytes(payload, relay.order).subrange(0, PREFIX_LEN as int) == length_prefix(
            payload.len(),
            relay.order,
        ),
        first_payload(frame_bytes(payload, relay.order), relay.order) == payload,
        decoded(frame_bytes(payload, relay.order), relay.order) == seq![payload],
{
    law_frame_round_trip(payload, relay.order);
}

/// Every message a relay publishes goes to the exchange of its session,
/// with an empty routing key, and is tagged with its identity, in every run.
pub proof fn law_every_publish_is_tagged(start: RelayView, events: Seq<EventView>)
    ensures
        forall|i: int|
            0 <= i < run(start, events).actions.len() ==> (#[trigger] run(
                start,
                events,
            ).actions[i] matches ActionView::Publish(request) ==> request == start.session.publish(
                request.payload,
            ) && publish_entries(request)["from-id"@] == start.session.queue),
    decreases events.len(),
{
    if events.len() > 0 {
        law_every_publish_is_tagged(start, events.drop_last());
        lemma_run_keeps_configuration(start, events.drop_last());
    }
}

/// One step accounts for every local byte: what it takes in joins the
/// pending bytes, and what it publishes is the frame they began with.
proof fn lemma_step_accounts(relay: RelayView, event: EventView)
    requires
        relay.accepts(event),
    ensures
        ({
            let after = relay.step(event).0;
            let fed = match event {
                EventView::LocalBytes(bytes) => bytes,
                _ => Seq::empty(),
            };
            match relay.step(event).1 {
                ActionView::Publish(request) => {
                    &&& request.payload.len() <= MAX_PAYLOAD
                    &&& frame_bytes(request.payload, relay.order) + after.pending == relay.pending
                        + fed
                },
                _ => after.pending == relay.pending + fed,
            }
        }),
        drained(relay) ==> drained(relay.step(event).0),
{
    let fed = match event {
        EventView::LocalBytes(bytes) => bytes,
        _ => Seq::empty(),
    };
    let fuller = RelayView { pending: relay.pending + fed, ..relay };
    if has_frame(fuller.pending, relay.order) {
        lemma_split_first(fuller.pending, relay.order);
    }
}

/// Regrouping of byte strings for one step of [`law_local_order`].
proof fn lemma_regroup(
    sent: Seq<u8>,
    frame: Seq<u8>,
    after: Seq<u8>,
    before: Seq<u8>,
    fed: Seq<u8>,
    held: Seq<u8>,
    taken: Seq<u8>,
)
    requires
        frame + after == before + fed,
        sent + before == held + taken,
    ensures
        (sent + frame) + after == held + (taken + fed),
{
    assert((sent + frame) + after =~= sent + (frame + after));
    assert(sent + (before + fed) =~= (sent + before) + fed);
}

/// What one more action adds to the payloads published.
proof fn lemma_published_push(actions: Seq<ActionView>, action: ActionView, order: ByteOrder)
    ensures
        published(actions.push(action)) == match action {
            ActionView::Publish(request) => published(actions).push(request.payload),
            _ => published(actions),
        },
        stream_bytes(published(actions.push(action)), order) == match action {
            ActionView::Publish(request) => stream_bytes(published(actions), order) + frame_bytes(
                request.payload,
                order,
            ),
            _ => stream_bytes(published(actions), order),
        },
{
    assert(actions.push(action).drop_last() =~= actions);
    match action {
        ActionView::Publish(request) => {
            assert(published(actions).push(request.payload).drop_last() =~= published(actions));
        },
        _ => {},
    }
}

/// Local frames are published in the order they arrive, none lost, none
/// repeated, none altered: at every point of every run, the frames published
/// so far, written one after the other, and the bytes still pending are
/// together exactly the bytes taken in. So the payloads published are the
/// first frames that the input decodes to, in their order; and if the local
/// source closes now, the pending bytes end as the whole input ends, on a
/// frame boundary or inside a frame.
pub proof fn law_local_order(start: RelayView, events: Seq<EventView>)
    ensures
        forall|i: int|
            0 <= i < published(run(start, events).actions).len() ==> (#[trigger] published(
                run(start, events).actions,
            )[i]).len() <= MAX_PAYLOAD,
        stream_bytes(published(run(start, events).actions), start.order) + run(
            start,
            events,
        ).state.pending == start.pending + taken_in(start, events),
        published(run(start, events).actions) + decoded(
            run(start, events).state.pending,
            start.order,
        ) == decoded(start.pending + taken_in(start, events), start.order),
        end_signal(run(start, events).state.pending, start.order) == end_signal(
            start.pending + taken_in(start, events),
            start.order,
        ),
    decreases events.len(),
{
    let trace = run(start, events);
    if events.len() > 0 {
        let earlier = events.drop_last();
        let before = run(start, earlier);
        let event = events.last();
        law_local_order(start, earlier);
        lemma_run_keeps_configuration(start, earlier);
        if before.state.accepts(event) {
            let action = before.state.step(event).1;
            let fed = match event {
                EventView::LocalBytes(bytes) => bytes,
                _ => Seq::empty(),
            };
            let frame = match action {
                ActionView::Publish(request) => frame_bytes(request.payload, start.order),
                _ => Seq::empty(),
            };
            lemma_step_accounts(before.state, event);
            lemma_published_push(before.actions, action, start.order);
            lemma_regroup(
                stream_bytes(published(before.actions), start.order),
                frame,
                trace.state.pending,
                before.state.pending,
                fed,
                start.pending,
                taken_in(start, earlier),
            );
        }
    }
    lemma_stream_then_rest(published(trace.actions), trace.state.pending, start.order);
}

/// A relay that starts with no complete frame pending, and has come to wait,
/// has published every frame that the bytes taken in complete, in their order.
pub proof fn law_local_frames_all_published(start: RelayView, events: Seq<EventView>)
    requires
        drained(start),
    ensures
        drained(run(start, events).state),
        run(start, events).state.phase == Phase::Waiting ==> published(run(start, events).actions)
            == decoded(start.pending + taken_in(start, events), start.order),
    decreases events.len(),
{
    if events.len() > 0 {
        let earlier = events.drop_last();
        law_local_frames_all_published(start, earlier);
        if run(start, earlier).state.accepts(events.last()) {
            lemma_step_accounts(run(start, earlier).state, events.last());
        }
    }
    law_local_order(start, events);
    lemma_run_keeps_configuration(start, events);
}

/// Deliveries are forwarded in the order they arrive: what a run writes to
/// the local side is, frame for frame and in the same order, the deliveries
/// it took.
pub proof fn law_bus_order(start: RelayView, events: Seq<EventView>)
    ensures
        written(run(start, events).actions) == frames_due(start, events),
    decreases events.len(),
{
    if events.len() > 0 {
        let earlier = events.drop_last();
        let before = run(start, earlier);
        law_bus_order(start, earlier);
        lemma_run_keeps_configuration(start, earlier);
        if before.state.accepts(events.last()) {
            assert(run(start, events).actions.drop_last() =~= before.actions);
        }
    }
}

/// What a relay in `phase` has closed, if it began before any close: the
/// channel, then the connection, once each and only after a session was
/// established.
pub open spec fn closes_owed(phase: Phase) -> (nat, nat) {
    match phase {
        Phase::ClosingChannel(_) => (1, 0),
        Phase::ClosingConnection(_) => (1, 1),
        Phase::Done(status) => if status.spec_is_startup() {
            (0, 0)
        } else {
            (1, 1)
        },
        _ => (0, 0),
    }
}

/// Whether `trace` has closed what a relay in its phase has to have closed,
/// and ends with the action that its phase was entered with.
pub open spec fn closed_as_owed(trace: Trace) -> bool {
    &&& channel_closes(trace.actions) == closes_owed(trace.state.phase).0
    &&& connection_closes(trace.actions) == closes_owed(trace.state.phase).1
    &&& match trace.state.phase {
        Phase::ClosingChannel(status) => {
            &&& !status.spec_is_startup()
            &&& trace.actions.len() > 0
            &&& trace.actions.last() is CloseChannel
        },
        Phase::ClosingConnection(status) => !status.spec_is_startup(),
        Phase::Done(status) => trace.actions.len() > 0 && trace.actions.last() == ActionView::Exit(
            status,
        ),
        _ => true,
    }
}

/// Whether every close of the connection in `actions` comes directly after
/// a close of the channel.
pub open spec fn channel_closed_first(actions: Seq<ActionView>) -> bool {
    forall|i: int|
        0 <= i < actions.len() && (#[trigger] actions[i]) is CloseConnection ==> i > 0
            && actions[i - 1] is CloseChannel
}

/// One accepted step keeps a trace closed as owed, and in the right order.
proof fn lemma_step_closes(before: Trace, event: EventView)
    requires
        closed_as_owed(before),
        channel_closed_first(before.actions),
        before.state.accepts(event),
    ensures
        closed_as_owed(
            Trace {
                state: before.state.step(event).0,
                actions: before.actions.push(before.state.step(event).1),
            },
        ),
        channel_closed_first(before.actions.push(before.state.step(event).1)),
{
    let actions = before.actions.push(before.state.step(event).1);
    assert(actions.drop_last() =~= before.actions);
}

/// The session is closed exactly once. A run that begins before the relay
/// has terminated asks for one close of the channel and, directly after it,
/// one close of the connection, whichever event ends the running relay and
/// whether or not the close of the channel succeeds; and it asks for neither
/// before the run is over, nor when the start fails and leaves no session to
/// close.
pub proof fn law_single_cleanup(start: RelayView, events: Seq<EventView>)
    requires
        start.phase.spec_state() != RelayState::Terminated,
    ensures
        closed_as_owed(run(start, events)),
        channel_closed_first(run(start, events).actions),
    decreases events.len(),
{
    if events.len() > 0 {
        let before = run(start, events.drop_last());
        law_single_cleanup(start, events.drop_last());
        if before.state.accepts(events.last()) {
            lemma_step_closes(before, events.last());
        }
    }
}

/// Once the run is over nothing is relayed any more: the relay keeps its
/// status, takes in no local byte, and asks only for the close of the
/// connection and for the exit with that status.
pub proof fn law_terminated_is_final(start: RelayView, events: Seq<EventView>)
    requires
        start.phase.spec_state() == RelayState::Terminated,
    ensures
        run(start, events).state.phase.spec_status() == start.phase.spec_status(),
        run(start, events).state.pending == start.pending,
        taken_in(start, events) == Seq::<u8>::empty(),
        published(run(start, events).actions) == Seq::<Seq<u8>>::empty(),
        written(run(start, events).actions) == Seq::<Seq<u8>>::empty(),
        forall|i: int|
            0 <= i < run(start, events).actions.len() ==> {
                ||| (#[trigger] run(start, events).actions[i]) == ActionView::CloseConnection(
                    shutdown_reply(),
                )
                ||| Some(run(start, events).actions[i]->Exit_0) == start.phase.spec_status()
                    && run(start, events).actions[i] is Exit
            },
    decreases events.len(),
{
    if events.len() > 0 {
        let earlier = events.drop_last();
        let before = run(start, earlier);
        law_terminated_is_final(start, earlier);
        if before.state.accepts(events.last()) {
            assert(run(start, events).actions.drop_last() =~= before.actions);
        }
    }
}

/// A failed publish ends the run at once: the relay terminates with
/// `PublishFailed`, begins the close of the session, and whatever is
/// reported afterwards it reads and publishes nothing more.
pub proof fn law_publish_failure_is_fatal(relay: RelayView, later: Seq<EventView>)
    requires
        relay.phase == Phase::Publishing,
    ensures
        relay.accepts(EventView::Failed),
        relay.step(EventView::Failed) == (
            relay.at(Phase::ClosingChannel(Status::Bus(BusError::PublishFailed))),
            ActionView::CloseChannel(shutdown_reply()),
        ),
        run(relay.step(EventView::Failed).0, later).state.phase.spec_status() == Some(
            Status::Bus(BusError::PublishFailed),
        ),
        run(relay.step(EventView::Failed).0, later).state.pending == relay.pending,
        taken_in(relay.step(EventView::Failed).0, later) == Seq::<u8>::empty(),
        published(run(relay.step(EventView::Failed).0, later).actions) == Seq::<Seq<u8>>::empty(),
        written(run(relay.step(EventView::Failed).0, later).actions) == Seq::<Seq<u8>>::empty(),
        channel_closes(run(relay, seq![EventView::Failed] + later).actions) == 1,
{
    let closing = relay.step(EventView::Failed).0;
    let first = seq![EventView::Failed];
    lemma_run_one(relay, EventView::Failed);
    lemma_run_continues(relay, first, later);
    law_terminated_is_final(closing, later);
    law_single_cleanup(relay, first + later);
}

/// What a relay asks for while it starts, once it has asked for the
/// connection: the channel, the exchange, the queue, the binding and the
/// subscription, each once and in this order, and then to wait on both sides.
pub open spec fn startup_script(session: RabbitView) -> Seq<ActionView> {
    seq![
        ActionView::OpenChannel,
        ActionView::DeclareExchange(session.exchange_declare()),
        ActionView::DeclareQueue(session.queue_declare()),
        ActionView::BindQueue(session.queue_bind()),
        ActionView::Subscribe(session.consume(session.queue)),
        ActionView::Wait,
    ]
}

/// How much of the script a relay in `phase` has asked for.
pub open spec fn asked_of_script(phase: Phase) -> int {
    match phase {
        Phase::Connecting => 0,
        Phase::OpeningChannel => 1,
        Phase::DeclaringExchange => 2,
        Phase::DeclaringQueue => 3,
        Phase::BindingQueue => 4,
        Phase::Subscribing => 5,
        _ => 6,
    }
}

/// Whether the start can fail with `error` when `asked` requests of the
/// script have been made.
pub open spec fn fails_after(error: BusError, asked: int) -> bool {
    match error {
        BusError::ConnectFailed => 0 <= asked <= 1,
        BusError::TopologyFailed => 2 <= asked <= 4,
        BusError::SubscribeFailed => asked == 5,
        _ => false,
    }
}

/// Whether `action` belongs to the establishing of a session.
pub open spec fn establishes(action: ActionView) -> bool {
    action is Connect || action is OpenChannel || action is DeclareExchange
        || action is DeclareQueue || action is BindQueue || action is Subscribe
}

/// Whether `trace` is that of a relay whose start failed with `error`: it
/// asked for the script up to the request that failed, then for the exit,
/// and holds no local byte.
pub open spec fn failed_by_script(trace: Trace, error: BusError) -> bool {
    &&& trace.actions.len() >= 1
    &&& trace.actions.drop_last() == startup_script(trace.state.session).take(
        trace.actions.len() - 1,
    )
    &&& trace.actions.last() == ActionView::Exit(Status::Bus(error))
    &&& fails_after(error, trace.actions.len() - 1)
    &&& trace.state.pending == Seq::<u8>::empty()
}

/// Whether `trace` is that of a relay that got its session: it asked for the
/// whole script, once, and for nothing of it again.
pub open spec fn established_by_script(trace: Trace) -> bool {
    &&& trace.actions.len() >= 6
    &&& trace.actions.take(6) == startup_script(trace.state.session)
    &&& forall|i: int| 6 <= i < trace.actions.len() ==> !establishes(#[trigger] trace.actions[i])
    &&& trace.state.phase.spec_status() matches Some(status) ==> !status.spec_is_startup()
}

/// Whether `trace` began with the script and kept to it: a relay that is
/// starting has asked for exactly the part of the script that leads to its
/// phase and holds no local byte; one whose start failed has asked for the
/// part up to the request that failed and then only to exit; and one that
/// got its session has asked for the whole script, once, and for nothing of
/// it again.
pub open spec fn follows_script(trace: Trace) -> bool {
    match trace.state.phase {
        Phase::Done(Status::Bus(error)) => if error.spec_is_startup() {
            failed_by_script(trace, error)
        } else {
            established_by_script(trace)
        },
        phase => if phase.spec_state() == RelayState::Starting {
            &&& trace.actions == startup_script(trace.state.session).take(asked_of_script(phase))
            &&& trace.state.pending == Seq::<u8>::empty()
        } else {
            established_by_script(trace)
        },
    }
}

/// One accepted step keeps a trace to the script.
proof fn lemma_step_follows_script(before: Trace, event: EventView)
    requires
        follows_script(before),
        before.state.accepts(event),
    ensures
        follows_script(
            Trace {
                state: before.state.step(event).0,
                actions: before.actions.push(before.state.step(event).1),
            },
        ),
        before.state.phase.spec_state() == RelayState::Starting ==> !(event is LocalBytes),
{
    let script = startup_script(before.state.session);
    let actions = before.actions.push(before.state.step(event).1);
    assert(actions.drop_last() =~= before.actions);
    if before.state.phase.spec_state() == RelayState::Starting {
        if event is Completed {
            assert(actions =~= script.take(asked_of_script(before.state.phase) + 1));
            assert(script.take(6) =~= script);
        }
    } else {
        assert(actions.take(6) =~= before.actions.take(6));
    }
}

/// The start follows one script, and nothing is relayed before the bus side
/// is ready. In every run from the very start the relay asks for the
/// channel, the exchange, the queue, the binding and the subscription in this
/// order, each at most once, and each only when the one before it
/// succeeded. Until the subscription is open it takes in no local byte and
/// asks neither to wait on the two sides nor to publish, to write or to
/// close; if a request fails, the next thing it asks for is the exit.
pub proof fn law_start_follows_script(
    address: Seq<char>,
    session: RabbitView,
    order: ByteOrder,
    events: Seq<EventView>,
)
    ensures
        follows_script(run(RelayView::initial(address, session, order), events)),
        run(RelayView::initial(address, session, order), events).state.session == session,
        run(RelayView::initial(address, session, order), events).actions.len() < 6 ==> taken_in(
            RelayView::initial(address, session, order),
            events,
        ) == Seq::<u8>::empty(),
    decreases events.len(),
{
    let start = RelayView::initial(address, session, order);
    lemma_run_keeps_configuration(start, events);
    if events.len() == 0 {
        assert(run(start, events).actions =~= startup_script(session).take(0));
    } else {
        let before = run(start, events.drop_last());
        law_start_follows_script(address, session, order, events.drop_last());
        if before.state.accepts(events.last()) {
            lemma_step_follows_script(before, events.last());
        }
    }
}

/// The start is all or nothing. If declaring the queue fails, the relay is
/// done at once and reports `TopologyFailed`; it has no session, so it asks
/// for no close; and whatever is reported afterwards it never asks to
/// subscribe, to publish or to read the local side: it asks for nothing at all.
pub proof fn law_startup_atomicity(relay: RelayView, later: Seq<EventView>)
    requires
        relay.phase == Phase::DeclaringQueue,
    ensures
        relay.accepts(EventView::Failed),
        relay.step(EventView::Failed) == (
            relay.at(Phase::Done(Status::Bus(BusError::TopologyFailed))),
            ActionView::Exit(Status::Bus(BusError::TopologyFailed)),
        ),
        run(relay.step(EventView::Failed).0, later) == (Trace {
            state: relay.step(EventView::Failed).0,
            actions: Seq::empty(),
        }),
    decreases later.len(),
{
    if later.len() > 0 {
        law_startup_atomicity(relay, later.drop_last());
    }
}

} // verus!
