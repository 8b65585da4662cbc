//! The relay as a state machine: it is told what happened and answers with
//! what to do next.
//!
//! A relay starts by establishing its bus session, one request at a time.
//! Once the subscription is open it runs: it waits on both sides, publishes
//! each frame that the local bytes complete, and writes each delivery to the
//! local side as one frame. Whatever ends the run, it closes the channel,
//! then the connection, and exits with the status that ended it.
//!
//! The caller performs each [`Action`] and reports its outcome as the next
//! [`Event`]. While an action is in flight only its outcome is accepted;
//! only while the relay waits are events of the two sides accepted.

use crate::error::{BusError, Status, TransportError};
use crate::frame::{
    after_first, encode_frame, end_signal, first_payload, frame_bytes, has_frame, ByteOrder,
    FrameReader, MAX_PAYLOAD,
};
use crate::session::{
    shutdown_reply, Consume, ConsumeView, ExchangeDeclare, ExchangeDeclareView, Publish,
    PublishView, QueueBind, QueueBindView, QueueDeclare, QueueDeclareView, Rabbit, RabbitView,
    Shutdown, ShutdownView,
};
use vstd::prelude::*;

verus! {

/// The three states of a relay.
#[derive(Clone, Copy, Debug, PartialEq, Eq, Structural)]
pub enum RelayState {
    /// The bus session is being established.
    Starting,
    /// Both sides are served.
    Running,
    /// The run is over; the session is being closed or is closed.
    Terminated,
}

/// Where exactly a relay stands.
#[derive(Clone, Copy, Debug, PartialEq, Eq, Structural)]
pub enum Phase {
    /// Starting: the connection is being opened.
    Connecting,
    /// Starting: the channel is being opened.
    OpeningChannel,
    /// Starting: the exchange is being declared.
    DeclaringExchange,
    /// Starting: the queue is being declared.
    DeclaringQueue,
    /// Starting: the queue is being bound.
    BindingQueue,
    /// Starting: the subscription is being opened.
    Subscribing,
    /// Running: armed on both sides, nothing in flight.
    Waiting,
    /// Running: a frame is being published.
    Publishing,
    /// Running: a delivery is being written to the local side.
    Forwarding,
    /// Terminated: the channel is being closed.
    ClosingChannel(Status),
    /// Terminated: the connection is being closed.
    ClosingConnection(Status),
    /// Terminated: nothing is left to do.
    Done(Status),
}

impl Phase {
    /// The state this phase belongs to.
    pub open spec fn spec_state(self) -> RelayState {
        match self {
            Phase::Connecting
            | Phase::OpeningChannel
            | Phase::DeclaringExchange
            | Phase::DeclaringQueue
            | Phase::BindingQueue
            | Phase::Subscribing => RelayState::Starting,
            Phase::Waiting | Phase::Publishing | Phase::Forwarding => RelayState::Running,
            Phase::ClosingChannel(_) | Phase::ClosingConnection(_) | Phase::Done(_) =>
                RelayState::Terminated,
        }
    }

    /// The state this phase belongs to.
    #[verifier::when_used_as_spec(spec_state)]
    pub fn state(self) -> (state: RelayState)
        ensures
            state == self.spec_state(),
    {
        match self {
            Phase::Connecting
            | Phase::OpeningChannel
            | Phase::DeclaringExchange
            | Phase::DeclaringQueue
            | Phase::BindingQueue
            | Phase::Subscribing => RelayState::Starting,
            Phase::Waiting | Phase::Publishing | Phase::Forwarding => RelayState::Running,
            Phase::ClosingChannel(_) | Phase::ClosingConnection(_) | Phase::Done(_) =>
                RelayState::Terminated,
        }
    }

    /// The status that ended the run, once it is over.
    pub open spec fn spec_status(self) -> Option<Status> {
        match self {
            Phase::ClosingChannel(status) => Some(status),
            Phase::ClosingConnection(status) => Some(status),
            Phase::Done(status) => Some(status),
            _ => None,
        }
    }

    /// The status that ended the run, once it is over.
    #[verifier::when_used_as_spec(spec_status)]
    pub fn status(self) -> (status: Option<Status>)
        ensures
            status == self.spec_status(),
    {
        match self {
            Phase::ClosingChannel(status) => Some(status),
            Phase::ClosingConnection(status) => Some(status),
            Phase::Done(status) => Some(status),
            _ => None,
        }
    }
}

/// What the caller reports to the relay.
#[derive(Clone, Debug)]
pub enum Event {
    /// The action in flight succeeded.
    Completed,
    /// The action in flight failed.
    Failed,
    /// The local source delivered these bytes.
    LocalBytes(Vec<u8>),
    /// The local source is closed.
    LocalClosed,
    /// The local source could not be read.
    LocalFailed,
    /// The subscription delivered a message with this payload.
    Delivery(Vec<u8>),
    /// The subscription, or its channel, is closed.
    BusClosed,
    /// The broker reported an error on the subscription.
    BusFailed,
}

/// What an [`Event`] stands for.
pub enum EventView {
    Completed,
    Failed,
    LocalBytes(Seq<u8>),
    LocalClosed,
    LocalFailed,
    Delivery(Seq<u8>),
    BusClosed,
    BusFailed,
}

impl View for Event {
    type V = EventView;

    open spec fn view(&self) -> EventView {
        match self {
            Event::Completed => EventView::Completed,
            Event::Failed => EventView::Failed,
            Event::LocalBytes(bytes) => EventView::LocalBytes(bytes@),
            Event::LocalClosed => EventView::LocalClosed,
            Event::LocalFailed => EventView::LocalFailed,
            Event::Delivery(payload) => EventView::Delivery(payload@),
            Event::BusClosed => EventView::BusClosed,
            Event::BusFailed => EventView::BusFailed,
        }
    }
}

impl EventView {
    /// Whether the event is the outcome of an action.
    pub open spec fn is_outcome(self) -> bool {
        self is Completed || self is Failed
    }

    /// The outcome of an action that succeeded, or did not.
    pub open spec fn outcome(succeeded: bool) -> EventView {
        if succeeded {
            EventView::Completed
        } else {
            EventView::Failed
        }
    }

    /// What a read of the local source amounts to: bytes, the end of the
    /// source when the read gave none, or a failure when there is no read.
    pub open spec fn local(read: Option<Seq<u8>>) -> EventView {
        match read {
            Some(bytes) => if bytes.len() == 0 {
                EventView::LocalClosed
            } else {
                EventView::LocalBytes(bytes)
            },
            None => EventView::LocalFailed,
        }
    }

    /// What the next item of the subscription amounts to: a delivery, an
    /// error of the broker, or the end of the subscription when there is none.
    pub open spec fn bus(next: Option<Option<Seq<u8>>>) -> EventView {
        match next {
            Some(Some(payload)) => EventView::Delivery(payload),
            Some(None) => EventView::BusFailed,
            None => EventView::BusClosed,
        }
    }
}

impl Event {
    /// The outcome of an action that succeeded, or did not.
    pub fn outcome(succeeded: bool) -> (event: Event)
        ensures
            event@ == EventView::outcome(succeeded),
    {
        if succeeded {
            Event::Completed
        } else {
            Event::Failed
        }
    }

    /// The event that a read of the local source amounts to: `Some` with
    /// the bytes read, where no bytes mean that the source is closed, and
    /// `None` for a read that failed.
    pub fn local(read: Option<Vec<u8>>) -> (event: Event)
        ensures
            event@ == EventView::local(
                match read {
                    Some(bytes) => Some(bytes@),
                    None => None,
                },
            ),
    {
        match read {
            Some(bytes) => if bytes.len() == 0 {
                Event::LocalClosed
            } else {
                Event::LocalBytes(bytes)
            },
            None => Event::LocalFailed,
        }
    }

    /// The event that the next item of the subscription amounts to: `None`
    /// when the subscription has ended, `Some(None)` for an error of the
    /// broker, `Some(Some(payload))` for a delivery.
    pub fn bus(next: Option<Option<Vec<u8>>>) -> (event: Event)
        ensures
            event@ == EventView::bus(
                match next {
                    Some(Some(payload)) => Some(Some(payload@)),
                    Some(None) => Some(None),
                    None => None,
                },
            ),
    {
        match next {
            Some(Some(payload)) => Event::Delivery(payload),
            Some(None) => Event::BusFailed,
            None => Event::BusClosed,
        }
    }
}

/// What the relay asks of the caller.
#[derive(Clone, Debug)]
pub enum Action {
    /// Open the connection to the broker at this address.
    Connect(String),
    /// Open the channel on the connection.
    OpenChannel,
    /// Declare the exchange.
    DeclareExchange(ExchangeDeclare),
    /// Declare the queue.
    DeclareQueue(QueueDeclare),
    /// Bind the queue to the exchange.
    BindQueue(QueueBind),
    /// Open the subscription on the queue.
    Subscribe(Consume),
    /// Wait for the next event of either side.
    Wait,
    /// Publish this message.
    Publish(Publish),
    /// Write these bytes, one frame, to the local sink.
    Write(Vec<u8>),
    /// Close the channel with this reply.
    CloseChannel(Shutdown),
    /// Close the connection with this reply.
    CloseConnection(Shutdown),
    /// Exit with this status.
    Exit(Status),
}

/// What an [`Action`] stands for.
pub enum ActionView {
    Connect(Seq<char>),
    OpenChannel,
    DeclareExchange(ExchangeDeclareView),
    DeclareQueue(QueueDeclareView),
    BindQueue(QueueBindView),
    Subscribe(ConsumeView),
    Wait,
    Publish(PublishView),
    Write(Seq<u8>),
    CloseChannel(ShutdownView),
    CloseConnection(ShutdownView),
    Exit(Status),
}

impl View for Action {
    type V = ActionView;

    open spec fn view(&self) -> ActionView {
        match self {
            Action::Connect(address) => ActionView::Connect(address@),
            Action::OpenChannel => ActionView::OpenChannel,
            Action::DeclareExchange(request) => ActionView::DeclareExchange(request@),
            Action::DeclareQueue(request) => ActionView::DeclareQueue(request@),
            Action::BindQueue(request) => ActionView::BindQueue(request@),
            Action::Subscribe(request) => ActionView::Subscribe(request@),
            Action::Wait => ActionView::Wait,
            Action::Publish(request) => ActionView::Publish(request@),
            Action::Write(bytes) => ActionView::Write(bytes@),
            Action::CloseChannel(reply) => ActionView::CloseChannel(reply@),
            Action::CloseConnection(reply) => ActionView::CloseConnection(reply@),
            Action::Exit(status) => ActionView::Exit(*status),
        }
    }
}

/// What a [`Relay`] stands for.
pub struct RelayView {
    /// The address of the broker.
    pub address: Seq<char>,
    /// The bus session.
    pub session: RabbitView,
    /// The byte order of the local frames.
    pub order: ByteOrder,
    /// The local bytes taken in and not yet published as frames.
    pub pending: Seq<u8>,
    /// Where the relay stands.
    pub phase: Phase,
}

impl RelayView {
    /// A relay that has taken in nothing and asks for its connection.
    pub open spec fn initial(
        address: Seq<char>,
        session: RabbitView,
        order: ByteOrder,
    ) -> RelayView {
        RelayView { address, session, order, pending: Seq::empty(), phase: Phase::Connecting }
    }

    /// The same relay in another phase.
    pub open spec fn at(self, phase: Phase) -> RelayView {
        RelayView { phase, ..self }
    }

    /// The step that ends the start with `error`: there is no session to
    /// close, so the relay is done at once.
    pub open spec fn give_up(self, error: BusError) -> (RelayView, ActionView) {
        (self.at(Phase::Done(Status::Bus(error))), ActionView::Exit(Status::Bus(error)))
    }

    /// The step that ends the run with `status`: the close of the session begins.
    pub open spec fn terminate(self, status: Status) -> (RelayView, ActionView) {
        (self.at(Phase::ClosingChannel(status)), ActionView::CloseChannel(shutdown_reply()))
    }

    /// The step that goes on with the run: the next complete frame among the
    /// pending bytes is published, and if there is none the relay waits.
    pub open spec fn resume(self) -> (RelayView, ActionView) {
        if has_frame(self.pending, self.order) {
            (
                RelayView {
                    pending: after_first(self.pending, self.order),
                    phase: Phase::Publishing,
                    ..self
                },
                ActionView::Publish(self.session.publish(first_payload(self.pending, self.order))),
            )
        } else {
            (self.at(Phase::Waiting), ActionView::Wait)
        }
    }

    /// Whether the relay takes `event` where it stands: the outcome of the
    /// action in flight, or, while it waits, an event of either side.
    pub open spec fn accepts(self, event: EventView) -> bool {
        match self.phase {
            Phase::Waiting => !event.is_outcome(),
            Phase::Done(_) => false,
            _ => event.is_outcome(),
        }
    }

    /// The relay after `event`, and what it asks for then. Meaningful for the
    /// events that the relay accepts.
    pub open spec fn step(self, event: EventView) -> (RelayView, ActionView) {
        match self.phase {
            Phase::Connecting => match event {
                EventView::Completed => (self.at(Phase::OpeningChannel), ActionView::OpenChannel),
                _ => self.give_up(BusError::ConnectFailed),
            },
            Phase::OpeningChannel => match event {
                EventView::Completed => (
                    self.at(Phase::DeclaringExchange),
                    ActionView::DeclareExchange(self.session.exchange_declare()),
                ),
                _ => self.give_up(BusError::ConnectFailed),
            },
            Phase::DeclaringExchange => match event {
                EventView::Completed => (
                    self.at(Phase::DeclaringQueue),
                    ActionView::DeclareQueue(self.session.queue_declare()),
                ),
                _ => self.give_up(BusError::TopologyFailed),
            },
            Phase::DeclaringQueue => match event {
                EventView::Completed => (
                    self.at(Phase::BindingQueue),
                    ActionView::BindQueue(self.session.queue_bind()),
                ),
                _ => self.give_up(BusError::TopologyFailed),
            },
            Phase::BindingQueue => match event {
                EventView::Completed => (
                    self.at(Phase::Subscribing),
                    ActionView::Subscribe(self.session.consume(self.session.queue)),
                ),
                _ => self.give_up(BusError::TopologyFailed),
            },
            Phase::Subscribing => match event {
                EventView::Completed => (self.at(Phase::Waiting), ActionView::Wait),
                _ => self.give_up(BusError::SubscribeFailed),
            },
            Phase::Waiting => match event {
                EventView::LocalBytes(bytes) => RelayView {
                    pending: self.pending + bytes,
                    ..self
                }.resume(),
                EventView::LocalClosed => self.terminate(
                    Status::Transport(end_signal(self.pending, self.order)),
                ),
                EventView::LocalFailed => self.terminate(
                    Status::Transport(TransportError::Truncated),
                ),
                EventView::Delivery(payload) => if payload.len() <= MAX_PAYLOAD {
                    (
                        self.at(Phase::Forwarding),
                        ActionView::Write(frame_bytes(payload, self.order)),
                    )
                } else {
                    self.terminate(Status::Transport(TransportError::WriteFailed))
                },
                EventView::BusClosed => self.terminate(Status::Bus(BusError::Closed)),
                _ => self.terminate(Status::Bus(BusError::DeliveryError)),
            },
            Phase::Publishing => match event {
                EventView::Completed => self.resume(),
                _ => self.terminate(Status::Bus(BusError::PublishFailed)),
            },
            Phase::Forwarding => match event {
                EventView::Completed => (self.at(Phase::Waiting), ActionView::Wait),
                _ => self.terminate(Status::Transport(TransportError::WriteFailed)),
            },
            Phase::ClosingChannel(status) => (
                self.at(Phase::ClosingConnection(status)),
                ActionView::CloseConnection(shutdown_reply()),
            ),
            Phase::ClosingConnection(status) => (
                self.at(Phase::Done(status)),
                ActionView::Exit(status),
            ),
            Phase::Done(status) => (self, ActionView::Exit(status)),
        }
    }
}

/// One relay: its configuration, the local bytes it holds, and where it stands.
#[derive(Debug)]
pub struct Relay {
    address: String,
    session: Rabbit,
    reader: FrameReader,
    phase: Phase,
}

impl View for Relay {
    type V = RelayView;

    closed spec fn view(&self) -> RelayView {
        RelayView {
            address: self.address@,
            session: self.session@,
            order: self.reader@.order,
            pending: self.reader@.pending,
            phase: self.phase,
        }
    }
}

impl Relay {
    /// Starts a relay for the broker at `address`, on `session`, whose local
    /// frames have their length in `order`. The first thing it asks for is
    /// the connection.
    pub fn start(address: String, session: Rabbit, order: ByteOrder) -> (started: (Relay, Action))
        ensures
            started.0@ == RelayView::initial(address@, session@, order),
            started.1@ == ActionView::Connect(address@),
    {
        let first = Action::Connect(address.clone());
        let relay = Relay {
            address,
            session,
            reader: FrameReader::new(order),
            phase: Phase::Connecting,
        };
        (relay, first)
    }

    /// Where the relay stands.
    pub fn phase(&self) -> (phase: Phase)
        ensures
            phase == self@.phase,
    {
        self.phase
    }

    /// The state of the relay.
    pub fn state(&self) -> (state: RelayState)
        ensures
            state == self@.phase.spec_state(),
    {
        self.phase.state()
    }

    /// The status that ended the run, once it is over.
    pub fn status(&self) -> (status: Option<Status>)
        ensures
            status == self@.phase.spec_status(),
    {
        self.phase.status()
    }

    /// Whether the relay takes `event` where it stands.
    pub fn accepts(&self, event: &Event) -> (taken: bool)
        ensures
            taken == self@.accepts(event@),
    {
        let outcome = match event {
            Event::Completed => true,
            Event::Failed => true,
            _ => false,
        };
        match self.phase {
            Phase::Waiting => !outcome,
            Phase::Done(_) => false,
            _ => outcome,
        }
    }

    fn give_up(&mut self, error: BusError) -> (action: Action)
        ensures
            final(self)@ == old(self)@.give_up(error).0,
            action@ == old(self)@.give_up(error).1,
    {
        self.phase = Phase::Done(Status::Bus(error));
        Action::Exit(Status::Bus(error))
    }

    fn terminate(&mut self, status: Status) -> (action: Action)
        ensures
            final(self)@ == old(self)@.terminate(status).0,
            action@ == old(self)@.terminate(status).1,
    {
        self.phase = Phase::ClosingChannel(status);
        Action::CloseChannel(Rabbit::shutdown())
    }

    fn resume(&mut self) -> (action: Action)
        ensures
            final(self)@ == old(self)@.resume().0,
            action@ == old(self)@.resume().1,
    {
        match self.reader.next_frame() {
            Some(payload) => {
                self.phase = Phase::Publishing;
                Action::Publish(self.session.publish(payload))
            },
            None => {
                self.phase = Phase::Waiting;
                Action::Wait
            },
        }
    }

    fn go_on(&mut self, phase: Phase, action: Action) -> (asked: Action)
        ensures
            final(self)@ == old(self)@.at(phase),
            asked == action,
    {
        self.phase = phase;
        action
    }

    /// Takes `event` and answers with what to do next.
    ///
    /// An event that the relay does not accept where it stands changes
    /// nothing and is answered with `None`.
    pub fn step(&mut self, event: Event) -> (action: Option<Action>)
        ensures
            match action {
                Some(asked) => {
                    &&& old(self)@.accepts(event@)
                    &&& final(self)@ == old(self)@.step(event@).0
                    &&& asked@ == old(self)@.step(event@).1
                },
                None => !old(self)@.accepts(event@) && final(self)@ == old(self)@,
            },
    {
        if !self.accepts(&event) {
            return None;
        }
        let failed = match event {
            Event::Failed => true,
            _ => false,
        };
        let action = match self.phase {
            Phase::Connecting => if failed {
                self.give_up(BusError::ConnectFailed)
            } else {
                self.go_on(Phase::OpeningChannel, Action::OpenChannel)
            },
            Phase::OpeningChannel => if failed {
                self.give_up(BusError::ConnectFailed)
            } else {
                let request = self.session.exchange_declare();
                self.go_on(Phase::DeclaringExchange, Action::DeclareExchange(request))
            },
            Phase::DeclaringExchange => if failed {
                self.give_up(BusError::TopologyFailed)
            } else {
                let request = self.session.queue_declare();
                self.go_on(Phase::DeclaringQueue, Action::DeclareQueue(request))
            },
            Phase::DeclaringQueue => if failed {
                self.give_up(BusError::TopologyFailed)
            } else {
                let request = self.session.queue_bind();
                self.go_on(Phase::BindingQueue, Action::BindQueue(request))
            },
            Phase::BindingQueue => if failed {
                self.give_up(BusError::TopologyFailed)
            } else {
                let request = self.session.get_consumer(self.session.queue_name());
                self.go_on(Phase::Subscribing, Action::Subscribe(request))
            },
            Phase::Subscribing => if failed {
                self.give_up(BusError::SubscribeFailed)
            } else {
                self.go_on(Phase::Waiting, Action::Wait)
            },
            Phase::Waiting => match event {
                Event::LocalBytes(bytes) => {
                    self.reader.feed(bytes.as_slice());
                    self.resume()
                },
                Event::LocalClosed => {
                    let signal = self.reader.finish();
                    self.terminate(Status::Transport(signal))
                },
                Event::LocalFailed => self.terminate(Status::Transport(TransportError::Truncated)),
                Event::Delivery(payload) => match encode_frame(
                    payload.as_slice(),
                    self.reader.order(),
                ) {
                    Ok(bytes) => self.go_on(Phase::Forwarding, Action::Write(bytes)),
                    Err(error) => self.terminate(Status::Transport(error)),
                },
                Event::BusClosed => self.terminate(Status::Bus(BusError::Closed)),
                _ => self.terminate(Status::Bus(BusError::DeliveryError)),
            },
            Phase::Publishing => if failed {
                self.terminate(Status::Bus(BusError::PublishFailed))
            } else {
                self.resume()
            },
            Phase::Forwarding => if failed {
                self.terminate(Status::Transport(TransportError::WriteFailed))
            } else {
                self.go_on(Phase::Waiting, Action::Wait)
            },
            Phase::ClosingChannel(status) => self.go_on(
                Phase::ClosingConnection(status),
                Action::CloseConnection(Rabbit::shutdown()),
            ),
            Phase::ClosingConnection(status) => self.go_on(
                Phase::Done(status),
                Action::Exit(status),
            ),
            Phase::Done(status) => Action::Exit(status),
        };
        Some(action)
    }
}

} // verus!
