use rabbit_relay::error::{BusError, Status, TransportError};
use rabbit_relay::frame::{encode_frame, ByteOrder};
use rabbit_relay::relay::{Action, Event, Phase, Relay, RelayState};
use rabbit_relay::session::{ExchangeKind, Rabbit};

fn fresh(order: ByteOrder) -> (Relay, Action) {
    Relay::start(
        "amqp://127.0.0.1:5672/%2f".to_string(),
        Rabbit::new("chrome-ext", "abc-123"),
        order,
    )
}

fn take(relay: &mut Relay, event: Event) -> Action {
    relay.step(event).expect("the relay accepts the event")
}

fn running(order: ByteOrder) -> Relay {
    let (mut relay, _) = fresh(order);
    for _ in 0..6 {
        take(&mut relay, Event::Completed);
    }
    assert_eq!(relay.phase(), Phase::Waiting);
    relay
}

fn publishing(order: ByteOrder) -> Relay {
    let mut relay = running(order);
    let action = take(&mut relay, Event::LocalBytes(encode_frame(b"x", order).unwrap()));
    assert!(matches!(action, Action::Publish(_)));
    relay
}

fn forwarding(order: ByteOrder) -> Relay {
    let mut relay = running(order);
    let action = take(&mut relay, Event::Delivery(b"x".to_vec()));
    assert!(matches!(action, Action::Write(_)));
    relay
}

fn payload_published(action: &Action) -> Vec<u8> {
    match action {
        Action::Publish(request) => request.payload.clone(),
        other => panic!("expected a publish, got {:?}", other),
    }
}

fn bytes_written(action: &Action) -> Vec<u8> {
    match action {
        Action::Write(bytes) => bytes.clone(),
        other => panic!("expected a write, got {:?}", other),
    }
}

fn status_of_exit(action: &Action) -> Status {
    match action {
        Action::Exit(status) => *status,
        other => panic!("expected an exit, got {:?}", other),
    }
}

fn assert_closes_channel(action: &Action) {
    match action {
        Action::CloseChannel(reply) => {
            assert_eq!(reply.code, 200);
            assert_eq!(reply.text, "client shut down");
        }
        other => panic!("expected the close of the channel, got {:?}", other),
    }
}

fn assert_closes_connection(action: &Action) {
    match action {
        Action::CloseConnection(reply) => {
            assert_eq!(reply.code, 200);
            assert_eq!(reply.text, "client shut down");
        }
        other => panic!("expected the close of the connection, got {:?}", other),
    }
}

fn all_events() -> Vec<Event> {
    vec![
        Event::Completed,
        Event::Failed,
        Event::LocalBytes(vec![1, 0, 0, 0, 9]),
        Event::LocalClosed,
        Event::LocalFailed,
        Event::Delivery(b"late".to_vec()),
        Event::BusClosed,
        Event::BusFailed,
    ]
}

/// Drives a relay that has begun to close to its end and returns the status
/// it exits with; `first_close_ok` and `second_close_ok` say how the two
/// close requests turn out.
fn close_out(relay: &mut Relay, status: Status, first_close_ok: bool, second_close_ok: bool) {
    assert_eq!(relay.phase(), Phase::ClosingChannel(status));
    assert_eq!(relay.state(), RelayState::Terminated);
    assert_eq!(relay.status(), Some(status));
    let outcome = |ok: bool| if ok { Event::Completed } else { Event::Failed };
    let action = take(relay, outcome(first_close_ok));
    assert_closes_connection(&action);
    assert_eq!(relay.phase(), Phase::ClosingConnection(status));
    let action = take(relay, outcome(second_close_ok));
    assert_eq!(status_of_exit(&action), status);
    assert_eq!(relay.phase(), Phase::Done(status));
    for event in all_events() {
        assert!(relay.step(event).is_none());
        assert_eq!(relay.phase(), Phase::Done(status));
    }
}

#[test]
fn start_asks_for_the_connection() {
    let (relay, first) = fresh(ByteOrder::LittleEndian);
    assert!(matches!(&first, Action::Connect(address) if address == "amqp://127.0.0.1:5672/%2f"));
    assert_eq!(relay.phase(), Phase::Connecting);
    assert_eq!(relay.state(), RelayState::Starting);
    assert_eq!(relay.status(), None);
}

#[test]
fn startup_runs_step_by_step() {
    let (mut relay, _) = fresh(ByteOrder::LittleEndian);

    assert!(matches!(take(&mut relay, Event::Completed), Action::OpenChannel));
    assert_eq!(relay.phase(), Phase::OpeningChannel);

    match take(&mut relay, Event::Completed) {
        Action::DeclareExchange(request) => {
            assert_eq!(request.name, "chrome-ext");
            assert_eq!(request.kind, ExchangeKind::Headers);
            assert!(!request.durable);
            assert!(request.auto_delete);
        }
        other => panic!("unexpected {:?}", other),
    }
    assert_eq!(relay.phase(), Phase::DeclaringExchange);

    match take(&mut relay, Event::Completed) {
        Action::DeclareQueue(request) => {
            assert_eq!(request.name, "abc-123");
            assert!(request.exclusive);
            assert!(request.auto_delete);
            assert!(!request.durable);
        }
        other => panic!("unexpected {:?}", other),
    }
    assert_eq!(relay.phase(), Phase::DeclaringQueue);

    match take(&mut relay, Event::Completed) {
        Action::BindQueue(request) => {
            assert_eq!(request.queue, "abc-123");
            assert_eq!(request.exchange, "chrome-ext");
            assert_eq!(request.routing_key, "");
            assert_eq!(request.service, "chrome-ext");
            assert_eq!(request.id, "abc-123");
        }
        other => panic!("unexpected {:?}", other),
    }
    assert_eq!(relay.phase(), Phase::BindingQueue);

    match take(&mut relay, Event::Completed) {
        Action::Subscribe(request) => {
            assert_eq!(request.queue, "abc-123");
            assert_eq!(request.tag, "abc-123");
        }
        other => panic!("unexpected {:?}", other),
    }
    assert_eq!(relay.phase(), Phase::Subscribing);
    assert_eq!(relay.state(), RelayState::Starting);

    assert!(matches!(take(&mut relay, Event::Completed), Action::Wait));
    assert_eq!(relay.phase(), Phase::Waiting);
    assert_eq!(relay.state(), RelayState::Running);
    assert_eq!(relay.status(), None);
}

#[test]
fn starting_relay_takes_only_outcomes() {
    let (mut relay, _) = fresh(ByteOrder::LittleEndian);
    for steps in 0..6 {
        for event in all_events() {
            let outcome = matches!(event, Event::Completed | Event::Failed);
            assert_eq!(relay.accepts(&event), outcome);
            if !outcome {
                let before = relay.phase();
                assert!(relay.step(event).is_none());
                assert_eq!(relay.phase(), before);
            }
        }
        take(&mut relay, Event::Completed);
        assert_eq!(relay.state() == RelayState::Starting, steps < 5);
    }
}

fn startup_failure_after(steps: usize) -> (Relay, Action) {
    let (mut relay, _) = fresh(ByteOrder::LittleEndian);
    for _ in 0..steps {
        take(&mut relay, Event::Completed);
    }
    let action = take(&mut relay, Event::Failed);
    (relay, action)
}

fn assert_startup_failure(steps: usize, error: BusError) {
    let (mut relay, action) = startup_failure_after(steps);
    assert_eq!(status_of_exit(&action), Status::Bus(error));
    assert_eq!(relay.phase(), Phase::Done(Status::Bus(error)));
    assert_eq!(relay.state(), RelayState::Terminated);
    assert_eq!(relay.status(), Some(Status::Bus(error)));
    for event in all_events() {
        assert!(!relay.accepts(&event));
        assert!(relay.step(event).is_none());
    }
    assert_eq!(relay.phase(), Phase::Done(Status::Bus(error)));
}

#[test]
fn failed_connection_is_connect_failed() {
    assert_startup_failure(0, BusError::ConnectFailed);
}

#[test]
fn failed_channel_is_connect_failed() {
    assert_startup_failure(1, BusError::ConnectFailed);
}

#[test]
fn failed_exchange_is_topology_failed() {
    assert_startup_failure(2, BusError::TopologyFailed);
}

#[test]
fn failed_queue_is_topology_failed_and_nothing_follows() {
    let (mut relay, _) = fresh(ByteOrder::LittleEndian);
    let mut asked = Vec::new();
    for _ in 0..3 {
        asked.push(take(&mut relay, Event::Completed));
    }
    assert!(matches!(asked[2], Action::DeclareQueue(_)));
    let action = take(&mut relay, Event::Failed);
    assert_eq!(status_of_exit(&action), Status::Bus(BusError::TopologyFailed));
    for action in &asked {
        assert!(!matches!(
            action,
            Action::Subscribe(_) | Action::Publish(_) | Action::Wait | Action::Write(_)
        ));
    }
    for event in all_events() {
        assert!(relay.step(event).is_none());
    }
    assert_eq!(relay.phase(), Phase::Done(Status::Bus(BusError::TopologyFailed)));
}

#[test]
fn failed_binding_is_topology_failed() {
    assert_startup_failure(4, BusError::TopologyFailed);
}

#[test]
fn failed_subscription_is_subscribe_failed() {
    assert_startup_failure(5, BusError::SubscribeFailed);
}

#[test]
fn frame_from_the_local_side_is_published() {
    let mut relay = running(ByteOrder::LittleEndian);
    let frame = encode_frame(b"hello world", ByteOrder::LittleEndian).unwrap();
    match take(&mut relay, Event::LocalBytes(frame)) {
        Action::Publish(request) => {
            assert_eq!(request.payload, b"hello world".to_vec());
            assert_eq!(request.payload.len(), 11);
            assert_eq!(request.from_id, "abc-123");
            assert_eq!(request.exchange, "chrome-ext");
            assert_eq!(request.routing_key, "");
        }
        other => panic!("unexpected {:?}", other),
    }
    assert_eq!(relay.phase(), Phase::Publishing);
    assert!(matches!(take(&mut relay, Event::Completed), Action::Wait));
    assert_eq!(relay.phase(), Phase::Waiting);
}

#[test]
fn delivery_is_written_as_one_frame() {
    let mut relay = running(ByteOrder::BigEndian);
    let action = take(&mut relay, Event::Delivery(b"ack".to_vec()));
    assert_eq!(bytes_written(&action), vec![0x00, 0x00, 0x00, 0x03, 0x61, 0x63, 0x6b]);
    assert_eq!(relay.phase(), Phase::Forwarding);
    assert!(matches!(take(&mut relay, Event::Completed), Action::Wait));
    assert_eq!(relay.phase(), Phase::Waiting);
}

#[test]
fn delivery_is_written_in_the_order_of_the_relay() {
    let mut relay = running(ByteOrder::LittleEndian);
    let action = take(&mut relay, Event::Delivery(b"ack".to_vec()));
    assert_eq!(bytes_written(&action), vec![0x03, 0x00, 0x00, 0x00, 0x61, 0x63, 0x6b]);
}

#[test]
fn hello_world_then_ack() {
    let mut relay = running(ByteOrder::BigEndian);
    let mut frame = vec![0, 0, 0, 11];
    frame.extend_from_slice(b"hello world");
    let mut asked = vec![take(&mut relay, Event::LocalBytes(frame))];
    asked.push(take(&mut relay, Event::Completed));
    asked.push(take(&mut relay, Event::Delivery(b"ack".to_vec())));
    asked.push(take(&mut relay, Event::Completed));

    let publishes: Vec<&Action> =
        asked.iter().filter(|action| matches!(action, Action::Publish(_))).collect();
    assert_eq!(publishes.len(), 1);
    match publishes[0] {
        Action::Publish(request) => {
            assert_eq!(request.payload, b"hello world".to_vec());
            assert_eq!(request.from_id, "abc-123");
        }
        _ => unreachable!(),
    }
    let writes: Vec<&Action> =
        asked.iter().filter(|action| matches!(action, Action::Write(_))).collect();
    assert_eq!(writes.len(), 1);
    assert_eq!(bytes_written(writes[0]), vec![0x00, 0x00, 0x00, 0x03, 0x61, 0x63, 0x6b]);
    assert_eq!(relay.phase(), Phase::Waiting);
}

#[test]
fn empty_frame_is_published_empty() {
    let mut relay = running(ByteOrder::LittleEndian);
    let action = take(&mut relay, Event::LocalBytes(vec![0, 0, 0, 0]));
    assert_eq!(payload_published(&action), Vec::<u8>::new());
}

#[test]
fn empty_delivery_is_written_as_a_bare_prefix() {
    let mut relay = running(ByteOrder::LittleEndian);
    let action = take(&mut relay, Event::Delivery(Vec::new()));
    assert_eq!(bytes_written(&action), vec![0, 0, 0, 0]);
}

#[test]
fn frame_split_over_reads_is_published_once_whole() {
    let mut relay = running(ByteOrder::LittleEndian);
    let frame = encode_frame(b"hello world", ByteOrder::LittleEndian).unwrap();
    assert!(matches!(take(&mut relay, Event::LocalBytes(frame[..2].to_vec())), Action::Wait));
    assert!(matches!(take(&mut relay, Event::LocalBytes(frame[2..9].to_vec())), Action::Wait));
    assert!(matches!(take(&mut relay, Event::LocalBytes(Vec::new())), Action::Wait));
    assert_eq!(relay.phase(), Phase::Waiting);
    let action = take(&mut relay, Event::LocalBytes(frame[9..].to_vec()));
    assert_eq!(payload_published(&action), b"hello world".to_vec());
}

#[test]
fn frames_of_one_read_are_published_in_order() {
    let order = ByteOrder::LittleEndian;
    let mut relay = running(order);
    let mut bytes = encode_frame(b"F1", order).unwrap();
    bytes.extend(encode_frame(b"F2", order).unwrap());
    bytes.extend(encode_frame(b"F3", order).unwrap());
    bytes.extend([9, 0]);
    let first = take(&mut relay, Event::LocalBytes(bytes));
    assert_eq!(payload_published(&first), b"F1".to_vec());
    assert!(relay.step(Event::Delivery(b"early".to_vec())).is_none());
    let second = take(&mut relay, Event::Completed);
    assert_eq!(payload_published(&second), b"F2".to_vec());
    let third = take(&mut relay, Event::Completed);
    assert_eq!(payload_published(&third), b"F3".to_vec());
    assert!(matches!(take(&mut relay, Event::Completed), Action::Wait));
    assert_eq!(relay.phase(), Phase::Waiting);
    let closing = take(&mut relay, Event::LocalClosed);
    assert_closes_channel(&closing);
    assert_eq!(relay.status(), Some(Status::Transport(TransportError::Truncated)));
}

#[test]
fn deliveries_are_written_in_order() {
    let order = ByteOrder::LittleEndian;
    let mut relay = running(order);
    let first = take(&mut relay, Event::Delivery(b"D1".to_vec()));
    assert_eq!(bytes_written(&first), encode_frame(b"D1", order).unwrap());
    assert!(relay.step(Event::Delivery(b"early".to_vec())).is_none());
    assert!(matches!(take(&mut relay, Event::Completed), Action::Wait));
    let second = take(&mut relay, Event::Delivery(b"D2".to_vec()));
    assert_eq!(bytes_written(&second), encode_frame(b"D2", order).unwrap());
}

#[test]
fn waiting_relay_takes_only_events_of_the_sides() {
    let mut relay = running(ByteOrder::LittleEndian);
    assert!(!relay.accepts(&Event::Completed));
    assert!(!relay.accepts(&Event::Failed));
    assert!(relay.step(Event::Completed).is_none());
    assert!(relay.step(Event::Failed).is_none());
    assert_eq!(relay.phase(), Phase::Waiting);
    for event in all_events() {
        let outcome = matches!(event, Event::Completed | Event::Failed);
        assert_eq!(relay.accepts(&event), !outcome);
    }
}

#[test]
fn local_close_on_a_boundary_ends_cleanly() {
    let mut relay = running(ByteOrder::LittleEndian);
    let action = take(&mut relay, Event::LocalClosed);
    assert_closes_channel(&action);
    let status = Status::Transport(TransportError::Closed);
    close_out(&mut relay, status, true, true);
    assert!(!status.is_fault());
    assert_eq!(status.exit_code(), 0);
}

#[test]
fn local_close_inside_a_frame_is_truncated() {
    let mut relay = running(ByteOrder::LittleEndian);
    assert!(matches!(take(&mut relay, Event::LocalBytes(vec![5, 0, 0, 0, 1])), Action::Wait));
    let action = take(&mut relay, Event::LocalClosed);
    assert_closes_channel(&action);
    let status = Status::Transport(TransportError::Truncated);
    close_out(&mut relay, status, true, true);
    assert!(status.is_fault());
    assert_eq!(status.exit_code(), 1);
}

#[test]
fn local_read_failure_is_fatal() {
    let mut relay = running(ByteOrder::LittleEndian);
    let action = take(&mut relay, Event::LocalFailed);
    assert_closes_channel(&action);
    close_out(&mut relay, Status::Transport(TransportError::Truncated), false, true);
}

#[test]
fn bus_close_ends_cleanly() {
    let mut relay = running(ByteOrder::LittleEndian);
    let action = take(&mut relay, Event::BusClosed);
    assert_closes_channel(&action);
    let status = Status::Bus(BusError::Closed);
    close_out(&mut relay, status, true, false);
    assert!(!status.is_fault());
    assert_eq!(status.exit_code(), 0);
}

#[test]
fn bus_delivery_error_is_fatal() {
    let mut relay = running(ByteOrder::LittleEndian);
    let action = take(&mut relay, Event::BusFailed);
    assert_closes_channel(&action);
    close_out(&mut relay, Status::Bus(BusError::DeliveryError), false, false);
}

#[test]
fn publish_failure_is_fatal() {
    let order = ByteOrder::LittleEndian;
    let mut relay = running(order);
    let mut bytes = encode_frame(b"F1", order).unwrap();
    bytes.extend(encode_frame(b"F2", order).unwrap());
    let first = take(&mut relay, Event::LocalBytes(bytes));
    assert_eq!(payload_published(&first), b"F1".to_vec());
    let action = take(&mut relay, Event::Failed);
    assert_closes_channel(&action);
    assert_eq!(relay.status(), Some(Status::Bus(BusError::PublishFailed)));
    for event in all_events() {
        if !matches!(event, Event::Completed | Event::Failed) {
            assert!(relay.step(event).is_none());
        }
    }
    close_out(&mut relay, Status::Bus(BusError::PublishFailed), true, true);
}

#[test]
fn write_failure_is_fatal() {
    let mut relay = forwarding(ByteOrder::LittleEndian);
    let action = take(&mut relay, Event::Failed);
    assert_closes_channel(&action);
    close_out(&mut relay, Status::Transport(TransportError::WriteFailed), true, true);
}

#[test]
fn session_is_closed_once_however_the_closes_turn_out() {
    for first_close_ok in [true, false] {
        for second_close_ok in [true, false] {
            let mut relay = publishing(ByteOrder::LittleEndian);
            let mut asked = vec![take(&mut relay, Event::Failed)];
            let outcome = |ok: bool| if ok { Event::Completed } else { Event::Failed };
            asked.push(take(&mut relay, outcome(first_close_ok)));
            asked.push(take(&mut relay, outcome(second_close_ok)));
            for event in all_events() {
                assert!(relay.step(event).is_none());
            }
            let channel = asked.iter().filter(|a| matches!(a, Action::CloseChannel(_))).count();
            let connection =
                asked.iter().filter(|a| matches!(a, Action::CloseConnection(_))).count();
            assert_eq!(channel, 1);
            assert_eq!(connection, 1);
            assert!(matches!(asked[0], Action::CloseChannel(_)));
            assert!(matches!(asked[1], Action::CloseConnection(_)));
            assert_eq!(status_of_exit(&asked[2]), Status::Bus(BusError::PublishFailed));
        }
    }
}

#[test]
fn action_in_flight_shuts_out_the_sides() {
    for mut relay in [publishing(ByteOrder::BigEndian), forwarding(ByteOrder::BigEndian)] {
        let before = relay.phase();
        for event in all_events() {
            if !matches!(event, Event::Completed | Event::Failed) {
                assert!(!relay.accepts(&event));
                assert!(relay.step(event).is_none());
                assert_eq!(relay.phase(), before);
            }
        }
    }
}

#[test]
fn phases_belong_to_three_states() {
    let starting = [
        Phase::Connecting,
        Phase::OpeningChannel,
        Phase::DeclaringExchange,
        Phase::DeclaringQueue,
        Phase::BindingQueue,
        Phase::Subscribing,
    ];
    for phase in starting {
        assert_eq!(phase.state(), RelayState::Starting);
        assert_eq!(phase.status(), None);
    }
    for phase in [Phase::Waiting, Phase::Publishing, Phase::Forwarding] {
        assert_eq!(phase.state(), RelayState::Running);
        assert_eq!(phase.status(), None);
    }
    let status = Status::Bus(BusError::Closed);
    let over = [Phase::ClosingChannel(status), Phase::ClosingConnection(status), Phase::Done(status)];
    for phase in over {
        assert_eq!(phase.state(), RelayState::Terminated);
        assert_eq!(phase.status(), Some(status));
    }
}

#[test]
fn statuses_tell_faults_from_closed_peers() {
    let clean = [Status::Transport(TransportError::Closed), Status::Bus(BusError::Closed)];
    for status in clean {
        assert!(!status.is_fault());
        assert_eq!(status.exit_code(), 0);
    }
    let faults = [
        Status::Transport(TransportError::Truncated),
        Status::Transport(TransportError::WriteFailed),
        Status::Bus(BusError::ConnectFailed),
        Status::Bus(BusError::TopologyFailed),
        Status::Bus(BusError::SubscribeFailed),
        Status::Bus(BusError::PublishFailed),
        Status::Bus(BusError::DeliveryError),
    ];
    for status in faults {
        assert!(status.is_fault());
        assert_eq!(status.exit_code(), 1);
    }
}

#[test]
fn startup_statuses_are_the_three_of_the_start() {
    assert!(BusError::ConnectFailed.is_startup());
    assert!(BusError::TopologyFailed.is_startup());
    assert!(BusError::SubscribeFailed.is_startup());
    assert!(!BusError::PublishFailed.is_startup());
    assert!(!BusError::DeliveryError.is_startup());
    assert!(!BusError::Closed.is_startup());
    assert!(Status::Bus(BusError::TopologyFailed).is_startup());
    assert!(!Status::Bus(BusError::Closed).is_startup());
    assert!(!Status::Transport(TransportError::Truncated).is_startup());
    assert!(BusError::PublishFailed.is_fault());
    assert!(!BusError::Closed.is_fault());
}

#[test]
fn statuses_have_their_lines() {
    let lines = [
        (Status::Transport(TransportError::Truncated), "Error reading from browser"),
        (Status::Transport(TransportError::WriteFailed), "Error sending to browser"),
        (Status::Transport(TransportError::Closed), "browser input stream closed"),
        (Status::Bus(BusError::ConnectFailed), "Failed to initialize rabbit"),
        (Status::Bus(BusError::TopologyFailed), "Failed to initialize rabbit"),
        (Status::Bus(BusError::SubscribeFailed), "Failed to create rabbit consumer"),
        (Status::Bus(BusError::PublishFailed), "Error publishing to rabbit"),
        (Status::Bus(BusError::DeliveryError), "Rabbit error"),
        (Status::Bus(BusError::Closed), "Rabbit connection was dropped"),
    ];
    for (status, line) in lines {
        assert_eq!(status.message(), line);
    }
}

#[test]
fn outcome_of_an_action() {
    assert!(matches!(Event::outcome(true), Event::Completed));
    assert!(matches!(Event::outcome(false), Event::Failed));
}

#[test]
fn read_of_the_local_source() {
    assert!(matches!(
        Event::local(Some(vec![1, 2])),
        Event::LocalBytes(bytes) if bytes == vec![1, 2]
    ));
    assert!(matches!(Event::local(Some(Vec::new())), Event::LocalClosed));
    assert!(matches!(Event::local(None), Event::LocalFailed));
}

#[test]
fn item_of_the_subscription() {
    assert!(matches!(
        Event::bus(Some(Some(b"ack".to_vec()))),
        Event::Delivery(payload) if payload == b"ack".to_vec()
    ));
    assert!(matches!(
        Event::bus(Some(Some(Vec::new()))),
        Event::Delivery(payload) if payload.is_empty()
    ));
    assert!(matches!(Event::bus(Some(None)), Event::BusFailed));
    assert!(matches!(Event::bus(None), Event::BusClosed));
}
