use futureterm::actors::port_actor::actor::{last_failure, PortActor};
use futureterm::actors::port_actor::read_loop::{ReadLoop, ReadOutcome};
use futureterm::actors::port_actor::turn::{
    AfterNotice, Opening, PortEffect, PortNext, PortTurn,
};
use futureterm::protocol::errors::ActorError;
use futureterm::protocol::messages::{SerialPortInfo, SystemEvent};
use futureterm::runtime::channels::{PortHandle, PortMessage, StateMessage};
use futureterm::transport::TransportError;

/// A port actor together with all that it has asked for.
struct World {
    actor: PortActor,
    state: Vec<StateMessage>,
    events: Vec<SystemEvent>,
    waits: Vec<u64>,
    woken: Vec<Vec<u8>>,
    written: Vec<Vec<u8>>,
    tried: u32,
    outcomes: Vec<Result<(), TransportError>>,
    delivered: bool,
}

impl World {
    fn new() -> World {
        World {
            actor: PortActor::new(),
            state: Vec::new(),
            events: Vec::new(),
            waits: Vec::new(),
            woken: Vec::new(),
            written: Vec::new(),
            tried: 0,
            outcomes: Vec::new(),
            delivered: true,
        }
    }

    fn run(&mut self, turn: PortTurn) -> Result<(), ActorError> {
        let mut turn = turn;
        loop {
            for effect in turn.effects {
                match effect {
                    PortEffect::Event(e) => self.events.push(e),
                    PortEffect::Delay { millis } => self.waits.push(millis),
                    PortEffect::AwaitReader { millis } => self.waits.push(millis),
                    PortEffect::Wake { data } => self.woken.push(data),
                    PortEffect::StartReading { .. }
                    | PortEffect::StopReading
                    | PortEffect::Release => {}
                }
            }
            turn = match turn.next {
                PortNext::Finished(r) => return r,
                PortNext::TryOpen(opening) => {
                    self.tried += 1;
                    let outcome =
                        if self.outcomes.is_empty() { Ok(()) } else { self.outcomes.remove(0) };
                    self.actor.opened(opening, outcome, 0)
                }
                PortNext::WriteOut { data } => {
                    self.written.push(data);
                    self.actor.written(Ok(()))
                }
                PortNext::Notify { msg, then } => {
                    if self.delivered {
                        self.state.push(msg);
                    }
                    self.actor.notified(then, self.delivered)
                }
            };
        }
    }

    fn open(&mut self, wake: bool) -> Result<(), ActorError> {
        let port = SerialPortInfo::new("/dev/ttyUSB0".into(), None, None);
        let handle = Some(PortHandle { id: 1, vid: None, pid: None });
        let turn = self.actor.handle_open(port, 115200, "8N1".into(), wake, 4, handle);
        self.run(turn)
    }

    fn close(&mut self) -> Result<(), ActorError> {
        let turn = self.actor.handle_close();
        self.run(turn)
    }
}

#[test]
fn a_new_port_actor_has_no_port() {
    assert!(PortActor::new().active_port.is_none());
    assert_eq!(PortActor::new().name(), "PortActor");
}

#[test]
fn test_open_port_success() {
    let mut world = World::new();
    world.open(false).unwrap();

    // Port should be marked as open
    assert_eq!(world.actor.active_port, Some("/dev/ttyUSB0".to_string()));

    // Should notify StateActor
    match &world.state[0] {
        StateMessage::ConnectionEstablished { operation_id } => assert_eq!(*operation_id, 4),
        _ => panic!("Wrong message"),
    }

    // Should emit status event
    match &world.events[0] {
        SystemEvent::StatusUpdate { message } => {
            assert!(message.contains("Connected"));
            assert!(message.contains("115200"));
            assert_eq!(message, "Connected to /dev/ttyUSB0 @ 115200 baud");
        }
        _ => panic!("Wrong event"),
    }
    assert!(world.woken.is_empty());
}

#[test]
fn a_wake_up_is_sent_after_a_pause() {
    let mut world = World::new();
    world.open(true).unwrap();
    assert_eq!(world.waits, vec![100]);
    assert_eq!(world.woken, vec![b"\r".to_vec()]);
}

#[test]
fn test_close_port() {
    let mut world = World::new();

    // Simulate open port
    world.actor.active_port = Some("/dev/ttyUSB0".to_string());

    world.close().unwrap();

    // Port should be closed
    assert!(world.actor.active_port.is_none());

    // Should emit close event
    match &world.events[0] {
        SystemEvent::StatusUpdate { message } => {
            assert_eq!(message, "Port closed");
        }
        _ => panic!("Wrong event"),
    }
}

#[test]
fn test_write_when_open() {
    let mut world = World::new();
    world.open(false).unwrap();
    world.events.clear();

    let turn = world.actor.handle_write(vec![1, 2, 3]);
    world.run(turn).unwrap();
    assert_eq!(world.written, vec![vec![1, 2, 3]]);

    // Should emit TX activity
    match &world.events[0] {
        SystemEvent::TxActivity => {}
        _ => panic!("Wrong event"),
    }
}

#[test]
fn test_write_when_closed_returns_ok() {
    let mut world = World::new();
    let turn = world.actor.handle_write(vec![1, 2, 3]);
    let result = world.run(turn);
    assert!(result.is_ok());
    assert!(world.written.is_empty());
}

#[test]
fn a_failed_write_is_an_error() {
    let turn = PortActor::new().written(Err(TransportError::NotConnected));
    match World::new().run(turn) {
        Err(ActorError::Transport(text)) => assert_eq!(text, "Write failed: Not connected"),
        r => panic!("Unexpected result {:?}", r),
    }
}

#[test]
fn test_cannot_open_twice() {
    let mut world = World::new();
    world.actor.active_port = Some("/dev/ttyUSB0".to_string());
    let result = world.open(false);
    assert!(result.is_err());
    match result {
        Err(ActorError::InvalidTransition(text)) => assert_eq!(text, "Port already open"),
        r => panic!("Unexpected result {:?}", r),
    }
    assert_eq!(world.tried, 0);
}

#[test]
fn test_shutdown_closes_port() {
    let mut world = World::new();
    world.actor.active_port = Some("/dev/ttyUSB0".to_string());

    let turn = world.actor.shutdown();
    world.run(turn).unwrap();

    assert!(world.actor.active_port.is_none());

    // Should emit close event
    match &world.events[0] {
        SystemEvent::StatusUpdate { message } => {
            assert_eq!(message, "Port closed");
        }
        _ => panic!("Wrong event"),
    }
}

#[test]
fn test_close_sends_connection_closed_message() {
    let mut world = World::new();
    world.actor.active_port = Some("/dev/ttyUSB0".to_string());

    world.close().unwrap();

    // Should send ConnectionClosed to StateActor
    match &world.state[0] {
        StateMessage::ConnectionClosed => {}
        msg => panic!("Expected ConnectionClosed, got {}", msg.debug_text()),
    }
}

#[test]
fn test_close_when_already_closed_is_idempotent() {
    let mut world = World::new();

    // Close when already closed should succeed
    let result1 = world.close();
    assert!(result1.is_ok());

    let result2 = world.close();
    assert!(result2.is_ok());
    assert_eq!(world.waits, vec![100, 100]);
}

#[test]
fn test_port_close_timeout_mechanism() {
    // The read loop of an open port is waited for, but no longer than this
    let mut world = World::new();
    world.open(false).unwrap();
    world.close().unwrap();
    assert_eq!(world.waits, vec![500]);
    assert!(!world.actor.reading && !world.actor.transport_open);
    assert_eq!(world.actor.current_operation_id, None);
}

#[test]
fn test_parse_framing_8n1() {
    let config = PortActor::parse_framing("8N1", 115200).unwrap();
    assert_eq!(config.baud_rate, 115200);
    assert_eq!(config.data_bits, 8);
    assert_eq!(config.parity, "none");
    assert_eq!(config.stop_bits, 1);
}

#[test]
fn test_parse_framing_7e1() {
    let config = PortActor::parse_framing("7E1", 9600).unwrap();
    assert_eq!(config.baud_rate, 9600);
    assert_eq!(config.data_bits, 7);
    assert_eq!(config.parity, "even");
    assert_eq!(config.stop_bits, 1);
}

#[test]
fn test_parse_framing_8e1() {
    let config = PortActor::parse_framing("8E1", 57600).unwrap();
    assert_eq!(config.baud_rate, 57600);
    assert_eq!(config.data_bits, 8);
    assert_eq!(config.parity, "even");
    assert_eq!(config.stop_bits, 1);
}

#[test]
fn test_parse_framing_invalid_format() {
    let result = PortActor::parse_framing("INVALID", 19200);
    assert!(result.is_err());
    let err = result.unwrap_err();
    assert!(err.contains("must be 3 characters"));
}

#[test]
fn test_parse_framing_invalid_data_bits() {
    let result = PortActor::parse_framing("5N1", 115200);
    assert!(result.is_err());
    let err = result.unwrap_err();
    assert!(err.contains("must be 7 or 8"));
    assert_eq!(err, "Invalid data bits '5': must be 7 or 8");
}

#[test]
fn test_parse_framing_invalid_parity() {
    let result = PortActor::parse_framing("8X1", 115200);
    assert!(result.is_err());
    let err = result.unwrap_err();
    assert!(err.contains("must be N, E, or O"));
    assert_eq!(
        PortActor::parse_framing("8x1", 1).unwrap_err(),
        "Invalid parity 'X': must be N, E, or O"
    );
}

#[test]
fn test_parse_framing_invalid_stop_bits() {
    let result = PortActor::parse_framing("8N3", 115200);
    assert!(result.is_err());
    let err = result.unwrap_err();
    assert!(err.contains("must be 1 or 2"));
}

#[test]
fn test_parse_framing_case_insensitive() {
    // Lowercase should work
    let config_lower = PortActor::parse_framing("8n1", 115200).unwrap();
    assert_eq!(config_lower.parity, "none");

    // Mixed case
    let config_mixed = PortActor::parse_framing("7e1", 9600).unwrap();
    assert_eq!(config_mixed.parity, "even");

    let config_odd = PortActor::parse_framing("8o2", 57600).unwrap();
    assert_eq!(config_odd.parity, "odd");
    assert_eq!(config_odd.stop_bits, 2);
}

#[test]
fn the_length_of_a_framing_is_counted_in_bytes() {
    assert_eq!(
        PortActor::parse_framing("8é", 1).unwrap_err(),
        "Invalid parity 'é': must be N, E, or O"
    );
    assert!(PortActor::parse_framing("8Né", 1).unwrap_err().contains("must be 3 characters"));
    assert_eq!(PortActor::parse_framing("€", 1).unwrap_err(), "Invalid data bits '€': must be 7 or 8");
    assert!(PortActor::parse_framing("", 1).unwrap_err().contains("must be 3 characters"));
}

#[test]
fn a_framing_that_makes_no_sense_is_told() {
    let mut world = World::new();
    let port = SerialPortInfo::new("p".into(), None, None);
    let handle = Some(PortHandle { id: 1, vid: None, pid: None });
    let turn = world.actor.handle_open(port, 9600, "9N1".into(), false, 1, handle);
    match world.run(turn) {
        Err(ActorError::Transport(text)) => assert_eq!(
            text,
            "Failed to parse framing '9N1': Invalid data bits '9': must be 7 or 8"
        ),
        r => panic!("Unexpected result {:?}", r),
    }
    assert!(world.state.is_empty());
}

#[test]
fn a_port_without_an_object_is_refused() {
    let mut world = World::new();
    let port = SerialPortInfo::new("p".into(), None, None);
    let turn = world.actor.handle_open(port, 9600, "8N1".into(), false, 1, None);
    match world.run(turn) {
        Err(ActorError::Transport(text)) => {
            assert_eq!(text, "Native port handling not implemented")
        }
        r => panic!("Unexpected result {:?}", r),
    }
}

#[test]
fn a_busy_port_is_tried_again() {
    let mut world = World::new();
    world.outcomes = vec![
        Err(TransportError::AlreadyOpen),
        Err(TransportError::ConnectionFailed("NetworkError: lost".into())),
        Err(TransportError::InvalidState("x".into())),
    ];
    world.open(false).unwrap();
    assert_eq!(world.tried, 4);
    assert_eq!(world.waits, vec![100, 200, 400]);
}

#[test]
fn a_port_is_given_up_after_enough_attempts() {
    let mut world = World::new();
    for _ in 0..20 {
        world.outcomes.push(Err(TransportError::AlreadyOpen));
    }
    match world.open(false) {
        Err(ActorError::Transport(text)) => {
            assert_eq!(text, "Failed to open port: Transport error: AlreadyOpen")
        }
        r => panic!("Unexpected result {:?}", r),
    }
    assert_eq!(world.tried, 10);
    assert_eq!(world.waits.iter().sum::<u64>(), 100 * 511);
    assert!(matches!(&world.state[0], StateMessage::ConnectionFailed { reason }
        if reason == "Failed to open port: Transport error: AlreadyOpen"));
    assert!(world.actor.active_port.is_none());
}

#[test]
fn some_failures_are_final() {
    let refused = TransportError::ConnectionFailed("permission denied".into());
    assert_eq!(last_failure(&refused, 1), Some("permission denied".to_string()));
    assert_eq!(
        last_failure(&refused, 10),
        Some("ConnectionFailed(\"permission denied\")".to_string())
    );
    assert_eq!(last_failure(&TransportError::NotConnected, 1), Some("NotConnected".to_string()));
    for word in ["NetworkError", "busy", "in use", "InvalidStateError"] {
        let failure = TransportError::ConnectionFailed(format!("it is {}!", word));
        assert_eq!(last_failure(&failure, 9), None);
    }
}

#[test]
fn a_state_actor_that_is_gone_fails_the_handler() {
    let mut world = World::new();
    world.delivered = false;
    match world.open(false) {
        Err(ActorError::ChannelClosed(text)) => {
            assert_eq!(text, "StateActor unavailable during ConnectionEstablished")
        }
        r => panic!("Unexpected result {:?}", r),
    }
    match world.close() {
        Err(ActorError::ChannelClosed(text)) => {
            assert_eq!(text, "StateActor unavailable during ConnectionClosed")
        }
        r => panic!("Unexpected result {:?}", r),
    }
    let turn = world.actor.notified(AfterNotice::Failed { reason: "r".into() }, false);
    match world.run(turn) {
        Err(ActorError::ChannelClosed(text)) => {
            assert_eq!(text, "StateActor unavailable during ConnectionFailed")
        }
        r => panic!("Unexpected result {:?}", r),
    }
}

#[test]
fn messages_reach_their_handlers() {
    let mut world = World::new();
    let turn = world.actor.handle(PortMessage::InjectData { data: vec![9] }, 77);
    world.run(turn).unwrap();
    assert!(matches!(&world.events[0], SystemEvent::DataReceived { data, timestamp_us: 77 }
        if *data == vec![9]));
    assert!(matches!(&world.events[1], SystemEvent::RxActivity));
    let turn = world.actor.handle(PortMessage::Close, 78);
    world.run(turn).unwrap();
    assert_eq!(world.state.len(), 1);
    let turn = world.actor.handle(PortMessage::Write { data: vec![1] }, 79);
    world.run(turn).unwrap();
    let opening = PortMessage::Open {
        port: SerialPortInfo::new("p".into(), None, None),
        baud: 9600,
        framing: "8N1".into(),
        send_wakeup: false,
        operation_id: 12,
        port_handle: Some(PortHandle { id: 3, vid: None, pid: None }),
    };
    match world.actor.handle(opening, 80).next {
        PortNext::TryOpen(Opening { attempt, operation_id, port_handle, .. }) => {
            assert_eq!((attempt, operation_id, port_handle.id), (1, 12, 3));
        }
        _ => panic!("Unexpected next"),
    }
}

fn data(bytes: &[u8]) -> ReadOutcome {
    ReadOutcome::Data { data: bytes.to_vec(), timestamp_us: 5 }
}

#[test]
fn the_echo_of_a_wake_up_is_dropped_once() {
    let mut reader = ReadLoop::new(true);
    assert!(reader.take(data(b"")).events.is_empty());
    let turn = reader.take(data(b"\r\n\0$ "));
    assert!(turn.go_on && !turn.lost);
    assert!(matches!(&turn.events[0], SystemEvent::DataReceived { data, timestamp_us: 5 }
        if *data == b"$ ".to_vec()));
    let turn = reader.take(data(b"\r\nnext"));
    assert!(matches!(&turn.events[0], SystemEvent::DataReceived { data, .. }
        if *data == b"\r\nnext".to_vec()));

    let mut reader = ReadLoop::new(true);
    assert!(reader.take(data(b"\r\n")).events.is_empty());
    assert_eq!(reader.take(data(b"\r\n")).events.len(), 2);
}

#[test]
fn without_a_wake_up_every_byte_is_passed_on() {
    let mut reader = ReadLoop::new(false);
    let turn = reader.take(data(b"\r\n$ "));
    assert!(matches!(&turn.events[0], SystemEvent::DataReceived { data, .. }
        if *data == b"\r\n$ ".to_vec()));
    assert!(matches!(&turn.events[1], SystemEvent::RxActivity));
}

#[test]
fn a_failed_read_ends_the_loop() {
    let mut reader = ReadLoop::new(false);
    let turn = reader.take(ReadOutcome::Failed);
    assert!(turn.lost && !turn.go_on);
    assert!(matches!(&turn.events[0], SystemEvent::Error { message } if message == "Connection lost"));
    let turn = reader.take(ReadOutcome::Shutdown);
    assert!(!turn.lost && !turn.go_on && turn.events.is_empty());
}
