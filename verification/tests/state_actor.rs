use futureterm::actors::state_actor::actor::StateActor;
use futureterm::actors::state_actor::turn::{Effect, Next, Target, Turn};
use futureterm::protocol::errors::ActorError;
use futureterm::protocol::messages::{SerialPortInfo, SystemEvent, UiCommand};
use futureterm::protocol::state::ConnectionState;
use futureterm::runtime::channels::{
    PortHandle, PortMessage, ProbeMessage, ReconnectMessage, SendReport, StateMessage,
};

/// A state actor together with all that it has asked for.
struct World {
    actor: StateActor,
    port: Vec<PortMessage>,
    probe: Vec<ProbeMessage>,
    hints: Vec<ReconnectMessage>,
    events: Vec<SystemEvent>,
    timeouts: Vec<(ConnectionState, u64)>,
    report: SendReport,
}

impl World {
    fn new() -> World {
        World::with(StateActor::new())
    }

    fn with(actor: StateActor) -> World {
        World {
            actor,
            port: Vec::new(),
            probe: Vec::new(),
            hints: Vec::new(),
            events: Vec::new(),
            timeouts: Vec::new(),
            report: SendReport::Delivered,
        }
    }

    fn run(&mut self, turn: Turn) -> Result<(), ActorError> {
        let mut turn = turn;
        loop {
            for effect in turn.effects {
                match effect {
                    Effect::Event(e) => self.events.push(e),
                    Effect::Hint(m) => self.hints.push(m),
                    Effect::CancelTimeout => {}
                    Effect::StartTimeout { state, secs } => self.timeouts.push((state, secs)),
                    Effect::Delay { .. } => {}
                }
            }
            turn = match turn.next {
                Next::Finished(r) => return r,
                Next::ToPort { msg, then } => {
                    if self.report == SendReport::Delivered {
                        self.port.push(msg);
                    }
                    self.actor.resume(Target::Port, then, self.report)
                }
                Next::ToProbe { msg, then } => {
                    if self.report == SendReport::Delivered {
                        self.probe.push(msg);
                    }
                    self.actor.resume(Target::Probe, then, self.report)
                }
            };
        }
    }

    fn handle(&mut self, msg: StateMessage) -> Result<(), ActorError> {
        let turn = self.actor.handle(msg);
        self.run(turn)
    }

    fn connect(&mut self, baud: u32, framing: &str) -> Result<(), ActorError> {
        let port = SerialPortInfo::new("/dev/ttyUSB0".into(), None, None);
        let turn = self.actor.handle_connect(port, baud, framing.to_string(), None);
        self.run(turn)
    }
}

fn usb_port() -> SerialPortInfo {
    SerialPortInfo::new("/dev/ttyUSB0".into(), Some(0x1234), Some(0x5678))
}

#[test]
fn state_transitions_test_initial_state() {
    let actor = StateActor::new();
    assert_eq!(actor.state, ConnectionState::Disconnected);
}

#[test]
fn test_connect_with_baud() {
    let mut world = World::new();
    world.connect(115200, "8N1").unwrap();

    // Should transition to Connecting
    assert_eq!(world.actor.state, ConnectionState::Connecting);

    // Should send Open to PortActor
    match &world.port[0] {
        PortMessage::Open { baud, .. } => assert_eq!(*baud, 115200),
        _ => panic!("Wrong message"),
    }

    // Should emit state change event
    match &world.events[0] {
        SystemEvent::StateChanged { state } => {
            assert_eq!(*state, ConnectionState::Connecting);
        }
        _ => panic!("Wrong event"),
    }
}

#[test]
fn test_connect_with_auto_detect() {
    let mut world = World::new();
    world.connect(0, "Auto").unwrap();

    // Should transition to Probing
    assert_eq!(world.actor.state, ConnectionState::Probing);

    // Should send Start to ProbeActor
    match &world.probe[0] {
        ProbeMessage::Start { .. } => {}
        _ => panic!("Wrong message"),
    }
}

#[test]
fn test_disconnect_from_connected() {
    let mut world = World::new();

    // Manually set to connected
    world.actor.state = ConnectionState::Connected;

    let turn = world.actor.handle_disconnect();
    world.run(turn).unwrap();

    // Should send Close to PortActor
    match &world.port[0] {
        PortMessage::Close => {}
        _ => panic!("Wrong message"),
    }

    // Should be in Disconnecting state (event-driven coordination)
    assert_eq!(world.actor.state, ConnectionState::Disconnecting);

    // Simulate PortActor confirming closure
    world.handle(StateMessage::ConnectionClosed).unwrap();

    // Now should be disconnected
    assert_eq!(world.actor.state, ConnectionState::Disconnected);
}

#[test]
fn test_connection_established() {
    let mut world = World::new();

    world.actor.state = ConnectionState::Connecting;
    world.actor.operation_sequence = 1; // Simulate operation ID
    let turn = world.actor.handle_connection_established(1);
    world.run(turn).unwrap();

    assert_eq!(world.actor.state, ConnectionState::Connected);

    // Should emit state change
    match &world.events[0] {
        SystemEvent::StateChanged { state } => {
            assert_eq!(*state, ConnectionState::Connected);
        }
        _ => panic!("Wrong event"),
    }
}

#[test]
fn test_connection_failed() {
    let mut world = World::new();

    world.actor.state = ConnectionState::Connecting;
    let turn = world.actor.handle_connection_failed("Port busy".into());
    world.run(turn).unwrap();

    assert_eq!(world.actor.state, ConnectionState::Disconnected);

    // Should emit error event
    match &world.events[0] {
        SystemEvent::Error { message } => {
            assert!(message.contains("Port busy"));
        }
        _ => panic!("Wrong event"),
    }
}

#[test]
fn test_connection_established_rejects_stale_operation() {
    let mut world = World::new();

    world.actor.state = ConnectionState::Connecting;
    world.actor.operation_sequence = 5; // Expect operation ID 5

    // Try to establish connection with stale operation ID
    let turn = world.actor.handle_connection_established(3);
    let result = world.run(turn);

    // Should reject stale operation
    assert!(result.is_err());
    assert_eq!(world.actor.state, ConnectionState::Connecting); // State unchanged

    // Should send Close message to PortActor to close orphan port
    match &world.port[0] {
        PortMessage::Close => {} // Expected
        msg => panic!("Expected Close message, got {}", msg.debug_text()),
    }
}

#[test]
fn test_invalid_transition_rejected() {
    let mut actor = StateActor::new();

    actor.state = ConnectionState::Disconnected;

    // Cannot go directly to Connected
    let mut effects = Vec::new();
    let result = actor.transition(ConnectionState::Connected, &mut effects);
    assert!(result.is_err());
    assert!(effects.is_empty());
    assert_eq!(actor.state, ConnectionState::Disconnected);
}

#[test]
fn test_probe_complete() {
    let mut world = World::new();

    world.actor.state = ConnectionState::Probing;
    // Set pending port (as would happen during connect)
    world.actor.pending_port = Some(SerialPortInfo::new("/dev/ttyUSB0".into(), None, None));

    let turn = world.actor.handle_probe_complete(
        115200,
        "8N1".into(),
        Some("mavlink".into()),
        vec![1, 2, 3],
    );
    world.run(turn).unwrap();

    assert_eq!(world.actor.state, ConnectionState::Connecting);

    // Should have sent Open to PortActor
    match &world.port[0] {
        PortMessage::Open { baud, framing, .. } => {
            assert_eq!(*baud, 115200);
            assert_eq!(framing, "8N1");
        }
        _ => panic!("Wrong message"),
    }

    // Should emit status update
    match &world.events[0] {
        SystemEvent::StatusUpdate { message } => {
            assert!(message.contains("mavlink"));
            assert!(message.contains("115200"));
        }
        _ => panic!("Wrong event"),
    }
}

#[test]
fn captured_data_follows_the_open_request() {
    let complete = |protocol: Option<&str>, data: &[u8]| {
        let mut world = World::new();
        world.actor.state = ConnectionState::Probing;
        world.actor.pending_port = Some(usb_port());
        world
            .handle(StateMessage::ProbeComplete {
                baud: 9600,
                framing: "8N1".into(),
                protocol: protocol.map(|p| p.to_string()),
                initial_data: data.to_vec(),
            })
            .unwrap();
        world.port
    };

    // The bytes of a protocol are kept as they are
    let port = complete(Some("mavlink"), &[1, 2, 3]);
    assert_eq!(port.len(), 2);
    assert!(matches!(&port[0], PortMessage::Open { send_wakeup: false, baud: 9600, .. }));
    assert!(matches!(&port[1], PortMessage::InjectData { data } if *data == vec![1, 2, 3]));

    // A prompt is trimmed and kept
    let port = complete(None, b"\r\nroot@box:~# ");
    assert_eq!(port.len(), 2);
    assert!(matches!(&port[0], PortMessage::Open { send_wakeup: false, .. }));
    assert!(matches!(&port[1], PortMessage::InjectData { data } if data.starts_with(b"root@box")));

    // Noise is dropped, and the device woken up instead
    let port = complete(None, &[1, 2, 3]);
    assert_eq!(port.len(), 1);
    assert!(matches!(&port[0], PortMessage::Open { send_wakeup: true, .. }));
}

#[test]
fn test_disconnect_aborts_probe() {
    let mut world = World::new();

    world.actor.state = ConnectionState::Probing;
    let turn = world.actor.handle_disconnect();
    world.run(turn).unwrap();

    // Should send Abort to ProbeActor
    match &world.probe[0] {
        ProbeMessage::Abort => {}
        _ => panic!("Wrong message"),
    }

    // Should send Close to PortActor
    match &world.port[0] {
        PortMessage::Close => {}
        _ => panic!("Expected Close message"),
    }

    // Should be in Disconnecting state (event-driven coordination)
    assert_eq!(world.actor.state, ConnectionState::Disconnecting);

    // Simulate PortActor confirming closure
    world.handle(StateMessage::ConnectionClosed).unwrap();

    // Now should be disconnected
    assert_eq!(world.actor.state, ConnectionState::Disconnected);
}

#[test]
fn state_transitions_test_unexpected_message_error() {
    let mut world = World::new();

    // Try to connect when already connecting
    world.actor.state = ConnectionState::Connecting;
    let result = world.connect(115200, "8N1");

    assert!(result.is_err());
    match result.unwrap_err() {
        ActorError::UnexpectedMessage { state, message } => {
            assert!(state.contains("Connecting"));
            assert_eq!(message, "Connect");
        }
        _ => panic!("Wrong error type"),
    }
}

#[test]
fn test_probe_complete_ignored_when_disconnected() {
    let mut world = World::new();

    // State is Disconnected
    world.actor.state = ConnectionState::Disconnected;

    // Simulate delayed ProbeComplete arriving after disconnect
    let turn = world.actor.handle_probe_complete(115200, "8N1".into(), None, vec![]);
    let result = world.run(turn);

    // Should be Ok(()) (ignored), not Err
    assert!(result.is_ok());
    assert_eq!(world.actor.state, ConnectionState::Disconnected);
}

#[test]
fn test_device_reappeared_triggers_reconnection() {
    let mut world = World::new();

    // Simulate device lost
    world.actor.state = ConnectionState::DeviceLost;
    world.actor.pending_baud = 115200;

    // Simulate device reappearing
    world
        .handle(StateMessage::DeviceReappeared { port: usb_port(), port_handle: None })
        .unwrap();

    // Should transition to AutoReconnecting
    match &world.events[0] {
        SystemEvent::StateChanged { state } => {
            assert_eq!(*state, ConnectionState::AutoReconnecting);
        }
        _ => panic!("Wrong event"),
    }

    // Should send Open to PortActor
    match &world.port[0] {
        PortMessage::Open { port: p, baud, .. } => {
            assert_eq!(p.path, "/dev/ttyUSB0");
            assert_eq!(*baud, 115200);
        }
        _ => panic!("Wrong message"),
    }

    // State should still be AutoReconnecting (waits for ConnectionEstablished)
    assert_eq!(world.actor.state, ConnectionState::AutoReconnecting);
}

#[test]
fn test_device_reappeared_ignored_when_not_device_lost() {
    let mut world = World::new();

    // State is Disconnected (not DeviceLost)
    world.actor.state = ConnectionState::Disconnected;

    let port = SerialPortInfo::new("/dev/ttyUSB0".into(), None, None);
    world.handle(StateMessage::DeviceReappeared { port, port_handle: None }).unwrap();

    // Should NOT send any messages to PortActor
    assert!(world.port.is_empty());

    // State should remain Disconnected
    assert_eq!(world.actor.state, ConnectionState::Disconnected);
}

#[test]
fn test_device_reappeared_uses_default_baud_when_not_set() {
    let mut world = World::new();

    // Simulate device lost with no pending_baud set
    world.actor.state = ConnectionState::DeviceLost;
    world.actor.pending_baud = 0; // Not set

    world
        .handle(StateMessage::DeviceReappeared { port: usb_port(), port_handle: None })
        .unwrap();

    // Should use default 115200 baud
    match &world.port[0] {
        PortMessage::Open { baud, .. } => {
            assert_eq!(*baud, 115200); // Default baud rate
        }
        _ => panic!("Wrong message"),
    }
}

#[test]
fn test_connection_lost_closes_port() {
    let mut world = World::new();

    // Simulate connected state
    world.actor.state = ConnectionState::Connected;

    // Handle connection lost (USB disconnect)
    world.handle(StateMessage::ConnectionLost).unwrap();

    // Should send Close to PortActor to clean up
    match &world.port[0] {
        PortMessage::Close => {}
        msg => panic!("Expected Close message, got {}", msg.debug_text()),
    }

    // Should transition to DeviceLost
    match &world.events[0] {
        SystemEvent::StateChanged { state } => {
            assert_eq!(*state, ConnectionState::DeviceLost);
        }
        _ => panic!("Wrong event"),
    }

    assert_eq!(world.actor.state, ConnectionState::DeviceLost);
}

#[test]
fn test_connection_established_from_auto_reconnecting() {
    let mut world = World::new();

    // Simulate auto-reconnecting state (after USB replug)
    world.actor.state = ConnectionState::AutoReconnecting;
    world.actor.pending_port = Some(usb_port());
    world.actor.pending_baud = 115200;
    world.actor.operation_sequence = 1; // Simulate operation ID

    // Port opens successfully and sends ConnectionEstablished
    let turn = world.actor.handle_connection_established(1);
    world.run(turn).unwrap();

    // Should transition to Connected
    assert_eq!(world.actor.state, ConnectionState::Connected);

    // Should emit state change event
    match &world.events[0] {
        SystemEvent::StateChanged { state } => {
            assert_eq!(*state, ConnectionState::Connected);
        }
        _ => panic!("Wrong event"),
    }
}

#[test]
fn test_operation_timeout_connecting() {
    let mut world = World::new();

    // Transition to Connecting
    world.actor.state = ConnectionState::Connecting;

    // Simulate timeout message
    world
        .handle(StateMessage::OperationTimeout {
            operation: "Connecting".to_string(),
            state: ConnectionState::Connecting,
        })
        .unwrap();

    // Should send error event
    match &world.events[0] {
        SystemEvent::Error { message } => {
            assert!(message.contains("Connecting"));
            assert!(message.contains("timed out"));
        }
        event => panic!("Expected Error event, got {:?}", event),
    }

    // Should send Close to PortActor
    match &world.port[0] {
        PortMessage::Close => {}
        _ => panic!("Expected Close message"),
    }

    // Should transition to Disconnecting
    assert_eq!(world.actor.state, ConnectionState::Disconnecting);
}

#[test]
fn test_operation_timeout_ignored_after_state_change() {
    let mut world = World::new();

    // Transition to Connecting, then immediately to Connected
    world.actor.state = ConnectionState::Connected;

    // Simulate timeout message for old state
    world
        .handle(StateMessage::OperationTimeout {
            operation: "Connecting".to_string(),
            state: ConnectionState::Connecting,
        })
        .unwrap();

    // Timeout should be ignored (no error event)
    for event in &world.events {
        if let SystemEvent::Error { .. } = event {
            panic!("Should not send error for stale timeout");
        }
    }

    // Should remain in Connected state
    assert_eq!(world.actor.state, ConnectionState::Connected);
}

#[test]
fn test_operation_timeout_disconnecting() {
    let mut world = World::new();

    // Transition to Disconnecting
    world.actor.state = ConnectionState::Disconnecting;

    // Simulate timeout message
    world
        .handle(StateMessage::OperationTimeout {
            operation: "Disconnecting".to_string(),
            state: ConnectionState::Disconnecting,
        })
        .unwrap();

    // Should send error event
    match &world.events[0] {
        SystemEvent::Error { message } => {
            assert!(message.contains("Disconnecting"));
        }
        _ => panic!("Expected Error event"),
    }

    // Should force transition to Disconnected
    assert_eq!(world.actor.state, ConnectionState::Disconnected);
}

#[test]
fn test_rapid_connect_disconnect_cycles() {
    let mut world = World::new();

    // Rapidly send connect/disconnect commands (10 cycles)
    for i in 0..10 {
        let _ = world.handle(StateMessage::UiCommand(UiCommand::Connect {
            port: SerialPortInfo::new(format!("/dev/ttyUSB{}", i), None, None),
            baud: 115200,
            framing: "8N1".to_string(),
        }));
        let _ = world.handle(StateMessage::UiCommand(UiCommand::Disconnect));
    }
    // Without an answer from the port the first disconnect is still under way
    assert_eq!(world.actor.state, ConnectionState::Disconnecting);
    world.handle(StateMessage::ConnectionClosed).unwrap();

    // The actor is still responsive
    world
        .handle(StateMessage::UiCommand(UiCommand::Connect {
            port: SerialPortInfo::new("/dev/final".into(), None, None),
            baud: 9600,
            framing: "8N1".to_string(),
        }))
        .unwrap();
    assert_eq!(world.actor.state, ConnectionState::Connecting);
}

#[test]
fn test_port_busy_scenario() {
    let mut world = World::new();
    let connect = |path: &str| {
        StateMessage::UiCommand(UiCommand::Connect {
            port: SerialPortInfo::new(path.into(), None, None),
            baud: 115200,
            framing: "8N1".to_string(),
        })
    };
    world.handle(connect("/dev/busy")).unwrap();
    world
        .handle(StateMessage::ConnectionFailed { reason: "Device or resource busy".to_string() })
        .unwrap();
    assert_eq!(world.actor.state, ConnectionState::Disconnected);

    // Should accept a new connect command after the failure
    world.handle(connect("/dev/ttyUSB0")).unwrap();
    assert_eq!(world.actor.state, ConnectionState::Connecting);
}

#[test]
fn test_device_swap_during_probing() {
    let mut world = World::new();

    // Start auto-detection (enters Probing state)
    world
        .handle(StateMessage::UiCommand(UiCommand::Connect {
            port: usb_port(),
            baud: 0, // Auto-detect triggers probing
            framing: "Auto".to_string(),
        }))
        .unwrap();
    assert_eq!(world.actor.state, ConnectionState::Probing);

    // Disconnect while probing
    world.handle(StateMessage::UiCommand(UiCommand::Disconnect)).unwrap();
    world.handle(StateMessage::ConnectionClosed).unwrap();

    // Connect to the new device
    world
        .handle(StateMessage::UiCommand(UiCommand::Connect {
            port: SerialPortInfo::new("/dev/ttyUSB1".into(), Some(0xABCD), Some(0xEF01)),
            baud: 115200,
            framing: "8N1".to_string(),
        }))
        .unwrap();
    assert_eq!(world.actor.state, ConnectionState::Connecting);
}

#[test]
fn a_failed_send_fails_the_handler() {
    for (report, full) in [(SendReport::Full, true), (SendReport::Disconnected, false)] {
        let mut world = World::new();
        world.report = report;
        match world.connect(115200, "8N1") {
            Err(ActorError::Other(text)) if full => {
                assert_eq!(text, "PortActor channel overloaded")
            }
            Err(ActorError::ChannelClosed(text)) if !full => {
                assert_eq!(text, "PortActor has shut down")
            }
            r => panic!("Unexpected result {:?}", r),
        }
    }
}

#[test]
fn a_failed_reconnect_waits_for_the_device_again() {
    let mut world = World::new();
    world.actor.state = ConnectionState::AutoReconnecting;
    world.handle(StateMessage::ConnectionFailed { reason: "gone".into() }).unwrap();
    assert_eq!(world.actor.state, ConnectionState::DeviceLost);
}

#[test]
fn open_requests_are_numbered() {
    let mut world = World::new();
    world.connect(9600, "").unwrap();
    world.handle(StateMessage::ConnectionFailed { reason: "busy".into() }).unwrap();
    world.connect(9600, "7E1").unwrap();
    let mut seen = Vec::new();
    for msg in &world.port {
        if let PortMessage::Open { operation_id, framing, .. } = msg {
            seen.push((*operation_id, framing.clone()));
        }
    }
    assert_eq!(seen, vec![(1, "8N1".to_string()), (2, "7E1".to_string())]);
    // An answer to the first request comes too late
    assert!(world.handle(StateMessage::ConnectionEstablished { operation_id: 1 }).is_err());
    assert_eq!(world.actor.state, ConnectionState::Connecting);
    world.handle(StateMessage::ConnectionEstablished { operation_id: 2 }).unwrap();
    assert_eq!(world.actor.state, ConnectionState::Connected);
}

#[test]
fn a_connected_device_is_registered_and_a_disconnected_one_cleared() {
    let mut world = World::new();
    let turn = world.actor.handle_connect(usb_port(), 57600, "8N1".into(), None);
    world.run(turn).unwrap();
    world.handle(StateMessage::ConnectionEstablished { operation_id: 1 }).unwrap();
    assert!(matches!(
        world.hints[0],
        ReconnectMessage::RegisterDevice { vid: 0x1234, pid: 0x5678, .. }
    ));
    let turn = world.actor.handle_disconnect();
    world.run(turn).unwrap();
    assert!(matches!(world.hints[1], ReconnectMessage::ClearDevice));
}

#[test]
fn passing_states_are_supervised() {
    let mut world = World::new();
    world.connect(115200, "8N1").unwrap();
    assert_eq!(world.timeouts, vec![(ConnectionState::Connecting, 10)]);
    assert_eq!(world.actor.active_timeout, Some(ConnectionState::Connecting));
    world.handle(StateMessage::ConnectionEstablished { operation_id: 1 }).unwrap();
    assert_eq!(world.actor.active_timeout, None);
}

#[test]
fn a_browser_needs_a_port_object() {
    let handle = PortHandle { id: 7, vid: Some(0x1234), pid: Some(0x5678) };
    let mut world = World::with(StateActor::new_in_browser());
    let turn = world.actor.handle_connect(usb_port(), 9600, "8N1".into(), Some(handle));
    world.run(turn).unwrap();
    match &world.port[0] {
        PortMessage::Open { port_handle, .. } => assert_eq!(*port_handle, Some(handle)),
        _ => panic!("Wrong message"),
    }

    let mut world = World::with(StateActor::new_in_browser());
    let turn = world.actor.handle_connect(usb_port(), 9600, "8N1".into(), None);
    match world.run(turn) {
        Err(ActorError::Transport(text)) => assert_eq!(text, "No port handle provided"),
        r => panic!("Unexpected result {:?}", r),
    }
}

/// A connected actor that was asked for other settings.
fn reconfiguring(actor: StateActor, baud: u32) -> World {
    let handle = PortHandle { id: 7, vid: Some(0x1234), pid: Some(0x5678) };
    let mut world = World::with(actor);
    let turn = world.actor.handle_connect(usb_port(), 9600, "8N1".into(), Some(handle));
    world.run(turn).unwrap();
    world.handle(StateMessage::ConnectionEstablished { operation_id: 1 }).unwrap();
    world.port.clear();
    world.events.clear();
    world
        .handle(StateMessage::UiCommand(UiCommand::Reconfigure {
            baud,
            framing: "7E1".into(),
            active_framing: "7E1".into(),
        }))
        .unwrap();
    world
}

fn announced(world: &World) -> Vec<ConnectionState> {
    world
        .events
        .iter()
        .filter_map(|e| match e {
            SystemEvent::StateChanged { state } => Some(*state),
            _ => None,
        })
        .collect()
}

#[test]
fn a_reconfiguration_closes_and_opens_again() {
    for actor in [StateActor::new(), StateActor::new_in_browser()] {
        let mut world = reconfiguring(actor, 57600);
        assert_eq!(
            announced(&world),
            vec![ConnectionState::Reconfiguring, ConnectionState::Disconnecting]
        );
        assert_eq!(world.actor.state, ConnectionState::Disconnecting);
        assert_eq!(world.port.len(), 1);
        assert!(matches!(world.port[0], PortMessage::Close));

        world.events.clear();
        world.handle(StateMessage::ConnectionClosed).unwrap();
        assert_eq!(announced(&world), vec![ConnectionState::Connecting]);
        assert_eq!(world.actor.state, ConnectionState::Connecting);
        match &world.port[1] {
            PortMessage::Open { baud, framing, operation_id, .. } => {
                assert_eq!(*baud, 57600);
                assert_eq!(framing, "7E1");
                let operation_id = *operation_id;
                world.handle(StateMessage::ConnectionEstablished { operation_id }).unwrap();
            }
            _ => panic!("Wrong message"),
        }
        assert_eq!(world.actor.state, ConnectionState::Connected);
    }
}

#[test]
fn settings_that_waited_for_a_close_given_up_are_dropped() {
    for actor in [StateActor::new(), StateActor::new_in_browser()] {
        let mut world = reconfiguring(actor, 9600);
        let timeout = |state: ConnectionState| StateMessage::OperationTimeout {
            operation: state.name().to_string(),
            state,
        };
        world.handle(timeout(ConnectionState::Disconnecting)).unwrap();
        assert_eq!(world.actor.state, ConnectionState::Disconnected);
        assert!(world.actor.pending_reconfigure.is_none());

        let handle = PortHandle { id: 7, vid: Some(0x1234), pid: Some(0x5678) };
        let turn = world.actor.handle_connect(usb_port(), 57600, "8N1".into(), Some(handle));
        world.run(turn).unwrap();
        world.handle(timeout(ConnectionState::Connecting)).unwrap();
        assert_eq!(world.actor.state, ConnectionState::Disconnecting);
        world.handle(StateMessage::ConnectionClosed).unwrap();
        assert_eq!(world.actor.state, ConnectionState::Disconnected);
        assert!(matches!(world.port.last(), Some(PortMessage::Close)));
    }
}

#[test]
fn settings_that_waited_are_dropped_when_the_port_fails() {
    let mut world = reconfiguring(StateActor::new(), 9600);
    world.handle(StateMessage::ConnectionFailed { reason: "gone".into() }).unwrap();
    assert_eq!(world.actor.state, ConnectionState::Disconnected);
    assert!(world.actor.pending_reconfigure.is_none());
}

#[test]
fn every_attempt_given_up_ends_disconnected() {
    for state in [
        ConnectionState::Probing,
        ConnectionState::Connecting,
        ConnectionState::Reconfiguring,
        ConnectionState::AutoReconnecting,
    ] {
        let mut world = World::new();
        world.actor.state = state;
        world
            .handle(StateMessage::OperationTimeout { operation: state.name().into(), state })
            .unwrap();
        assert!(matches!(world.port[0], PortMessage::Close));
        assert_eq!(world.actor.state, ConnectionState::Disconnecting);
        world.handle(StateMessage::ConnectionClosed).unwrap();
        assert_eq!(world.actor.state, ConnectionState::Disconnected);
        assert_eq!(world.port.len(), 1);
    }
}

#[test]
fn detection_in_a_browser_opens_the_port_object_it_was_started_with() {
    let handle = PortHandle { id: 7, vid: Some(0x1234), pid: Some(0x5678) };
    let mut world = World::with(StateActor::new_in_browser());
    let turn = world.actor.handle_connect(usb_port(), 0, "Auto".into(), Some(handle));
    world.run(turn).unwrap();
    match &world.probe[0] {
        ProbeMessage::Start { port_handle, .. } => assert_eq!(*port_handle, Some(handle)),
        msg => panic!("Expected Start message, got {}", msg.debug_text()),
    }
    world
        .handle(StateMessage::ProbeComplete {
            baud: 57600,
            framing: "7E1".into(),
            protocol: Some("mavlink".into()),
            initial_data: vec![],
        })
        .unwrap();
    match &world.port[0] {
        PortMessage::Open { baud, framing, send_wakeup, operation_id, port_handle, .. } => {
            assert_eq!((*baud, framing.as_str(), *send_wakeup), (57600, "7E1", false));
            assert_eq!((*operation_id, *port_handle), (1, Some(handle)));
        }
        msg => panic!("Expected Open message, got {}", msg.debug_text()),
    }
}

#[test]
fn a_device_that_comes_back_is_opened_by_its_new_port_object() {
    let handle = PortHandle { id: 7, vid: Some(0x1234), pid: Some(0x5678) };
    let again = PortHandle { id: 8, ..handle };
    for (actor, expected) in
        [(StateActor::new(), None), (StateActor::new_in_browser(), Some(again))]
    {
        let mut world = World::with(actor);
        let turn = world.actor.handle_connect(usb_port(), 57600, "8N1".into(), Some(handle));
        world.run(turn).unwrap();
        world.handle(StateMessage::ConnectionEstablished { operation_id: 1 }).unwrap();
        world.handle(StateMessage::ConnectionLost).unwrap();
        world.port.clear();
        world
            .handle(StateMessage::DeviceReappeared { port: usb_port(), port_handle: Some(again) })
            .unwrap();
        match &world.port[0] {
            PortMessage::Open { baud, port_handle, .. } => {
                assert_eq!((*baud, *port_handle), (57600, expected));
            }
            msg => panic!("Expected Open message, got {}", msg.debug_text()),
        }
        world.handle(StateMessage::ConnectionEstablished { operation_id: 2 }).unwrap();
        assert_eq!(world.actor.state, ConnectionState::Connected);
    }
}

#[test]
fn a_reconfiguration_without_a_baud_rate_detects_it() {
    let mut world = reconfiguring(StateActor::new(), 0);
    world.handle(StateMessage::ConnectionClosed).unwrap();
    assert_eq!(world.actor.state, ConnectionState::Probing);
    assert!(matches!(world.probe[0], ProbeMessage::Start { .. }));
}

#[test]
fn a_disconnect_gives_a_reconfiguration_up() {
    let mut world = World::new();
    let turn = world.actor.handle_connect(usb_port(), 9600, "8N1".into(), None);
    world.run(turn).unwrap();
    world.handle(StateMessage::ConnectionEstablished { operation_id: 1 }).unwrap();
    world.actor.state = ConnectionState::Reconfiguring;
    world.handle(StateMessage::UiCommand(UiCommand::Disconnect)).unwrap();
    assert_eq!(world.actor.state, ConnectionState::Disconnecting);
    world.port.clear();
    world.handle(StateMessage::ConnectionClosed).unwrap();
    assert_eq!(world.actor.state, ConnectionState::Disconnected);
    assert!(world.port.is_empty());
}

#[test]
fn the_actor_has_a_name() {
    assert_eq!(StateActor::new().name(), "StateActor");
}
