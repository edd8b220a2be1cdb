use futureterm::protocol::errors::ActorError;
use futureterm::protocol::messages::{SerialConfig, SerialPortInfo, SystemEvent, UiCommand};
use futureterm::protocol::state::ConnectionState;
use futureterm::runtime::actor::{handler_failure, init_failure};
use futureterm::runtime::channels::{
    command_result, port_command_result, route_command, PortHandle, PortMessage, ProbeMessage,
    ReconnectMessage, Route, SendReport, StateMessage, EVENT_CAPACITY, PORT_CAPACITY,
    PROBE_CAPACITY, RECONNECT_CAPACITY, STATE_CAPACITY,
};
use futureterm::runtime::supervision::{
    spawn_timeout, SupervisionConfig, TimeoutHandle, TimeoutStep, Timeouts,
};
use std::cell::RefCell;

fn connect() -> UiCommand {
    UiCommand::Connect {
        port: SerialPortInfo::new("/dev/ttyUSB0".into(), None, None),
        baud: 115200,
        framing: "8N1".to_string(),
    }
}

#[test]
fn channels_test_send_connect_command() {
    // The message goes to the state actor
    match route_command(connect()) {
        Route::State(StateMessage::UiCommand(UiCommand::Connect { baud, framing, .. })) => {
            assert_eq!(baud, 115200);
            assert_eq!(framing, "8N1");
        }
        _ => panic!("Wrong message type"),
    }
}

#[test]
fn channels_test_send_write_command() {
    let cmd = UiCommand::WriteData { data: vec![1, 2, 3] };
    // The message goes to the port actor
    match route_command(cmd) {
        Route::Port(PortMessage::Write { data }) => {
            assert_eq!(data, vec![1, 2, 3]);
        }
        _ => panic!("Wrong message type"),
    }
}

#[test]
fn test_critical_message_propagation() {
    match route_command(UiCommand::Disconnect) {
        Route::State(StateMessage::UiCommand(UiCommand::Disconnect)) => {}
        _ => panic!("Expected Disconnect command"),
    }
}

#[test]
fn test_critical_message_failure_handling() {
    assert!(command_result(true, SendReport::Delivered).is_ok());
    assert_eq!(
        command_result(true, SendReport::Full).unwrap_err(),
        "System overloaded: Write queue full. Data transmission too fast."
    );
    assert_eq!(
        command_result(true, SendReport::Disconnected).unwrap_err(),
        "System error: Port communication unavailable. Please refresh the page."
    );
    assert!(command_result(false, SendReport::Delivered).is_ok());
    assert_eq!(
        command_result(false, SendReport::Full).unwrap_err(),
        "System overloaded: Too many pending commands. Please slow down."
    );
    assert_eq!(
        command_result(false, SendReport::Disconnected).unwrap_err(),
        "System error: State management unavailable. Please refresh the page."
    );
    assert!(port_command_result(SendReport::Delivered).is_ok());
    assert_eq!(
        port_command_result(SendReport::Full).unwrap_err(),
        "System overloaded: Command queue full."
    );
    assert_eq!(
        port_command_result(SendReport::Disconnected).unwrap_err(),
        "StateActor channel closed"
    );
}

#[test]
fn channels_have_room() {
    assert_eq!(
        (STATE_CAPACITY, PORT_CAPACITY, PROBE_CAPACITY, RECONNECT_CAPACITY, EVENT_CAPACITY),
        (256, 512, 128, 128, 8192)
    );
}

#[test]
fn test_actor_error_handling() {
    let event = init_failure("FailingActor", &ActorError::Other("Init failed".into()));
    match event {
        SystemEvent::Error { message } => {
            assert!(message.contains("init failed"));
            assert_eq!(message, "FailingActor init failed: Init failed");
        }
        _ => panic!("Wrong event type"),
    }
    match handler_failure("PortActor", &ActorError::Transport("x".into())) {
        SystemEvent::Error { message } => {
            assert_eq!(message, "PortActor error: Transport error: x")
        }
        _ => panic!("Wrong event type"),
    }
}

#[test]
fn test_default_config() {
    let config = SupervisionConfig::default();
    assert_eq!(config.probe_timeout_secs, 30);
    assert_eq!(config.connect_timeout_secs, 10);
    assert_eq!(config.auto_reconnect_timeout_secs, 10);
    assert_eq!(config.disconnect_timeout_secs, 5);
    assert_eq!(config.reconfigure_timeout_secs, 10);
    assert_eq!(config.timeout_for(ConnectionState::Probing), Some(30));
    assert_eq!(config.timeout_for(ConnectionState::Disconnecting), Some(5));
    assert_eq!(config.timeout_for(ConnectionState::Connected), None);
}

#[test]
fn test_timeout_fires() {
    let mut timeouts = Timeouts::new();
    let handle = spawn_timeout(&mut timeouts, "test_operation", ConnectionState::Connecting, 1);
    let mut slept = 0;
    loop {
        match timeouts.tick(&handle) {
            TimeoutStep::Sleep { millis } => slept += millis,
            TimeoutStep::Fire(StateMessage::OperationTimeout { operation, state }) => {
                assert_eq!(operation, "test_operation");
                assert_eq!(state, ConnectionState::Connecting);
                break;
            }
            _ => panic!("Expected OperationTimeout"),
        }
    }
    assert_eq!(slept, 1000);
}

/// Discards a handle when it goes out of scope.
struct Running<'a> {
    timeouts: &'a RefCell<Timeouts>,
    handle: Option<TimeoutHandle>,
}

impl Drop for Running<'_> {
    fn drop(&mut self) {
        if let Some(handle) = self.handle.take() {
            handle.discard(&mut self.timeouts.borrow_mut());
        }
    }
}

#[test]
fn test_timeout_cancelled_on_drop() {
    let timeouts = RefCell::new(Timeouts::new());
    let number;
    // Drop handle immediately to cancel timeout
    {
        let handle = spawn_timeout(
            &mut timeouts.borrow_mut(),
            "test_operation",
            ConnectionState::Connecting,
            1,
        );
        let running = Running { timeouts: &timeouts, handle: Some(handle.clone()) };
        number = handle;
        assert!(!number.is_cancelled(&running.timeouts.borrow()));
    }
    assert!(number.is_cancelled(&timeouts.borrow()));
    // Look more often than the timeout would have slept: it never fires
    for _ in 0..5 {
        assert!(matches!(timeouts.borrow_mut().tick(&number), TimeoutStep::Stop));
    }
}

#[test]
fn a_cancelled_timeout_is_cancelled_for_every_clone_and_for_good() {
    let mut timeouts = Timeouts::new();
    let first = spawn_timeout(&mut timeouts, "a", ConnectionState::Probing, 1);
    let second = spawn_timeout(&mut timeouts, "b", ConnectionState::Connecting, 2);
    let clone = first.clone();
    assert!(matches!(timeouts.tick(&first), TimeoutStep::Sleep { millis: 500 }));
    assert!(matches!(timeouts.tick(&second), TimeoutStep::Sleep { millis: 500 }));
    first.cancel(&mut timeouts);
    assert!(first.is_cancelled(&timeouts) && clone.is_cancelled(&timeouts));
    assert!(!second.is_cancelled(&timeouts));
    for _ in 0..3 {
        assert!(matches!(timeouts.tick(&second), TimeoutStep::Sleep { millis: 500 }));
        assert!(matches!(timeouts.tick(&clone), TimeoutStep::Stop));
        clone.cancel(&mut timeouts);
    }
    spawn_timeout(&mut timeouts, "c", ConnectionState::Disconnecting, 5);
    assert!(first.is_cancelled(&timeouts));
    assert!(matches!(timeouts.tick(&first), TimeoutStep::Stop));
    match timeouts.tick(&second) {
        TimeoutStep::Fire(StateMessage::OperationTimeout { operation, state }) => {
            assert_eq!(operation, "b");
            assert_eq!(state, ConnectionState::Connecting);
        }
        _ => panic!("Unexpected step"),
    }
}

#[test]
fn a_handle_of_no_timeout_does_nothing() {
    let mut timeouts = Timeouts::new();
    let stray = TimeoutHandle { number: 3 };
    stray.cancel(&mut timeouts);
    assert!(!stray.is_cancelled(&timeouts));
    assert!(matches!(timeouts.tick(&stray), TimeoutStep::Stop));
}

#[test]
fn messages_are_told_as_text() {
    let port = SerialPortInfo::new("/dev/a\"b".into(), Some(0x0403), None);
    let told = "SerialPortInfo { path: \"/dev/a\\\"b\", vid: Some(1027), pid: None }";
    assert_eq!(told, format!("{:?}", port));
    let handle = PortHandle { id: 7, vid: Some(1), pid: Some(2) };

    let commands = [
        UiCommand::Connect { port: port.clone(), baud: 9600, framing: "8N1".into() },
        UiCommand::Disconnect,
        UiCommand::WriteData { data: vec![] },
        UiCommand::WriteData { data: vec![1, 20, 255] },
        UiCommand::SetDecoder { id: "hex".into() },
        UiCommand::SetFramer { id: "lines".into() },
        UiCommand::Reconfigure { baud: 0, framing: "Auto".into(), active_framing: "7E1".into() },
    ];
    for cmd in commands {
        let text = format!("{:?}", cmd);
        assert_eq!(
            StateMessage::UiCommandWithPort { cmd: cmd.clone(), port_handle: handle }.debug_text(),
            format!("UiCommandWithPort {{ cmd: {}, port_handle: \"<SerialPort>\" }}", text)
        );
        assert_eq!(StateMessage::UiCommand(cmd).debug_text(), format!("UiCommand({})", text));
    }

    assert_eq!(
        StateMessage::ConnectionEstablished { operation_id: 12 }.debug_text(),
        "ConnectionEstablished { operation_id: 12 }"
    );
    assert_eq!(
        StateMessage::ConnectionFailed { reason: "no".into() }.debug_text(),
        "ConnectionFailed { reason: \"no\" }"
    );
    assert_eq!(StateMessage::ConnectionLost.debug_text(), "ConnectionLost");
    assert_eq!(StateMessage::ConnectionClosed.debug_text(), "ConnectionClosed");
    assert_eq!(
        StateMessage::ProbeComplete {
            baud: 115200,
            framing: "8N1".into(),
            protocol: Some("mavlink".into()),
            initial_data: vec![1, 2],
        }
        .debug_text(),
        "ProbeComplete { baud: 115200, framing: \"8N1\", protocol: Some(\"mavlink\"), \
         initial_data: [1, 2] }"
    );
    assert_eq!(
        StateMessage::ProbeComplete {
            baud: 1,
            framing: String::new(),
            protocol: None,
            initial_data: vec![],
        }
        .debug_text(),
        "ProbeComplete { baud: 1, framing: \"\", protocol: None, initial_data: [] }"
    );
    assert_eq!(
        StateMessage::OperationTimeout {
            operation: "Probing".into(),
            state: ConnectionState::Probing,
        }
        .debug_text(),
        "OperationTimeout { operation: \"Probing\", state: Probing }"
    );

    // A port object is a placeholder; without one there is no such field
    for (port_handle, field) in [(None, ""), (Some(handle), ", port_handle: \"<SerialPort>\"")] {
        assert_eq!(
            StateMessage::DeviceReappeared { port: port.clone(), port_handle }.debug_text(),
            format!("DeviceReappeared {{ port: {}{} }}", told, field)
        );
        assert_eq!(
            PortMessage::Open {
                port: port.clone(),
                baud: 9600,
                framing: "8N1".into(),
                send_wakeup: true,
                operation_id: 3,
                port_handle,
            }
            .debug_text(),
            format!(
                "Open {{ port: {}, baud: 9600, framing: \"8N1\", send_wakeup: true, \
                 operation_id: 3{} }}",
                told, field
            )
        );
        assert_eq!(
            ProbeMessage::Start { port: port.clone(), port_handle }.debug_text(),
            format!("Start {{ port: {}{} }}", told, field)
        );
        assert_eq!(
            ReconnectMessage::DeviceConnected { port: port.clone(), port_handle }.debug_text(),
            format!("DeviceConnected {{ port: {}{} }}", told, field)
        );
    }

    assert_eq!(PortMessage::Close.debug_text(), "Close");
    assert_eq!(PortMessage::Write { data: vec![9] }.debug_text(), "Write { data: [9] }");
    assert_eq!(PortMessage::InjectData { data: vec![] }.debug_text(), "InjectData { data: [] }");
    assert_eq!(ProbeMessage::Abort.debug_text(), "Abort");
    assert_eq!(ReconnectMessage::ClearDevice.debug_text(), "ClearDevice");
    let config = SerialConfig::new_8n1(9600);
    assert_eq!(
        ReconnectMessage::RegisterDevice { vid: 1, pid: 2, config }.debug_text(),
        "RegisterDevice { vid: 1, pid: 2, config: SerialConfig { baud_rate: 9600, data_bits: 8, \
         stop_bits: 1, parity: None, flow_control: None } }"
    );
}
