use futureterm::float::Double;
use futureterm::protocol::errors::ActorError;
use futureterm::protocol::messages::{
    FlowControl, ParityMode, ProbeResult, SerialConfig, SerialPortInfo,
};
use futureterm::protocol::state::{ConnectionState, LOCK_FLAG, STATE_MASK};

const STATES: [ConnectionState; 8] = [
    ConnectionState::Disconnected,
    ConnectionState::Probing,
    ConnectionState::Connecting,
    ConnectionState::Connected,
    ConnectionState::Reconfiguring,
    ConnectionState::Disconnecting,
    ConnectionState::DeviceLost,
    ConnectionState::AutoReconnecting,
];

#[test]
fn test_error_display() {
    let err = ActorError::InvalidTransition("Disconnected → Connected".into());
    assert_eq!(err.message(), "Invalid state transition: Disconnected → Connected");
}

#[test]
fn test_error_from_string() {
    let err: ActorError = "Test error".into();
    match err {
        ActorError::Other(msg) => assert_eq!(msg, "Test error"),
        _ => panic!("Wrong variant"),
    }
}

#[test]
fn errors_test_unexpected_message_error() {
    let err = ActorError::UnexpectedMessage {
        state: "Disconnected".into(),
        message: "ConnectionEstablished".into(),
    };
    assert!(err.message().contains("Unexpected message in state Disconnected"));
    assert_eq!(
        err.message(),
        "Unexpected message in state Disconnected: ConnectionEstablished"
    );
}

#[test]
fn every_error_has_its_text() {
    assert_eq!(ActorError::ChannelClosed("x".into()).message(), "Channel closed: x");
    assert_eq!(ActorError::Timeout("x".into()).message(), "Operation timeout: x");
    assert_eq!(ActorError::Transport("x".into()).message(), "Transport error: x");
    assert_eq!(ActorError::Config("x".into()).message(), "Configuration error: x");
    assert_eq!(ActorError::DeviceNotFound("x".into()).message(), "Device not found: x");
    assert_eq!(ActorError::Other("x".into()).message(), "x");
    assert_eq!(ActorError::from(String::from("y")).message(), "y");
}

#[test]
fn test_serial_config_8n1() {
    let config = SerialConfig::new_8n1(115200);
    assert_eq!(config.baud_rate, 115200);
    assert_eq!(config.data_bits, 8);
    assert_eq!(config.stop_bits, 1);
    assert_eq!(config.parity, ParityMode::Off);
    assert_eq!(config.flow_control, FlowControl::Off);
}

#[test]
fn a_framing_gives_its_configuration() {
    let config = SerialConfig::from_framing("7E1", 9600);
    assert_eq!(config.baud_rate, 9600);
    assert_eq!(config.data_bits, 7);
    assert_eq!(config.parity, ParityMode::Even);
    assert_eq!(config.stop_bits, 1);
    assert_eq!(config.flow_control, FlowControl::Off);

    let config = SerialConfig::from_framing("8o2", 300);
    assert_eq!((config.baud_rate, config.data_bits, config.stop_bits), (300, 8, 2));
    assert_eq!(config.parity, ParityMode::Odd);

    assert_eq!(SerialConfig::from_framing("8N1", 115200), SerialConfig::new_8n1(115200));
}

#[test]
fn a_text_that_is_no_framing_gives_8n1() {
    for text in ["", "Auto", "8X1", "5N1", "9E1", "7E3", "7E", "7E11"] {
        assert_eq!(SerialConfig::from_framing(text, 9600), SerialConfig::new_8n1(9600));
    }
}

#[test]
fn test_probe_result_default() {
    let result = ProbeResult::default();
    assert_eq!(result.baud, 115200);
    assert_eq!(result.framing, "8N1");
    assert_eq!(result.protocol, None);
    assert_eq!(f64::from_bits(result.confidence.bits), 0.0);
    assert_eq!(result.confidence, Double { bits: 0 });
    assert!(result.initial_data.is_empty());
}

#[test]
fn a_port_keeps_its_parts() {
    let info = SerialPortInfo::new("/dev/ttyUSB0".into(), Some(0x1234), Some(0x5678));
    let copy = info.clone();
    assert_eq!(copy.path, "/dev/ttyUSB0");
    assert_eq!(copy, info);
}

#[test]
fn test_state_conversion_roundtrip() {
    let states = STATES;
    for state in states {
        let u8_val = state.to_u8();
        let recovered = ConnectionState::from_u8(u8_val).unwrap();
        assert_eq!(state, recovered);
    }
}

#[test]
fn the_lock_flag_is_masked_off() {
    assert_eq!(STATE_MASK, 0x7F);
    assert_eq!(LOCK_FLAG, 0x80);
    for value in 0..=255u8 {
        let state = ConnectionState::from_u8(value);
        assert_eq!(state, ConnectionState::from_u8(value & STATE_MASK));
        assert_eq!(state.is_some(), value & STATE_MASK < 8);
    }
}

#[test]
fn test_valid_transitions() {
    assert!(ConnectionState::Disconnected.can_transition_to(ConnectionState::Connecting));
    assert!(ConnectionState::Connecting.can_transition_to(ConnectionState::Connected));
    assert!(ConnectionState::Connected.can_transition_to(ConnectionState::Disconnecting));
    assert!(ConnectionState::Disconnecting.can_transition_to(ConnectionState::Disconnected));
}

#[test]
fn test_invalid_transitions() {
    // Cannot go directly from Disconnected to Connected
    assert!(!ConnectionState::Disconnected.can_transition_to(ConnectionState::Connected));

    // Cannot go from Connected to Probing
    assert!(!ConnectionState::Connected.can_transition_to(ConnectionState::Probing));
}

#[test]
fn a_reconfiguration_may_close_open_again_or_be_given_up() {
    for state in STATES {
        assert_eq!(
            ConnectionState::Reconfiguring.can_transition_to(state),
            matches!(
                state,
                ConnectionState::Connected
                    | ConnectionState::DeviceLost
                    | ConnectionState::Connecting
                    | ConnectionState::Disconnecting
            )
        );
        assert_eq!(
            ConnectionState::Disconnecting.can_transition_to(state),
            matches!(state, ConnectionState::Disconnected | ConnectionState::Connecting)
        );
    }
}

#[test]
fn a_user_can_disconnect_while_something_is_open_or_awaited() {
    for state in STATES {
        assert_eq!(
            state.can_disconnect(),
            state != ConnectionState::Disconnected && state != ConnectionState::Disconnecting
        );
    }
}

#[test]
fn a_connection_comes_only_from_opening() {
    for state in STATES {
        if state.can_transition_to(ConnectionState::Connected) {
            assert!(matches!(
                state,
                ConnectionState::Connecting
                    | ConnectionState::AutoReconnecting
                    | ConnectionState::Reconfiguring
            ));
        }
    }
}
