use std::str::FromStr;

use futureterm::float::{Double, Single};
use futureterm::transport::{SerialConfig, SignalState, TransportError};
use futureterm::types::{
    Channel, DecodedEvent, DecoderId, Frame, FramerId, RawEvent, SelectionRange, SelectionSource,
    Value,
};

#[test]
fn test_decoded_event_builder() {
    let event = DecodedEvent::new(123456, "TEST", "Test Event")
        .with_field("temperature", Double { bits: 25.5f64.to_bits() })
        .with_field("valid", true);

    assert_eq!(event.protocol, "TEST");
    assert_eq!(
        event.fields.iter().find(|(k, _)| k == "temperature").unwrap().1,
        Value::F64(Double { bits: 25.5f64.to_bits() })
    );
    assert_eq!(
        event.fields.iter().find(|(k, _)| k == "valid").unwrap().1,
        Value::Bool(true)
    );
}

#[test]
fn an_added_field_is_found_by_its_key() {
    let mut event = DecodedEvent::new(5, "P", "S")
        .with_field("a", 1i64)
        .with_field("b", "text")
        .with_field("a", 2i64);
    assert_eq!(event.get_field("a"), Some(&Value::I64(1)));
    assert_eq!(event.get_field("b"), Some(&Value::String("text".into())));
    assert_eq!(event.get_field("c"), None);
    assert_eq!(event.confidence, Single { bits: 1.0f32.to_bits() });
    event.clear();
    assert!(event.fields.is_empty());
}

#[test]
fn values_have_texts() {
    assert_eq!(Value::I64(-12).text(), Ok("-12".to_string()));
    assert_eq!(Value::I64(i64::MIN).text(), Ok(i64::MIN.to_string()));
    assert_eq!(Value::Bool(true).text(), Ok("true".to_string()));
    assert_eq!(Value::String("abc".into()).text(), Ok("abc".to_string()));
    assert_eq!(Value::F64(Double { bits: 3 }).text(), Err(Double { bits: 3 }));
}

#[test]
fn test_decoder_id_conversions() {
    assert_eq!(DecoderId::Utf8.as_str(), "utf8");
    assert_eq!(DecoderId::Hex.as_str(), "hex");
    assert_eq!(DecoderId::Mavlink.as_str(), "mavlink");

    assert_eq!(DecoderId::from_str("utf8"), Ok(DecoderId::Utf8));
    assert_eq!(DecoderId::from_str("hex"), Ok(DecoderId::Hex));
    assert_eq!(DecoderId::from_str("mavlink"), Ok(DecoderId::Mavlink));
    assert!(DecoderId::from_str("invalid").is_err());
    assert_eq!(<DecoderId as FromStr>::from_str("hex"), Ok(DecoderId::Hex));

    assert_eq!(DecoderId::default(), DecoderId::Utf8);
}

#[test]
fn test_framer_id_conversions() {
    assert_eq!(FramerId::Lines.as_str(), "lines");
    assert_eq!(FramerId::Raw.as_str(), "raw");
    assert_eq!(FramerId::Cobs.as_str(), "cobs");
    assert_eq!(FramerId::Slip.as_str(), "slip");

    assert_eq!(FramerId::from_str("lines"), Ok(FramerId::Lines));
    assert_eq!(FramerId::from_str("raw"), Ok(FramerId::Raw));
    assert_eq!(FramerId::from_str("cobs"), Ok(FramerId::Cobs));
    assert_eq!(FramerId::from_str("slip"), Ok(FramerId::Slip));
    assert!(FramerId::from_str("invalid").is_err());
    assert_eq!(<FramerId as FromStr>::from_str("slip"), Ok(FramerId::Slip));

    assert_eq!(FramerId::default(), FramerId::Raw);
}

#[test]
fn test_decoder_id_compile_time_exhaustiveness() {
    let decoder = DecoderId::Utf8;
    match decoder {
        DecoderId::Utf8 => {}
        DecoderId::Hex => {}
        DecoderId::Mavlink => {}
    }
}

#[test]
fn test_framer_id_compile_time_exhaustiveness() {
    let framer = FramerId::Raw;
    match framer {
        FramerId::Lines => {}
        FramerId::Raw => {}
        FramerId::Cobs => {}
        FramerId::Slip => {}
    }
}

#[test]
fn a_frame_becomes_an_event() {
    let frame = Frame::new_tx(vec![1, 2, 3], 77);
    assert_eq!(frame.channel, Channel::Tx);
    let event = RawEvent::from_frame(&frame);
    assert_eq!(event.bytes, vec![1, 2, 3]);
    assert_eq!(event.timestamp_us, 77);
    assert_eq!(event.channel, Channel::Tx);
}

#[test]
fn a_selection_knows_its_bytes() {
    let range = SelectionRange::new(4, 9, 100, 200, SelectionSource::HexView);
    assert_eq!(range.byte_len(), 5);
    assert!(range.contains_offset(4));
    assert!(range.contains_offset(8));
    assert!(!range.contains_offset(9));
    assert!(!range.contains_offset(3));
}

#[test]
fn test_transport_error_already_open() {
    let err = TransportError::AlreadyOpen;
    assert_eq!(err.message(), "Already open");
    assert_eq!(err, TransportError::AlreadyOpen);
}

#[test]
fn test_transport_error_invalid_state() {
    let err = TransportError::InvalidState("port locked".into());
    assert_eq!(err.message(), "Invalid state: port locked");
}

#[test]
fn every_transport_error_has_its_texts() {
    assert_eq!(TransportError::Io("x".into()).message(), "IO Error: x");
    assert_eq!(TransportError::ConnectionFailed("x".into()).message(), "Connection failed: x");
    assert_eq!(TransportError::NotConnected.message(), "Not connected");
    assert_eq!(TransportError::Other("x".into()).message(), "Other: x");
    for error in [
        TransportError::Io("a \"b\"\n".into()),
        TransportError::ConnectionFailed("x".into()),
        TransportError::NotConnected,
        TransportError::AlreadyOpen,
        TransportError::InvalidState("".into()),
        TransportError::Other("é\u{7}".into()),
    ] {
        assert_eq!(error.debug_text(), format!("{:?}", error));
    }
}

#[test]
fn test_transport_error_pattern_matching() {
    // Verify retriable errors
    let retriable_errors = vec![
        TransportError::AlreadyOpen,
        TransportError::InvalidState("test".into()),
    ];

    for err in retriable_errors {
        match err {
            TransportError::AlreadyOpen | TransportError::InvalidState(_) => {}
            _ => panic!("Expected retriable error, got: {}", err.message()),
        }
    }

    // Verify non-retriable errors
    let non_retriable_errors = vec![
        TransportError::NotConnected,
        TransportError::Io("timeout".into()),
    ];

    for err in non_retriable_errors {
        match err {
            TransportError::AlreadyOpen | TransportError::InvalidState(_) => {
                panic!("Expected non-retriable error, got: {}", err.message());
            }
            _ => {}
        }
    }
}

#[test]
fn test_signal_state_default() {
    let signals = SignalState::default();
    assert!(!signals.dtr);
    assert!(!signals.rts);
    assert!(!signals.dcd);
    assert!(!signals.dsr);
    assert!(!signals.ri);
    assert!(!signals.cts);
}

#[test]
fn test_serial_config_default() {
    let config = SerialConfig::default();
    assert_eq!(config.baud_rate, 115200);
    assert_eq!(config.data_bits, 8);
    assert_eq!(config.flow_control, "none");
    assert_eq!(config.parity, "none");
    assert_eq!(config.stop_bits, 1);
}

#[test]
fn a_transport_error_is_shown_for_programmers() {
    let text = || "say \"no\"\n".to_string();
    assert_eq!(TransportError::Io(text()).debug_text(), "Io(\"say \\\"no\\\"\\n\")");
    assert_eq!(
        TransportError::ConnectionFailed(text()).debug_text(),
        "ConnectionFailed(\"say \\\"no\\\"\\n\")"
    );
    assert_eq!(TransportError::NotConnected.debug_text(), "NotConnected");
    assert_eq!(TransportError::AlreadyOpen.debug_text(), "AlreadyOpen");
    assert_eq!(
        TransportError::InvalidState("locked".into()).debug_text(),
        "InvalidState(\"locked\")"
    );
    assert_eq!(TransportError::Other("x".into()).debug_text(), "Other(\"x\")");
}
