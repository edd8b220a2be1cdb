use futureterm::actors::constants::BAUD_CANDIDATES;
use futureterm::actors::probe_actor::actor::{ProbeActor, ProbeStep, ProbeTurn};
use futureterm::actors::probe_actor::classifier::{
    analyze_buffer, classify, verify_mavlink_integrity,
};
use futureterm::actors::probe_actor::gathering::{
    after_close, after_cooldown, probe_config, probe_port, OpenAttempts, OpenStep, ProbeReading,
};
use futureterm::float::Double;
use futureterm::protocol::errors::ActorError;
use futureterm::protocol::messages::{ProbeResult, SerialPortInfo, SystemEvent};
use futureterm::runtime::channels::{PortHandle, ProbeMessage, StateMessage};
use futureterm::transport::TransportError;

fn confidence(result: &ProbeResult) -> f64 {
    f64::from_bits(result.confidence.bits)
}

/// MAVLink v1 HEARTBEAT, sequence 0
const V1: [u8; 17] = [
    0xFE, 0x09, 0x00, 0x01, 0x01, 0x00, 0x00, 0x00, 0x00, 0x00, 0x02, 0x03, 0x00, 0x04, 0x03, 0xD0,
    0x14,
];

/// MAVLink v2 HEARTBEAT
const V2: [u8; 21] = [
    0xFD, 0x09, 0x00, 0x00, 0x00, 0x01, 0x01, 0x00, 0x00, 0x00, 0x00, 0x00, 0x00, 0x00, 0x02, 0x03,
    0x00, 0x04, 0x03, 0x4A, 0xD7,
];

#[test]
fn test_analyze_mavlink() {
    // Shape of a MAVLink v1 packet: FE len=3 ... total=3+8=11 bytes
    let buffer = vec![0xFE, 0x03, 0x01, 0x01, 0x01, 0x00, 0x00, 0x00, 0x00, 0x00, 0x00];
    let result = analyze_buffer(&buffer, 115200);

    assert_eq!(result.baud, 115200);
    assert_eq!(result.protocol, Some("mavlink".into()));
    assert!(confidence(&result) > 0.9);
}

#[test]
fn test_analyze_nmea() {
    let buffer = b"$GPGGA,123519,4807.038,N,01131.000,E".to_vec();
    let result = analyze_buffer(&buffer, 9600);

    assert_eq!(result.baud, 9600);
    assert_eq!(result.protocol, Some("nmea".into()));
    assert!(confidence(&result) > 0.85);
}

#[test]
fn test_analyze_text() {
    let buffer = b"Hello World\nThis is text\n".to_vec();
    let result = analyze_buffer(&buffer, 115200);

    // Text data should be detected with good confidence, but protocol should be None
    assert_eq!(result.protocol, None);
    assert!(confidence(&result) > 0.5);
}

#[test]
fn test_analyze_empty() {
    let result = analyze_buffer(&[], 115200);
    assert_eq!(confidence(&result), 0.0);
}

#[test]
fn test_abort_sets_flag() {
    let mut actor = ProbeActor::new();
    assert!(!actor.interrupt_flag);
    actor.handle_abort();
    assert!(actor.interrupt_flag);
}

#[test]
fn test_probe_interrupted_by_user() {
    let mut actor = ProbeActor::new();
    let turn = actor.handle_start(None);
    assert!(matches!(turn.event, Some(SystemEvent::ProbeProgress { .. })));
    actor.handle_abort();
    let turn = actor.gathered(115200, Ok(Vec::new()));
    match turn.event {
        Some(SystemEvent::StatusUpdate { message }) => assert!(message.contains("cancelled")),
        event => panic!("Unexpected event: {:?}", event),
    }
    match turn.step {
        ProbeStep::Finished(Err(ActorError::Other(msg))) => assert!(msg.contains("aborted")),
        _ => panic!("Unexpected step"),
    }
    assert!(actor.interrupt_flag);
}

#[test]
fn test_probe_emits_progress() {
    let mut actor = ProbeActor::new();
    match actor.handle_start(None).event {
        Some(SystemEvent::ProbeProgress { baud, .. }) => {
            // Should be one of our candidates
            assert!([115200, 1500000, 921600, 57600, 9600, 38400, 19200].contains(&baud));
            assert!(BAUD_CANDIDATES.contains(&baud));
        }
        _ => panic!("Expected ProbeProgress event"),
    }
}

fn search(gather: fn(u32) -> Result<Vec<u8>, ActorError>) -> (Vec<u32>, ProbeStep) {
    let mut actor = ProbeActor::new_in_browser();
    let mut tried = Vec::new();
    let mut turn: ProbeTurn = actor.handle_start(None);
    loop {
        turn = match turn.step {
            ProbeStep::Gather { baud } => {
                tried.push(baud);
                actor.gathered(baud, gather(baud))
            }
            ProbeStep::Pause { millis } => {
                assert_eq!(millis, 500);
                actor.proceed()
            }
            step => return (tried, step),
        };
    }
}

#[test]
fn test_probe_reports_success() {
    let (_, step) = search(|_| Ok(b"Some text from a device\r\n".to_vec()));
    match step {
        ProbeStep::Report { msg: StateMessage::ProbeComplete { baud, framing, .. }, .. } => {
            assert!(baud > 0);
            assert!(!framing.is_empty());
        }
        _ => panic!("Expected ProbeComplete"),
    }
}

#[test]
fn all_rates_are_tried_in_order_before_giving_up() {
    let (tried, step) = search(|_| Ok(Vec::new()));
    assert_eq!(tried, BAUD_CANDIDATES.to_vec());
    match step {
        ProbeStep::Report { msg: StateMessage::ConnectionFailed { reason }, on_failure } => {
            assert_eq!(reason, "Auto-detection failed: no valid signal detected");
            assert_eq!(on_failure, "StateActor unavailable during probe failure");
        }
        _ => panic!("Unexpected step"),
    }
}

#[test]
fn the_last_error_is_told() {
    let (tried, step) = search(|_| Err(ActorError::Transport("unplugged".into())));
    assert_eq!(tried.len(), BAUD_CANDIDATES.len());
    match step {
        ProbeStep::Report { msg: StateMessage::ConnectionFailed { reason }, .. } => {
            assert_eq!(reason, "Auto-detection passed with errors. Last error: unplugged");
        }
        _ => panic!("Unexpected step"),
    }
}

#[test]
fn a_fatal_error_halts_the_search() {
    let (tried, step) = search(|_| Err(ActorError::Transport("x InvalidState y".into())));
    assert_eq!(tried.len(), 1);
    match step {
        ProbeStep::Report { msg: StateMessage::ConnectionFailed { reason }, .. } => {
            assert_eq!(reason, "Probe halted: x InvalidState y");
        }
        _ => panic!("Unexpected step"),
    }
    let (tried, step) = search(|_| Err(ActorError::Timeout("t".into())));
    assert_eq!(tried.len(), 1);
    assert!(matches!(step, ProbeStep::Finished(Err(ActorError::Timeout(_)))));
}

#[test]
fn a_certain_result_ends_the_search() {
    let (tried, step) = search(|_| Ok(V1.to_vec()));
    assert_eq!(tried.len(), 1);
    match step {
        ProbeStep::Report {
            msg: StateMessage::ProbeComplete { baud, protocol, initial_data, .. },
            ..
        } => {
            assert_eq!(baud, BAUD_CANDIDATES[0]);
            assert_eq!(protocol, Some("mavlink".to_string()));
            assert_eq!(initial_data, V1.to_vec());
        }
        _ => panic!("Unexpected step"),
    }
}

#[test]
fn the_best_result_is_kept() {
    let mut actor = ProbeActor::new();
    actor.handle_start(None);
    let result = |baud: u32, confidence: f64| ProbeResult {
        baud,
        confidence: Double { bits: confidence.to_bits() },
        ..ProbeResult::default()
    };
    actor.weigh(result(1, 0.5), 1, 10);
    actor.weigh(result(2, 0.4), 2, 10);
    assert_eq!(actor.best_result.baud, 1);
    actor.weigh(result(3, 0.6), 3, 10);
    assert_eq!(actor.best_result.baud, 3);
    actor.weigh(result(4, 0.6), 4, 10);
    assert_eq!(actor.best_result.baud, 3);
    assert_eq!(f64::from_bits(actor.best_score.bits), 0.6);
}

#[test]
fn test_probe_complete_send_failure() {
    assert!(ProbeActor::report_result(true, "x").is_ok());
    match ProbeActor::report_result(false, "StateActor unavailable during ProbeComplete") {
        Err(ActorError::ChannelClosed(text)) => {
            assert_eq!(text, "StateActor unavailable during ProbeComplete")
        }
        r => panic!("Should fail when channel is closed, got {:?}", r),
    }
}

#[test]
fn test_analyze_binary() {
    let buffer = vec![0x00, 0x01, 0x02, 0xFF, 0xAA, 0x55];
    let result = analyze_buffer(&buffer, 115200);

    // Should detect as generic binary with moderate confidence
    assert_eq!(result.protocol, None);
    assert!(confidence(&result) > 0.0);
    assert!(confidence(&result) < 0.7);
}

#[test]
fn test_probe_handles_multiple_protocols_in_buffer() {
    let mut buffer = V1.to_vec();
    // Append NMEA-like data to test mixed protocols
    buffer.extend_from_slice(b"$GPGGA,123519");

    let result = analyze_buffer(&buffer, 115200);

    // Should detect MAVLink due to strong integrity verification
    assert_eq!(result.protocol, Some("mavlink".to_string()));
    assert!(confidence(&result) > 0.5);
}

#[test]
fn test_probe_with_very_low_baud() {
    let result = analyze_buffer(b"Hello World", 300);
    assert!(confidence(&result) > 0.0);
}

#[test]
fn test_probe_with_very_high_baud() {
    let result = analyze_buffer(b"Test data", 921600);
    assert!(confidence(&result) > 0.0);
}

#[test]
fn test_abort_message_sets_interrupt_flag() {
    let mut actor = ProbeActor::new_in_browser();
    actor.handle_abort();
    assert!(actor.interrupt_flag);
    assert_eq!(actor.name(), "ProbeActor");
}

#[test]
fn test_probe_with_partial_mavlink_frame() {
    // Incomplete MAVLink frame (header only)
    let buffer = vec![0xFE, 0x09, 0x00, 0x01, 0x01];
    let result = analyze_buffer(&buffer, 115200);
    assert!(confidence(&result) >= 0.0);
    assert_eq!(result.baud, 115200);
}

#[test]
fn test_probe_with_ascii_control_characters() {
    let result = analyze_buffer(b"\x1b[0m\r\n$ Hello", 115200);
    assert!(confidence(&result) > 0.0);
}

#[test]
fn test_probe_result_includes_initial_data() {
    let result = ProbeResult {
        baud: 115200,
        framing: "8N1".to_string(),
        protocol: Some("mavlink".to_string()),
        initial_data: vec![1, 2, 3, 4, 5],
        confidence: Double { bits: 0.95f64.to_bits() },
    };
    assert_eq!(result.baud, 115200);
    assert_eq!(result.framing, "8N1");
    assert_eq!(result.protocol, Some("mavlink".to_string()));
    assert_eq!(result.initial_data, vec![1, 2, 3, 4, 5]);
    assert_eq!(confidence(&result), 0.95);
}

#[test]
fn test_probe_with_repeated_characters() {
    let result = analyze_buffer(b"AAAAAAAAAA", 115200);
    assert!(confidence(&result) > 0.0);
}

#[test]
fn test_probe_confidence_mavlink_vs_text() {
    // Two valid MAVLink v1 HEARTBEAT messages (34 bytes total)
    let mut mavlink_buffer = V1.to_vec();
    mavlink_buffer.extend_from_slice(&[
        0xFE, 0x09, 0x01, 0x01, 0x01, 0x00, 0x00, 0x00, 0x00, 0x00, 0x02, 0x03, 0x00, 0x04, 0x03,
        0x3A, 0x6A,
    ]);

    // Use mixed binary and text to get lower confidence score
    let text_buffer = b"\x01\x02\x03Hello\xFF\xFE test data\x00";

    let mavlink_result = analyze_buffer(&mavlink_buffer, 115200);
    let text_result = analyze_buffer(text_buffer, 115200);

    // Both should have some confidence
    assert!(confidence(&mavlink_result) >= 0.0);
    assert!(confidence(&text_result) >= 0.0);

    // MAVLink should have higher confidence (1.0) due to integrity verification
    assert!(confidence(&mavlink_result) > confidence(&text_result));
}

#[test]
fn test_probe_mavlink_v2_detection() {
    let result = analyze_buffer(&V2, 115200);

    // Should detect MAVLink v2 with high confidence
    assert_eq!(result.protocol, Some("mavlink".to_string()));
    assert_eq!(
        confidence(&result),
        1.0,
        "Should have perfect confidence for verified MAVLink v2"
    );
}

#[test]
fn test_probe_mavlink_v1_and_v2_mixed() {
    let mut buffer = V1.to_vec();
    buffer.extend_from_slice(&V2);

    let result = analyze_buffer(&buffer, 115200);

    // Should detect MAVLink (either v1 or v2)
    assert_eq!(result.protocol, Some("mavlink".to_string()));
    assert_eq!(confidence(&result), 1.0, "Should verify mixed v1/v2 messages");
}

#[test]
fn only_a_whole_packet_is_verified() {
    assert!(verify_mavlink_integrity(&V1));
    let mut damaged = V1;
    damaged[16] ^= 1;
    assert!(!verify_mavlink_integrity(&damaged));
    assert!(!verify_mavlink_integrity(&V1[..16]));
    assert!(!verify_mavlink_integrity(&[]));
}

#[test]
fn a_verified_buffer_is_certain() {
    let result = classify(b"anything", 9600, true);
    assert_eq!(result.protocol, Some("mavlink".to_string()));
    assert_eq!(confidence(&result), 1.0);
    assert_eq!(result.initial_data, b"anything".to_vec());
    assert_eq!(result.baud, 9600);
}

#[test]
fn the_port_is_tried_a_few_times() {
    let mut attempts = OpenAttempts::new();
    let mut tries = 0;
    loop {
        assert!(matches!(attempts.next(false), OpenStep::Try));
        tries += 1;
        let outcome = Err(TransportError::ConnectionFailed("busy".into()));
        match attempts.tried(Some(outcome), false) {
            OpenStep::Wait { millis } => assert_eq!(millis, 200),
            OpenStep::Failed(ActorError::Transport(text)) => {
                assert_eq!(text, "Failed to open port: Connection failed: busy");
                break;
            }
            _ => panic!("Unexpected step"),
        }
    }
    assert_eq!(tries, 5);
}

#[test]
fn an_interruption_ends_the_gathering() {
    let mut attempts = OpenAttempts::new();
    assert!(matches!(attempts.next(true), OpenStep::Failed(ActorError::Other(_))));
    assert!(matches!(attempts.tried(None, true), OpenStep::Failed(ActorError::Other(_))));
    assert!(matches!(attempts.tried(Some(Ok(())), true), OpenStep::Failed(ActorError::Other(_))));
    assert!(matches!(attempts.tried(Some(Ok(())), false), OpenStep::Opened));
    assert!(attempts.waited(true).is_ok());
    assert!(attempts.waited(false).is_err());
    assert!(after_close(true, true).is_err());
    assert!(after_close(false, true).is_ok());
    assert!(after_cooldown(true, false).is_ok());
    assert!(after_cooldown(false, false).is_err());
    assert!(after_cooldown(true, true).is_err());
}

#[test]
fn reading_stops_when_there_is_enough() {
    let mut reading = ProbeReading::new();
    assert_eq!(reading.next_wait(0), Some(150));
    assert!(reading.received(&[0xFF; 60]));
    assert_eq!(reading.next_wait(0), Some(250));
    assert_eq!(reading.next_wait(245), Some(10));
    assert_eq!(reading.next_wait(251), None);
    assert!(!reading.received(&[0xFF; 141]));

    let mut text = ProbeReading::new();
    assert!(text.received(&[0x41; 64]));
    assert!(!text.received(&[0x41; 1]));
}

#[test]
fn data_is_gathered_with_8n1() {
    let config = probe_config(57600);
    assert_eq!(config.baud_rate, 57600);
    assert_eq!((config.data_bits, config.stop_bits), (8, 1));
    assert_eq!(config.parity, "none");
    let handle = PortHandle { id: 1, vid: None, pid: None };
    assert!(matches!(probe_port(Some(handle)), Ok(h) if h == handle));
    assert!(matches!(probe_port(None), Err(ActorError::Transport(_))));
}

#[test]
fn a_confidence_that_is_no_gain_is_not_kept() {
    let mut actor = ProbeActor::new();
    actor.handle_start(None);
    for confidence in [-1.0, -0.0, 0.0, f64::NAN, -f64::NAN, f64::NEG_INFINITY] {
        actor.weigh(
            ProbeResult {
                baud: 7,
                confidence: Double { bits: confidence.to_bits() },
                ..ProbeResult::default()
            },
            7,
            10,
        );
        assert_eq!(actor.best_result.baud, 115200);
    }
}

#[test]
fn doubles_are_compared_by_value() {
    let values = [
        f64::NEG_INFINITY,
        -2.5,
        -1.0,
        -f64::MIN_POSITIVE,
        -0.0,
        0.0,
        f64::MIN_POSITIVE,
        0.3,
        1.0,
        f64::MAX,
        f64::INFINITY,
        f64::NAN,
        -f64::NAN,
    ];
    for a in values {
        for b in values {
            let (x, y) = (Double { bits: a.to_bits() }, Double { bits: b.to_bits() });
            assert_eq!(x.exceeds(y), a > b, "{} > {}", a, b);
            assert_eq!(x.reaches(y), a >= b, "{} >= {}", a, b);
        }
    }
}

#[test]
fn messages_start_and_stop_a_search() {
    let mut actor = ProbeActor::new_in_browser();
    let handle = PortHandle { id: 3, vid: None, pid: None };
    let turn = actor.handle(ProbeMessage::Start {
        port: SerialPortInfo::new("/dev/ttyUSB0".into(), None, None),
        port_handle: Some(handle),
    });
    assert!(matches!(turn.step, ProbeStep::Gather { baud } if baud == BAUD_CANDIDATES[0]));
    assert_eq!(actor.port_handle, Some(handle));

    let turn = actor.handle(ProbeMessage::Abort);
    assert!(matches!(turn.step, ProbeStep::Finished(Ok(()))));
    assert!(actor.interrupt_flag);
    assert_eq!(actor.port_handle, Some(handle));
}
