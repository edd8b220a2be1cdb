use futureterm::browser::webserial::{
    classify_open_failure, input_signals, OpenFailure, ReadEnd, ReadStart, TearDown,
    WebSerialTransport,
};
use futureterm::browser::websocket::{
    judge_reply, ports_failure, ports_in, ports_of_response, sort_message, Incoming, ReplyStep,
    Verdict, WebSocketTransport, RESPONSE_POLLS,
};
use futureterm::encoding::{base64_decode, base64_encode};
use futureterm::json::Json;
use futureterm::transport::TransportError;

fn connected() -> WebSocketTransport {
    let mut transport = WebSocketTransport::new();
    transport.opened();
    transport
}

fn field(text: &str, key: &str) -> serde_json::Value {
    let value: serde_json::Value = serde_json::from_str(text).unwrap();
    value.get(key).unwrap().clone()
}

#[test]
fn test_transport_default() {
    let transport = WebSocketTransport::default();
    assert!(!transport.is_open(true));
    assert_eq!(transport.next_id, 1);
    assert!(connected().is_open(true));
    assert!(!connected().is_open(false));
}

#[test]
fn base64_carries_data_both_ways() {
    let data = b"Hello, Bridge!";
    let encoded = base64_encode(data);
    let decoded = base64_decode(&encoded).unwrap_or_default();
    assert_eq!(decoded, data);
}

#[test]
fn requests_are_numbered_and_say_what_they_want() {
    let mut transport = connected();
    let q = transport.list_ports().unwrap();
    assert_eq!((q.id, q.expected), (1, "ports_list"));
    assert_eq!(q.text, r#"{"type":"list_ports","id":1}"#);

    let q = transport.open_port("/dev/\"x\"", 57600).unwrap();
    assert_eq!((q.id, q.expected), (2, "opened"));
    assert_eq!(field(&q.text, "type"), "open");
    assert_eq!(field(&q.text, "id"), 2);
    assert_eq!(field(&q.text, "path"), "/dev/\"x\"");
    assert_eq!(field(&q.text, "baud_rate"), 57600);

    let q = transport.set_baud_rate(9600).unwrap();
    assert_eq!((q.id, q.expected), (3, "config_set"));
    assert_eq!(field(&q.text, "type"), "set_config");
    assert_eq!(field(&q.text, "baud_rate"), 9600);

    let q = transport.write(b"Hello").unwrap();
    assert_eq!((q.id, q.expected), (4, "written"));
    assert_eq!(field(&q.text, "type"), "write");
    assert_eq!(field(&q.text, "data"), "SGVsbG8=");

    let q = transport.close_port().unwrap();
    assert_eq!((q.id, q.expected), (5, "closed"));
    assert_eq!(q.text, r#"{"type":"close","id":5}"#);
    assert_eq!(transport.next_id, 6);
}

#[test]
fn without_a_socket_nothing_is_sent() {
    let mut transport = WebSocketTransport::new();
    assert_eq!(transport.write(b"x").err(), Some(TransportError::NotConnected));
    assert_eq!(transport.next_id, 1);
    assert_eq!(transport.list_ports().err(), Some(TransportError::NotConnected));
    assert_eq!(transport.open_port("p", 1).err(), Some(TransportError::NotConnected));
    assert_eq!(transport.close_port().err(), Some(TransportError::NotConnected));
    assert_eq!(transport.set_baud_rate(1).err(), Some(TransportError::NotConnected));
    assert_eq!(transport.next_id, 5);
}

#[test]
fn data_is_collected_and_read() {
    let mut transport = connected();
    transport.on_text(r#"{"type":"data","data":"SGVs"}"#.into());
    transport.on_text(r#"{"type":"data","data":"bG8="}"#.into());
    transport.on_text(r#"{"type":"data","data":"***"}"#.into());
    transport.on_text(r#"{"type":"data"}"#.into());
    transport.on_text("nonsense".into());
    transport.on_binary(vec![0x21]);
    assert!(transport.control_messages.is_empty());
    assert_eq!(transport.read_chunk(true, 99), Ok((b"Hello!".to_vec(), 99)));
    assert_eq!(transport.read_chunk(true, 100), Ok((vec![], 0)));
    transport.on_binary(vec![1, 2]);
    transport.clear_rx_buffer();
    assert_eq!(transport.read_chunk(true, 101), Ok((vec![], 0)));
}

#[test]
fn a_socket_that_failed_cannot_be_read() {
    let mut transport = connected();
    assert_eq!(
        transport.read_chunk(false, 1),
        Err(TransportError::Io("WebSocket closed".into()))
    );
    transport.on_error("reset");
    assert_eq!(
        transport.read_chunk(true, 1),
        Err(TransportError::Io("WebSocket error: reset".into()))
    );
    assert!(transport.close());
    assert!(!transport.close());
}

#[test]
fn an_answer_is_found_by_its_number() {
    let mut transport = connected();
    transport.on_text(r#"{"type":"hello","version":"1"}"#.into());
    transport.on_text(r#"{"type":"opened","id":7}"#.into());
    transport.on_text(r#"{"type":"opened","id":8}"#.into());
    transport.on_text(r#"{"type":"error","id":9,"message":"no such port"}"#.into());
    transport.on_text(r#"{"type":"error","id":10}"#.into());
    assert_eq!(transport.control_messages.len(), 5);

    assert_eq!(
        transport.take_response("opened", 8),
        Some(Ok(r#"{"type":"opened","id":8}"#.to_string()))
    );
    assert_eq!(transport.take_response("opened", 8), None);
    assert_eq!(
        transport.take_response("opened", 9),
        Some(Err(TransportError::Io("no such port".into())))
    );
    assert_eq!(
        transport.take_response("opened", 10),
        Some(Err(TransportError::Io("Unknown error".into())))
    );
    assert_eq!(transport.control_messages.len(), 2);
}

#[test]
fn an_answer_is_waited_for_only_so_long() {
    let mut transport = connected();
    for polls in 0..RESPONSE_POLLS {
        assert!(matches!(
            transport.await_response("opened", 1, polls),
            ReplyStep::Sleep { millis: 100 }
        ));
    }
    match transport.await_response("opened", 1, RESPONSE_POLLS) {
        ReplyStep::Done(Err(TransportError::Io(text))) => {
            assert_eq!(text, "Timeout waiting for response")
        }
        step => panic!("Unexpected step {:?}", step),
    }
    transport.on_text(r#"{"type":"opened","id":1}"#.into());
    assert!(matches!(transport.await_response("opened", 1, 3), ReplyStep::Done(Ok(_))));
}

fn text(s: &str) -> Result<Option<Json>, String> {
    Ok(Some(Json::Text(s.into())))
}

#[test]
fn messages_are_sorted_by_their_fields() {
    assert!(matches!(sort_message(Err("x".into()), Ok(None)), Incoming::Ignored));
    assert!(matches!(sort_message(Ok(None), Ok(None)), Incoming::Control));
    assert!(matches!(sort_message(text("data"), Ok(None)), Incoming::Ignored));
    assert!(matches!(sort_message(text("data"), text("a")), Incoming::Data { encoded } if encoded == "a"));
    assert!(matches!(sort_message(text("opened"), text("a")), Incoming::Control));
    let number = |n: u64| Ok(Some(Json::Number(n)));
    assert!(matches!(judge_reply(text("opened"), number(1), Ok(None), "opened", 1), Verdict::Answer));
    assert!(matches!(
        judge_reply(text("opened"), number(2), Ok(None), "opened", 1),
        Verdict::Unrelated
    ));
    assert!(matches!(
        judge_reply(text("opened"), text("1"), Ok(None), "opened", 1),
        Verdict::Unrelated
    ));
    assert!(matches!(
        judge_reply(text("error"), number(1), text("m"), "opened", 1),
        Verdict::Failure { message } if message == "m"
    ));
    assert!(matches!(
        judge_reply(Err("x".into()), number(1), text("m"), "opened", 1),
        Verdict::Unrelated
    ));
}

#[test]
fn ports_are_found_in_an_answer() {
    match ports_of_response(r#"{"type":"ports_list","id":1,"ports":[{"path":"p"}]}"#) {
        Ok(Json::Other(text)) => assert_eq!(text, r#"[{"path":"p"}]"#),
        r => panic!("Unexpected result {:?}", r),
    }
    assert_eq!(
        ports_of_response(r#"{"type":"ports_list"}"#).err(),
        Some(TransportError::Io("No ports in response".into()))
    );
    assert!(matches!(ports_in(text("x")), Ok(Json::Text(_))));
    assert_eq!(
        ports_failure("bad"),
        TransportError::Io("Failed to parse ports: bad".into())
    );
}

fn failure(is_object: bool, name: Option<&str>, message: Option<&str>) -> OpenFailure {
    OpenFailure {
        description: "JsValue(InvalidStateError: x)".into(),
        is_object,
        name: name.map(|s| s.to_string()),
        message: message.map(|s| s.to_string()),
    }
}

#[test]
fn a_failed_open_is_classified() {
    assert_eq!(
        classify_open_failure(failure(true, Some("InvalidStateError"), Some("m"))),
        TransportError::AlreadyOpen
    );
    assert_eq!(
        classify_open_failure(failure(true, Some("NetworkError"), Some("The port is Already Open."))),
        TransportError::AlreadyOpen
    );
    assert_eq!(
        classify_open_failure(failure(true, Some("NetworkError"), Some("Failed to open"))),
        TransportError::ConnectionFailed("Failed to open".into())
    );
    assert_eq!(
        classify_open_failure(failure(true, None, None)),
        TransportError::ConnectionFailed("JsValue(InvalidStateError: x)".into())
    );
    assert_eq!(classify_open_failure(failure(false, None, None)), TransportError::AlreadyOpen);
}

#[test]
fn a_transport_is_closed_part_by_part() {
    let mut transport = WebSerialTransport::default();
    assert!(!transport.is_open());
    assert!(transport.close().is_empty());
    transport.opened();
    assert!(transport.is_open());
    assert_eq!(
        transport.close(),
        vec![
            TearDown::Reader,
            TearDown::Writer { millis: 200 },
            TearDown::Port { millis: 600 }
        ]
    );
    assert!(!transport.is_open());
    transport.attach();
    assert!(transport.is_open());
    assert!(transport.require_port().is_err());
    assert!(transport.require_writer().is_ok());
    assert_eq!(transport.abandon(), vec![TearDown::Reader, TearDown::Writer { millis: 100 }]);
    assert!(transport.abandon().is_empty());
}

#[test]
fn a_read_that_timed_out_goes_on() {
    let mut transport = WebSerialTransport::new();
    assert_eq!(transport.begin_read().err(), Some(TransportError::NotConnected));
    transport.opened();
    assert_eq!(transport.begin_read(), Ok(ReadStart::Begin));
    assert_eq!(transport.end_read(ReadEnd::TimedOut, 9), Ok((vec![], 0)));
    assert_eq!(transport.begin_read(), Ok(ReadStart::Resume));
    assert_eq!(transport.end_read(ReadEnd::Data { bytes: vec![1] }, 9), Ok((vec![1], 9)));
    assert_eq!(transport.begin_read(), Ok(ReadStart::Begin));
    assert_eq!(
        transport.end_read(ReadEnd::Done, 9),
        Err(TransportError::Io("Stream closed".into()))
    );
    assert_eq!(transport.begin_read(), Ok(ReadStart::Begin));
    assert_eq!(
        transport.end_read(ReadEnd::Failed { description: "d".into() }, 9),
        Err(TransportError::Io("d".into()))
    );
    assert_eq!(transport.begin_read(), Ok(ReadStart::Resume));
    assert_eq!(
        transport.end_read(ReadEnd::Invalid, 9),
        Err(TransportError::Io("Invalid read result".into()))
    );
}

#[test]
fn only_input_signals_are_reported() {
    let signals = input_signals(true, false, true, false);
    assert!(signals.dcd && signals.ri);
    assert!(!signals.dtr && !signals.rts && !signals.dsr && !signals.cts);
}
