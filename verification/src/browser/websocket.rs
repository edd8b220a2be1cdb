//! A serial port that is reached over a socket to the bridge.
use vstd::prelude::*;

use crate::encoding::{
    base64_bytes, base64_decode, base64_encode, base64_text, decoded_as, decodes_to,
    fits_as_base64, outcome_view,
};
use crate::json::{
    field_view, fields_view, json_field, json_object, keeps_fields, object_text, read_field, Json,
    JsonView,
};
use crate::protocol::messages::opt_text;
use crate::text::{decimal, decimal_text, joined, same_text};
use crate::transport::{TransportError, TransportErrorView};

verus! {

/// How long closing the socket may take, in milliseconds.
pub const WS_CLOSE_TIMEOUT_MS: i32 = 1000;

/// How often an answer is looked for before giving up.
pub const RESPONSE_POLLS: u32 = 50;

/// The wait between looking for an answer, in milliseconds.
pub const RESPONSE_POLL_MS: i32 = 100;

/// A port that the bridge lists.
#[derive(Debug, Clone)]
pub struct BridgePortInfo {
    pub path: String,
    pub port_type: String,
    pub vid: Option<u16>,
    pub pid: Option<u16>,
    pub serial_number: Option<String>,
    pub manufacturer: Option<String>,
    pub product: Option<String>,
}

/// The client's side of a socket to the bridge.
#[derive(Debug)]
pub struct WebSocketTransport {
    /// Whether there is a socket.
    pub connected: bool,
    /// Data from the port that has not been read.
    pub rx_buffer: Vec<u8>,
    /// Answers and news that nobody has taken.
    pub control_messages: Vec<String>,
    /// What went wrong with the socket.
    pub error_state: Option<String>,
    /// The number of the next request.
    pub next_id: u64,
}

/// The client's side of a socket, with its texts as character sequences.
#[verifier::ext_equal]
pub struct SocketView {
    pub connected: bool,
    pub received: Seq<u8>,
    pub control: Seq<Seq<char>>,
    pub error: Option<Seq<char>>,
    pub next_id: u64,
}

/// Texts as character sequences.
pub open spec fn texts(v: Seq<String>) -> Seq<Seq<char>> {
    v.map_values(|s: String| s@)
}

impl View for WebSocketTransport {
    type V = SocketView;

    open spec fn view(&self) -> SocketView {
        SocketView {
            connected: self.connected,
            received: self.rx_buffer@,
            control: texts(self.control_messages@),
            error: opt_text(self.error_state),
            next_id: self.next_id,
        }
    }
}

/// What has just been made.
pub open spec fn fresh_socket() -> SocketView {
    SocketView {
        connected: false,
        received: Seq::empty(),
        control: Seq::empty(),
        error: None,
        next_id: 1,
    }
}

/// The text that was read of a field; empty if the field is none.
pub open spec fn text_or_empty(field: Option<JsonView>) -> Seq<char> {
    match field {
        Some(JsonView::Text(s)) => s,
        _ => Seq::empty(),
    }
}

/// What a message of the bridge is, by its two fields.
#[derive(Debug)]
pub enum Incoming {
    /// Nothing that can be read.
    Ignored,
    /// Data from the port, in base64.
    Data { encoded: String },
    /// An answer or news.
    Control,
}

/// What a message is, with its texts as character sequences.
pub enum IncomingView {
    Ignored,
    Data { encoded: Seq<char> },
    Control,
}

impl View for Incoming {
    type V = IncomingView;

    open spec fn view(&self) -> IncomingView {
        match *self {
            Incoming::Ignored => IncomingView::Ignored,
            Incoming::Data { encoded } => IncomingView::Data { encoded: encoded@ },
            Incoming::Control => IncomingView::Control,
        }
    }
}

/// What a message is, by what was read of its type and its data.
pub open spec fn sorted_message(
    kind: Result<Option<JsonView>, Seq<char>>,
    data: Result<Option<JsonView>, Seq<char>>,
) -> IncomingView {
    match kind {
        Err(_) => IncomingView::Ignored,
        Ok(kind) => if text_or_empty(kind) == "data"@ {
            match data {
                Ok(Some(JsonView::Text(encoded))) => IncomingView::Data { encoded },
                _ => IncomingView::Ignored,
            }
        } else {
            IncomingView::Control
        },
    }
}

fn text_field(field: Option<Json>) -> (r: String)
    ensures
        r@ == text_or_empty(
            match field {
                Some(v) => Some(v@),
                None => None,
            },
        ),
{
    match field {
        Some(Json::Text(s)) => s,
        _ => String::new(),
    }
}

/// What a message is, by what was read of its type and its data.
pub fn sort_message(
    kind: Result<Option<Json>, String>,
    data: Result<Option<Json>, String>,
) -> (r: Incoming)
    ensures
        r@ == sorted_message(field_view(kind), field_view(data)),
{
    match kind {
        Err(_) => Incoming::Ignored,
        Ok(kind) => {
            if same_text(text_field(kind).as_str(), "data") {
                match data {
                    Ok(Some(Json::Text(encoded))) => Incoming::Data { encoded },
                    _ => Incoming::Ignored,
                }
            } else {
                Incoming::Control
            }
        },
    }
}

/// What decoded data adds to what was received; data that is no base64 adds nothing.
pub open spec fn with_decoded(
    s: SocketView,
    decoded: Result<Seq<u8>, Seq<char>>,
) -> SocketView {
    match decoded {
        Ok(bytes) => SocketView { received: s.received + bytes, ..s },
        Err(_) => s,
    }
}

/// What a text message of the bridge changes.
pub open spec fn after_text(s: SocketView, text: Seq<char>) -> SocketView {
    match sorted_message(json_field(text, "type"@), json_field(text, "data"@)) {
        IncomingView::Ignored => s,
        IncomingView::Data { encoded } => with_decoded(s, decoded_as(base64_bytes(encoded))),
        IncomingView::Control => SocketView { control: s.control.push(text), ..s },
    }
}

/// What a message says about a request.
#[derive(Debug)]
pub enum Verdict {
    /// Nothing.
    Unrelated,
    /// It is the answer.
    Answer,
    /// The request failed.
    Failure { message: String },
}

/// What a message says about a request, with its texts as character sequences.
pub enum VerdictView {
    Unrelated,
    Answer,
    Failure { message: Seq<char> },
}

impl View for Verdict {
    type V = VerdictView;

    open spec fn view(&self) -> VerdictView {
        match *self {
            Verdict::Unrelated => VerdictView::Unrelated,
            Verdict::Answer => VerdictView::Answer,
            Verdict::Failure { message } => VerdictView::Failure { message: message@ },
        }
    }
}

/// What a message says about a request, by what was read of its type, number and
/// message: the answer has the type that is expected, a failure the type of an
/// error, and both have the request's number.
pub open spec fn verdict_of(
    kind: Result<Option<JsonView>, Seq<char>>,
    id: Result<Option<JsonView>, Seq<char>>,
    message: Result<Option<JsonView>, Seq<char>>,
    expected_type: Seq<char>,
    expected_id: u64,
) -> VerdictView {
    match (kind, id) {
        (Ok(kind), Ok(Some(JsonView::Number(n)))) => if n != expected_id {
            VerdictView::Unrelated
        } else if text_or_empty(kind) == expected_type {
            VerdictView::Answer
        } else if text_or_empty(kind) == "error"@ {
            VerdictView::Failure {
                message: match message {
                    Ok(Some(JsonView::Text(m))) => m,
                    _ => "Unknown error"@,
                },
            }
        } else {
            VerdictView::Unrelated
        },
        _ => VerdictView::Unrelated,
    }
}

/// What a message says about a request, by what was read of its fields.
pub fn judge_reply(
    kind: Result<Option<Json>, String>,
    id: Result<Option<Json>, String>,
    message: Result<Option<Json>, String>,
    expected_type: &str,
    expected_id: u64,
) -> (r: Verdict)
    ensures
        r@ == verdict_of(
            field_view(kind),
            field_view(id),
            field_view(message),
            expected_type@,
            expected_id,
        ),
{
    match (kind, id) {
        (Ok(kind), Ok(Some(Json::Number(n)))) => {
            let kind = text_field(kind);
            if n != expected_id {
                Verdict::Unrelated
            } else if same_text(kind.as_str(), expected_type) {
                Verdict::Answer
            } else if same_text(kind.as_str(), "error") {
                Verdict::Failure {
                    message: match message {
                        Ok(Some(Json::Text(m))) => m,
                        _ => "Unknown error".to_owned(),
                    },
                }
            } else {
                Verdict::Unrelated
            }
        },
        _ => Verdict::Unrelated,
    }
}

/// What a message text says about a request.
pub open spec fn text_verdict(
    text: Seq<char>,
    expected_type: Seq<char>,
    expected_id: u64,
) -> VerdictView {
    verdict_of(
        json_field(text, "type"@),
        json_field(text, "id"@),
        json_field(text, "message"@),
        expected_type,
        expected_id,
    )
}

/// The position of the first message from `from` on that says something about a
/// request; the number of messages if there is none.
pub open spec fn reply_position(
    control: Seq<Seq<char>>,
    expected_type: Seq<char>,
    expected_id: u64,
    from: int,
) -> int
    decreases control.len() - from,
{
    if from >= control.len() {
        control.len() as int
    } else if !(text_verdict(control[from], expected_type, expected_id) is Unrelated) {
        from
    } else {
        reply_position(control, expected_type, expected_id, from + 1)
    }
}

/// A request to the bridge.
#[derive(Debug)]
pub struct Request {
    pub id: u64,
    /// What is sent.
    pub text: String,
    /// The type of the answer.
    pub expected: &'static str,
}

/// The text of a request that has nothing but a type and a number.
pub open spec fn simple_request(kind: Seq<char>, id: u64) -> Seq<char> {
    "{\"type\":\""@ + kind + "\",\"id\":"@ + decimal(id as nat) + "}"@
}

/// The fields of a request to open a port.
pub open spec fn open_fields(id: u64, path: Seq<char>, baud_rate: u32) -> Seq<
    (Seq<char>, JsonView),
> {
    seq![
        ("type"@, JsonView::Text("open"@)),
        ("id"@, JsonView::Number(id)),
        ("path"@, JsonView::Text(path)),
        ("baud_rate"@, JsonView::Number(baud_rate as u64)),
    ]
}

/// The fields of a request to set the baud rate.
pub open spec fn baud_fields(id: u64, baud_rate: u32) -> Seq<(Seq<char>, JsonView)> {
    seq![
        ("type"@, JsonView::Text("set_config"@)),
        ("id"@, JsonView::Number(id)),
        ("baud_rate"@, JsonView::Number(baud_rate as u64)),
    ]
}

/// The fields of a request to write.
pub open spec fn write_fields(id: u64, data: Seq<u8>) -> Seq<(Seq<char>, JsonView)> {
    seq![
        ("type"@, JsonView::Text("write"@)),
        ("id"@, JsonView::Number(id)),
        ("data"@, JsonView::Text(base64_text(data))),
    ]
}

/// The keys that requests have differ.
proof fn lemma_keys_differ()
    ensures
        "type"@ != "id"@,
        "type"@ != "path"@,
        "type"@ != "baud_rate"@,
        "type"@ != "data"@,
        "id"@ != "path"@,
        "id"@ != "baud_rate"@,
        "id"@ != "data"@,
        "path"@ != "baud_rate"@,
{
    reveal_strlit("type");
    reveal_strlit("id");
    reveal_strlit("path");
    reveal_strlit("baud_rate");
    reveal_strlit("data");
    assert("id"@.len() == 2 && "baud_rate"@.len() == 9);
    assert("type"@[0] != "path"@[0]);
    assert("type"@[0] != "data"@[0]);
}

fn simple_request_text(kind: &str, id: u64) -> (r: String)
    ensures
        r@ == simple_request(kind@, id),
{
    let mut out = joined("{\"type\":\"", kind);
    out.append("\",\"id\":");
    out.append(decimal_text(id).as_str());
    out.append("}");
    out
}

/// What to do while waiting for an answer.
#[derive(Debug)]
pub enum ReplyStep {
    /// The wait is over: the answer's text, or why there is none.
    Done(Result<String, TransportError>),
    /// Wait, then look again.
    Sleep { millis: i32 },
}

impl WebSocketTransport {
    /// No socket yet.
    pub fn new() -> (r: WebSocketTransport)
        ensures
            r@ == fresh_socket(),
    {
        let r = WebSocketTransport {
            connected: false,
            rx_buffer: Vec::new(),
            control_messages: Vec::new(),
            error_state: None,
            next_id: 1,
        };
        assert(r@ =~= fresh_socket());
        r
    }

    /// A socket was opened.
    pub fn opened(&mut self)
        ensures
            final(self)@ == (SocketView { connected: true, ..old(self)@ }),
    {
        self.connected = true;
    }

    /// The socket is to be closed; says whether there was one.
    pub fn close(&mut self) -> (r: bool)
        ensures
            r == old(self).connected,
            final(self)@ == (SocketView { connected: false, ..old(self)@ }),
    {
        let was = self.connected;
        self.connected = false;
        was
    }

    /// Whether the transport is open; `ready` says whether the socket, if there is
    /// one, is.
    pub fn is_open(&self, ready: bool) -> (r: bool)
        ensures
            r == (self.connected && ready),
    {
        self.connected && ready
    }

    /// Takes in a text message of the bridge.
    pub fn on_text(&mut self, text: String)
        ensures
            final(self)@ == after_text(old(self)@, text@),
    {
        let kind = read_field(text.as_str(), "type");
        let data = read_field(text.as_str(), "data");
        match sort_message(kind, data) {
            Incoming::Ignored => {},
            Incoming::Data { encoded } => {
                self.take_decoded(base64_decode(encoded.as_str()));
            },
            Incoming::Control => {
                self.control_messages.push(text);
                assert(texts(self.control_messages@) =~= texts(old(self).control_messages@).push(
                    text@,
                ));
            },
        }
    }

    /// Takes in data from the port by what it was decoded to.
    pub fn take_decoded(&mut self, decoded: Result<Vec<u8>, String>)
        ensures
            final(self)@ == with_decoded(old(self)@, outcome_view(decoded)),
    {
        match decoded {
            Ok(bytes) => self.on_binary(bytes),
            Err(_) => {},
        }
    }

    /// Takes in binary data.
    pub fn on_binary(&mut self, bytes: Vec<u8>)
        ensures
            final(self)@ == (SocketView {
                received: old(self)@.received + bytes@,
                ..old(self)@
            }),
    {
        let mut bytes = bytes;
        self.rx_buffer.append(&mut bytes);
    }

    /// Takes in that the socket failed.
    pub fn on_error(&mut self, message: &str)
        ensures
            final(self)@ == (SocketView {
                error: Some("WebSocket error: "@ + message@),
                ..old(self)@
            }),
    {
        self.error_state = Some(joined("WebSocket error: ", message));
    }

    /// Throws away what was received and not read.
    pub fn clear_rx_buffer(&mut self)
        ensures
            final(self)@ == (SocketView { received: Seq::empty(), ..old(self)@ }),
    {
        self.rx_buffer = Vec::new();
        assert(self@ =~= (SocketView { received: Seq::empty(), ..old(self)@ }));
    }

    fn next_msg_id(&mut self) -> (r: u64)
        requires
            old(self).next_id < u64::MAX,
        ensures
            r == old(self).next_id,
            final(self)@ == (SocketView { next_id: (r + 1) as u64, ..old(self)@ }),
    {
        let id = self.next_id;
        self.next_id = id + 1;
        id
    }

    /// Asks for the ports.
    pub fn list_ports(&mut self) -> (r: Result<Request, TransportError>)
        requires
            old(self).next_id < u64::MAX,
        ensures
            final(self)@ == (SocketView { next_id: (old(self).next_id + 1) as u64, ..old(self)@ }),
            match r {
                Ok(q) => old(self).connected && q.id == old(self).next_id && q.text@
                    == simple_request("list_ports"@, q.id) && q.expected@ == "ports_list"@,
                Err(e) => !old(self).connected && e is NotConnected,
            },
    {
        let id = self.next_msg_id();
        if !self.connected {
            return Err(TransportError::NotConnected);
        }
        Ok(Request { id, text: simple_request_text("list_ports", id), expected: "ports_list" })
    }

    /// Asks to close the port.
    pub fn close_port(&mut self) -> (r: Result<Request, TransportError>)
        requires
            old(self).next_id < u64::MAX,
        ensures
            final(self)@ == (SocketView { next_id: (old(self).next_id + 1) as u64, ..old(self)@ }),
            match r {
                Ok(q) => old(self).connected && q.id == old(self).next_id && q.text@
                    == simple_request("close"@, q.id) && q.expected@ == "closed"@,
                Err(e) => !old(self).connected && e is NotConnected,
            },
    {
        let id = self.next_msg_id();
        if !self.connected {
            return Err(TransportError::NotConnected);
        }
        Ok(Request { id, text: simple_request_text("close", id), expected: "closed" })
    }

    /// Asks to open a port. The request's fields can be read back from its text.
    pub fn open_port(&mut self, path: &str, baud_rate: u32) -> (r: Result<Request, TransportError>)
        requires
            old(self).next_id < u64::MAX,
        ensures
            final(self)@ == (SocketView { next_id: (old(self).next_id + 1) as u64, ..old(self)@ }),
            match r {
                Ok(q) => old(self).connected && q.id == old(self).next_id && q.text@ == json_object(
                    open_fields(q.id, path@, baud_rate),
                ) && keeps_fields(q.text@, open_fields(q.id, path@, baud_rate)) && q.expected@
                    == "opened"@,
                Err(e) => !old(self).connected && e is NotConnected,
            },
    {
        let id = self.next_msg_id();
        if !self.connected {
            return Err(TransportError::NotConnected);
        }
        let mut fields: Vec<(&'static str, Json)> = Vec::new();
        fields.push(("type", Json::Text("open".to_owned())));
        fields.push(("id", Json::Number(id)));
        fields.push(("path", Json::Text(path.to_owned())));
        fields.push(("baud_rate", Json::Number(baud_rate as u64)));
        proof {
            lemma_keys_differ();
            assert(fields_view(fields@) =~= open_fields(id, path@, baud_rate));
        }
        Ok(Request { id, text: object_text(fields), expected: "opened" })
    }

    /// Asks to set the baud rate. The request's fields can be read back from its text.
    pub fn set_baud_rate(&mut self, baud_rate: u32) -> (r: Result<Request, TransportError>)
        requires
            old(self).next_id < u64::MAX,
        ensures
            final(self)@ == (SocketView { next_id: (old(self).next_id + 1) as u64, ..old(self)@ }),
            match r {
                Ok(q) => old(self).connected && q.id == old(self).next_id && q.text@ == json_object(
                    baud_fields(q.id, baud_rate),
                ) && keeps_fields(q.text@, baud_fields(q.id, baud_rate)) && q.expected@
                    == "config_set"@,
                Err(e) => !old(self).connected && e is NotConnected,
            },
    {
        let id = self.next_msg_id();
        if !self.connected {
            return Err(TransportError::NotConnected);
        }
        let mut fields: Vec<(&'static str, Json)> = Vec::new();
        fields.push(("type", Json::Text("set_config".to_owned())));
        fields.push(("id", Json::Number(id)));
        fields.push(("baud_rate", Json::Number(baud_rate as u64)));
        proof {
            lemma_keys_differ();
            assert(fields_view(fields@) =~= baud_fields(id, baud_rate));
        }
        Ok(Request { id, text: object_text(fields), expected: "config_set" })
    }

    /// Asks to write data; the answer is not waited for. The request's fields can be
    /// read back from its text, and its data from the field. Without a socket no
    /// number is used up.
    pub fn write(&mut self, data: &[u8]) -> (r: Result<Request, TransportError>)
        requires
            old(self).next_id < u64::MAX,
            fits_as_base64(data@.len()),
        ensures
            match r {
                Ok(q) => old(self).connected && q.id == old(self).next_id && q.text@ == json_object(
                    write_fields(q.id, data@),
                ) && keeps_fields(q.text@, write_fields(q.id, data@)) && decodes_to(
                    base64_text(data@),
                    data@,
                ) && q.expected@ == "written"@ && final(self)@ == (SocketView {
                    next_id: (old(self).next_id + 1) as u64,
                    ..old(self)@
                }),
                Err(e) => !old(self).connected && e is NotConnected && final(self)@ == old(self)@,
            },
    {
        if !self.connected {
            return Err(TransportError::NotConnected);
        }
        let id = self.next_msg_id();
        let mut fields: Vec<(&'static str, Json)> = Vec::new();
        fields.push(("type", Json::Text("write".to_owned())));
        fields.push(("id", Json::Number(id)));
        fields.push(("data", Json::Text(base64_encode(data))));
        proof {
            lemma_keys_differ();
            assert(fields_view(fields@) =~= write_fields(id, data@));
        }
        Ok(Request { id, text: object_text(fields), expected: "written" })
    }

    fn verdict(&self, i: usize, expected_type: &str, expected_id: u64) -> (r: Verdict)
        requires
            i < self.control_messages@.len(),
        ensures
            r@ == text_verdict(self@.control[i as int], expected_type@, expected_id),
    {
        let text = self.control_messages[i].as_str();
        judge_reply(
            read_field(text, "type"),
            read_field(text, "id"),
            read_field(text, "message"),
            expected_type,
            expected_id,
        )
    }

    /// Takes the first message that says something about a request: the answer's
    /// text, or why the request failed.
    pub fn take_response(&mut self, expected_type: &str, expected_id: u64) -> (r: Option<
        Result<String, TransportError>,
    >)
        ensures
            ({
                let control = old(self)@.control;
                let at = reply_position(control, expected_type@, expected_id, 0);
                if 0 <= at < control.len() {
                    &&& final(self)@ == (SocketView { control: control.remove(at), ..old(self)@ })
                    &&& match text_verdict(control[at], expected_type@, expected_id) {
                        VerdictView::Answer => r matches Some(Ok(text)) && text@ == control[at],
                        VerdictView::Failure { message } => r matches Some(Err(e)) && e@
                            == TransportErrorView::Io(message),
                        VerdictView::Unrelated => false,
                    }
                } else {
                    r is None && final(self)@ == old(self)@
                }
            }),
    {
        let mut i: usize = 0;
        while i < self.control_messages.len()
            invariant
                *self == *old(self),
                i <= self.control_messages@.len(),
                reply_position(self@.control, expected_type@, expected_id, 0) == reply_position(
                    self@.control,
                    expected_type@,
                    expected_id,
                    i as int,
                ),
            decreases self.control_messages.len() - i,
        {
            match self.verdict(i, expected_type, expected_id) {
                Verdict::Unrelated => {},
                Verdict::Answer => {
                    let text = self.control_messages.remove(i);
                    assert(texts(self.control_messages@) =~= old(self)@.control.remove(i as int));
                    return Some(Ok(text));
                },
                Verdict::Failure { message } => {
                    let _ = self.control_messages.remove(i);
                    assert(texts(self.control_messages@) =~= old(self)@.control.remove(i as int));
                    return Some(Err(TransportError::Io(message)));
                },
            }
            i += 1;
        }
        None
    }

    /// Looks for an answer after having looked `polls` times before; gives up after
    /// too many.
    pub fn await_response(&mut self, expected_type: &str, expected_id: u64, polls: u32) -> (r:
        ReplyStep)
        ensures
            polls >= RESPONSE_POLLS ==> final(self)@ == old(self)@ && (r matches ReplyStep::Done(
                Err(e),
            ) && e@ == TransportErrorView::Io("Timeout waiting for response"@)),
            polls < RESPONSE_POLLS ==> ({
                let control = old(self)@.control;
                let at = reply_position(control, expected_type@, expected_id, 0);
                if 0 <= at < control.len() {
                    &&& final(self)@ == (SocketView { control: control.remove(at), ..old(self)@ })
                    &&& match text_verdict(control[at], expected_type@, expected_id) {
                        VerdictView::Answer => r matches ReplyStep::Done(Ok(text)) && text@
                            == control[at],
                        VerdictView::Failure { message } => r matches ReplyStep::Done(Err(e)) && e@
                            == TransportErrorView::Io(message),
                        VerdictView::Unrelated => false,
                    }
                } else {
                    r == (ReplyStep::Sleep { millis: RESPONSE_POLL_MS }) && final(self)@
                        == old(self)@
                }
            }),
    {
        if polls >= RESPONSE_POLLS {
            return ReplyStep::Done(
                Err(TransportError::Io("Timeout waiting for response".to_owned())),
            );
        }
        match self.take_response(expected_type, expected_id) {
            Some(outcome) => ReplyStep::Done(outcome),
            None => ReplyStep::Sleep { millis: RESPONSE_POLL_MS },
        }
    }

    /// Reads what was received, at the given time. `ready` says whether the socket, if
    /// there is one, is open.
    pub fn read_chunk(&mut self, ready: bool, now_us: u64) -> (r: Result<
        (Vec<u8>, u64),
        TransportError,
    >)
        ensures
            match old(self)@.error {
                Some(error) => final(self)@ == old(self)@ && (r matches Err(e) && e@
                    == TransportErrorView::Io(error)),
                None => if !(old(self).connected && ready) {
                    final(self)@ == old(self)@ && (r matches Err(e) && e@ == TransportErrorView::Io(
                        "WebSocket closed"@,
                    ))
                } else {
                    &&& r matches Ok((data, ts))
                    &&& data@ == old(self)@.received
                    &&& ts == if data@.len() == 0 {
                        0
                    } else {
                        now_us
                    }
                    &&& final(self)@ == (SocketView { received: Seq::empty(), ..old(self)@ })
                },
            },
    {
        match &self.error_state {
            Some(error) => {
                return Err(TransportError::Io(error.clone()));
            },
            None => {},
        }
        if !(self.connected && ready) {
            return Err(TransportError::Io("WebSocket closed".to_owned()));
        }
        let mut data: Vec<u8> = Vec::new();
        data.append(&mut self.rx_buffer);
        assert(data@ =~= old(self)@.received);
        assert(self@ =~= (SocketView { received: Seq::empty(), ..old(self)@ }));
        let ts: u64 = if data.len() == 0 {
            0
        } else {
            now_us
        };
        Ok((data, ts))
    }
}

impl Default for WebSocketTransport {
    fn default() -> (r: WebSocketTransport)
        ensures
            r@ == fresh_socket(),
    {
        WebSocketTransport::new()
    }
}

/// The list of ports in an answer, by what was read of the field.
pub fn ports_in(field: Result<Option<Json>, String>) -> (r: Result<Json, TransportError>)
    ensures
        match field_view(field) {
            Ok(Some(v)) => r matches Ok(j) && j@ == v,
            _ => r matches Err(e) && e@ == TransportErrorView::Io("No ports in response"@),
        },
{
    match field {
        Ok(Some(v)) => Ok(v),
        _ => Err(TransportError::Io("No ports in response".to_owned())),
    }
}

/// The list of ports in an answer.
pub fn ports_of_response(response: &str) -> (r: Result<Json, TransportError>)
    ensures
        match json_field(response@, "ports"@) {
            Ok(Some(v)) => r matches Ok(j) && j@ == v,
            _ => r matches Err(e) && e@ == TransportErrorView::Io("No ports in response"@),
        },
{
    ports_in(read_field(response, "ports"))
}

/// The error for a list of ports that makes no sense.
pub fn ports_failure(error: &str) -> (r: TransportError)
    ensures
        r@ == TransportErrorView::Io("Failed to parse ports: "@ + error@),
{
    TransportError::Io(joined("Failed to parse ports: ", error))
}

/// An answer is only ever taken for the request whose number it repeats.
pub proof fn law_answers_match_their_request(
    text: Seq<char>,
    expected_type: Seq<char>,
    expected_id: u64,
)
    ensures
        !(text_verdict(text, expected_type, expected_id) is Unrelated) ==> json_field(text, "id"@)
            == Ok::<Option<JsonView>, Seq<char>>(Some(JsonView::Number(expected_id))),
{
}

/// The position found is that of the first message about the request.
pub proof fn law_first_answer_is_taken(
    control: Seq<Seq<char>>,
    expected_type: Seq<char>,
    expected_id: u64,
    from: int,
)
    requires
        0 <= from <= control.len(),
    ensures
        ({
            let at = reply_position(control, expected_type, expected_id, from);
            &&& from <= at <= control.len()
            &&& forall|i: int|
                from <= i < at ==> text_verdict(#[trigger] control[i], expected_type, expected_id)
                    is Unrelated
            &&& at < control.len() ==> !(text_verdict(
                control[at],
                expected_type,
                expected_id,
            ) is Unrelated)
        }),
    decreases control.len() - from,
{
    if from < control.len() && text_verdict(control[from], expected_type, expected_id)
        is Unrelated {
        law_first_answer_is_taken(control, expected_type, expected_id, from + 1);
    }
}

/// Messages add to what was received and never change what is already there.
pub proof fn law_received_data_is_kept(s: SocketView, text: Seq<char>)
    ensures
        s.received.is_prefix_of(after_text(s, text).received),
        s.control.is_prefix_of(after_text(s, text).control),
        after_text(s, text).next_id == s.next_id,
{
}

/// A message whose type is "data" adds the bytes that its data stands for, behind what was
/// received before, and nothing else; one of another type is kept as it is, behind those
/// that were kept before; one that is not JSON, or whose data is no base64 text, changes
/// nothing.
pub proof fn law_what_messages_change(s: SocketView, text: Seq<char>)
    ensures
        ({
            let kind = json_field(text, "type"@);
            let data = json_field(text, "data"@);
            let is_data = kind == Ok::<Option<JsonView>, Seq<char>>(
                Some(JsonView::Text("data"@)),
            );
            let after = after_text(s, text);
            &&& kind is Err ==> after == s
            &&& kind is Ok && !is_data ==> after.control == s.control.push(text) && after.received
                == s.received && after.connected == s.connected && after.error == s.error
                && after.next_id == s.next_id
            &&& is_data ==> {
                &&& after.control == s.control && after.connected == s.connected && after.error
                    == s.error && after.next_id == s.next_id
                &&& data matches Ok(Some(JsonView::Text(encoded))) ==> (base64_bytes(encoded)
                    matches Ok(bytes) ==> after.received == s.received + bytes) && (base64_bytes(
                    encoded,
                ) is Err ==> after == s)
                &&& !(data matches Ok(Some(JsonView::Text(_)))) ==> after == s
            }
        }),
{
    reveal_strlit("data");
    assert("data"@.len() == 4);
}

/// A message is the answer to a request if it has the request's number and the type that
/// is expected, and the request's failure, with the words of its message, if it has the
/// request's number and the type "error"; any other says nothing about the request.
pub proof fn law_what_messages_say(text: Seq<char>, expected: Seq<char>, id: u64)
    requires
        expected.len() > 0,
        expected != "error"@,
    ensures
        ({
            let numbered = json_field(text, "id"@) == Ok::<Option<JsonView>, Seq<char>>(
                Some(JsonView::Number(id)),
            );
            let kind = json_field(text, "type"@);
            let message = json_field(text, "message"@);
            let said = text_verdict(text, expected, id);
            &&& said is Answer <==> numbered && kind == Ok::<Option<JsonView>, Seq<char>>(
                Some(JsonView::Text(expected)),
            )
            &&& said is Failure <==> numbered && kind == Ok::<Option<JsonView>, Seq<char>>(
                Some(JsonView::Text("error"@)),
            )
            &&& said matches VerdictView::Failure { message: told } ==> (message
                matches Ok(Some(JsonView::Text(m))) ==> told == m) && (!(message
                matches Ok(Some(JsonView::Text(_)))) ==> told == "Unknown error"@)
        }),
{
    reveal_strlit("error");
    assert("error"@.len() == 5);
}

/// Requests tell, under the names that the bridge knows, what they ask for: the port and
/// the rate to open it at, the rate to set, and the data to write.
pub proof fn law_requests_tell_what_they_ask_for(
    text: Seq<char>,
    id: u64,
    path: Seq<char>,
    baud_rate: u32,
    data: Seq<u8>,
)
    ensures
        keeps_fields(text, open_fields(id, path, baud_rate)) ==> {
            &&& json_field(text, "type"@) == Ok::<Option<JsonView>, Seq<char>>(
                Some(JsonView::Text("open"@)),
            )
            &&& json_field(text, "id"@) == Ok::<Option<JsonView>, Seq<char>>(
                Some(JsonView::Number(id)),
            )
            &&& json_field(text, "path"@) == Ok::<Option<JsonView>, Seq<char>>(
                Some(JsonView::Text(path)),
            )
            &&& json_field(text, "baud_rate"@) == Ok::<Option<JsonView>, Seq<char>>(
                Some(JsonView::Number(baud_rate as u64)),
            )
        },
        keeps_fields(text, baud_fields(id, baud_rate)) ==> {
            &&& json_field(text, "type"@) == Ok::<Option<JsonView>, Seq<char>>(
                Some(JsonView::Text("set_config"@)),
            )
            &&& json_field(text, "id"@) == Ok::<Option<JsonView>, Seq<char>>(
                Some(JsonView::Number(id)),
            )
            &&& json_field(text, "baud_rate"@) == Ok::<Option<JsonView>, Seq<char>>(
                Some(JsonView::Number(baud_rate as u64)),
            )
        },
        keeps_fields(text, write_fields(id, data)) ==> {
            &&& json_field(text, "type"@) == Ok::<Option<JsonView>, Seq<char>>(
                Some(JsonView::Text("write"@)),
            )
            &&& json_field(text, "id"@) == Ok::<Option<JsonView>, Seq<char>>(
                Some(JsonView::Number(id)),
            )
            &&& json_field(text, "data"@) == Ok::<Option<JsonView>, Seq<char>>(
                Some(JsonView::Text(base64_text(data))),
            )
        },
        open_fields(id, path, baud_rate).len() == 4,
        baud_fields(id, baud_rate).len() == 3,
        write_fields(id, data).len() == 3,
{
    let o = open_fields(id, path, baud_rate);
    if keeps_fields(text, o) {
        assert(json_field(text, o[0].0) == Ok::<Option<JsonView>, Seq<char>>(Some(o[0].1)));
        assert(json_field(text, o[1].0) == Ok::<Option<JsonView>, Seq<char>>(Some(o[1].1)));
        assert(json_field(text, o[2].0) == Ok::<Option<JsonView>, Seq<char>>(Some(o[2].1)));
        assert(json_field(text, o[3].0) == Ok::<Option<JsonView>, Seq<char>>(Some(o[3].1)));
    }
    let b = baud_fields(id, baud_rate);
    if keeps_fields(text, b) {
        assert(json_field(text, b[0].0) == Ok::<Option<JsonView>, Seq<char>>(Some(b[0].1)));
        assert(json_field(text, b[1].0) == Ok::<Option<JsonView>, Seq<char>>(Some(b[1].1)));
        assert(json_field(text, b[2].0) == Ok::<Option<JsonView>, Seq<char>>(Some(b[2].1)));
    }
    let w = write_fields(id, data);
    if keeps_fields(text, w) {
        assert(json_field(text, w[0].0) == Ok::<Option<JsonView>, Seq<char>>(Some(w[0].1)));
        assert(json_field(text, w[1].0) == Ok::<Option<JsonView>, Seq<char>>(Some(w[1].1)));
        assert(json_field(text, w[2].0) == Ok::<Option<JsonView>, Seq<char>>(Some(w[2].1)));
    }
}

/// A request without anything more is an object with its type and its number.
pub proof fn law_simple_requests(kind: Seq<char>, id: u64)
    ensures
        simple_request(kind, id) == "{\"type\":\""@ + kind + "\",\"id\":"@ + decimal(id as nat)
            + "}"@,
{
}

/// The view of a socket keeps all of it.
pub proof fn law_view_of_a_socket(t: WebSocketTransport)
    ensures
        t@.connected == t.connected,
        t@.received == t.rx_buffer@,
        t@.next_id == t.next_id,
        t@.error is None <==> t.error_state is None,
        t.error_state matches Some(e) ==> t@.error == Some(e@),
        t@.control.len() == t.control_messages@.len(),
        forall|i: int|
            0 <= i < t.control_messages@.len() ==> #[trigger] t@.control[i]
                == t.control_messages@[i]@,
{
}

/// What was received is read whole, in order and once, with the time of reading; a socket
/// that failed or is closed is told first, and nothing is lost by it.
pub proof fn law_what_was_received_is_read_once(
    t: &mut WebSocketTransport,
    ready: bool,
    now_us: u64,
    r: Result<(Vec<u8>, u64), TransportError>,
)
    requires
        call_ensures(WebSocketTransport::read_chunk, (t, ready, now_us), r),
    ensures
        r is Ok <==> old(t).error_state is None && old(t).connected && ready,
        r matches Ok((data, ts)) ==> data@ == old(t).rx_buffer@ && final(t).rx_buffer@.len() == 0
            && (data@.len() > 0 ==> ts == now_us) && (data@.len() == 0 ==> ts == 0),
        r is Err ==> final(t).rx_buffer@ == old(t).rx_buffer@,
        old(t).error_state matches Some(error) ==> (r matches Err(e) && e@
            == TransportErrorView::Io(error@)),
        old(t).error_state is None && r is Err ==> (r matches Err(e) && e@
            == TransportErrorView::Io("WebSocket closed"@)),
        final(t)@.control == old(t)@.control,
        final(t).next_id == old(t).next_id,
        final(t).connected == old(t).connected,
{
}

/// The first message about a request is taken out and told: the answer as it is, a failure
/// by its message. As long as there is none, it is waited for, 100 ms at a time, fifty
/// times.
pub proof fn law_answers_are_waited_for(
    t: &mut WebSocketTransport,
    expected: &str,
    id: u64,
    polls: u32,
    taken: Option<Result<String, TransportError>>,
    step: ReplyStep,
)
    ensures
        ({
            let control = old(t)@.control;
            let at = reply_position(control, expected@, id, 0);
            let there = 0 <= at < control.len();
            &&& call_ensures(WebSocketTransport::take_response, (t, expected, id), taken) ==> {
                &&& taken is Some <==> there
                &&& there ==> final(t)@.control == control.remove(at)
                &&& !there ==> final(t)@ == old(t)@
                &&& taken matches Some(Ok(text)) ==> text@ == control[at] && text_verdict(
                    control[at],
                    expected@,
                    id,
                ) is Answer
                &&& taken matches Some(Err(e)) ==> (text_verdict(control[at], expected@, id)
                    matches VerdictView::Failure { message } && e@ == TransportErrorView::Io(
                    message,
                ))
                &&& final(t)@.received == old(t)@.received && final(t).next_id == old(t).next_id
            }
            &&& call_ensures(WebSocketTransport::await_response, (t, expected, id, polls), step)
                ==> {
                &&& polls >= 50 ==> final(t)@ == old(t)@ && (step matches ReplyStep::Done(Err(e))
                    && e@ == TransportErrorView::Io("Timeout waiting for response"@))
                &&& polls < 50 && !there ==> final(t)@ == old(t)@ && (step
                    matches ReplyStep::Sleep { millis } && millis == 100)
                &&& polls < 50 && there ==> step is Done && final(t)@.control == control.remove(at)
                &&& polls < 50 && there && text_verdict(control[at], expected@, id) is Answer ==> (
                step matches ReplyStep::Done(Ok(text)) && text@ == control[at])
            }
        }),
{
}

/// Every request that is made has the next number, which is used up, and waits for the
/// answer that belongs to it.
pub proof fn law_requests_are_numbered(
    t: &mut WebSocketTransport,
    path: &str,
    baud_rate: u32,
    data: &[u8],
    r: Result<Request, TransportError>,
)
    requires
        old(t).next_id < u64::MAX,
    ensures
        call_ensures(WebSocketTransport::list_ports, (t,), r) ==> final(t).next_id == old(
            t
        ).next_id + 1 && (r is Ok <==> old(t).connected) && (r matches Ok(q) ==> q.id == old(
            t
        ).next_id && q.text@ == simple_request("list_ports"@, q.id) && q.expected@
            == "ports_list"@),
        call_ensures(WebSocketTransport::close_port, (t,), r) ==> final(t).next_id == old(
            t
        ).next_id + 1 && (r is Ok <==> old(t).connected) && (r matches Ok(q) ==> q.id == old(
            t
        ).next_id && q.text@ == simple_request("close"@, q.id) && q.expected@ == "closed"@),
        call_ensures(WebSocketTransport::open_port, (t, path, baud_rate), r) ==> final(t).next_id
            == old(t).next_id + 1 && (r is Ok <==> old(t).connected) && (r matches Ok(q) ==> q.id
            == old(t).next_id && keeps_fields(q.text@, open_fields(q.id, path@, baud_rate))
            && q.expected@ == "opened"@),
        call_ensures(WebSocketTransport::set_baud_rate, (t, baud_rate), r) ==> final(t).next_id
            == old(t).next_id + 1 && (r is Ok <==> old(t).connected) && (r matches Ok(q) ==> q.id
            == old(t).next_id && keeps_fields(q.text@, baud_fields(q.id, baud_rate))
            && q.expected@ == "config_set"@),
        call_ensures(WebSocketTransport::write, (t, data), r) ==> (r is Ok <==> old(t).connected)
            && (r matches Ok(q) ==> q.id == old(t).next_id && final(t).next_id == old(t).next_id
            + 1 && keeps_fields(q.text@, write_fields(q.id, data@)) && decodes_to(
            base64_text(data@),
            data@,
        ) && q.expected@ == "written"@) && (r is Err ==> final(t)@ == old(t)@),
        call_ensures(WebSocketTransport::write, (t, data), r) ==> (r matches Err(e) ==> e
            is NotConnected),
{
}

/// Messages, data and errors are taken in as what they are.
pub proof fn law_socket_takes_things_in(
    t: &mut WebSocketTransport,
    text: String,
    bytes: Vec<u8>,
    message: &str,
    r: bool,
)
    ensures
        call_ensures(WebSocketTransport::on_text, (t, text), ()) ==> final(t)@ == after_text(
            old(t)@,
            text@,
        ),
        call_ensures(WebSocketTransport::on_binary, (t, bytes), ()) ==> final(t).rx_buffer@
            == old(t).rx_buffer@ + bytes@ && final(t)@.control == old(t)@.control && final(
            t
        )@.error == old(t)@.error,
        call_ensures(WebSocketTransport::on_error, (t, message), ()) ==> final(t)@.error == Some(
            "WebSocket error: "@ + message@,
        ) && final(t).rx_buffer@ == old(t).rx_buffer@,
        call_ensures(WebSocketTransport::clear_rx_buffer, (t,), ()) ==> final(
            t
        ).rx_buffer@.len() == 0 && final(t)@.control == old(t)@.control && final(t)@.error
            == old(t)@.error && final(t).next_id == old(t).next_id,
        call_ensures(WebSocketTransport::opened, (t,), ()) ==> final(t).connected && final(
            t
        ).rx_buffer@ == old(t).rx_buffer@,
        call_ensures(WebSocketTransport::close, (t,), r) ==> r == old(t).connected && !final(
            t
        ).connected && final(t).rx_buffer@ == old(t).rx_buffer@,
{
}

} // verus!
