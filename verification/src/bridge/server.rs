//! How the bridge treats connections and requests.
use vstd::prelude::*;

use crate::bridge::protocol::{
    answered_id, request_id, ClientMessage, ClientMessageView, PortInfo, ServerMessage,
    ServerMessageView,
};
use crate::encoding::{
    base64_bytes, base64_decode, base64_encode, base64_text, decoded_as, decodes_to,
    fits_as_base64, outcome_view,
};
use crate::protocol::messages::opt_text;
use crate::text::{
    begins_with, chars_of, decimal, decimal_text, joined, parse_unsigned, same_text, stands_at,
    unsigned_value,
};

verus! {

/// The largest message that is taken from a client, in bytes. Requests are small;
/// the limit keeps a page from making the bridge allocate a large buffer.
pub const MAX_WS_MESSAGE_SIZE: usize = 1_048_576;

/// How long the bridge may be idle before it ends, in seconds.
pub const IDLE_TIMEOUT_SECS: u64 = 120;

/// How often the bridge looks whether it is idle, in seconds.
pub const IDLE_CHECK_INTERVAL_SECS: u64 = 60;

/// The highest baud rate that a client may ask for.
pub const MAX_BAUD: u32 = 4_000_000;

/// The port that the bridge listens on if it is told no other.
pub const DEFAULT_LISTEN_PORT: u16 = 9876;

/// The web pages that may connect.
pub const ALLOWED_ORIGINS: [&'static str; 3] = [
    "https://futureterm.com",
    "http://localhost:8080",
    "http://127.0.0.1:8080",
];

/// The origin is one of those that may connect.
pub open spec fn is_allowed_origin(origin: Seq<char>) -> bool {
    origin == "https://futureterm.com"@ || origin == "http://localhost:8080"@ || origin
        == "http://127.0.0.1:8080"@
}

/// Lets a connection in by the origin that it states, or says why not.
pub fn check_origin(origin: Option<&str>) -> (r: Result<(), &'static str>)
    ensures
        match origin {
            Some(o) => if is_allowed_origin(o@) {
                r is Ok
            } else {
                r matches Err(e) && e@ == "Unauthorized origin"@
            },
            None => r matches Err(e) && e@ == "Missing Origin header"@,
        },
{
    match origin {
        Some(o) => {
            let allowed = ALLOWED_ORIGINS;
            let mut i: usize = 0;
            while i < 3
                invariant
                    i <= 3,
                    origin == Some(o),
                    allowed@.len() == 3,
                    is_allowed_origin(allowed@[0]@),
                    is_allowed_origin(allowed@[1]@),
                    is_allowed_origin(allowed@[2]@),
                    forall|j: int| 0 <= j < i ==> o@ != (#[trigger] allowed@[j])@,
                decreases 3 - i,
            {
                if same_text(o, allowed[i]) {
                    return Ok(());
                }
                i += 1;
            }
            assert(o@ != allowed@[0]@ && o@ != allowed@[1]@ && o@ != allowed@[2]@);
            Err("Unauthorized origin")
        },
        None => Err("Missing Origin header"),
    }
}

/// Whether the bridge has been idle for too long.
pub fn idle_too_long(idle_ms: u64, timeout_ms: u64) -> (r: bool)
    ensures
        r == (idle_ms > timeout_ms),
{
    idle_ms > timeout_ms
}

/// The port to listen on: the one that was asked for, unless it is no port number or
/// a privileged one.
pub open spec fn chosen_port(arg: Option<Seq<char>>) -> u16 {
    match arg {
        Some(text) => match unsigned_value(text) {
            Some(n) if 1024 <= n <= 65535 => n as u16,
            _ => DEFAULT_LISTEN_PORT,
        },
        None => DEFAULT_LISTEN_PORT,
    }
}

/// The port to listen on, from the first argument of the program.
pub fn listen_port(arg: Option<&str>) -> (r: u16)
    ensures
        r == chosen_port(
            match arg {
                Some(text) => Some(text@),
                None => None,
            },
        ),
{
    match arg {
        Some(text) => {
            let chars = chars_of(text);
            match parse_unsigned(chars.as_slice()) {
                Some(n) => {
                    if 1024 <= n && n <= 65535 {
                        n as u16
                    } else {
                        DEFAULT_LISTEN_PORT
                    }
                },
                None => DEFAULT_LISTEN_PORT,
            }
        },
        None => DEFAULT_LISTEN_PORT,
    }
}

/// What a request asks the bridge to do.
#[derive(Debug)]
pub enum Work {
    /// Give this answer.
    Answer(ServerMessage),
    /// List the ports.
    ListPorts { id: u64 },
    /// Open a port.
    OpenPort { id: u64, path: String, baud_rate: u32 },
    /// Close the port.
    ClosePort { id: u64 },
    /// Write to the port.
    WritePort { id: u64, data: Vec<u8> },
    /// Change the port's settings.
    Configure {
        id: u64,
        baud_rate: Option<u32>,
        data_bits: Option<u8>,
        stop_bits: Option<u8>,
        parity: Option<String>,
    },
}

/// What a request asks for, with its texts as character sequences.
pub enum WorkView {
    Answer(ServerMessageView),
    ListPorts { id: u64 },
    OpenPort { id: u64, path: Seq<char>, baud_rate: u32 },
    ClosePort { id: u64 },
    WritePort { id: u64, data: Seq<u8> },
    Configure {
        id: u64,
        baud_rate: Option<u32>,
        data_bits: Option<u8>,
        stop_bits: Option<u8>,
        parity: Option<Seq<char>>,
    },
}

impl View for Work {
    type V = WorkView;

    open spec fn view(&self) -> WorkView {
        match *self {
            Work::Answer(m) => WorkView::Answer(m@),
            Work::ListPorts { id } => WorkView::ListPorts { id },
            Work::OpenPort { id, path, baud_rate } => WorkView::OpenPort {
                id,
                path: path@,
                baud_rate,
            },
            Work::ClosePort { id } => WorkView::ClosePort { id },
            Work::WritePort { id, data } => WorkView::WritePort { id, data: data@ },
            Work::Configure { id, baud_rate, data_bits, stop_bits, parity } =>
                WorkView::Configure {
                id,
                baud_rate,
                data_bits,
                stop_bits,
                parity: opt_text(parity),
            },
        }
    }
}

/// The answer that a request failed.
pub open spec fn refusal(id: u64, message: Seq<char>) -> WorkView {
    WorkView::Answer(ServerMessageView::Error { id: Some(id), message })
}

/// A path that names a serial port, not some other device.
pub open spec fn is_serial_path(path: Seq<char>) -> bool {
    stands_at("/dev/cu."@, path, 0) || stands_at("/dev/tty."@, path, 0) || stands_at(
        "/dev/serial"@,
        path,
        0,
    ) || stands_at("COM"@, path, 0) || stands_at("/dev/ttyUSB"@, path, 0) || stands_at(
        "/dev/ttyACM"@,
        path,
        0,
    ) || stands_at("/dev/ttyS"@, path, 0)
}

/// A baud rate that may be set.
pub open spec fn is_valid_baud(baud_rate: u32) -> bool {
    0 < baud_rate <= MAX_BAUD
}

/// The complaint about a baud rate.
pub open spec fn baud_complaint(baud_rate: u32) -> Seq<char> {
    "Invalid baud rate: "@ + decimal(baud_rate as nat)
}

/// What a write request asks for, by what its data was decoded to.
pub open spec fn planned_write(id: u64, decoded: Result<Seq<u8>, Seq<char>>) -> WorkView {
    match decoded {
        Ok(data) => WorkView::WritePort { id, data },
        Err(e) => refusal(id, e),
    }
}

/// What a request asks for. One that could not be read comes with the reason.
pub open spec fn planned(request: Result<ClientMessageView, Seq<char>>) -> WorkView {
    match request {
        Err(e) => WorkView::Answer(
            ServerMessageView::Error { id: None, message: "Failed to parse message: "@ + e },
        ),
        Ok(ClientMessageView::ListPorts { id }) => WorkView::ListPorts { id },
        Ok(ClientMessageView::Open { id, path, baud_rate }) => if !is_serial_path(path) {
            refusal(id, "Invalid serial port path: "@ + path)
        } else if !is_valid_baud(baud_rate) {
            refusal(id, baud_complaint(baud_rate))
        } else {
            WorkView::OpenPort { id, path, baud_rate }
        },
        Ok(ClientMessageView::Close { id }) => WorkView::ClosePort { id },
        Ok(ClientMessageView::Write { id, data }) => planned_write(
            id,
            decoded_as(base64_bytes(data)),
        ),
        Ok(ClientMessageView::SetConfig { id, baud_rate, data_bits, stop_bits, parity }) =>
            match baud_rate {
            Some(baud) if !is_valid_baud(baud) => refusal(id, baud_complaint(baud)),
            _ => WorkView::Configure { id, baud_rate, data_bits, stop_bits, parity },
        },
    }
}

fn serial_path(path: &str) -> (r: bool)
    ensures
        r == is_serial_path(path@),
{
    begins_with(path, "/dev/cu.") || begins_with(path, "/dev/tty.") || begins_with(
        path,
        "/dev/serial",
    ) || begins_with(path, "COM") || begins_with(path, "/dev/ttyUSB") || begins_with(
        path,
        "/dev/ttyACM",
    ) || begins_with(path, "/dev/ttyS")
}

fn refuse(id: u64, message: String) -> (r: Work)
    ensures
        r@ == refusal(id, message@),
{
    Work::Answer(ServerMessage::Error { id: Some(id), message })
}

fn refuse_baud(id: u64, baud_rate: u32) -> (r: Work)
    ensures
        r@ == refusal(id, baud_complaint(baud_rate)),
{
    refuse(id, joined("Invalid baud rate: ", decimal_text(baud_rate as u64).as_str()))
}

/// What a write request asks for, by what its data was decoded to.
pub fn plan_write(id: u64, decoded: Result<Vec<u8>, String>) -> (r: Work)
    ensures
        r@ == planned_write(id, outcome_view(decoded)),
{
    match decoded {
        Ok(data) => Work::WritePort { id, data },
        Err(e) => refuse(id, e),
    }
}

/// A request that was read, or why it could not be, with its texts as character
/// sequences.
pub open spec fn request_view(request: Result<ClientMessage, String>) -> Result<
    ClientMessageView,
    Seq<char>,
> {
    match request {
        Ok(m) => Ok(m@),
        Err(e) => Err(e@),
    }
}

/// What a request asks for. One that could not be read comes with the reason.
pub fn plan_request(request: Result<ClientMessage, String>) -> (r: Work)
    ensures
        r@ == planned(request_view(request)),
{
    let msg = match request {
        Ok(m) => m,
        Err(e) => {
            return Work::Answer(
                ServerMessage::Error {
                    id: None,
                    message: joined("Failed to parse message: ", e.as_str()),
                },
            );
        },
    };
    match msg {
        ClientMessage::ListPorts { id } => Work::ListPorts { id },
        ClientMessage::Open { id, path, baud_rate } => {
            if !serial_path(path.as_str()) {
                refuse(id, joined("Invalid serial port path: ", path.as_str()))
            } else if baud_rate == 0 || baud_rate > MAX_BAUD {
                refuse_baud(id, baud_rate)
            } else {
                Work::OpenPort { id, path, baud_rate }
            }
        },
        ClientMessage::Close { id } => Work::ClosePort { id },
        ClientMessage::Write { id, data } => plan_write(id, base64_decode(data.as_str())),
        ClientMessage::SetConfig { id, baud_rate, data_bits, stop_bits, parity } => {
            match baud_rate {
                Some(baud) => {
                    if baud == 0 || baud > MAX_BAUD {
                        return refuse_baud(id, baud);
                    }
                },
                None => {},
            }
            Work::Configure { id, baud_rate, data_bits, stop_bits, parity }
        },
    }
}

/// How the work for a request went.
#[derive(Debug)]
pub enum Outcome {
    Listed(Result<Vec<PortInfo>, String>),
    Opened(Result<(), String>),
    Closed,
    Written(Result<usize, String>),
    Configured(Result<(), String>),
}

/// The answer to a request by how its work went.
pub open spec fn answer_to(id: u64, outcome: Outcome) -> ServerMessageView {
    match outcome {
        Outcome::Listed(Ok(ports)) => ServerMessageView::PortsList { id, ports: ports@ },
        Outcome::Listed(Err(e)) => ServerMessageView::Error { id: Some(id), message: e@ },
        Outcome::Opened(Ok(_)) => ServerMessageView::Opened { id },
        Outcome::Opened(Err(e)) => ServerMessageView::Error { id: Some(id), message: e@ },
        Outcome::Closed => ServerMessageView::Closed { id },
        Outcome::Written(Ok(bytes)) => ServerMessageView::Written { id, bytes },
        Outcome::Written(Err(e)) => ServerMessageView::Error { id: Some(id), message: e@ },
        Outcome::Configured(Ok(_)) => ServerMessageView::ConfigSet { id },
        Outcome::Configured(Err(e)) => ServerMessageView::Error { id: Some(id), message: e@ },
    }
}

/// The answer to a request by how its work went.
pub fn answer(id: u64, outcome: Outcome) -> (r: ServerMessage)
    ensures
        r@ == answer_to(id, outcome),
{
    match outcome {
        Outcome::Listed(Ok(ports)) => ServerMessage::PortsList { id, ports },
        Outcome::Listed(Err(message)) => ServerMessage::Error { id: Some(id), message },
        Outcome::Opened(Ok(_)) => ServerMessage::Opened { id },
        Outcome::Opened(Err(message)) => ServerMessage::Error { id: Some(id), message },
        Outcome::Closed => ServerMessage::Closed { id },
        Outcome::Written(Ok(bytes)) => ServerMessage::Written { id, bytes },
        Outcome::Written(Err(message)) => ServerMessage::Error { id: Some(id), message },
        Outcome::Configured(Ok(_)) => ServerMessage::ConfigSet { id },
        Outcome::Configured(Err(message)) => ServerMessage::Error { id: Some(id), message },
    }
}

/// The message that carries data from the port. Its text decodes to the data.
pub fn data_message(data: &[u8]) -> (r: ServerMessage)
    requires
        fits_as_base64(data@.len()),
    ensures
        r@ == (ServerMessageView::Data { data: base64_text(data@) }),
        decodes_to(base64_text(data@), data@),
{
    ServerMessage::Data { data: base64_encode(data) }
}

/// The number of a request whose work is still to be done.
pub open spec fn work_id(work: WorkView) -> Option<u64> {
    match work {
        WorkView::Answer(m) => answered_id(m),
        WorkView::ListPorts { id } => Some(id),
        WorkView::OpenPort { id, .. } => Some(id),
        WorkView::ClosePort { id } => Some(id),
        WorkView::WritePort { id, .. } => Some(id),
        WorkView::Configure { id, .. } => Some(id),
    }
}

/// Every request that can be read is answered under its own number, at once or after
/// its work, whatever came of it; one that cannot be read is answered without one.
pub proof fn law_answers_repeat_the_number(
    request: Result<ClientMessageView, Seq<char>>,
    outcome: Outcome,
)
    ensures
        request matches Ok(msg) ==> work_id(planned(request)) == Some(request_id(msg))
            && answered_id(answer_to(request_id(msg), outcome)) == Some(request_id(msg)),
        request is Err ==> planned(request) is Answer && work_id(planned(request)) is None,
{
}

/// Only a serial port is ever opened, and no baud rate is ever set but a valid one.
pub proof fn law_only_valid_settings_pass(request: Result<ClientMessageView, Seq<char>>)
    ensures
        planned(request) matches WorkView::OpenPort { path, baud_rate, .. } ==> is_serial_path(path)
            && is_valid_baud(baud_rate),
        planned(request) matches WorkView::Configure { baud_rate: Some(baud), .. }
            ==> is_valid_baud(baud),
{
}

/// Data that a client sends in base64 is what is written to the port.
pub proof fn law_data_arrives_as_sent(id: u64, text: Seq<char>, data: Seq<u8>)
    requires
        decodes_to(text, data),
    ensures
        planned(Ok(ClientMessageView::Write { id, data: text })) == (WorkView::WritePort {
            id,
            data,
        }),
{
}

/// A request for settings, whose baud rate is absent or from 1 to 4000000, is planned with
/// exactly the settings that it names; one with another baud rate is refused, and nothing
/// of it is set.
pub proof fn law_settings_are_planned_as_asked(
    id: u64,
    baud_rate: Option<u32>,
    data_bits: Option<u8>,
    stop_bits: Option<u8>,
    parity: Option<Seq<char>>,
)
    ensures
        ({
            let work = planned(
                Ok(ClientMessageView::SetConfig { id, baud_rate, data_bits, stop_bits, parity }),
            );
            &&& (baud_rate matches Some(b) ==> 1 <= b <= 4_000_000) ==> (work
                matches WorkView::Configure {
                id: i,
                baud_rate: b,
                data_bits: d,
                stop_bits: s,
                parity: p,
            } && i == id && b == baud_rate && d == data_bits && s == stop_bits && p == parity)
            &&& baud_rate matches Some(b) ==> (1 <= b <= 4_000_000 || work == WorkView::Answer(
                ServerMessageView::Error {
                    id: Some(id),
                    message: "Invalid baud rate: "@ + decimal(b as nat),
                },
            ))
        }),
{
}

/// The paths of serial ports: those that begin in one of seven ways, and no others.
pub proof fn law_serial_paths(path: Seq<char>, prefix: Seq<char>, rest: Seq<char>)
    ensures
        (prefix == "/dev/cu."@ || prefix == "/dev/tty."@ || prefix == "/dev/serial"@ || prefix
            == "COM"@ || prefix == "/dev/ttyUSB"@ || prefix == "/dev/ttyACM"@ || prefix
            == "/dev/ttyS"@) ==> is_serial_path(prefix + rest),
        is_serial_path(path) ==> exists|p: Seq<char>|
            #![trigger p.len()]
            p.len() <= path.len() && path.take(p.len() as int) == p && (p == "/dev/cu."@ || p
                == "/dev/tty."@ || p == "/dev/serial"@ || p == "COM"@ || p == "/dev/ttyUSB"@ || p
                == "/dev/ttyACM"@ || p == "/dev/ttyS"@),
{
    let n = prefix.len() as int;
    assert((prefix + rest).subrange(0, n) =~= prefix);
    if is_serial_path(path) {
        let p = if stands_at("/dev/cu."@, path, 0) {
            "/dev/cu."@
        } else if stands_at("/dev/tty."@, path, 0) {
            "/dev/tty."@
        } else if stands_at("/dev/serial"@, path, 0) {
            "/dev/serial"@
        } else if stands_at("COM"@, path, 0) {
            "COM"@
        } else if stands_at("/dev/ttyUSB"@, path, 0) {
            "/dev/ttyUSB"@
        } else if stands_at("/dev/ttyACM"@, path, 0) {
            "/dev/ttyACM"@
        } else {
            "/dev/ttyS"@
        };
        assert(path.take(p.len() as int) =~= path.subrange(0, p.len() as int));
    }
}

/// A request to open a serial port at a baud rate from 1 to 4000000 opens that port at
/// that rate; any other is refused with the reason, the path before the baud rate.
pub proof fn law_ports_are_opened_as_asked(id: u64, path: Seq<char>, baud_rate: u32)
    ensures
        ({
            let work = planned(Ok(ClientMessageView::Open { id, path, baud_rate }));
            &&& is_serial_path(path) && 1 <= baud_rate <= 4_000_000 ==> (work
                matches WorkView::OpenPort { id: i, path: p, baud_rate: b } && i == id && p == path
                && b == baud_rate)
            &&& !is_serial_path(path) ==> work == WorkView::Answer(
                ServerMessageView::Error {
                    id: Some(id),
                    message: "Invalid serial port path: "@ + path,
                },
            )
            &&& is_serial_path(path) && !(1 <= baud_rate <= 4_000_000) ==> work == WorkView::Answer(
                ServerMessageView::Error {
                    id: Some(id),
                    message: "Invalid baud rate: "@ + decimal(baud_rate as nat),
                },
            )
        }),
{
}

/// Listing and closing are done as asked; data that is no base64 is refused with the reason,
/// and so is a request that cannot be read.
pub proof fn law_other_requests_are_planned_as_asked(id: u64, reason: Seq<char>, data: Seq<u8>)
    ensures
        planned(Ok(ClientMessageView::ListPorts { id })) == (WorkView::ListPorts { id }),
        planned(Ok(ClientMessageView::Close { id })) == (WorkView::ClosePort { id }),
        planned_write(id, Ok(data)) == (WorkView::WritePort { id, data }),
        planned_write(id, Err(reason)) == WorkView::Answer(
            ServerMessageView::Error { id: Some(id), message: reason },
        ),
        planned(Err(reason)) == WorkView::Answer(
            ServerMessageView::Error { id: None, message: "Failed to parse message: "@ + reason },
        ),
{
}

/// Work that was done is answered by what it gave, work that failed by its own reason, and
/// never the one for the other.
pub proof fn law_outcomes_are_told(
    id: u64,
    ports: Vec<PortInfo>,
    bytes: usize,
    reason: String,
)
    ensures
        answer_to(id, Outcome::Listed(Ok(ports))) == (ServerMessageView::PortsList {
            id,
            ports: ports@,
        }),
        answer_to(id, Outcome::Opened(Ok(()))) == (ServerMessageView::Opened { id }),
        answer_to(id, Outcome::Closed) == (ServerMessageView::Closed { id }),
        answer_to(id, Outcome::Written(Ok(bytes))) == (ServerMessageView::Written { id, bytes }),
        answer_to(id, Outcome::Configured(Ok(()))) == (ServerMessageView::ConfigSet { id }),
        ({
            let told = ServerMessageView::Error { id: Some(id), message: reason@ };
            &&& answer_to(id, Outcome::Listed(Err(reason))) == told
            &&& answer_to(id, Outcome::Opened(Err(reason))) == told
            &&& answer_to(id, Outcome::Written(Err(reason))) == told
            &&& answer_to(id, Outcome::Configured(Err(reason))) == told
        }),
{
}

/// The pages that may connect are three, and no other.
pub proof fn law_allowed_origins(origin: Seq<char>)
    ensures
        is_allowed_origin(origin) <==> seq![
            "https://futureterm.com"@,
            "http://localhost:8080"@,
            "http://127.0.0.1:8080"@,
        ].contains(origin),
{
    let all = seq![
        "https://futureterm.com"@,
        "http://localhost:8080"@,
        "http://127.0.0.1:8080"@,
    ];
    assert(all[0] == "https://futureterm.com"@ && all[1] == "http://localhost:8080"@ && all[2]
        == "http://127.0.0.1:8080"@);
}

/// A port number from 1024 to 65535 is taken as it stands, and 9876 in every other case.
pub proof fn law_listening_port(text: Seq<char>, n: nat)
    ensures
        chosen_port(None) == 9876,
        unsigned_value(text) == Some(n) && 1024 <= n <= 65535 ==> chosen_port(Some(text)) == n,
        unsigned_value(text) == Some(n) && !(1024 <= n <= 65535) ==> chosen_port(Some(text)) == 9876,
        unsigned_value(text) is None ==> chosen_port(Some(text)) == 9876,
{
}

/// Planning a request for settings hands on every setting that it names, and planning a
/// request to open a port its path and rate.
pub proof fn law_planning_hands_on_what_is_asked(request: ClientMessage, r: Work)
    requires
        call_ensures(plan_request, (Ok(request),), r),
    ensures
        request matches ClientMessage::SetConfig { id, baud_rate, data_bits, stop_bits, parity }
            ==> ((baud_rate matches Some(b) ==> 1 <= b <= 4_000_000) ==> (r
            matches Work::Configure {
            id: i,
            baud_rate: b,
            data_bits: d,
            stop_bits: s,
            parity: p,
        } && i == id && b == baud_rate && d == data_bits && s == stop_bits && (parity is None
            <==> p is None) && (parity matches Some(t) ==> (p matches Some(u) && u@ == t@)))),
        request matches ClientMessage::ListPorts { id } ==> (r matches Work::ListPorts { id: i }
            && i == id),
        request matches ClientMessage::Close { id } ==> (r matches Work::ClosePort { id: i }
            && i == id),
        request matches ClientMessage::Open { id, path, baud_rate } ==> (is_serial_path(path@) && 1
            <= baud_rate <= 4_000_000 ==> (r matches Work::OpenPort { id: i, path: p, baud_rate: b }
            && i == id && p@ == path@ && b == baud_rate)),
        r@ == planned(Ok(request@)),
{
    match request {
        ClientMessage::SetConfig { id, baud_rate, data_bits, stop_bits, parity } => {
            law_settings_are_planned_as_asked(
                id,
                baud_rate,
                data_bits,
                stop_bits,
                crate::protocol::messages::opt_text(parity),
            );
        },
        _ => {},
    }
}

/// A request that cannot be read is answered without a number, and with the reason.
pub proof fn law_unreadable_requests_are_answered(reason: String, r: Work)
    requires
        call_ensures(plan_request, (Err(reason),), r),
    ensures
        r@ == WorkView::Answer(
            ServerMessageView::Error {
                id: None,
                message: "Failed to parse message: "@ + reason@,
            },
        ),
{
}

/// Data to write is handed on byte for byte, and data that cannot be read is answered with
/// the reason; every outcome is answered as the model has it; data from the port is told so
/// that it can be read back.
pub proof fn law_bridge_hands_on_data(
    id: u64,
    data: Vec<u8>,
    e: String,
    written: Work,
    refused: Work,
    outcome: Outcome,
    answered: ServerMessage,
    bytes: &[u8],
    told: ServerMessage,
)
    requires
        call_ensures(plan_write, (id, Ok(data)), written),
        call_ensures(plan_write, (id, Err(e)), refused),
        call_ensures(answer, (id, outcome), answered),
        call_ensures(data_message, (bytes,), told),
    ensures
        written@ == (WorkView::WritePort { id, data: data@ }),
        refused@ == WorkView::Answer(ServerMessageView::Error { id: Some(id), message: e@ }),
        answered@ == answer_to(id, outcome),
        told@ matches ServerMessageView::Data { data: text } && decodes_to(text, bytes@),
{
}

/// Three origins are let in, and no others; a connection is idle too long once it was idle
/// for longer than is allowed; the port to listen on is the one that is asked for, if it can
/// be.
pub proof fn law_bridge_lets_in_and_listens(
    origin: &str,
    let_in: Result<(), &'static str>,
    nobody: Result<(), &'static str>,
    idle_ms: u64,
    timeout_ms: u64,
    idle: bool,
    arg: &str,
    port: u16,
    default_port: u16,
)
    requires
        call_ensures(check_origin, (Some(origin),), let_in),
        call_ensures(check_origin, (None,), nobody),
        call_ensures(idle_too_long, (idle_ms, timeout_ms), idle),
        call_ensures(listen_port, (Some(arg),), port),
        call_ensures(listen_port, (None,), default_port),
    ensures
        let_in is Ok <==> origin@ == "https://futureterm.com"@ || origin@
            == "http://localhost:8080"@ || origin@ == "http://127.0.0.1:8080"@,
        let_in matches Err(e) ==> e@ == "Unauthorized origin"@,
        nobody matches Err(e) && e@ == "Missing Origin header"@,
        idle <==> idle_ms > timeout_ms,
        default_port == 9876,
        unsigned_value(arg@) matches Some(n) ==> (1024 <= n <= 65535 ==> port == n) && (!(1024 <= n
            <= 65535) ==> port == 9876),
        unsigned_value(arg@) is None ==> port == 9876,
{
}

} // verus!
