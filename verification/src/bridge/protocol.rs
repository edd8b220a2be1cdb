//! What the bridge and its clients say to each other.
use vstd::prelude::*;

use crate::protocol::messages::opt_text;

verus! {

/// A client's request. Each has a number, which the answer repeats.
#[derive(Debug, Clone)]
pub enum ClientMessage {
    /// List the serial ports.
    ListPorts { id: u64 },
    /// Open a serial port at a baud rate.
    Open { id: u64, path: String, baud_rate: u32 },
    /// Close the open port.
    Close { id: u64 },
    /// Write data to the port, in base64.
    Write { id: u64, data: String },
    /// Change some of the port's settings.
    SetConfig {
        id: u64,
        baud_rate: Option<u32>,
        data_bits: Option<u8>,
        stop_bits: Option<u8>,
        parity: Option<String>,
    },
}

/// A request, with its texts as character sequences.
pub enum ClientMessageView {
    ListPorts { id: u64 },
    Open { id: u64, path: Seq<char>, baud_rate: u32 },
    Close { id: u64 },
    Write { id: u64, data: Seq<char> },
    SetConfig {
        id: u64,
        baud_rate: Option<u32>,
        data_bits: Option<u8>,
        stop_bits: Option<u8>,
        parity: Option<Seq<char>>,
    },
}

impl View for ClientMessage {
    type V = ClientMessageView;

    open spec fn view(&self) -> ClientMessageView {
        match *self {
            ClientMessage::ListPorts { id } => ClientMessageView::ListPorts { id },
            ClientMessage::Open { id, path, baud_rate } => ClientMessageView::Open {
                id,
                path: path@,
                baud_rate,
            },
            ClientMessage::Close { id } => ClientMessageView::Close { id },
            ClientMessage::Write { id, data } => ClientMessageView::Write { id, data: data@ },
            ClientMessage::SetConfig { id, baud_rate, data_bits, stop_bits, parity } =>
                ClientMessageView::SetConfig {
                id,
                baud_rate,
                data_bits,
                stop_bits,
                parity: opt_text(parity),
            },
        }
    }
}

/// The number of a request.
pub open spec fn request_id(msg: ClientMessageView) -> u64 {
    match msg {
        ClientMessageView::ListPorts { id } => id,
        ClientMessageView::Open { id, .. } => id,
        ClientMessageView::Close { id } => id,
        ClientMessageView::Write { id, .. } => id,
        ClientMessageView::SetConfig { id, .. } => id,
    }
}

impl ClientMessage {
    /// The number of the request.
    pub fn id(&self) -> (r: u64)
        ensures
            r == request_id(self@),
    {
        match self {
            ClientMessage::ListPorts { id } => *id,
            ClientMessage::Open { id, .. } => *id,
            ClientMessage::Close { id } => *id,
            ClientMessage::Write { id, .. } => *id,
            ClientMessage::SetConfig { id, .. } => *id,
        }
    }
}

/// What a port is attached by.
#[derive(Debug, Clone, Copy, PartialEq, Eq, Structural)]
pub enum PortType {
    UsbSerial,
    Bluetooth,
    Pci,
    Unknown,
}

/// A serial port of this machine.
#[derive(Debug, Clone)]
pub struct PortInfo {
    pub path: String,
    pub port_type: PortType,
    pub vid: Option<u16>,
    pub pid: Option<u16>,
    pub serial_number: Option<String>,
    pub manufacturer: Option<String>,
    pub product: Option<String>,
}

/// What the bridge says: answers to requests, and news of its own.
#[derive(Debug, Clone)]
pub enum ServerMessage {
    /// The first message on a connection.
    Hello { version: String },
    /// The answer to `ListPorts`.
    PortsList { id: u64, ports: Vec<PortInfo> },
    /// The answer to `Open`.
    Opened { id: u64 },
    /// The answer to `Close`.
    Closed { id: u64 },
    /// The answer to `Write`.
    Written { id: u64, bytes: usize },
    /// The answer to `SetConfig`.
    ConfigSet { id: u64 },
    /// Data from the port, in base64.
    Data { data: String },
    /// The port went away.
    PortDisconnected { reason: String },
    /// A request failed; without a number if it could not be read.
    Error { id: Option<u64>, message: String },
}

/// What the bridge says, with its texts as character sequences.
pub enum ServerMessageView {
    Hello { version: Seq<char> },
    PortsList { id: u64, ports: Seq<PortInfo> },
    Opened { id: u64 },
    Closed { id: u64 },
    Written { id: u64, bytes: usize },
    ConfigSet { id: u64 },
    Data { data: Seq<char> },
    PortDisconnected { reason: Seq<char> },
    Error { id: Option<u64>, message: Seq<char> },
}

impl View for ServerMessage {
    type V = ServerMessageView;

    open spec fn view(&self) -> ServerMessageView {
        match *self {
            ServerMessage::Hello { version } => ServerMessageView::Hello { version: version@ },
            ServerMessage::PortsList { id, ports } => ServerMessageView::PortsList {
                id,
                ports: ports@,
            },
            ServerMessage::Opened { id } => ServerMessageView::Opened { id },
            ServerMessage::Closed { id } => ServerMessageView::Closed { id },
            ServerMessage::Written { id, bytes } => ServerMessageView::Written { id, bytes },
            ServerMessage::ConfigSet { id } => ServerMessageView::ConfigSet { id },
            ServerMessage::Data { data } => ServerMessageView::Data { data: data@ },
            ServerMessage::PortDisconnected { reason } => ServerMessageView::PortDisconnected {
                reason: reason@,
            },
            ServerMessage::Error { id, message } => ServerMessageView::Error {
                id,
                message: message@,
            },
        }
    }
}

/// The number of the request that a message answers; `None` for news and for the
/// answer to a request that could not be read.
pub open spec fn answered_id(msg: ServerMessageView) -> Option<u64> {
    match msg {
        ServerMessageView::PortsList { id, .. } => Some(id),
        ServerMessageView::Opened { id } => Some(id),
        ServerMessageView::Closed { id } => Some(id),
        ServerMessageView::Written { id, .. } => Some(id),
        ServerMessageView::ConfigSet { id } => Some(id),
        ServerMessageView::Error { id, .. } => id,
        _ => None,
    }
}

impl ServerMessage {
    /// The answer to a request that failed.
    pub fn error(id: Option<u64>, message: &str) -> (r: ServerMessage)
        ensures
            r@ == (ServerMessageView::Error { id, message: message@ }),
    {
        ServerMessage::Error { id, message: message.to_owned() }
    }
}

/// The number of a request is the one that it carries.
pub proof fn law_requests_carry_their_numbers(
    id: u64,
    text: Seq<char>,
    baud: u32,
    rate: Option<u32>,
    data_bits: Option<u8>,
    stop_bits: Option<u8>,
    parity: Option<Seq<char>>,
)
    ensures
        request_id(ClientMessageView::ListPorts { id }) == id,
        request_id(ClientMessageView::Open { id, path: text, baud_rate: baud }) == id,
        request_id(ClientMessageView::Close { id }) == id,
        request_id(ClientMessageView::Write { id, data: text }) == id,
        request_id(
            ClientMessageView::SetConfig { id, baud_rate: rate, data_bits, stop_bits, parity },
        ) == id,
{
}

/// Every answer carries the number of its request, an error the number that it was given;
/// news carry none.
pub proof fn law_answers_carry_numbers(
    id: u64,
    no: Option<u64>,
    text: Seq<char>,
    bytes: usize,
    ports: Seq<PortInfo>,
)
    ensures
        answered_id(ServerMessageView::PortsList { id, ports }) == Some(id),
        answered_id(ServerMessageView::Opened { id }) == Some(id),
        answered_id(ServerMessageView::Closed { id }) == Some(id),
        answered_id(ServerMessageView::Written { id, bytes }) == Some(id),
        answered_id(ServerMessageView::ConfigSet { id }) == Some(id),
        answered_id(ServerMessageView::Error { id: no, message: text }) == no,
        answered_id(ServerMessageView::Hello { version: text }) is None,
        answered_id(ServerMessageView::Data { data: text }) is None,
        answered_id(ServerMessageView::PortDisconnected { reason: text }) is None,
{
}

/// The view of a request keeps every part of it.
pub proof fn law_view_of_a_request(m: ClientMessage)
    ensures
        m matches ClientMessage::ListPorts { id } ==> m@ == (ClientMessageView::ListPorts { id }),
        m matches ClientMessage::Open { id, path, baud_rate } ==> m@ == (ClientMessageView::Open {
            id,
            path: path@,
            baud_rate,
        }),
        m matches ClientMessage::Close { id } ==> m@ == (ClientMessageView::Close { id }),
        m matches ClientMessage::Write { id, data } ==> m@ == (ClientMessageView::Write {
            id,
            data: data@,
        }),
        m matches ClientMessage::SetConfig { id, baud_rate, data_bits, stop_bits, parity } ==> (m@
            matches ClientMessageView::SetConfig {
            id: i,
            baud_rate: b,
            data_bits: d,
            stop_bits: s,
            parity: p,
        } && i == id && b == baud_rate && d == data_bits && s == stop_bits && (parity
            matches Some(t) ==> p == Some(t@)) && (parity is None ==> p is None)),
{
}

/// The view of what the bridge says keeps every part of it.
pub proof fn law_view_of_what_is_said(m: ServerMessage)
    ensures
        m matches ServerMessage::Hello { version } ==> m@ == (ServerMessageView::Hello {
            version: version@,
        }),
        m matches ServerMessage::PortsList { id, ports } ==> m@ == (ServerMessageView::PortsList {
            id,
            ports: ports@,
        }),
        m matches ServerMessage::Opened { id } ==> m@ == (ServerMessageView::Opened { id }),
        m matches ServerMessage::Closed { id } ==> m@ == (ServerMessageView::Closed { id }),
        m matches ServerMessage::Written { id, bytes } ==> m@ == (ServerMessageView::Written {
            id,
            bytes,
        }),
        m matches ServerMessage::ConfigSet { id } ==> m@ == (ServerMessageView::ConfigSet { id }),
        m matches ServerMessage::Data { data } ==> m@ == (ServerMessageView::Data { data: data@ }),
        m matches ServerMessage::PortDisconnected { reason } ==> m@ == (
        ServerMessageView::PortDisconnected { reason: reason@ }),
        m matches ServerMessage::Error { id, message } ==> m@ == (ServerMessageView::Error {
            id,
            message: message@,
        }),
{
}

/// A request tells its own number; an error carries the number and the words it is given.
pub proof fn law_numbers_are_told(
    m: ClientMessage,
    n: u64,
    id: Option<u64>,
    message: &str,
    r: ServerMessage,
)
    requires
        call_ensures(ClientMessage::id, (&m,), n),
        call_ensures(ServerMessage::error, (id, message), r),
    ensures
        n == match m {
            ClientMessage::ListPorts { id } => id,
            ClientMessage::Open { id, .. } => id,
            ClientMessage::Close { id } => id,
            ClientMessage::Write { id, .. } => id,
            ClientMessage::SetConfig { id, .. } => id,
        },
        r@ == (ServerMessageView::Error { id, message: message@ }),
{
}

} // verus!
