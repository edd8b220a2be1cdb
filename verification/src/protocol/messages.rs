//! Commands from the user interface, events to it, and the values they carry.
use vstd::prelude::*;

use crate::actors::port_actor::framing::{
    ascii_upper, framing_config, law_framing_is_read_character_by_character, parse_framing,
};
use crate::float::Double;
use crate::protocol::state::ConnectionState;
use crate::text::same_text;

verus! {

/// What identifies a serial port.
#[derive(Debug, PartialEq)]
pub struct SerialPortInfo {
    pub path: String,
    pub vid: Option<u16>,
    pub pid: Option<u16>,
}

/// What identifies a serial port, with the path as a character sequence.
pub struct SerialPortInfoView {
    pub path: Seq<char>,
    pub vid: Option<u16>,
    pub pid: Option<u16>,
}

impl View for SerialPortInfo {
    type V = SerialPortInfoView;

    open spec fn view(&self) -> SerialPortInfoView {
        SerialPortInfoView { path: self.path@, vid: self.vid, pid: self.pid }
    }
}

impl Clone for SerialPortInfo {
    fn clone(&self) -> (r: SerialPortInfo)
        ensures
            r == *self,
    {
        SerialPortInfo { path: self.path.clone(), vid: self.vid, pid: self.pid }
    }
}

impl SerialPortInfo {
    /// Puts the parts together.
    pub fn new(path: String, vid: Option<u16>, pid: Option<u16>) -> (r: SerialPortInfo)
        ensures
            r == (SerialPortInfo { path, vid, pid }),
    {
        SerialPortInfo { path, vid, pid }
    }
}

/// Parity of a serial line.
#[derive(Debug, Clone, Copy, PartialEq, Eq, Structural)]
pub enum ParityMode {
    Off,
    Even,
    Odd,
}

/// Flow control of a serial line.
#[derive(Debug, Clone, Copy, PartialEq, Eq, Structural)]
pub enum FlowControl {
    Off,
    Hardware,
    Software,
}

/// Parameters of a serial line.
#[derive(Debug, Clone, Copy, PartialEq, Eq, Structural)]
pub struct SerialConfig {
    pub baud_rate: u32,
    pub data_bits: u8,
    pub stop_bits: u8,
    pub parity: ParityMode,
    pub flow_control: FlowControl,
}

/// Eight data bits, no parity, one stop bit, no flow control.
pub open spec fn config_8n1(baud_rate: u32) -> SerialConfig {
    SerialConfig {
        baud_rate,
        data_bits: 8,
        stop_bits: 1,
        parity: ParityMode::Off,
        flow_control: FlowControl::Off,
    }
}

/// The parity that a letter of a framing text stands for.
pub open spec fn parity_mode(c: char) -> ParityMode {
    let letter = ascii_upper(c);
    if letter == 'E' {
        ParityMode::Even
    } else if letter == 'O' {
        ParityMode::Odd
    } else {
        ParityMode::Off
    }
}

/// The configuration that a framing text stands for; 8N1 for a text that is no framing.
pub open spec fn framed_config(framing: Seq<char>, baud_rate: u32) -> SerialConfig {
    match framing_config(framing, baud_rate) {
        Ok(config) => SerialConfig {
            baud_rate,
            data_bits: config.data_bits,
            stop_bits: config.stop_bits,
            parity: parity_mode(framing[1]),
            flow_control: FlowControl::Off,
        },
        Err(_) => config_8n1(baud_rate),
    }
}

impl SerialConfig {
    /// A standard 8N1 configuration at the given baud rate.
    pub fn new_8n1(baud_rate: u32) -> (r: SerialConfig)
        ensures
            r == config_8n1(baud_rate),
    {
        SerialConfig {
            baud_rate,
            data_bits: 8,
            stop_bits: 1,
            parity: ParityMode::Off,
            flow_control: FlowControl::Off,
        }
    }

    /// The configuration that a framing text such as "8N1" stands for; 8N1 for a text
    /// that is no framing.
    pub fn from_framing(framing: &str, baud_rate: u32) -> (r: SerialConfig)
        ensures
            r == framed_config(framing@, baud_rate),
    {
        match parse_framing(framing, baud_rate) {
            Ok(config) => {
                proof {
                    reveal_strlit("none");
                    reveal_strlit("even");
                    reveal_strlit("odd");
                    assert("none"@[0] == 'n' && "even"@[0] == 'e' && "odd"@[0] == 'o');
                }
                let parity = if same_text(config.parity.as_str(), "even") {
                    ParityMode::Even
                } else if same_text(config.parity.as_str(), "odd") {
                    ParityMode::Odd
                } else {
                    ParityMode::Off
                };
                SerialConfig {
                    baud_rate,
                    data_bits: config.data_bits,
                    stop_bits: config.stop_bits,
                    parity,
                    flow_control: FlowControl::Off,
                }
            },
            Err(_) => SerialConfig::new_8n1(baud_rate),
        }
    }
}

/// Commands from the user interface.
#[derive(Debug, Clone)]
pub enum UiCommand {
    /// Connect to a port. Baud 0 asks for auto-detection; the framing is a text
    /// such as "8N1" or "Auto".
    Connect { port: SerialPortInfo, baud: u32, framing: String },
    /// Disconnect from the current port.
    Disconnect,
    /// Write data to the connected port.
    WriteData { data: Vec<u8> },
    /// Change the active decoder.
    SetDecoder { id: String },
    /// Change the active framer.
    SetFramer { id: String },
    /// Change the connection's parameters. The active framing is the one that
    /// "Auto" stands for.
    Reconfigure { baud: u32, framing: String, active_framing: String },
}

/// Events to the user interface.
#[derive(Debug, Clone)]
pub enum SystemEvent {
    /// The connection state has changed.
    StateChanged { state: ConnectionState },
    /// A status message for the user.
    StatusUpdate { message: String },
    /// Data came in from the port.
    DataReceived { data: Vec<u8>, timestamp_us: u64 },
    /// How far auto-detection has come.
    ProbeProgress { baud: u32, message: String },
    /// What auto-detection found.
    ProbeComplete { baud: u32, framing: String, protocol: Option<String> },
    /// An error.
    Error { message: String },
    /// Something was received.
    RxActivity,
    /// Something was sent.
    TxActivity,
    /// The decoder should be changed.
    DecoderChanged { id: String },
}

/// An event, with its texts as character sequences.
pub enum SystemEventView {
    StateChanged { state: ConnectionState },
    StatusUpdate { message: Seq<char> },
    DataReceived { data: Seq<u8>, timestamp_us: u64 },
    ProbeProgress { baud: u32, message: Seq<char> },
    ProbeComplete { baud: u32, framing: Seq<char>, protocol: Option<Seq<char>> },
    Error { message: Seq<char> },
    RxActivity,
    TxActivity,
    DecoderChanged { id: Seq<char> },
}

/// An optional text as an optional character sequence.
pub open spec fn opt_text(s: Option<String>) -> Option<Seq<char>> {
    match s {
        Some(t) => Some(t@),
        None => None,
    }
}

/// A copy of an optional text.
pub fn clone_opt_text(s: &Option<String>) -> (r: Option<String>)
    ensures
        r == *s,
{
    match s {
        Some(t) => Some(t.clone()),
        None => None,
    }
}

impl View for SystemEvent {
    type V = SystemEventView;

    open spec fn view(&self) -> SystemEventView {
        match *self {
            SystemEvent::StateChanged { state } => SystemEventView::StateChanged { state },
            SystemEvent::StatusUpdate { message } => SystemEventView::StatusUpdate {
                message: message@,
            },
            SystemEvent::DataReceived { data, timestamp_us } => SystemEventView::DataReceived {
                data: data@,
                timestamp_us,
            },
            SystemEvent::ProbeProgress { baud, message } => SystemEventView::ProbeProgress {
                baud,
                message: message@,
            },
            SystemEvent::ProbeComplete { baud, framing, protocol } =>
                SystemEventView::ProbeComplete {
                baud,
                framing: framing@,
                protocol: opt_text(protocol),
            },
            SystemEvent::Error { message } => SystemEventView::Error { message: message@ },
            SystemEvent::RxActivity => SystemEventView::RxActivity,
            SystemEvent::TxActivity => SystemEventView::TxActivity,
            SystemEvent::DecoderChanged { id } => SystemEventView::DecoderChanged { id: id@ },
        }
    }
}

/// Messages between actors, all in one type. The actors themselves exchange the
/// narrower types of the runtime; this one serves callers that log or relay them.
#[derive(Debug, Clone)]
pub enum InternalMessage {
    StartConnection { port: SerialPortInfo, config: SerialConfig },
    StopConnection,
    ConnectionEstablished,
    ConnectionFailed { reason: String },
    ConnectionLost,
    ProbeComplete {
        baud: u32,
        framing: String,
        protocol: Option<String>,
        initial_data: Vec<u8>,
    },
    ProbeFailed { reason: String },
    DeviceReappeared { port: SerialPortInfo },
    StartProbe { port: SerialPortInfo },
    AbortProbe,
    RegisterDevice { vid: u16, pid: u16, config: SerialConfig },
    ClearDevice,
}

/// What auto-detection found.
#[derive(Debug, Clone, PartialEq)]
pub struct ProbeResult {
    pub baud: u32,
    pub framing: String,
    pub protocol: Option<String>,
    pub initial_data: Vec<u8>,
    pub confidence: Double,
}

impl Default for ProbeResult {
    /// 115200 baud, 8N1, no protocol, no data, no confidence.
    fn default() -> (r: ProbeResult)
        ensures
            r.baud == 115200,
            r.framing@ == "8N1"@,
            r.protocol is None,
            r.initial_data@.len() == 0,
            r.confidence.bits == 0,
    {
        ProbeResult {
            baud: 115200,
            framing: "8N1".to_owned(),
            protocol: None,
            initial_data: Vec::new(),
            confidence: Double { bits: 0 },
        }
    }
}

/// A framing text is taken at its word, character by character, at the given rate and
/// without flow control.
pub proof fn law_framing_is_taken_at_its_word(d: char, p: char, s: char, baud_rate: u32)
    requires
        d == '7' || d == '8',
        p == 'N' || p == 'n' || p == 'E' || p == 'e' || p == 'O' || p == 'o',
        s == '1' || s == '2',
    ensures
        ({
            let c = framed_config(seq![d, p, s], baud_rate);
            &&& c.baud_rate == baud_rate
            &&& c.data_bits as int == d as int - '0' as int
            &&& c.stop_bits as int == s as int - '0' as int
            &&& c.parity is Off <==> p == 'N' || p == 'n'
            &&& c.parity is Even <==> p == 'E' || p == 'e'
            &&& c.parity is Odd <==> p == 'O' || p == 'o'
            &&& c.flow_control is Off
        }),
{
    law_framing_is_read_character_by_character(d, p, s, baud_rate);
}

/// A text that is no framing stands for eight data bits, no parity and one stop bit, at the
/// given rate and without flow control; so does the plain configuration.
pub proof fn law_what_is_no_framing_is_8n1(framing: Seq<char>, baud_rate: u32)
    ensures
        config_8n1(baud_rate).baud_rate == baud_rate,
        config_8n1(baud_rate).data_bits == 8,
        config_8n1(baud_rate).stop_bits == 1,
        config_8n1(baud_rate).parity is Off,
        config_8n1(baud_rate).flow_control is Off,
        framing_config(framing, baud_rate) is Err ==> framed_config(framing, baud_rate)
            == config_8n1(baud_rate),
{
}

/// The view of an event keeps every part of it.
pub proof fn law_view_of_an_event(e: SystemEvent)
    ensures
        e matches SystemEvent::StateChanged { state } ==> e@ == (SystemEventView::StateChanged {
            state,
        }),
        e matches SystemEvent::StatusUpdate { message } ==> e@ == (SystemEventView::StatusUpdate {
            message: message@,
        }),
        e matches SystemEvent::DataReceived { data, timestamp_us } ==> e@ == (
        SystemEventView::DataReceived { data: data@, timestamp_us }),
        e matches SystemEvent::ProbeProgress { baud, message } ==> e@ == (
        SystemEventView::ProbeProgress { baud, message: message@ }),
        e matches SystemEvent::ProbeComplete { baud, framing, protocol } ==> (e@
            matches SystemEventView::ProbeComplete { baud: b, framing: f, protocol: p } && b
            == baud && f == framing@ && (protocol matches Some(t) ==> p == Some(t@)) && (protocol
            is None ==> p is None)),
        e matches SystemEvent::Error { message } ==> e@ == (SystemEventView::Error {
            message: message@,
        }),
        e is RxActivity ==> e@ is RxActivity,
        e is TxActivity ==> e@ is TxActivity,
        e matches SystemEvent::DecoderChanged { id } ==> e@ == (SystemEventView::DecoderChanged {
            id: id@,
        }),
{
}

/// The view of a port keeps its path and both of its identifiers.
pub proof fn law_view_of_a_port(p: SerialPortInfo)
    ensures
        p@.path == p.path@,
        p@.vid == p.vid,
        p@.pid == p.pid,
{
}

/// Settings are made of a rate and a framing as the model has it.
pub proof fn law_settings_are_made(
    framing: &str,
    baud_rate: u32,
    framed: SerialConfig,
    plain: SerialConfig,
    path: String,
    vid: Option<u16>,
    pid: Option<u16>,
    port: SerialPortInfo,
)
    requires
        call_ensures(SerialConfig::from_framing, (framing, baud_rate), framed),
        call_ensures(SerialConfig::new_8n1, (baud_rate,), plain),
        call_ensures(SerialPortInfo::new, (path, vid, pid), port),
    ensures
        framed == framed_config(framing@, baud_rate),
        plain.baud_rate == baud_rate && plain.data_bits == 8 && plain.stop_bits == 1
            && plain.parity is Off && plain.flow_control is Off,
        port.path == path && port.vid == vid && port.pid == pid,
{
}

} // verus!
