//! Errors, signals and settings of a transport that carries serial data.
use vstd::prelude::*;

use crate::text::{joined, quoted, quoted_text};

verus! {

/// What went wrong in a transport.
#[derive(Debug, Clone, PartialEq)]
pub enum TransportError {
    Io(String),
    ConnectionFailed(String),
    NotConnected,
    AlreadyOpen,
    InvalidState(String),
    Other(String),
}

/// A transport error, with its texts as character sequences.
pub enum TransportErrorView {
    Io(Seq<char>),
    ConnectionFailed(Seq<char>),
    NotConnected,
    AlreadyOpen,
    InvalidState(Seq<char>),
    Other(Seq<char>),
}

impl View for TransportError {
    type V = TransportErrorView;

    open spec fn view(&self) -> TransportErrorView {
        match self {
            TransportError::Io(s) => TransportErrorView::Io(s@),
            TransportError::ConnectionFailed(s) => TransportErrorView::ConnectionFailed(s@),
            TransportError::NotConnected => TransportErrorView::NotConnected,
            TransportError::AlreadyOpen => TransportErrorView::AlreadyOpen,
            TransportError::InvalidState(s) => TransportErrorView::InvalidState(s@),
            TransportError::Other(s) => TransportErrorView::Other(s@),
        }
    }
}

/// The text shown for a transport error.
pub open spec fn transport_error_text(e: TransportErrorView) -> Seq<char> {
    match e {
        TransportErrorView::Io(s) => "IO Error: "@ + s,
        TransportErrorView::ConnectionFailed(s) => "Connection failed: "@ + s,
        TransportErrorView::NotConnected => "Not connected"@,
        TransportErrorView::AlreadyOpen => "Already open"@,
        TransportErrorView::InvalidState(s) => "Invalid state: "@ + s,
        TransportErrorView::Other(s) => "Other: "@ + s,
    }
}

/// The name of the error's kind, with its text quoted in brackets.
pub open spec fn transport_error_debug(e: TransportErrorView) -> Seq<char> {
    match e {
        TransportErrorView::Io(s) => "Io("@ + quoted(s) + ")"@,
        TransportErrorView::ConnectionFailed(s) => "ConnectionFailed("@ + quoted(s) + ")"@,
        TransportErrorView::NotConnected => "NotConnected"@,
        TransportErrorView::AlreadyOpen => "AlreadyOpen"@,
        TransportErrorView::InvalidState(s) => "InvalidState("@ + quoted(s) + ")"@,
        TransportErrorView::Other(s) => "Other("@ + quoted(s) + ")"@,
    }
}

fn kind_with_text(kind: &str, text: &str) -> (r: String)
    ensures
        r@ == kind@ + quoted(text@) + ")"@,
{
    let mut out = joined(kind, quoted_text(text).as_str());
    out.append(")");
    out
}

impl TransportError {
    /// The name of the error's kind, with its text quoted in brackets.
    pub fn debug_text(&self) -> (r: String)
        ensures
            r@ == transport_error_debug(self@),
    {
        match self {
            TransportError::Io(s) => kind_with_text("Io(", s.as_str()),
            TransportError::ConnectionFailed(s) => kind_with_text(
                "ConnectionFailed(",
                s.as_str(),
            ),
            TransportError::NotConnected => "NotConnected".to_owned(),
            TransportError::AlreadyOpen => "AlreadyOpen".to_owned(),
            TransportError::InvalidState(s) => kind_with_text("InvalidState(", s.as_str()),
            TransportError::Other(s) => kind_with_text("Other(", s.as_str()),
        }
    }

    /// The text shown for the error.
    pub fn message(&self) -> (r: String)
        ensures
            r@ == transport_error_text(self@),
    {
        match self {
            TransportError::Io(s) => joined("IO Error: ", s.as_str()),
            TransportError::ConnectionFailed(s) => joined("Connection failed: ", s.as_str()),
            TransportError::NotConnected => "Not connected".to_owned(),
            TransportError::AlreadyOpen => "Already open".to_owned(),
            TransportError::InvalidState(s) => joined("Invalid state: ", s.as_str()),
            TransportError::Other(s) => joined("Other: ", s.as_str()),
        }
    }
}

/// The control signals of a serial line.
#[derive(Debug, Clone, Copy, PartialEq, Eq, Structural)]
pub struct SignalState {
    pub dtr: bool,
    pub rts: bool,
    /// Data carrier detect.
    pub dcd: bool,
    /// Data set ready.
    pub dsr: bool,
    /// Ring indicator.
    pub ri: bool,
    /// Clear to send.
    pub cts: bool,
}

impl Default for SignalState {
    fn default() -> (r: SignalState)
        ensures
            !r.dtr && !r.rts && !r.dcd && !r.dsr && !r.ri && !r.cts,
    {
        SignalState { dtr: false, rts: false, dcd: false, dsr: false, ri: false, cts: false }
    }
}

/// Settings of a serial line, with parity and flow control as texts.
#[derive(Debug, Clone, PartialEq)]
pub struct SerialConfig {
    pub baud_rate: u32,
    /// 7 or 8.
    pub data_bits: u8,
    /// "none" or "hardware".
    pub flow_control: String,
    /// "none", "even" or "odd".
    pub parity: String,
    /// 1 or 2.
    pub stop_bits: u8,
}

/// Settings of a serial line, with their texts as character sequences.
pub struct SerialConfigView {
    pub baud_rate: u32,
    pub data_bits: u8,
    pub flow_control: Seq<char>,
    pub parity: Seq<char>,
    pub stop_bits: u8,
}

impl View for SerialConfig {
    type V = SerialConfigView;

    open spec fn view(&self) -> SerialConfigView {
        SerialConfigView {
            baud_rate: self.baud_rate,
            data_bits: self.data_bits,
            flow_control: self.flow_control@,
            parity: self.parity@,
            stop_bits: self.stop_bits,
        }
    }
}

impl Default for SerialConfig {
    fn default() -> (r: SerialConfig)
        ensures
            r@ == (SerialConfigView {
                baud_rate: 115200,
                data_bits: 8,
                flow_control: "none"@,
                parity: "none"@,
                stop_bits: 1,
            }),
    {
        SerialConfig {
            baud_rate: 115200,
            data_bits: 8,
            flow_control: "none".to_owned(),
            parity: "none".to_owned(),
            stop_bits: 1,
        }
    }
}

/// The text of a transport error is what the error says, behind the name of its kind.
pub proof fn law_transport_errors_are_told_in_their_words(s: Seq<char>)
    ensures
        transport_error_text(TransportErrorView::Io(s)) == "IO Error: "@ + s,
        transport_error_text(TransportErrorView::ConnectionFailed(s)) == "Connection failed: "@
            + s,
        transport_error_text(TransportErrorView::NotConnected) == "Not connected"@,
        transport_error_text(TransportErrorView::AlreadyOpen) == "Already open"@,
        transport_error_text(TransportErrorView::InvalidState(s)) == "Invalid state: "@ + s,
        transport_error_text(TransportErrorView::Other(s)) == "Other: "@ + s,
{
}

/// The short form of a transport error names its kind and holds its text, if it has one,
/// quoted.
pub proof fn law_transport_errors_are_named(s: Seq<char>)
    ensures
        transport_error_debug(TransportErrorView::Io(s)) == "Io("@ + quoted(s) + ")"@,
        transport_error_debug(TransportErrorView::ConnectionFailed(s)) == "ConnectionFailed("@
            + quoted(s) + ")"@,
        transport_error_debug(TransportErrorView::NotConnected) == "NotConnected"@,
        transport_error_debug(TransportErrorView::AlreadyOpen) == "AlreadyOpen"@,
        transport_error_debug(TransportErrorView::InvalidState(s)) == "InvalidState("@ + quoted(s)
            + ")"@,
        transport_error_debug(TransportErrorView::Other(s)) == "Other("@ + quoted(s) + ")"@,
{
}

/// The view of a transport error keeps its kind and its words.
pub proof fn law_view_of_a_transport_error(e: TransportError)
    ensures
        e matches TransportError::Io(s) ==> e@ == TransportErrorView::Io(s@),
        e matches TransportError::ConnectionFailed(s) ==> e@
            == TransportErrorView::ConnectionFailed(s@),
        e is NotConnected ==> e@ == TransportErrorView::NotConnected,
        e is AlreadyOpen ==> e@ == TransportErrorView::AlreadyOpen,
        e matches TransportError::InvalidState(s) ==> e@ == TransportErrorView::InvalidState(s@),
        e matches TransportError::Other(s) ==> e@ == TransportErrorView::Other(s@),
{
}

/// The view of settings keeps every one of them.
pub proof fn law_view_of_settings(c: SerialConfig)
    ensures
        c@.baud_rate == c.baud_rate,
        c@.data_bits == c.data_bits,
        c@.flow_control == c.flow_control@,
        c@.parity == c.parity@,
        c@.stop_bits == c.stop_bits,
{
}

/// A transport error shows by its text, and by its kind in its short form.
pub proof fn law_transport_errors_show(e: TransportError, r: String, q: String)
    requires
        call_ensures(TransportError::message, (&e,), r),
        call_ensures(TransportError::debug_text, (&e,), q),
    ensures
        r@ == transport_error_text(e@),
        q@ == transport_error_debug(e@),
{
}

} // verus!
