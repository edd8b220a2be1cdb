//! The error that an actor reports.
use vstd::prelude::*;

use crate::text::joined;

verus! {

/// What went wrong in an actor.
#[derive(Debug, Clone)]
pub enum ActorError {
    /// A state transition was rejected.
    InvalidTransition(String),
    /// A message that the actor's state does not allow.
    UnexpectedMessage { state: String, message: String },
    /// A channel's other end is gone.
    ChannelClosed(String),
    /// No answer in time.
    Timeout(String),
    /// The transport failed.
    Transport(String),
    /// A setting is wrong.
    Config(String),
    /// The device is not there.
    DeviceNotFound(String),
    /// Anything else.
    Other(String),
}

/// An actor error, with its texts as character sequences.
pub enum ActorErrorView {
    InvalidTransition(Seq<char>),
    UnexpectedMessage { state: Seq<char>, message: Seq<char> },
    ChannelClosed(Seq<char>),
    Timeout(Seq<char>),
    Transport(Seq<char>),
    Config(Seq<char>),
    DeviceNotFound(Seq<char>),
    Other(Seq<char>),
}

impl View for ActorError {
    type V = ActorErrorView;

    open spec fn view(&self) -> ActorErrorView {
        match self {
            ActorError::InvalidTransition(s) => ActorErrorView::InvalidTransition(s@),
            ActorError::UnexpectedMessage { state, message } => ActorErrorView::UnexpectedMessage {
                state: state@,
                message: message@,
            },
            ActorError::ChannelClosed(s) => ActorErrorView::ChannelClosed(s@),
            ActorError::Timeout(s) => ActorErrorView::Timeout(s@),
            ActorError::Transport(s) => ActorErrorView::Transport(s@),
            ActorError::Config(s) => ActorErrorView::Config(s@),
            ActorError::DeviceNotFound(s) => ActorErrorView::DeviceNotFound(s@),
            ActorError::Other(s) => ActorErrorView::Other(s@),
        }
    }
}

/// The text shown for an error.
pub open spec fn error_text(e: ActorErrorView) -> Seq<char> {
    match e {
        ActorErrorView::InvalidTransition(s) => "Invalid state transition: "@ + s,
        ActorErrorView::UnexpectedMessage { state, message } => "Unexpected message in state "@
            + state + ": "@ + message,
        ActorErrorView::ChannelClosed(s) => "Channel closed: "@ + s,
        ActorErrorView::Timeout(s) => "Operation timeout: "@ + s,
        ActorErrorView::Transport(s) => "Transport error: "@ + s,
        ActorErrorView::Config(s) => "Configuration error: "@ + s,
        ActorErrorView::DeviceNotFound(s) => "Device not found: "@ + s,
        ActorErrorView::Other(s) => s,
    }
}

impl ActorError {
    /// The text shown for the error.
    pub fn message(&self) -> (r: String)
        ensures
            r@ == error_text(self@),
    {
        match self {
            ActorError::InvalidTransition(s) => joined("Invalid state transition: ", s.as_str()),
            ActorError::UnexpectedMessage { state, message } => {
                let mut out = joined("Unexpected message in state ", state.as_str());
                out.append(": ");
                out.append(message.as_str());
                out
            },
            ActorError::ChannelClosed(s) => joined("Channel closed: ", s.as_str()),
            ActorError::Timeout(s) => joined("Operation timeout: ", s.as_str()),
            ActorError::Transport(s) => joined("Transport error: ", s.as_str()),
            ActorError::Config(s) => joined("Configuration error: ", s.as_str()),
            ActorError::DeviceNotFound(s) => joined("Device not found: ", s.as_str()),
            ActorError::Other(s) => s.clone(),
        }
    }
}

impl From<String> for ActorError {
    fn from(s: String) -> (r: ActorError) {
        ActorError::Other(s)
    }
}

impl vstd::std_specs::convert::FromSpecImpl<String> for ActorError {
    open spec fn obeys_from_spec() -> bool {
        true
    }

    open spec fn from_spec(s: String) -> ActorError {
        ActorError::Other(s)
    }
}

impl<'a> From<&'a str> for ActorError {
    fn from(s: &'a str) -> (r: ActorError)
        ensures
            r@ == ActorErrorView::Other(s@),
    {
        ActorError::Other(s.to_owned())
    }
}

impl<'a> vstd::std_specs::convert::FromSpecImpl<&'a str> for ActorError {
    open spec fn obeys_from_spec() -> bool {
        false
    }

    open spec fn from_spec(s: &'a str) -> ActorError {
        arbitrary()
    }
}

/// The text of an error is what the error says, behind the name of its kind; of an error
/// of no particular kind, what it says alone.
pub proof fn law_errors_are_told_in_their_words(s: Seq<char>, t: Seq<char>)
    ensures
        error_text(ActorErrorView::InvalidTransition(s)) == "Invalid state transition: "@ + s,
        error_text(ActorErrorView::UnexpectedMessage { state: s, message: t })
            == "Unexpected message in state "@ + s + ": "@ + t,
        error_text(ActorErrorView::ChannelClosed(s)) == "Channel closed: "@ + s,
        error_text(ActorErrorView::Timeout(s)) == "Operation timeout: "@ + s,
        error_text(ActorErrorView::Transport(s)) == "Transport error: "@ + s,
        error_text(ActorErrorView::Config(s)) == "Configuration error: "@ + s,
        error_text(ActorErrorView::DeviceNotFound(s)) == "Device not found: "@ + s,
        error_text(ActorErrorView::Other(s)) == s,
{
}

/// The view of an error keeps its kind and its words.
pub proof fn law_view_of_an_error(e: ActorError)
    ensures
        e matches ActorError::InvalidTransition(s) ==> e@ == ActorErrorView::InvalidTransition(
            s@,
        ),
        e matches ActorError::UnexpectedMessage { state, message } ==> (e@
            matches ActorErrorView::UnexpectedMessage { state: s, message: m } && s == state@
            && m == message@),
        e matches ActorError::ChannelClosed(s) ==> e@ == ActorErrorView::ChannelClosed(s@),
        e matches ActorError::Timeout(s) ==> e@ == ActorErrorView::Timeout(s@),
        e matches ActorError::Transport(s) ==> e@ == ActorErrorView::Transport(s@),
        e matches ActorError::Config(s) ==> e@ == ActorErrorView::Config(s@),
        e matches ActorError::DeviceNotFound(s) ==> e@ == ActorErrorView::DeviceNotFound(s@),
        e matches ActorError::Other(s) ==> e@ == ActorErrorView::Other(s@),
{
}

/// An error shows by its text.
pub proof fn law_errors_show(e: ActorError, r: String)
    requires
        call_ensures(ActorError::message, (&e,), r),
    ensures
        r@ == error_text(e@),
{
}

} // verus!
