//! What the user interface is told when an actor fails.
use vstd::prelude::*;

use crate::protocol::errors::{error_text, ActorError};
use crate::protocol::messages::{SystemEvent, SystemEventView};
use crate::text::joined;

verus! {

/// The event for an actor that could not start; the actor does not run then.
pub fn init_failure(name: &str, e: &ActorError) -> (r: SystemEvent)
    ensures
        r@ == (SystemEventView::Error { message: name@ + " init failed: "@ + error_text(e@) }),
{
    let mut message = joined(name, " init failed: ");
    message.append(e.message().as_str());
    SystemEvent::Error { message }
}

/// The event for a message that an actor could not handle; the actor goes on with
/// the next message.
pub fn handler_failure(name: &str, e: &ActorError) -> (r: SystemEvent)
    ensures
        r@ == (SystemEventView::Error { message: name@ + " error: "@ + error_text(e@) }),
{
    let mut message = joined(name, " error: ");
    message.append(e.message().as_str());
    SystemEvent::Error { message }
}

/// A failure is told behind the actor's name, and says whether it came at the start.
pub proof fn law_failures_are_told(
    name: &str,
    e: ActorError,
    at_start: SystemEvent,
    later: SystemEvent,
)
    requires
        call_ensures(init_failure, (name, &e), at_start),
        call_ensures(handler_failure, (name, &e), later),
    ensures
        at_start@ == (SystemEventView::Error {
            message: name@ + " init failed: "@ + error_text(e@),
        }),
        later@ == (SystemEventView::Error { message: name@ + " error: "@ + error_text(e@) }),
{
}

} // verus!
