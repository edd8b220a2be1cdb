//! What a handler of the state actor asks for.
use vstd::prelude::*;

use crate::protocol::errors::{ActorError, ActorErrorView};
use crate::protocol::messages::{SystemEvent, SystemEventView};
use crate::protocol::state::ConnectionState;
use crate::runtime::channels::{
    PortMessage, PortMessageView, ProbeMessage, ProbeMessageView, ReconnectMessage,
};

verus! {

/// Something to be done that cannot fail the handler.
pub enum Effect {
    /// Tell the user interface; a full channel drops the event.
    Event(SystemEvent),
    /// Tell the reconnect actor; a full channel drops the message.
    Hint(ReconnectMessage),
    /// Cancel the running timeout.
    CancelTimeout,
    /// Start a timeout: after that many seconds, unless it is cancelled, the state
    /// actor gets `OperationTimeout` with this state and its name.
    StartTimeout { state: ConnectionState, secs: u64 },
    /// Wait before the next thing.
    Delay { millis: u32 },
}

/// An effect, with its texts as character sequences.
pub enum EffectView {
    Event(SystemEventView),
    Hint(ReconnectMessage),
    CancelTimeout,
    StartTimeout { state: ConnectionState, secs: u64 },
    Delay { millis: u32 },
}

impl View for Effect {
    type V = EffectView;

    open spec fn view(&self) -> EffectView {
        match *self {
            Effect::Event(e) => EffectView::Event(e@),
            Effect::Hint(m) => EffectView::Hint(m),
            Effect::CancelTimeout => EffectView::CancelTimeout,
            Effect::StartTimeout { state, secs } => EffectView::StartTimeout { state, secs },
            Effect::Delay { millis } => EffectView::Delay { millis },
        }
    }
}

/// The effects of a list, one by one.
pub open spec fn seen(effects: Seq<Effect>) -> Seq<EffectView> {
    effects.map_values(|e: Effect| e@)
}

pub broadcast proof fn lemma_seen_push(effects: Seq<Effect>, e: Effect)
    ensures
        #[trigger] seen(effects.push(e)) == seen(effects).push(e@),
{
    assert(seen(effects.push(e)) =~= seen(effects).push(e@));
}

pub broadcast proof fn lemma_seen_empty(effects: Seq<Effect>)
    ensures
        effects.len() == 0 ==> #[trigger] seen(effects) == Seq::<EffectView>::empty(),
{
    if effects.len() == 0 {
        assert(seen(effects) =~= Seq::<EffectView>::empty());
    }
}

/// What is left of a handler once a message that must arrive was sent.
#[derive(Debug)]
pub enum Continuation {
    /// Nothing: the handler has succeeded.
    Done,
    /// Report that an outdated connection was turned away.
    RejectStale,
    /// Go on disconnecting after the probe was told to stop.
    FinishDisconnect,
    /// Go to the state of a lost device.
    LoseDevice,
    /// Go to the state that waits for the port to close.
    AwaitClose,
    /// Hand over the data that the probe captured.
    Inject { data: Vec<u8> },
}

/// What is left of a handler, with its texts as character sequences.
pub enum ContinuationView {
    Done,
    RejectStale,
    FinishDisconnect,
    LoseDevice,
    AwaitClose,
    Inject { data: Seq<u8> },
}

impl View for Continuation {
    type V = ContinuationView;

    open spec fn view(&self) -> ContinuationView {
        match *self {
            Continuation::Done => ContinuationView::Done,
            Continuation::RejectStale => ContinuationView::RejectStale,
            Continuation::FinishDisconnect => ContinuationView::FinishDisconnect,
            Continuation::LoseDevice => ContinuationView::LoseDevice,
            Continuation::AwaitClose => ContinuationView::AwaitClose,
            Continuation::Inject { data } => ContinuationView::Inject { data: data@ },
        }
    }
}

/// How a turn ends.
pub enum Next {
    /// The handler is through.
    Finished(Result<(), ActorError>),
    /// Send this to the port actor, then go on.
    ToPort { msg: PortMessage, then: Continuation },
    /// Send this to the probe actor, then go on.
    ToProbe { msg: ProbeMessage, then: Continuation },
}

/// How a turn ends, with its texts as character sequences.
pub enum NextView {
    Finished(Result<(), ActorErrorView>),
    ToPort { msg: PortMessageView, then: ContinuationView },
    ToProbe { msg: ProbeMessageView, then: ContinuationView },
}

/// A handler's result, with its texts as character sequences.
pub open spec fn result_view(r: Result<(), ActorError>) -> Result<(), ActorErrorView> {
    match r {
        Ok(_) => Ok(()),
        Err(e) => Err(e@),
    }
}

impl View for Next {
    type V = NextView;

    open spec fn view(&self) -> NextView {
        match *self {
            Next::Finished(r) => NextView::Finished(result_view(r)),
            Next::ToPort { msg, then } => NextView::ToPort { msg: msg@, then: then@ },
            Next::ToProbe { msg, then } => NextView::ToProbe { msg: msg@, then: then@ },
        }
    }
}

/// What a handler asks for: effects in order, then how it goes on.
pub struct Turn {
    pub effects: Vec<Effect>,
    pub next: Next,
}

/// A turn, with its texts as character sequences.
pub struct TurnView {
    pub effects: Seq<EffectView>,
    pub next: NextView,
}

impl View for Turn {
    type V = TurnView;

    open spec fn view(&self) -> TurnView {
        TurnView { effects: seen(self.effects@), next: self.next@ }
    }
}

/// The actor that a message that must arrive goes to.
#[derive(Debug, Clone, Copy, PartialEq, Eq, Structural)]
pub enum Target {
    Port,
    Probe,
}

} // verus!
