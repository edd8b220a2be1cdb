//! What a handler of the port actor asks for.
use vstd::prelude::*;

use crate::protocol::errors::{ActorError, ActorErrorView};
use crate::protocol::messages::{SerialPortInfo, SerialPortInfoView, SystemEvent, SystemEventView};
use crate::runtime::channels::{PortHandle, StateMessage};
use crate::transport::{SerialConfig, SerialConfigView};

verus! {

/// Something to be done that cannot fail the handler.
#[derive(Debug)]
pub enum PortEffect {
    /// Tell the user interface; a full channel drops the event.
    Event(SystemEvent),
    /// Wait before the next thing.
    Delay { millis: u64 },
    /// Write to the port; a failure is ignored.
    Wake { data: Vec<u8> },
    /// Start reading from the port.
    StartReading { suppress_echo: bool },
    /// Tell the read loop to end.
    StopReading,
    /// Let go of the port.
    Release,
    /// Wait until the read loop has ended, but no longer than this.
    AwaitReader { millis: u64 },
}

/// An effect, with its texts as character sequences.
pub enum PortEffectView {
    Event(SystemEventView),
    Delay { millis: u64 },
    Wake { data: Seq<u8> },
    StartReading { suppress_echo: bool },
    StopReading,
    Release,
    AwaitReader { millis: u64 },
}

impl View for PortEffect {
    type V = PortEffectView;

    open spec fn view(&self) -> PortEffectView {
        match *self {
            PortEffect::Event(e) => PortEffectView::Event(e@),
            PortEffect::Delay { millis } => PortEffectView::Delay { millis },
            PortEffect::Wake { data } => PortEffectView::Wake { data: data@ },
            PortEffect::StartReading { suppress_echo } => PortEffectView::StartReading {
                suppress_echo,
            },
            PortEffect::StopReading => PortEffectView::StopReading,
            PortEffect::Release => PortEffectView::Release,
            PortEffect::AwaitReader { millis } => PortEffectView::AwaitReader { millis },
        }
    }
}

/// The effects of a list, one by one.
pub open spec fn seen(effects: Seq<PortEffect>) -> Seq<PortEffectView> {
    effects.map_values(|e: PortEffect| e@)
}

pub broadcast proof fn lemma_seen_push(effects: Seq<PortEffect>, e: PortEffect)
    ensures
        #[trigger] seen(effects.push(e)) == seen(effects).push(e@),
{
    assert(seen(effects.push(e)) =~= seen(effects).push(e@));
}

pub broadcast proof fn lemma_seen_empty(effects: Seq<PortEffect>)
    ensures
        effects.len() == 0 ==> #[trigger] seen(effects) == Seq::<PortEffectView>::empty(),
{
    if effects.len() == 0 {
        assert(seen(effects) =~= Seq::<PortEffectView>::empty());
    }
}

/// A port that is being opened.
#[derive(Debug)]
pub struct Opening {
    pub port: SerialPortInfo,
    pub port_handle: PortHandle,
    pub config: SerialConfig,
    pub send_wakeup: bool,
    /// The number of the open request.
    pub operation_id: u32,
    /// Which attempt this is, counted from 1.
    pub attempt: u32,
}

/// A port that is being opened, with its texts as character sequences.
pub struct OpeningView {
    pub port: SerialPortInfoView,
    pub port_handle: PortHandle,
    pub config: SerialConfigView,
    pub send_wakeup: bool,
    pub operation_id: u32,
    pub attempt: u32,
}

impl View for Opening {
    type V = OpeningView;

    open spec fn view(&self) -> OpeningView {
        OpeningView {
            port: self.port@,
            port_handle: self.port_handle,
            config: self.config@,
            send_wakeup: self.send_wakeup,
            operation_id: self.operation_id,
            attempt: self.attempt,
        }
    }
}

/// What the state actor has to be told.
pub enum NoticeView {
    Established { operation_id: u32 },
    Failed { reason: Seq<char> },
    Closed,
}

/// The notice that a message to the state actor is; `None` for any other message.
pub open spec fn notice_view(msg: StateMessage) -> Option<NoticeView> {
    match msg {
        StateMessage::ConnectionEstablished { operation_id } => Some(
            NoticeView::Established { operation_id },
        ),
        StateMessage::ConnectionFailed { reason } => Some(NoticeView::Failed { reason: reason@ }),
        StateMessage::ConnectionClosed => Some(NoticeView::Closed),
        _ => None,
    }
}

/// What is left of a handler once the state actor was told.
#[derive(Debug)]
pub enum AfterNotice {
    /// Tell the user interface that the port is open.
    Connected { path: String, baud: u32 },
    /// The port could not be opened.
    Failed { reason: String },
    /// The port is closed.
    Closed,
}

/// What is left of a handler, with its texts as character sequences.
pub enum AfterNoticeView {
    Connected { path: Seq<char>, baud: u32 },
    Failed { reason: Seq<char> },
    Closed,
}

impl View for AfterNotice {
    type V = AfterNoticeView;

    open spec fn view(&self) -> AfterNoticeView {
        match *self {
            AfterNotice::Connected { path, baud } => AfterNoticeView::Connected {
                path: path@,
                baud,
            },
            AfterNotice::Failed { reason } => AfterNoticeView::Failed { reason: reason@ },
            AfterNotice::Closed => AfterNoticeView::Closed,
        }
    }
}

/// How a turn ends.
pub enum PortNext {
    /// The handler is through.
    Finished(Result<(), ActorError>),
    /// Try to open the port, then go on with `opened`.
    TryOpen(Opening),
    /// Write to the port, then go on with `written`.
    WriteOut { data: Vec<u8> },
    /// Send this to the state actor, then go on with `notified`.
    Notify { msg: StateMessage, then: AfterNotice },
}

/// How a turn ends, with its texts as character sequences.
pub enum PortNextView {
    Finished(Result<(), ActorErrorView>),
    TryOpen(OpeningView),
    WriteOut { data: Seq<u8> },
    Notify { notice: Option<NoticeView>, then: AfterNoticeView },
}

impl View for PortNext {
    type V = PortNextView;

    open spec fn view(&self) -> PortNextView {
        match *self {
            PortNext::Finished(r) => PortNextView::Finished(
                match r {
                    Ok(_) => Ok(()),
                    Err(e) => Err(e@),
                },
            ),
            PortNext::TryOpen(opening) => PortNextView::TryOpen(opening@),
            PortNext::WriteOut { data } => PortNextView::WriteOut { data: data@ },
            PortNext::Notify { msg, then } => PortNextView::Notify {
                notice: notice_view(msg),
                then: then@,
            },
        }
    }
}

/// What a handler asks for: effects in order, then how it goes on.
pub struct PortTurn {
    pub effects: Vec<PortEffect>,
    pub next: PortNext,
}

/// A turn, with its texts as character sequences.
pub struct PortTurnView {
    pub effects: Seq<PortEffectView>,
    pub next: PortNextView,
}

impl View for PortTurn {
    type V = PortTurnView;

    open spec fn view(&self) -> PortTurnView {
        PortTurnView { effects: seen(self.effects@), next: self.next@ }
    }
}

} // verus!
