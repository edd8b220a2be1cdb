//! The port actor and its handlers.
use vstd::prelude::*;

use crate::actors::backoff::{jittered_delay, jittered_retry_delay};
use crate::actors::constants::port::{
    CLEANUP_TIMEOUT_MS, MAX_OPEN_RETRIES, STABILIZATION_MS, WAKE_UP_BYTE,
};
use crate::actors::port_actor::framing::{framing_config, parse_framing};
use crate::actors::port_actor::turn::{
    lemma_seen_empty, lemma_seen_push, seen, AfterNotice, AfterNoticeView, NoticeView, Opening,
    OpeningView, PortEffect, PortEffectView, PortNext, PortNextView, PortTurn, PortTurnView,
};
use crate::protocol::errors::{ActorError, ActorErrorView};
use crate::protocol::messages::{opt_text, SerialPortInfo, SerialPortInfoView, SystemEvent, SystemEventView};
use crate::runtime::channels::{PortHandle, PortMessage, PortMessageView, StateMessage};
use crate::text::{
    contains_text, decimal, decimal_text, joined, law_what_occurs_is_mentioned, occurs_in,
};
use crate::transport::{
    transport_error_debug, transport_error_text, SerialConfig, TransportError, TransportErrorView,
};

verus! {

broadcast use {lemma_seen_push, lemma_seen_empty};

/// The pause after closing when there is no read loop to wait for, in milliseconds.
pub const CLOSE_PAUSE_MS: u64 = 100;

/// The actor that owns the port.
#[derive(Debug)]
pub struct PortActor {
    /// The path of the open port.
    pub active_port: Option<String>,
    /// The number of the last open request.
    pub current_operation_id: Option<u32>,
    /// Whether the actor holds the port.
    pub transport_open: bool,
    /// Whether a read loop was started that has not been told to end.
    pub reading: bool,
}

/// The actor's state, with its texts as character sequences.
pub struct PortView {
    pub active_port: Option<Seq<char>>,
    pub current_operation_id: Option<u32>,
    pub transport_open: bool,
    pub reading: bool,
}

impl View for PortActor {
    type V = PortView;

    open spec fn view(&self) -> PortView {
        PortView {
            active_port: opt_text(self.active_port),
            current_operation_id: self.current_operation_id,
            transport_open: self.transport_open,
            reading: self.reading,
        }
    }
}

/// No port is open.
pub open spec fn closed_port() -> PortView {
    PortView {
        active_port: None,
        current_operation_id: None,
        transport_open: false,
        reading: false,
    }
}

/// The port is held and read exactly while it is open.
pub open spec fn consistent(s: PortView) -> bool {
    s.transport_open == (s.active_port is Some) && s.reading == (s.active_port is Some)
}

/// A turn that only ends.
pub open spec fn ends(r: Result<(), ActorErrorView>) -> PortTurnView {
    PortTurnView { effects: Seq::empty(), next: PortNextView::Finished(r) }
}

/// An open request: refused while a port is open, without a port object, and with a
/// framing that makes no sense; otherwise the first attempt is due.
pub open spec fn open_request(
    s: PortView,
    port: SerialPortInfoView,
    baud: u32,
    framing: Seq<char>,
    send_wakeup: bool,
    operation_id: u32,
    port_handle: Option<PortHandle>,
) -> (PortView, PortTurnView) {
    if s.active_port is Some {
        (s, ends(Err(ActorErrorView::InvalidTransition("Port already open"@))))
    } else {
        (
            PortView { current_operation_id: Some(operation_id), ..s },
            match port_handle {
                None => ends(
                    Err(ActorErrorView::Transport("Native port handling not implemented"@)),
                ),
                Some(port_handle) => match framing_config(framing, baud) {
                    Err(e) => ends(
                        Err(
                            ActorErrorView::Transport(
                                "Failed to parse framing '"@ + framing + "': "@ + e,
                            ),
                        ),
                    ),
                    Ok(config) => PortTurnView {
                        effects: Seq::empty(),
                        next: PortNextView::TryOpen(
                            OpeningView {
                                port,
                                port_handle,
                                config,
                                send_wakeup,
                                operation_id,
                                attempt: 1,
                            },
                        ),
                    },
                },
            },
        )
    }
}

/// Words in a failure that mean that the port may come free.
pub open spec fn is_retriable(msg: Seq<char>) -> bool {
    occurs_in("NetworkError"@, msg) || occurs_in("busy"@, msg) || occurs_in("in use"@, msg)
        || occurs_in("InvalidStateError"@, msg)
}

/// Why a failed attempt is the last one; `None` if another one is due.
pub open spec fn final_failure(e: TransportErrorView, attempt: u32) -> Option<Seq<char>> {
    if attempt >= MAX_OPEN_RETRIES {
        Some(transport_error_debug(e))
    } else {
        match e {
            TransportErrorView::AlreadyOpen => None,
            TransportErrorView::InvalidState(_) => None,
            TransportErrorView::ConnectionFailed(msg) => if is_retriable(msg) {
                None
            } else {
                Some(msg)
            },
            _ => Some(transport_error_debug(e)),
        }
    }
}

/// What is done with a port that was just opened.
pub open spec fn opening_effects(send_wakeup: bool) -> Seq<PortEffectView> {
    if send_wakeup {
        seq![
            PortEffectView::Delay { millis: STABILIZATION_MS },
            PortEffectView::Wake { data: seq![WAKE_UP_BYTE] },
            PortEffectView::StartReading { suppress_echo: true },
        ]
    } else {
        seq![PortEffectView::StartReading { suppress_echo: false }]
    }
}

/// An attempt to open is over: the port is open, or another attempt is due after a
/// wait, or the state actor has to be told why there will be none.
pub open spec fn attempt_over(
    s: PortView,
    opening: OpeningView,
    outcome: Result<(), TransportErrorView>,
    jitter_ms: u64,
) -> (PortView, PortTurnView) {
    match outcome {
        Ok(_) => (
            PortView {
                active_port: Some(opening.port.path),
                transport_open: true,
                reading: true,
                ..s
            },
            PortTurnView {
                effects: opening_effects(opening.send_wakeup),
                next: PortNextView::Notify {
                    notice: Some(NoticeView::Established { operation_id: opening.operation_id }),
                    then: AfterNoticeView::Connected {
                        path: opening.port.path,
                        baud: opening.config.baud_rate,
                    },
                },
            },
        ),
        Err(e) => (
            s,
            match final_failure(e, opening.attempt) {
                None => PortTurnView {
                    effects: seq![
                        PortEffectView::Delay { millis: jittered_delay(opening.attempt, jitter_ms) },
                    ],
                    next: PortNextView::TryOpen(
                        OpeningView { attempt: (opening.attempt + 1) as u32, ..opening },
                    ),
                },
                Some(text) => {
                    let reason = "Failed to open port: Transport error: "@ + text;
                    PortTurnView {
                        effects: Seq::empty(),
                        next: PortNextView::Notify {
                            notice: Some(NoticeView::Failed { reason }),
                            then: AfterNoticeView::Failed { reason },
                        },
                    }
                },
            },
        ),
    }
}

/// The state actor was told, or could not be.
pub open spec fn notice_over(then: AfterNoticeView, delivered: bool) -> PortTurnView {
    match then {
        AfterNoticeView::Connected { path, baud } => if delivered {
            PortTurnView {
                effects: seq![
                    PortEffectView::Event(
                        SystemEventView::StatusUpdate {
                            message: "Connected to "@ + path + " @ "@ + decimal(baud as nat)
                                + " baud"@,
                        },
                    ),
                ],
                next: PortNextView::Finished(Ok(())),
            }
        } else {
            ends(
                Err(
                    ActorErrorView::ChannelClosed(
                        "StateActor unavailable during ConnectionEstablished"@,
                    ),
                ),
            )
        },
        AfterNoticeView::Failed { reason } => if delivered {
            ends(Err(ActorErrorView::Transport(reason)))
        } else {
            ends(
                Err(
                    ActorErrorView::ChannelClosed(
                        "StateActor unavailable during ConnectionFailed"@,
                    ),
                ),
            )
        },
        AfterNoticeView::Closed => if delivered {
            ends(Ok(()))
        } else {
            ends(
                Err(
                    ActorErrorView::ChannelClosed(
                        "StateActor unavailable during ConnectionClosed"@,
                    ),
                ),
            )
        },
    }
}

/// What closing the port takes, in order.
pub open spec fn closing_effects(s: PortView) -> Seq<PortEffectView> {
    (if s.reading {
        seq![PortEffectView::StopReading]
    } else {
        Seq::empty()
    }) + (if s.transport_open {
        seq![PortEffectView::Release]
    } else {
        Seq::empty()
    }) + seq![
        if s.reading {
            PortEffectView::AwaitReader { millis: CLEANUP_TIMEOUT_MS }
        } else {
            PortEffectView::Delay { millis: CLOSE_PAUSE_MS }
        },
        PortEffectView::Event(SystemEventView::StatusUpdate { message: "Port closed"@ }),
    ]
}

/// A close request: the port is closed, open or not, and the state actor is told.
pub open spec fn close_request(s: PortView) -> (PortView, PortTurnView) {
    (
        closed_port(),
        PortTurnView {
            effects: closing_effects(s),
            next: PortNextView::Notify {
                notice: Some(NoticeView::Closed),
                then: AfterNoticeView::Closed,
            },
        },
    )
}

/// A write request: ignored unless the port is open.
pub open spec fn write_request(s: PortView, data: Seq<u8>) -> PortTurnView {
    if s.transport_open {
        PortTurnView { effects: Seq::empty(), next: PortNextView::WriteOut { data } }
    } else {
        ends(Ok(()))
    }
}

/// A write is over.
pub open spec fn write_over(outcome: Result<(), TransportErrorView>) -> PortTurnView {
    match outcome {
        Ok(_) => PortTurnView {
            effects: seq![PortEffectView::Event(SystemEventView::TxActivity)],
            next: PortNextView::Finished(Ok(())),
        },
        Err(e) => ends(
            Err(ActorErrorView::Transport("Write failed: "@ + transport_error_text(e))),
        ),
    }
}

/// Data that is to count as received.
pub open spec fn injection(data: Seq<u8>, timestamp_us: u64) -> PortTurnView {
    PortTurnView {
        effects: seq![
            PortEffectView::Event(SystemEventView::DataReceived { data, timestamp_us }),
            PortEffectView::Event(SystemEventView::RxActivity),
        ],
        next: PortNextView::Finished(Ok(())),
    }
}

/// How the actor reacts to a message that comes at the given time.
pub open spec fn reaction(s: PortView, msg: PortMessageView, now_us: u64) -> (
    PortView,
    PortTurnView,
) {
    match msg {
        PortMessageView::Open { port, baud, framing, send_wakeup, operation_id, port_handle } =>
            open_request(s, port, baud, framing, send_wakeup, operation_id, port_handle),
        PortMessageView::Close => close_request(s),
        PortMessageView::Write { data } => (s, write_request(s, data)),
        PortMessageView::InjectData { data } => (s, injection(data, now_us)),
    }
}

/// The outcome of an outside operation, with its texts as character sequences.
pub open spec fn outcome_view(outcome: Result<(), TransportError>) -> Result<
    (),
    TransportErrorView,
> {
    match outcome {
        Ok(_) => Ok(()),
        Err(e) => Err(e@),
    }
}

fn finish(r: Result<(), ActorError>) -> (t: PortTurn)
    ensures
        t@ == ends(
            match r {
                Ok(_) => Ok(()),
                Err(e) => Err(e@),
            },
        ),
{
    PortTurn { effects: Vec::new(), next: PortNext::Finished(r) }
}

fn retriable(msg: &str) -> (r: bool)
    ensures
        r == is_retriable(msg@),
{
    contains_text(msg, "NetworkError") || contains_text(msg, "busy") || contains_text(
        msg,
        "in use",
    ) || contains_text(msg, "InvalidStateError")
}

/// Why a failed attempt is the last one; `None` if another one is due.
pub fn last_failure(e: &TransportError, attempt: u32) -> (r: Option<String>)
    ensures
        opt_text(r) == final_failure(e@, attempt),
{
    if attempt >= MAX_OPEN_RETRIES {
        return Some(e.debug_text());
    }
    match e {
        TransportError::AlreadyOpen => None,
        TransportError::InvalidState(_) => None,
        TransportError::ConnectionFailed(msg) => if retriable(msg.as_str()) {
            None
        } else {
            Some(msg.clone())
        },
        _ => Some(e.debug_text()),
    }
}

impl PortActor {
    /// An actor with no open port.
    pub fn new() -> (r: PortActor)
        ensures
            r@ == closed_port(),
    {
        PortActor {
            active_port: None,
            current_operation_id: None,
            transport_open: false,
            reading: false,
        }
    }

    /// The actor's name in messages about it.
    pub fn name(&self) -> (r: &'static str)
        ensures
            r@ == "PortActor"@,
    {
        "PortActor"
    }

    /// The settings that a framing text stands for, at the given baud rate.
    pub fn parse_framing(framing: &str, baud: u32) -> (r: Result<SerialConfig, String>)
        ensures
            match framing_config(framing@, baud) {
                Ok(config) => r matches Ok(c) && c@ == config,
                Err(text) => r matches Err(e) && e@ == text,
            },
    {
        parse_framing(framing, baud)
    }

    /// Begins to open a port.
    pub fn handle_open(
        &mut self,
        port: SerialPortInfo,
        baud: u32,
        framing: String,
        send_wakeup: bool,
        operation_id: u32,
        port_handle: Option<PortHandle>,
    ) -> (r: PortTurn)
        ensures
            (final(self)@, r@) == open_request(
                old(self)@,
                port@,
                baud,
                framing@,
                send_wakeup,
                operation_id,
                port_handle,
            ),
    {
        if self.active_port.is_some() {
            return finish(Err(ActorError::InvalidTransition("Port already open".to_owned())));
        }
        self.current_operation_id = Some(operation_id);
        let handle = match port_handle {
            Some(handle) => handle,
            None => {
                return finish(
                    Err(
                        ActorError::Transport("Native port handling not implemented".to_owned()),
                    ),
                );
            },
        };
        match parse_framing(framing.as_str(), baud) {
            Ok(config) => PortTurn {
                effects: Vec::new(),
                next: PortNext::TryOpen(
                    Opening {
                        port,
                        port_handle: handle,
                        config,
                        send_wakeup,
                        operation_id,
                        attempt: 1,
                    },
                ),
            },
            Err(e) => {
                let mut text = joined("Failed to parse framing '", framing.as_str());
                text.append("': ");
                text.append(e.as_str());
                finish(Err(ActorError::Transport(text)))
            },
        }
    }

    /// Takes in how an attempt to open went; the wait before another one is
    /// lengthened by the jitter.
    pub fn opened(
        &mut self,
        opening: Opening,
        outcome: Result<(), TransportError>,
        jitter_ms: u64,
    ) -> (r: PortTurn)
        ensures
            (final(self)@, r@) == attempt_over(
                old(self)@,
                opening@,
                outcome_view(outcome),
                jitter_ms,
            ),
    {
        match outcome {
            Ok(_) => {
                let mut effects: Vec<PortEffect> = Vec::new();
                if opening.send_wakeup {
                    effects.push(PortEffect::Delay { millis: STABILIZATION_MS });
                    let mut wake: Vec<u8> = Vec::new();
                    wake.push(WAKE_UP_BYTE);
                    assert(wake@ =~= seq![WAKE_UP_BYTE]);
                    effects.push(PortEffect::Wake { data: wake });
                }
                effects.push(PortEffect::StartReading { suppress_echo: opening.send_wakeup });
                assert(seen(effects@) =~= opening_effects(opening.send_wakeup));
                self.transport_open = true;
                self.reading = true;
                self.active_port = Some(opening.port.path.clone());
                PortTurn {
                    effects,
                    next: PortNext::Notify {
                        msg: StateMessage::ConnectionEstablished {
                            operation_id: opening.operation_id,
                        },
                        then: AfterNotice::Connected {
                            path: opening.port.path,
                            baud: opening.config.baud_rate,
                        },
                    },
                }
            },
            Err(e) => {
                match last_failure(&e, opening.attempt) {
                    None => {
                        let mut effects: Vec<PortEffect> = Vec::new();
                        effects.push(
                            PortEffect::Delay { millis: jittered_retry_delay(opening.attempt, jitter_ms) },
                        );
                        assert(seen(effects@) =~= seq![
                            PortEffectView::Delay { millis: jittered_delay(opening.attempt, jitter_ms) },
                        ]);
                        let attempt: u32 = opening.attempt + 1;
                        PortTurn {
                            effects,
                            next: PortNext::TryOpen(
                                Opening {
                                    port: opening.port,
                                    port_handle: opening.port_handle,
                                    config: opening.config,
                                    send_wakeup: opening.send_wakeup,
                                    operation_id: opening.operation_id,
                                    attempt,
                                },
                            ),
                        }
                    },
                    Some(text) => {
                        let reason = joined(
                            "Failed to open port: Transport error: ",
                            text.as_str(),
                        );
                        PortTurn {
                            effects: Vec::new(),
                            next: PortNext::Notify {
                                msg: StateMessage::ConnectionFailed { reason: reason.clone() },
                                then: AfterNotice::Failed { reason },
                            },
                        }
                    },
                }
            },
        }
    }

    /// Takes in whether the state actor could be told.
    pub fn notified(&self, then: AfterNotice, delivered: bool) -> (r: PortTurn)
        ensures
            r@ == notice_over(then@, delivered),
    {
        match then {
            AfterNotice::Connected { path, baud } => {
                if !delivered {
                    return finish(
                        Err(
                            ActorError::ChannelClosed(
                                "StateActor unavailable during ConnectionEstablished".to_owned(),
                            ),
                        ),
                    );
                }
                let mut message = joined("Connected to ", path.as_str());
                message.append(" @ ");
                message.append(decimal_text(baud as u64).as_str());
                message.append(" baud");
                let mut effects: Vec<PortEffect> = Vec::new();
                effects.push(PortEffect::Event(SystemEvent::StatusUpdate { message }));
                let t = PortTurn { effects, next: PortNext::Finished(Ok(())) };
                assert(t@.effects =~= notice_over(then@, delivered).effects);
                t
            },
            AfterNotice::Failed { reason } => {
                if delivered {
                    finish(Err(ActorError::Transport(reason)))
                } else {
                    finish(
                        Err(
                            ActorError::ChannelClosed(
                                "StateActor unavailable during ConnectionFailed".to_owned(),
                            ),
                        ),
                    )
                }
            },
            AfterNotice::Closed => {
                if delivered {
                    finish(Ok(()))
                } else {
                    finish(
                        Err(
                            ActorError::ChannelClosed(
                                "StateActor unavailable during ConnectionClosed".to_owned(),
                            ),
                        ),
                    )
                }
            },
        }
    }

    /// Closes the port.
    pub fn handle_close(&mut self) -> (r: PortTurn)
        ensures
            (final(self)@, r@) == close_request(old(self)@),
    {
        let mut effects: Vec<PortEffect> = Vec::new();
        if self.reading {
            effects.push(PortEffect::StopReading);
        }
        if self.transport_open {
            effects.push(PortEffect::Release);
        }
        if self.reading {
            effects.push(PortEffect::AwaitReader { millis: CLEANUP_TIMEOUT_MS });
        } else {
            effects.push(PortEffect::Delay { millis: CLOSE_PAUSE_MS });
        }
        effects.push(
            PortEffect::Event(SystemEvent::StatusUpdate { message: "Port closed".to_owned() }),
        );
        assert(seen(effects@) =~= closing_effects(self@));
        self.active_port = None;
        self.current_operation_id = None;
        self.transport_open = false;
        self.reading = false;
        PortTurn {
            effects,
            next: PortNext::Notify {
                msg: StateMessage::ConnectionClosed,
                then: AfterNotice::Closed,
            },
        }
    }

    /// Writes to the port.
    pub fn handle_write(&self, data: Vec<u8>) -> (r: PortTurn)
        ensures
            r@ == write_request(self@, data@),
    {
        if self.transport_open {
            PortTurn { effects: Vec::new(), next: PortNext::WriteOut { data } }
        } else {
            finish(Ok(()))
        }
    }

    /// Takes in how a write went.
    pub fn written(&self, outcome: Result<(), TransportError>) -> (r: PortTurn)
        ensures
            r@ == write_over(outcome_view(outcome)),
    {
        match outcome {
            Ok(_) => {
                let mut effects: Vec<PortEffect> = Vec::new();
                effects.push(PortEffect::Event(SystemEvent::TxActivity));
                let t = PortTurn { effects, next: PortNext::Finished(Ok(())) };
                assert(t@.effects =~= write_over(outcome_view(outcome)).effects);
                t
            },
            Err(e) => finish(
                Err(ActorError::Transport(joined("Write failed: ", e.message().as_str()))),
            ),
        }
    }

    /// Treats data as if it had just been read.
    pub fn handle_inject_data(&self, data: Vec<u8>, timestamp_us: u64) -> (r: PortTurn)
        ensures
            r@ == injection(data@, timestamp_us),
    {
        let mut effects: Vec<PortEffect> = Vec::new();
        effects.push(PortEffect::Event(SystemEvent::DataReceived { data, timestamp_us }));
        effects.push(PortEffect::Event(SystemEvent::RxActivity));
        let t = PortTurn { effects, next: PortNext::Finished(Ok(())) };
        assert(t@.effects =~= injection(data@, timestamp_us).effects);
        t
    }

    /// Reacts to a message that comes at the given time.
    pub fn handle(&mut self, msg: PortMessage, now_us: u64) -> (r: PortTurn)
        ensures
            (final(self)@, r@) == reaction(old(self)@, msg@, now_us),
    {
        match msg {
            PortMessage::Open { port, baud, framing, send_wakeup, operation_id, port_handle } =>
                self.handle_open(port, baud, framing, send_wakeup, operation_id, port_handle),
            PortMessage::Close => self.handle_close(),
            PortMessage::Write { data } => self.handle_write(data),
            PortMessage::InjectData { data } => self.handle_inject_data(data, now_us),
        }
    }

    /// Closes the port before the actor ends.
    pub fn shutdown(&mut self) -> (r: PortTurn)
        ensures
            (final(self)@, r@) == close_request(old(self)@),
    {
        self.handle_close()
    }
}

/// The port is held and read exactly while it is open, whatever message comes and
/// however an attempt ends.
pub proof fn law_port_state_is_consistent(
    s: PortView,
    msg: PortMessageView,
    now_us: u64,
    opening: OpeningView,
    outcome: Result<(), TransportErrorView>,
    jitter_ms: u64,
)
    requires
        consistent(s),
    ensures
        consistent(closed_port()),
        consistent(reaction(s, msg, now_us).0),
        consistent(attempt_over(s, opening, outcome, jitter_ms).0),
{
}

/// A port that is open is not opened again, and nothing changes.
pub proof fn law_open_port_is_not_reopened(
    s: PortView,
    port: SerialPortInfoView,
    baud: u32,
    framing: Seq<char>,
    send_wakeup: bool,
    operation_id: u32,
    port_handle: Option<PortHandle>,
)
    requires
        s.active_port is Some,
    ensures
        open_request(s, port, baud, framing, send_wakeup, operation_id, port_handle) == (
            s,
            ends(Err(ActorErrorView::InvalidTransition("Port already open"@))),
        ),
{
}

/// However an attempt ends, the number of attempts stays within its limit, and
/// another attempt is the same but for its count.
pub proof fn law_attempts_are_bounded(
    s: PortView,
    opening: OpeningView,
    outcome: Result<(), TransportErrorView>,
    jitter_ms: u64,
)
    ensures
        attempt_over(s, opening, outcome, jitter_ms).1.next matches PortNextView::TryOpen(again) ==> again
            == (OpeningView { attempt: (opening.attempt + 1) as u32, ..opening }) && again.attempt
            == opening.attempt + 1 && again.attempt <= MAX_OPEN_RETRIES,
{
}

/// A connection is reported with the number of the request that asked for it.
pub proof fn law_operation_number_is_echoed(
    s: PortView,
    port: SerialPortInfoView,
    baud: u32,
    framing: Seq<char>,
    send_wakeup: bool,
    operation_id: u32,
    port_handle: Option<PortHandle>,
    t: PortView,
    opening: OpeningView,
    outcome: Result<(), TransportErrorView>,
    jitter_ms: u64,
)
    ensures
        open_request(
            s,
            port,
            baud,
            framing,
            send_wakeup,
            operation_id,
            port_handle,
        ).1.next matches PortNextView::TryOpen(o) ==> o.operation_id == operation_id && o.attempt
            == 1,
        attempt_over(t, opening, outcome, jitter_ms).1.next matches PortNextView::Notify {
            notice: Some(NoticeView::Established { operation_id: reported }),
            ..
        } ==> reported == opening.operation_id && outcome is Ok,
{
}

/// After a close request, whether or not a port was open, the port is closed;
/// another close request changes nothing more; and a port can be opened again.
pub proof fn law_close_is_idempotent(
    s: PortView,
    port: SerialPortInfoView,
    baud: u32,
    framing: Seq<char>,
    send_wakeup: bool,
    operation_id: u32,
    port_handle: PortHandle,
)
    requires
        framing_config(framing, baud) is Ok,
    ensures
        close_request(s).0 == closed_port(),
        close_request(close_request(s).0).0 == close_request(s).0,
        open_request(
            close_request(s).0,
            port,
            baud,
            framing,
            send_wakeup,
            operation_id,
            Some(port_handle),
        ).1.next is TryOpen,
{
}

/// A port that is not open is opened as asked: the same port, by its port object, with the
/// settings that the framing stands for at the given rate.
pub proof fn law_port_is_opened_as_asked(
    s: PortView,
    port: SerialPortInfoView,
    baud: u32,
    d: char,
    p: char,
    stop: char,
    send_wakeup: bool,
    operation_id: u32,
    handle: PortHandle,
    now_us: u64,
)
    requires
        s.active_port is None,
        d == '7' || d == '8',
        p == 'N' || p == 'n' || p == 'E' || p == 'e' || p == 'O' || p == 'o',
        stop == '1' || stop == '2',
    ensures
        ({
            let (next, turn) = reaction(
                s,
                PortMessageView::Open {
                    port,
                    baud,
                    framing: seq![d, p, stop],
                    send_wakeup,
                    operation_id,
                    port_handle: Some(handle),
                },
                now_us,
            );
            &&& next == (PortView { current_operation_id: Some(operation_id), ..s })
            &&& turn.effects.len() == 0
            &&& turn.next matches PortNextView::TryOpen(o) && o.port == port && o.port_handle
                == handle && o.config.baud_rate == baud && o.config.data_bits as int == d as int
                - '0' as int && o.config.stop_bits as int == stop as int - '0' as int && (p == 'N'
                || p == 'n' ==> o.config.parity == "none"@) && (p == 'E' || p == 'e'
                ==> o.config.parity == "even"@) && (p == 'O' || p == 'o' ==> o.config.parity
                == "odd"@) && o.send_wakeup == send_wakeup && o.operation_id == operation_id
                && o.attempt == 1
        }),
{
    crate::actors::port_actor::framing::law_framing_is_read_character_by_character(
        d,
        p,
        stop,
        baud,
    );
}

/// An open request fails at once while a port is open, without a port object, and with a
/// framing that is none.
pub proof fn law_open_requests_that_fail_at_once(
    s: PortView,
    port: SerialPortInfoView,
    baud: u32,
    framing: Seq<char>,
    send_wakeup: bool,
    operation_id: u32,
    handle: Option<PortHandle>,
)
    ensures
        ({
            let turn = open_request(s, port, baud, framing, send_wakeup, operation_id, handle).1;
            &&& s.active_port is Some ==> turn.next == PortNextView::Finished(
                Err(ActorErrorView::InvalidTransition("Port already open"@)),
            )
            &&& s.active_port is None && handle is None ==> turn.next == PortNextView::Finished(
                Err(ActorErrorView::Transport("Native port handling not implemented"@)),
            )
            &&& s.active_port is None && handle is Some ==> (framing_config(
                framing,
                baud,
            ) matches Err(e) ==> turn.next == PortNextView::Finished(
                Err(
                    ActorErrorView::Transport(
                        "Failed to parse framing '"@ + framing + "': "@ + e,
                    ),
                ),
            ))
        }),
{
}

/// A port that was opened is read, after a wake-up by a carriage return if that was asked
/// for, whose echo is then expected; the state actor is told the number of the request, and
/// the user the path and the rate.
pub proof fn law_opened_port_is_read_and_told(s: PortView, opening: OpeningView, jitter_ms: u64)
    ensures
        ({
            let (next, turn) = attempt_over(s, opening, Ok(()), jitter_ms);
            &&& next.active_port == Some(opening.port.path)
            &&& next.transport_open && next.reading
            &&& opening.send_wakeup ==> turn.effects == seq![
                PortEffectView::Delay { millis: 100 },
                PortEffectView::Wake { data: seq![13u8] },
                PortEffectView::StartReading { suppress_echo: true },
            ]
            &&& !opening.send_wakeup ==> turn.effects == seq![
                PortEffectView::StartReading { suppress_echo: false },
            ]
            &&& turn.next matches PortNextView::Notify { notice, then } && notice == Some(
                NoticeView::Established { operation_id: opening.operation_id },
            ) && notice_over(then, true) == (PortTurnView {
                effects: seq![
                    PortEffectView::Event(
                        SystemEventView::StatusUpdate {
                            message: "Connected to "@ + opening.port.path + " @ "@ + decimal(
                                opening.config.baud_rate as nat,
                            ) + " baud"@,
                        },
                    ),
                ],
                next: PortNextView::Finished(Ok(())),
            })
        }),
{
}

/// A text that has another text in it.
pub open spec fn mentions(text: Seq<char>, word: Seq<char>) -> bool {
    exists|before: Seq<char>, after: Seq<char>| text == #[trigger] (before + word + after)
}

proof fn lemma_mentions(text: Seq<char>, word: Seq<char>)
    ensures
        mentions(text, word) == occurs_in(word, text),
{
    law_what_occurs_is_mentioned(text, word);
}

/// A failed attempt is followed by another as long as there were fewer than ten and the
/// port may come free: it is said to be open already or in a wrong state, or the reason
/// mentions a network error, that it is busy, in use, or an invalid state. The same port is
/// tried again after a wait that doubles from 100 ms on. Otherwise the attempt was the last
/// one, and the state actor is told why.
pub proof fn law_attempts_to_open(
    s: PortView,
    opening: OpeningView,
    e: TransportErrorView,
    jitter_ms: u64,
)
    ensures
        ({
            let (next, turn) = attempt_over(s, opening, Err(e), jitter_ms);
            let may_come_free = match e {
                TransportErrorView::AlreadyOpen => true,
                TransportErrorView::InvalidState(_) => true,
                TransportErrorView::ConnectionFailed(msg) => mentions(msg, "NetworkError"@)
                    || mentions(msg, "busy"@) || mentions(msg, "in use"@) || mentions(
                    msg,
                    "InvalidStateError"@,
                ),
                _ => false,
            };
            let reason = "Failed to open port: Transport error: "@ + if opening.attempt < 10 {
                match e {
                    TransportErrorView::ConnectionFailed(msg) => msg,
                    _ => transport_error_debug(e),
                }
            } else {
                transport_error_debug(e)
            };
            &&& next == s
            &&& opening.attempt < 10 && may_come_free ==> turn.effects == seq![
                PortEffectView::Delay { millis: jittered_delay(opening.attempt, jitter_ms) },
            ] && (turn.next matches PortNextView::TryOpen(again) && again == (OpeningView {
                attempt: (opening.attempt + 1) as u32,
                ..opening
            }))
            &&& !(opening.attempt < 10 && may_come_free) ==> turn.effects.len() == 0 && turn.next
                == (PortNextView::Notify {
                notice: Some(NoticeView::Failed { reason }),
                then: AfterNoticeView::Failed { reason },
            }) && notice_over(AfterNoticeView::Failed { reason }, true).next
                == PortNextView::Finished(Err(ActorErrorView::Transport(reason)))
        }),
{
    if let TransportErrorView::ConnectionFailed(msg) = e {
        lemma_mentions(msg, "NetworkError"@);
        lemma_mentions(msg, "busy"@);
        lemma_mentions(msg, "in use"@);
        lemma_mentions(msg, "InvalidStateError"@);
    }
}

/// Closing an open port ends reading first, releases the port then, waits for the reader,
/// and tells the user and the state actor; afterwards nothing is open.
pub proof fn law_open_port_is_closed_in_order(s: PortView, now_us: u64)
    requires
        s.reading,
        s.transport_open,
    ensures
        ({
            let (next, turn) = reaction(s, PortMessageView::Close, now_us);
            &&& next.active_port is None && next.current_operation_id is None
                && !next.transport_open && !next.reading
            &&& turn.effects =~= seq![
                PortEffectView::StopReading,
                PortEffectView::Release,
                PortEffectView::AwaitReader { millis: 500 },
                PortEffectView::Event(SystemEventView::StatusUpdate { message: "Port closed"@ }),
            ]
            &&& turn.next matches PortNextView::Notify { notice, then } && notice == Some(
                NoticeView::Closed,
            ) && notice_over(then, true) == (PortTurnView {
                effects: Seq::empty(),
                next: PortNextView::Finished(Ok(())),
            })
        }),
{
}

/// Closing what is not open waits a moment, and tells the same.
pub proof fn law_closed_port_is_closed_again(s: PortView, now_us: u64)
    requires
        !s.reading,
        !s.transport_open,
    ensures
        ({
            let (next, turn) = reaction(s, PortMessageView::Close, now_us);
            &&& next.active_port is None && next.current_operation_id is None
                && !next.transport_open && !next.reading
            &&& turn.effects =~= seq![
                PortEffectView::Delay { millis: 100 },
                PortEffectView::Event(SystemEventView::StatusUpdate { message: "Port closed"@ }),
            ]
            &&& turn.next matches PortNextView::Notify { notice, then } && notice == Some(
                NoticeView::Closed,
            )
        }),
{
}

/// Data to write goes to an open port as it is, and nowhere else; a write is told as
/// activity, and a failure with its reason.
pub proof fn law_data_is_written_as_it_is(
    s: PortView,
    data: Seq<u8>,
    now_us: u64,
    e: TransportErrorView,
)
    ensures
        reaction(s, PortMessageView::Write { data }, now_us).0 == s,
        s.transport_open ==> reaction(s, PortMessageView::Write { data }, now_us).1 == (
        PortTurnView { effects: Seq::empty(), next: PortNextView::WriteOut { data } }),
        !s.transport_open ==> reaction(s, PortMessageView::Write { data }, now_us).1 == (
        PortTurnView { effects: Seq::empty(), next: PortNextView::Finished(Ok(())) }),
        write_over(Ok(())) == (PortTurnView {
            effects: seq![PortEffectView::Event(SystemEventView::TxActivity)],
            next: PortNextView::Finished(Ok(())),
        }),
        write_over(Err(e)) == (PortTurnView {
            effects: Seq::empty(),
            next: PortNextView::Finished(
                Err(ActorErrorView::Transport("Write failed: "@ + transport_error_text(e))),
            ),
        }),
{
}

/// Data that is handed in counts as received now, as it is.
pub proof fn law_data_that_is_handed_in_is_told(s: PortView, data: Seq<u8>, now_us: u64)
    ensures
        reaction(s, PortMessageView::InjectData { data }, now_us) == (
            s,
            PortTurnView {
                effects: seq![
                    PortEffectView::Event(
                        SystemEventView::DataReceived { data, timestamp_us: now_us },
                    ),
                    PortEffectView::Event(SystemEventView::RxActivity),
                ],
                next: PortNextView::Finished(Ok(())),
            },
        ),
{
}

/// A state actor that cannot be told is complained about, by what it was to be told.
pub proof fn law_notices_that_do_not_arrive(path: Seq<char>, baud: u32, reason: Seq<char>)
    ensures
        notice_over(AfterNoticeView::Connected { path, baud }, false).next
            == PortNextView::Finished(
            Err(
                ActorErrorView::ChannelClosed(
                    "StateActor unavailable during ConnectionEstablished"@,
                ),
            ),
        ),
        notice_over(AfterNoticeView::Failed { reason }, false).next == PortNextView::Finished(
            Err(
                ActorErrorView::ChannelClosed("StateActor unavailable during ConnectionFailed"@),
            ),
        ),
        notice_over(AfterNoticeView::Closed, false).next == PortNextView::Finished(
            Err(
                ActorErrorView::ChannelClosed("StateActor unavailable during ConnectionClosed"@),
            ),
        ),
{
}

/// The actor opens, closes, writes and tells as the model does.
pub proof fn law_actor_works_as_its_model(
    actor: &mut PortActor,
    port: SerialPortInfo,
    baud: u32,
    framing: String,
    send_wakeup: bool,
    operation_id: u32,
    handle: Option<PortHandle>,
    opening: Opening,
    outcome: Result<(), TransportError>,
    jitter_ms: u64,
    r: PortTurn,
)
    ensures
        call_ensures(
            PortActor::handle_open,
            (actor, port, baud, framing, send_wakeup, operation_id, handle),
            r,
        ) ==> (final(actor)@, r@) == open_request(
            old(actor)@,
            port@,
            baud,
            framing@,
            send_wakeup,
            operation_id,
            handle,
        ),
        call_ensures(PortActor::opened, (actor, opening, outcome, jitter_ms), r) ==> (
        final(actor)@, r@) == attempt_over(old(actor)@, opening@, outcome_view(outcome), jitter_ms),
        call_ensures(PortActor::handle_close, (actor,), r) ==> (final(actor)@, r@)
            == close_request(old(actor)@),
        call_ensures(PortActor::shutdown, (actor,), r) ==> (final(actor)@, r@) == close_request(
            old(actor)@,
        ),
{
}

/// So it is with data, with what came of writing, and with every message as a whole.
pub proof fn law_actor_handles_as_its_model(
    actor: &mut PortActor,
    data: Vec<u8>,
    now_us: u64,
    outcome: Result<(), TransportError>,
    then: AfterNotice,
    delivered: bool,
    msg: PortMessage,
    r: PortTurn,
)
    ensures
        call_ensures(PortActor::handle_write, (&*old(actor), data), r) ==> r@ == write_request(
            old(actor)@,
            data@,
        ),
        call_ensures(PortActor::written, (&*old(actor), outcome), r) ==> r@ == write_over(
            outcome_view(outcome),
        ),
        call_ensures(PortActor::handle_inject_data, (&*old(actor), data, now_us), r) ==> r@
            == injection(data@, now_us),
        call_ensures(PortActor::notified, (&*old(actor), then, delivered), r) ==> r@
            == notice_over(then@, delivered),
        call_ensures(PortActor::handle, (actor, msg, now_us), r) ==> (final(actor)@, r@)
            == reaction(old(actor)@, msg@, now_us),
{
}

} // verus!
