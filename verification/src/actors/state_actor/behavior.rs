//! How the state actor reacts: for every state and message, the state that
//! follows and what is to be done.
use vstd::prelude::*;

use crate::actors::data_processing::{is_meaningful, without_artifacts};
use crate::actors::state_actor::turn::{
    ContinuationView, EffectView, NextView, Target, TurnView,
};
use crate::protocol::errors::ActorErrorView;
use crate::protocol::messages::{
    config_8n1, opt_text, SerialPortInfoView, SystemEventView, UiCommand,
};
use crate::protocol::state::{may_follow, name_of, user_can_disconnect, ConnectionState};
use crate::runtime::channels::{
    PortHandle, PortMessageView, ProbeMessageView, ReconnectMessage, SendReport, StateMessage,
};
use crate::runtime::supervision::{supervised_for, SupervisionConfig};
use crate::text::{decimal, hex4, same_ignoring_case};

verus! {

/// New settings that wait for the port to close.
pub struct ReconfigureView {
    pub baud: u32,
    pub framing: Seq<char>,
    pub active_framing: Seq<char>,
}

/// What the state actor knows.
pub struct ActorView {
    pub state: ConnectionState,
    pub config: SupervisionConfig,
    pub active_timeout: Option<ConnectionState>,
    pub pending_port: Option<SerialPortInfoView>,
    pub pending_baud: u32,
    pub operation_sequence: u32,
    pub browser: bool,
    pub pending_port_handle: Option<PortHandle>,
    pub pending_reconfigure: Option<ReconfigureView>,
}

/// The actor in state `to`, with a timeout exactly if that state is supervised.
pub open spec fn entered(s: ActorView, to: ConnectionState) -> ActorView {
    ActorView {
        state: to,
        active_timeout: if supervised_for(s.config, to) is Some {
            Some(to)
        } else {
            None
        },
        ..s
    }
}

/// What goes with entering a state: the old timeout is cancelled, the user
/// interface told, and a new timeout started where the state is supervised.
pub open spec fn entering(s: ActorView, to: ConnectionState) -> Seq<EffectView> {
    let cancel = if s.active_timeout is Some {
        seq![EffectView::CancelTimeout]
    } else {
        Seq::empty()
    };
    let start = match supervised_for(s.config, to) {
        Some(secs) => seq![EffectView::StartTimeout { state: to, secs }],
        None => Seq::empty(),
    };
    cancel + seq![EffectView::Event(SystemEventView::StateChanged { state: to })] + start
}

/// The error for a transition that is not allowed.
pub open spec fn refusal(from: ConnectionState, to: ConnectionState) -> ActorErrorView {
    ActorErrorView::InvalidTransition(name_of(from) + " → "@ + name_of(to))
}

/// The error for a message that the state does not allow.
pub open spec fn unexpected(state: ConnectionState, message: Seq<char>) -> ActorErrorView {
    ActorErrorView::UnexpectedMessage { state: name_of(state), message }
}

/// A turn that only finishes.
pub open spec fn only(next: NextView) -> TurnView {
    TurnView { effects: Seq::empty(), next }
}

pub open spec fn success() -> NextView {
    NextView::Finished(Ok(()))
}

pub open spec fn failure(e: ActorErrorView) -> NextView {
    NextView::Finished(Err(e))
}

/// After the effects `before`, goes to state `to` and then on with `next`; fails
/// where the transition is not allowed.
pub open spec fn going(
    s: ActorView,
    before: Seq<EffectView>,
    to: ConnectionState,
    next: NextView,
) -> (ActorView, TurnView) {
    if may_follow(s.state, to) {
        (entered(s, to), TurnView { effects: before + entering(s, to), next })
    } else {
        (s, TurnView { effects: before, next: failure(refusal(s.state, to)) })
    }
}

/// The number of the next open request.
pub open spec fn next_operation(n: u32) -> u32 {
    if n == u32::MAX {
        0
    } else {
        (n + 1) as u32
    }
}

/// The port object to use: none outside a browser.
pub open spec fn usable(s: ActorView, handle: Option<PortHandle>) -> Option<PortHandle> {
    if s.browser {
        handle
    } else {
        None
    }
}

/// The framing to open with: "8N1" for an empty text and for "auto" in any case.
pub open spec fn direct_framing(framing: Seq<char>) -> Seq<char> {
    if framing.len() == 0 || same_ignoring_case(framing, "auto"@) {
        "8N1"@
    } else {
        framing
    }
}

/// The framing to open again with: the active one for "auto" in any case.
pub open spec fn renewed_framing(framing: Seq<char>, active: Seq<char>) -> Seq<char> {
    if same_ignoring_case(framing, "auto"@) {
        active
    } else {
        framing
    }
}

/// Starts with `port`: detects its settings for baud 0, opens it directly
/// otherwise. In a browser this needs a port object.
pub open spec fn starting(
    s: ActorView,
    before: Seq<EffectView>,
    port: SerialPortInfoView,
    baud: u32,
    framing: Seq<char>,
    send_wakeup: bool,
    handle: Option<PortHandle>,
) -> (ActorView, TurnView) {
    let s1 = ActorView { pending_port: Some(port), pending_baud: baud, ..s };
    let no_handle = failure(ActorErrorView::Transport("No port handle provided"@));
    if baud == 0 {
        (
            entered(s1, ConnectionState::Probing),
            TurnView {
                effects: before + entering(s1, ConnectionState::Probing),
                next: if s.browser && handle is None {
                    no_handle
                } else {
                    NextView::ToProbe {
                        msg: ProbeMessageView::Start { port, port_handle: handle },
                        then: ContinuationView::Done,
                    }
                },
            },
        )
    } else {
        let operation_id = next_operation(s.operation_sequence);
        (
            ActorView {
                operation_sequence: operation_id,
                ..entered(s1, ConnectionState::Connecting)
            },
            TurnView {
                effects: before + entering(s1, ConnectionState::Connecting),
                next: if s.browser && handle is None {
                    no_handle
                } else {
                    NextView::ToPort {
                        msg: PortMessageView::Open {
                            port,
                            baud,
                            framing,
                            send_wakeup,
                            operation_id,
                            port_handle: handle,
                        },
                        then: ContinuationView::Done,
                    }
                },
            },
        )
    }
}

/// A request to connect is served only when disconnected.
pub open spec fn connect(
    s: ActorView,
    port: SerialPortInfoView,
    baud: u32,
    framing: Seq<char>,
    handle: Option<PortHandle>,
) -> (ActorView, TurnView) {
    if !(s.state is Disconnected) {
        (s, only(failure(unexpected(s.state, "Connect"@))))
    } else {
        let s1 = ActorView {
            pending_port_handle: if s.browser {
                handle
            } else {
                s.pending_port_handle
            },
            ..s
        };
        starting(s1, Seq::empty(), port, baud, direct_framing(framing), true, usable(s, handle))
    }
}

/// Forgets the port and any new settings for it, and asks the port actor to close it.
pub open spec fn tear_down(s: ActorView) -> (ActorView, TurnView) {
    let s1 = ActorView { pending_port: None, pending_baud: 0, pending_reconfigure: None, ..s };
    going(
        s1,
        seq![EffectView::Hint(ReconnectMessage::ClearDevice)],
        ConnectionState::Disconnecting,
        NextView::ToPort { msg: PortMessageView::Close, then: ContinuationView::Done },
    )
}

/// A request to disconnect: nothing to do when disconnected; a running probe is
/// stopped first.
pub open spec fn disconnect(s: ActorView) -> (ActorView, TurnView) {
    if s.state is Disconnected {
        (s, only(success()))
    } else if !user_can_disconnect(s.state) {
        (s, only(failure(unexpected(s.state, "Disconnect"@))))
    } else if s.state is Probing {
        (
            s,
            only(
                NextView::ToProbe {
                    msg: ProbeMessageView::Abort,
                    then: ContinuationView::FinishDisconnect,
                },
            ),
        )
    } else {
        tear_down(s)
    }
}

/// The device to watch for, where the port has USB identifiers.
pub open spec fn registration(s: ActorView) -> Seq<EffectView> {
    match s.pending_port {
        Some(SerialPortInfoView { path: _, vid: Some(vid), pid: Some(pid) }) => seq![
            EffectView::Hint(
                ReconnectMessage::RegisterDevice { vid, pid, config: config_8n1(s.pending_baud) },
            ),
        ],
        _ => Seq::empty(),
    }
}

/// The port is open. Only the answer to the latest open request counts; the port
/// of an older one is closed again.
pub open spec fn connection_established(s: ActorView, operation_id: u32) -> (ActorView, TurnView) {
    if !(s.state is Connecting) && !(s.state is AutoReconnecting) {
        (s, only(failure(unexpected(s.state, "ConnectionEstablished"@))))
    } else if operation_id != s.operation_sequence {
        (
            s,
            only(
                NextView::ToPort {
                    msg: PortMessageView::Close,
                    then: ContinuationView::RejectStale,
                },
            ),
        )
    } else {
        (
            entered(s, ConnectionState::Connected),
            TurnView {
                effects: entering(s, ConnectionState::Connected) + registration(s),
                next: success(),
            },
        )
    }
}

/// The port could not be opened. A failed reconnection waits for the device again;
/// any other attempt ends disconnected. New settings that waited are dropped.
pub open spec fn connection_failed(s: ActorView, reason: Seq<char>) -> (ActorView, TurnView) {
    let s1 = ActorView { pending_reconfigure: None, ..s };
    going(
        s1,
        seq![
            EffectView::Event(SystemEventView::Error { message: "Connection failed: "@ + reason }),
        ],
        if s.state is AutoReconnecting {
            ConnectionState::DeviceLost
        } else {
            ConnectionState::Disconnected
        },
        success(),
    )
}

/// The text that says what was detected.
pub open spec fn detection_text(
    baud: u32,
    framing: Seq<char>,
    protocol: Option<Seq<char>>,
) -> Seq<char> {
    match protocol {
        Some(p) => "Detected: "@ + p + " @ "@ + decimal(baud as nat) + " baud ("@ + framing + ")"@,
        None => "Detected: "@ + decimal(baud as nat) + " baud ("@ + framing + ")"@,
    }
}

/// What is told to the user interface of a detection.
pub open spec fn detection_events(
    baud: u32,
    framing: Seq<char>,
    protocol: Option<Seq<char>>,
) -> Seq<EffectView> {
    let told = seq![
        EffectView::Event(
            SystemEventView::StatusUpdate { message: detection_text(baud, framing, protocol) },
        ),
        EffectView::Event(SystemEventView::ProbeComplete { baud, framing, protocol }),
    ];
    match protocol {
        Some(p) => told.push(EffectView::Event(SystemEventView::DecoderChanged { id: p })),
        None => told,
    }
}

/// The captured data to hand over: all of it for a known protocol; without its
/// shell artifacts otherwise, and nothing where that leaves no meaningful byte.
pub open spec fn handed_over(protocol: Option<Seq<char>>, data: Seq<u8>) -> Seq<u8> {
    let rest = without_artifacts(data);
    if protocol is Some {
        data
    } else if exists|i: int| 0 <= i < rest.len() && is_meaningful(rest[i]) {
        rest
    } else {
        Seq::empty()
    }
}

/// Whether the device is to be woken up: only where no protocol was detected and
/// no data is handed over.
pub open spec fn wakes_up(protocol: Option<Seq<char>>, data: Seq<u8>) -> bool {
    protocol is None && handed_over(protocol, data).len() == 0
}

/// Auto-detection is through: the port is opened with what was found. Ignored
/// unless a probe is running.
pub open spec fn probe_complete(
    s: ActorView,
    baud: u32,
    framing: Seq<char>,
    protocol: Option<Seq<char>>,
    data: Seq<u8>,
) -> (ActorView, TurnView) {
    if !(s.state is Probing) {
        (s, only(success()))
    } else {
        let s1 = ActorView { pending_baud: baud, ..s };
        let effects = detection_events(baud, framing, protocol) + entering(
            s1,
            ConnectionState::Connecting,
        );
        let s2 = entered(s1, ConnectionState::Connecting);
        match s.pending_port {
            None => (
                s2,
                TurnView {
                    effects,
                    next: failure(ActorErrorView::Other("No pending port for probe completion"@)),
                },
            ),
            Some(port) => {
                let operation_id = next_operation(s.operation_sequence);
                let inject = handed_over(protocol, data);
                let handle = usable(s, s.pending_port_handle);
                let next = if !s.browser || handle is Some {
                    NextView::ToPort {
                        msg: PortMessageView::Open {
                            port,
                            baud,
                            framing,
                            send_wakeup: wakes_up(protocol, data),
                            operation_id,
                            port_handle: handle,
                        },
                        then: if inject.len() > 0 {
                            ContinuationView::Inject { data: inject }
                        } else {
                            ContinuationView::Done
                        },
                    }
                } else if inject.len() > 0 {
                    injection(inject)
                } else {
                    success()
                };
                (
                    ActorView { operation_sequence: operation_id, ..s2 },
                    TurnView { effects, next },
                )
            },
        }
    }
}

/// Hands data to the port actor.
pub open spec fn injection(data: Seq<u8>) -> NextView {
    NextView::ToPort {
        msg: PortMessageView::InjectData { data },
        then: ContinuationView::Done,
    }
}

/// The device went away: the port is closed before the state changes.
pub open spec fn connection_lost(s: ActorView) -> (ActorView, TurnView) {
    (
        s,
        only(
            NextView::ToPort { msg: PortMessageView::Close, then: ContinuationView::LoseDevice },
        ),
    )
}

/// What identifies the port behind a browser's port object.
pub open spec fn handle_info(h: PortHandle) -> SerialPortInfoView {
    let vid: u16 = match h.vid {
        Some(v) => v,
        None => 0,
    };
    let pid: u16 = match h.pid {
        Some(p) => p,
        None => 0,
    };
    SerialPortInfoView {
        path: hex4(vid as int) + ":"@ + hex4(pid as int),
        vid: h.vid,
        pid: h.pid,
    }
}

/// The port is closed. New settings that waited for this are now applied; otherwise
/// the connection is over. Ignored unless disconnecting.
pub open spec fn connection_closed(s: ActorView) -> (ActorView, TurnView) {
    if !(s.state is Disconnecting) {
        (s, only(success()))
    } else {
        match s.pending_reconfigure {
            Some(new) => complete_reconfigure(s, new),
            None => (
                entered(s, ConnectionState::Disconnected),
                TurnView {
                    effects: entering(s, ConnectionState::Disconnected),
                    next: success(),
                },
            ),
        }
    }
}

/// The port to open with new settings: the stored port object in a browser, the stored
/// port elsewhere.
pub open spec fn stored_port(s: ActorView) -> Option<(SerialPortInfoView, Option<PortHandle>)> {
    if s.browser {
        match s.pending_port_handle {
            Some(h) => Some((handle_info(h), Some(h))),
            None => None,
        }
    } else {
        match s.pending_port {
            Some(port) => Some((port, None)),
            None => None,
        }
    }
}

/// Opens the stored port with new settings, or detects them for baud 0; without a port
/// the connection is over.
pub open spec fn complete_reconfigure(
    s: ActorView,
    new: ReconfigureView,
) -> (ActorView, TurnView) {
    let s1 = ActorView { pending_reconfigure: None, ..s };
    let over = entered(s1, ConnectionState::Disconnected);
    let effects = entering(s1, ConnectionState::Disconnected);
    let framing = renewed_framing(new.framing, new.active_framing);
    match stored_port(s) {
        None => (over, TurnView { effects, next: success() }),
        Some((port, handle)) => if new.baud == 0 {
            starting(over, effects, port, 0, framing, false, handle)
        } else {
            starting(s1, Seq::empty(), port, new.baud, framing, false, handle)
        },
    }
}

/// The lost device came back: its port is opened at the last baud rate, or at
/// 115200. Ignored unless a device is lost.
pub open spec fn device_reappeared(
    s: ActorView,
    port: SerialPortInfoView,
    handle: Option<PortHandle>,
) -> (ActorView, TurnView) {
    if !(s.state is DeviceLost) {
        (s, only(success()))
    } else {
        let operation_id = next_operation(s.operation_sequence);
        let settle = if s.browser {
            seq![EffectView::Delay { millis: 50 }]
        } else {
            Seq::empty()
        };
        (
            ActorView {
                operation_sequence: operation_id,
                ..entered(s, ConnectionState::AutoReconnecting)
            },
            TurnView {
                effects: entering(s, ConnectionState::AutoReconnecting) + settle,
                next: NextView::ToPort {
                    msg: PortMessageView::Open {
                        port,
                        baud: if s.pending_baud > 0 {
                            s.pending_baud
                        } else {
                            115200
                        },
                        framing: "8N1"@,
                        send_wakeup: false,
                        operation_id,
                        port_handle: usable(s, handle),
                    },
                    then: ContinuationView::Done,
                },
            },
        )
    }
}

/// A supervised state took too long: an attempt to connect is given up, a close is
/// taken as done, and new settings that waited for it are dropped. Ignored once the state
/// has changed.
pub open spec fn operation_timeout(
    s: ActorView,
    operation: Seq<char>,
    expected: ConnectionState,
) -> (ActorView, TurnView) {
    if s.state != expected {
        (s, only(success()))
    } else {
        let told = seq![
            EffectView::Event(
                SystemEventView::Error {
                    message: operation + " operation timed out. Please try again."@,
                },
            ),
        ];
        match s.state {
            ConnectionState::Probing
            | ConnectionState::Connecting
            | ConnectionState::Reconfiguring
            | ConnectionState::AutoReconnecting => (
                s,
                TurnView {
                    effects: told,
                    next: NextView::ToPort {
                        msg: PortMessageView::Close,
                        then: ContinuationView::AwaitClose,
                    },
                },
            ),
            ConnectionState::Disconnecting => going(
                ActorView { pending_reconfigure: None, ..s },
                told,
                ConnectionState::Disconnected,
                success(),
            ),
            _ => (s, TurnView { effects: told, next: success() }),
        }
    }
}

/// New settings for an open connection: the port is closed first, and they wait until
/// it reports that.
pub open spec fn reconfigure(
    s: ActorView,
    baud: u32,
    framing: Seq<char>,
    active_framing: Seq<char>,
    handle: Option<PortHandle>,
) -> (ActorView, TurnView) {
    if !(s.state is Connected) {
        (s, only(failure(unexpected(s.state, "Reconfigure"@))))
    } else {
        let s1 = ActorView {
            pending_reconfigure: Some(ReconfigureView { baud, framing, active_framing }),
            pending_port_handle: if s.browser && handle is Some {
                handle
            } else {
                s.pending_port_handle
            },
            ..s
        };
        let s2 = entered(s1, ConnectionState::Reconfiguring);
        (
            entered(s2, ConnectionState::Disconnecting),
            TurnView {
                effects: entering(s1, ConnectionState::Reconfiguring) + entering(
                    s2,
                    ConnectionState::Disconnecting,
                ),
                next: NextView::ToPort {
                    msg: PortMessageView::Close,
                    then: ContinuationView::Done,
                },
            },
        )
    }
}

/// A command of the user interface.
pub open spec fn command(
    s: ActorView,
    cmd: UiCommand,
    handle: Option<PortHandle>,
) -> (ActorView, TurnView) {
    match cmd {
        UiCommand::Connect { port, baud, framing } => connect(s, port@, baud, framing@, handle),
        UiCommand::Disconnect => disconnect(s),
        UiCommand::Reconfigure { baud, framing, active_framing } => reconfigure(
            s,
            baud,
            framing@,
            active_framing@,
            handle,
        ),
        UiCommand::SetDecoder { id: _ } => (s, only(success())),
        UiCommand::SetFramer { id: _ } => (s, only(success())),
        UiCommand::WriteData { data: _ } => (s, only(success())),
    }
}

/// How the actor reacts to a message.
pub open spec fn reaction(s: ActorView, msg: StateMessage) -> (ActorView, TurnView) {
    match msg {
        StateMessage::UiCommand(cmd) => command(s, cmd, None),
        StateMessage::UiCommandWithPort { cmd, port_handle } => command(s, cmd, Some(port_handle)),
        StateMessage::ConnectionEstablished { operation_id } => connection_established(
            s,
            operation_id,
        ),
        StateMessage::ConnectionFailed { reason } => connection_failed(s, reason@),
        StateMessage::ConnectionLost => connection_lost(s),
        StateMessage::ConnectionClosed => connection_closed(s),
        StateMessage::ProbeComplete { baud, framing, protocol, initial_data } => probe_complete(
            s,
            baud,
            framing@,
            opt_text(protocol),
            initial_data@,
        ),
        StateMessage::DeviceReappeared { port, port_handle } => device_reappeared(
            s,
            port@,
            port_handle,
        ),
        StateMessage::OperationTimeout { operation, state } => operation_timeout(
            s,
            operation@,
            state,
        ),
    }
}

/// The error for a message that must arrive and did not.
pub open spec fn send_error(target: Target, full: bool) -> ActorErrorView {
    match target {
        Target::Port => if full {
            ActorErrorView::Other("PortActor channel overloaded"@)
        } else {
            ActorErrorView::ChannelClosed("PortActor has shut down"@)
        },
        Target::Probe => if full {
            ActorErrorView::Other("ProbeActor channel overloaded"@)
        } else {
            ActorErrorView::ChannelClosed("ProbeActor has shut down"@)
        },
    }
}

/// The rest of a handler whose message arrived.
pub open spec fn continuing(s: ActorView, then: ContinuationView) -> (ActorView, TurnView) {
    match then {
        ContinuationView::Done => (s, only(success())),
        ContinuationView::RejectStale => (
            s,
            only(failure(ActorErrorView::InvalidTransition("Stale ConnectionEstablished"@))),
        ),
        ContinuationView::FinishDisconnect => tear_down(s),
        ContinuationView::LoseDevice => going(
            s,
            Seq::empty(),
            ConnectionState::DeviceLost,
            success(),
        ),
        ContinuationView::AwaitClose => going(
            s,
            Seq::empty(),
            ConnectionState::Disconnecting,
            success(),
        ),
        ContinuationView::Inject { data } => (s, only(injection(data))),
    }
}

/// How the actor goes on after a message that must arrive.
pub open spec fn resumption(
    s: ActorView,
    target: Target,
    then: ContinuationView,
    report: SendReport,
) -> (ActorView, TurnView) {
    match report {
        SendReport::Delivered => continuing(s, then),
        SendReport::Full => (s, only(failure(send_error(target, true)))),
        SendReport::Disconnected => (s, only(failure(send_error(target, false)))),
    }
}

} // verus!
