//! What the state actor does with each message, told by what goes in and what comes out.
use vstd::prelude::*;

use crate::actors::data_processing::without_artifacts;
use crate::actors::state_actor::actor::StateActor;
use crate::actors::state_actor::behavior::{
    command, connect, connection_closed, connection_established, connection_failed,
    connection_lost, continuing, device_reappeared, disconnect, entered, entering,
    operation_timeout, probe_complete, reaction, reconfigure, resumption, ActorView,
};
use crate::actors::state_actor::turn::{
    seen, Continuation, ContinuationView, Effect, EffectView, NextView, Target, Turn, TurnView,
};
use crate::protocol::errors::{ActorError, ActorErrorView};
use crate::protocol::messages::{
    opt_text, FlowControl, ParityMode, SerialConfig, SerialPortInfo, SerialPortInfoView,
    SystemEventView, UiCommand,
};
use crate::protocol::state::{may_follow, name_of, ConnectionState};
use crate::runtime::channels::{
    PortHandle, PortMessageView, ProbeMessageView, ReconnectMessage, SendReport, StateMessage,
};
use crate::runtime::supervision::{supervised_for, SupervisionConfig};
use crate::text::{decimal, hex4, law_case_is_ignored_letter_by_letter, same_letter};

verus! {

/// The word "auto" in any case.
pub open spec fn is_auto(text: Seq<char>) -> bool {
    text.len() == 4 && (text[0] == 'a' || text[0] == 'A') && (text[1] == 'u' || text[1] == 'U') && (
    text[2] == 't' || text[2] == 'T') && (text[3] == 'o' || text[3] == 'O')
}

proof fn lemma_auto(text: Seq<char>)
    ensures
        crate::text::same_ignoring_case(text, "auto"@) == is_auto(text),
{
    reveal_strlit("auto");
    let word = "auto"@;
    assert(word.len() == 4 && word[0] == 'a' && word[1] == 'u' && word[2] == 't' && word[3] == 'o');
    law_case_is_ignored_letter_by_letter(text, word);
    if is_auto(text) {
        assert forall|i: int| 0 <= i < text.len() implies same_letter(#[trigger] text[i], word[i]) by {
            assert(i == 0 || i == 1 || i == 2 || i == 3);
        }
    }
    if crate::text::same_ignoring_case(text, word) {
        assert(same_letter(text[0], word[0]));
        assert(same_letter(text[1], word[1]));
        assert(same_letter(text[2], word[2]));
        assert(same_letter(text[3], word[3]));
    }
}

/// The effects tell the user interface that this state was entered.
pub open spec fn announces(effects: Seq<EffectView>, state: ConnectionState) -> bool {
    exists|i: int|
        0 <= i < effects.len() && #[trigger] effects[i] == EffectView::Event(
            SystemEventView::StateChanged { state },
        )
}

/// A request to open a port.
pub open spec fn opening(
    port: SerialPortInfoView,
    baud: u32,
    framing: Seq<char>,
    send_wakeup: bool,
    operation_id: u32,
    port_handle: Option<PortHandle>,
) -> PortMessageView {
    PortMessageView::Open { port, baud, framing, send_wakeup, operation_id, port_handle }
}

proof fn lemma_entering_announces(s: ActorView, to: ConnectionState)
    ensures
        announces(entering(s, to), to),
{
    let at: int = if s.active_timeout is Some {
        1
    } else {
        0
    };
    assert(entering(s, to)[at] == EffectView::Event(SystemEventView::StateChanged { state: to }));
}

proof fn lemma_announced_after(before: Seq<EffectView>, s: ActorView, to: ConnectionState)
    ensures
        announces(before + entering(s, to), to),
{
    lemma_entering_announces(s, to);
    let told = entering(s, to);
    let i = choose|i: int|
        0 <= i < told.len() && #[trigger] told[i] == EffectView::Event(
            SystemEventView::StateChanged { state: to },
        );
    assert((before + told)[before.len() + i] == told[i]);
}

proof fn lemma_announced_before(s: ActorView, to: ConnectionState, after: Seq<EffectView>)
    ensures
        announces(entering(s, to) + after, to),
{
    lemma_entering_announces(s, to);
    let told = entering(s, to);
    let i = choose|i: int|
        0 <= i < told.len() && #[trigger] told[i] == EffectView::Event(
            SystemEventView::StateChanged { state: to },
        );
    assert((told + after)[i] == told[i]);
}

/// Connecting at a baud rate asks for the given port at that rate, with a wake-up, and with
/// the very framing that was given; with 8N1 where it is empty or "auto" in any case. A
/// browser opens by the port object that was given.
pub proof fn law_connecting_opens_as_asked(
    s: ActorView,
    port: SerialPortInfoView,
    baud: u32,
    framing: Seq<char>,
    handle: Option<PortHandle>,
)
    requires
        s.state is Disconnected,
        baud != 0,
        s.browser ==> handle is Some,
    ensures
        ({
            let (next, turn) = connect(s, port, baud, framing, handle);
            &&& next.state is Connecting
            &&& next.pending_port == Some(port)
            &&& next.pending_baud == baud
            &&& announces(turn.effects, ConnectionState::Connecting)
            &&& turn.next matches NextView::ToPort { msg, then } && then is Done && (msg
                matches PortMessageView::Open {
                port: p,
                baud: b,
                framing: f,
                send_wakeup,
                operation_id,
                port_handle,
            } && p == port && b == baud && send_wakeup && operation_id == next.operation_sequence
                && operation_id != s.operation_sequence && (s.browser ==> port_handle == handle) && (
            !s.browser ==> port_handle is None) && (framing.len() > 0 && !is_auto(framing) ==> f
                == framing) && (framing.len() == 0 || is_auto(framing) ==> f == "8N1"@))
        }),
{
    lemma_auto(framing);
    let s1 = ActorView {
        pending_port_handle: if s.browser {
            handle
        } else {
            s.pending_port_handle
        },
        pending_port: Some(port),
        pending_baud: baud,
        ..s
    };
    lemma_announced_after(Seq::empty(), s1, ConnectionState::Connecting);
}

/// Connecting without a baud rate asks for the port to be probed, whatever the framing.
pub proof fn law_connecting_without_a_rate_probes(
    s: ActorView,
    port: SerialPortInfoView,
    framing: Seq<char>,
    handle: Option<PortHandle>,
)
    requires
        s.state is Disconnected,
        s.browser ==> handle is Some,
    ensures
        ({
            let (next, turn) = connect(s, port, 0, framing, handle);
            &&& next.state is Probing
            &&& next.pending_port == Some(port)
            &&& next.pending_baud == 0
            &&& s.browser ==> next.pending_port_handle == handle
            &&& announces(turn.effects, ConnectionState::Probing)
            &&& turn.next matches NextView::ToProbe { msg, then } && then is Done && (msg
                matches ProbeMessageView::Start { port: p, port_handle } && p == port && (s.browser
                ==> port_handle == handle) && (!s.browser ==> port_handle is None))
        }),
{
    let s1 = ActorView {
        pending_port_handle: if s.browser {
            handle
        } else {
            s.pending_port_handle
        },
        pending_port: Some(port),
        pending_baud: 0,
        ..s
    };
    lemma_announced_after(Seq::empty(), s1, ConnectionState::Probing);
}

/// A request to connect is refused in every state but the disconnected one, and in a
/// browser where there is no port object; a request for new settings in every state but
/// the connected one. What is refused changes nothing, and names the state.
pub proof fn law_requests_out_of_place_are_refused(
    s: ActorView,
    port: SerialPortInfoView,
    baud: u32,
    framing: Seq<char>,
    active: Seq<char>,
    handle: Option<PortHandle>,
)
    ensures
        s.state != ConnectionState::Disconnected ==> connect(s, port, baud, framing, handle) == (
            s,
            TurnView {
                effects: Seq::empty(),
                next: NextView::Finished(
                    Err(
                        ActorErrorView::UnexpectedMessage {
                            state: name_of(s.state),
                            message: "Connect"@,
                        },
                    ),
                ),
            },
        ),
        s.state == ConnectionState::Disconnected && s.browser && handle is None ==> connect(
            s,
            port,
            baud,
            framing,
            handle,
        ).1.next == NextView::Finished(
            Err(ActorErrorView::Transport("No port handle provided"@)),
        ),
        s.state != ConnectionState::Connected ==> reconfigure(s, baud, framing, active, handle) == (
            s,
            TurnView {
                effects: Seq::empty(),
                next: NextView::Finished(
                    Err(
                        ActorErrorView::UnexpectedMessage {
                            state: name_of(s.state),
                            message: "Reconfigure"@,
                        },
                    ),
                ),
            },
        ),
{
}

/// A request to disconnect does nothing when disconnected, and is refused while the port is
/// closing. A running probe is stopped first. Otherwise the port, its baud rate and any new
/// settings are forgotten, the device is no longer watched for, and the port is closed.
pub proof fn law_disconnecting_closes_the_port(s: ActorView)
    ensures
        s.state == ConnectionState::Disconnected ==> disconnect(s) == (
            s,
            TurnView { effects: Seq::empty(), next: NextView::Finished(Ok(())) },
        ),
        s.state == ConnectionState::Disconnecting ==> disconnect(s) == (
            s,
            TurnView {
                effects: Seq::empty(),
                next: NextView::Finished(
                    Err(
                        ActorErrorView::UnexpectedMessage {
                            state: "Disconnecting"@,
                            message: "Disconnect"@,
                        },
                    ),
                ),
            },
        ),
        s.state == ConnectionState::Probing ==> disconnect(s) == (
            s,
            TurnView {
                effects: Seq::empty(),
                next: NextView::ToProbe {
                    msg: ProbeMessageView::Abort,
                    then: ContinuationView::FinishDisconnect,
                },
            },
        ),
        s.state != ConnectionState::Disconnected && s.state != ConnectionState::Disconnecting ==> ({
            let (next, turn) = if s.state == ConnectionState::Probing {
                continuing(s, ContinuationView::FinishDisconnect)
            } else {
                disconnect(s)
            };
            &&& next.state is Disconnecting
            &&& next.pending_port is None
            &&& next.pending_baud == 0
            &&& next.pending_reconfigure is None
            &&& turn.effects.contains(EffectView::Hint(ReconnectMessage::ClearDevice))
            &&& announces(turn.effects, ConnectionState::Disconnecting)
            &&& turn.next == (NextView::ToPort {
                msg: PortMessageView::Close,
                then: ContinuationView::Done,
            })
        }),
{
    if s.state != ConnectionState::Disconnected && s.state != ConnectionState::Disconnecting {
        let s1 = ActorView { pending_port: None, pending_baud: 0, pending_reconfigure: None, ..s };
        let hint = seq![EffectView::Hint(ReconnectMessage::ClearDevice)];
        lemma_announced_after(hint, s1, ConnectionState::Disconnecting);
        let all = hint + entering(s1, ConnectionState::Disconnecting);
        assert(all[0] == EffectView::Hint(ReconnectMessage::ClearDevice));
    }
}

/// The answer to the latest request to open makes the connection, and registers the device
/// by its own identifiers and the rate it was opened at, where it has identifiers; an
/// answer to another request closes that port again and makes no connection.
pub proof fn law_opened_port_connects(s: ActorView, operation_id: u32)
    requires
        s.state is Connecting || s.state is AutoReconnecting,
    ensures
        operation_id == s.operation_sequence ==> ({
            let (next, turn) = connection_established(s, operation_id);
            &&& next == (ActorView { state: ConnectionState::Connected, active_timeout: None, ..s })
            &&& announces(turn.effects, ConnectionState::Connected)
            &&& turn.next == NextView::Finished(Ok(()))
            &&& s.pending_port matches Some(port) ==> (port.vid matches Some(vid) ==> (port.pid
                matches Some(pid) ==> turn.effects.last() == EffectView::Hint(
                ReconnectMessage::RegisterDevice {
                    vid,
                    pid,
                    config: SerialConfig {
                        baud_rate: s.pending_baud,
                        data_bits: 8,
                        stop_bits: 1,
                        parity: ParityMode::Off,
                        flow_control: FlowControl::Off,
                    },
                },
            )))
            &&& (match s.pending_port {
                Some(port) => port.vid is None || port.pid is None,
                None => true,
            }) ==> forall|i: int|
                0 <= i < turn.effects.len() ==> !(#[trigger] turn.effects[i] is Hint)
        }),
        operation_id != s.operation_sequence ==> ({
            let (next, turn) = connection_established(s, operation_id);
            &&& next == s
            &&& turn == (TurnView {
                effects: Seq::empty(),
                next: NextView::ToPort {
                    msg: PortMessageView::Close,
                    then: ContinuationView::RejectStale,
                },
            })
            &&& continuing(s, ContinuationView::RejectStale) == (
                s,
                TurnView {
                    effects: Seq::empty(),
                    next: NextView::Finished(
                        Err(ActorErrorView::InvalidTransition("Stale ConnectionEstablished"@)),
                    ),
                },
            )
        }),
{
    if operation_id == s.operation_sequence {
        let turn = connection_established(s, operation_id).1;
        lemma_announced_before(
            s,
            ConnectionState::Connected,
            crate::actors::state_actor::behavior::registration(s),
        );
    }
}

/// An answer in a state that awaits none is refused.
pub proof fn law_unawaited_answer_is_refused(s: ActorView, operation_id: u32)
    requires
        !(s.state is Connecting) && !(s.state is AutoReconnecting),
    ensures
        connection_established(s, operation_id) == (
            s,
            TurnView {
                effects: Seq::empty(),
                next: NextView::Finished(
                    Err(
                        ActorErrorView::UnexpectedMessage {
                            state: name_of(s.state),
                            message: "ConnectionEstablished"@,
                        },
                    ),
                ),
            },
        ),
{
}

/// A port that could not be opened is told with its reason. An attempt to connect ends
/// disconnected; one to reconnect waits for the device again.
pub proof fn law_failed_opening_is_told(s: ActorView, reason: Seq<char>)
    requires
        s.state is Probing || s.state is Connecting || s.state is AutoReconnecting,
    ensures
        ({
            let (next, turn) = connection_failed(s, reason);
            &&& turn.effects[0] == EffectView::Event(
                SystemEventView::Error { message: "Connection failed: "@ + reason },
            )
            &&& turn.next == NextView::Finished(Ok(()))
            &&& s.state is AutoReconnecting ==> next.state is DeviceLost && announces(
                turn.effects,
                ConnectionState::DeviceLost,
            )
            &&& !(s.state is AutoReconnecting) ==> next.state is Disconnected && announces(
                turn.effects,
                ConnectionState::Disconnected,
            )
        }),
{
    let s1 = ActorView { pending_reconfigure: None, ..s };
    let told = seq![
        EffectView::Event(SystemEventView::Error { message: "Connection failed: "@ + reason }),
    ];
    lemma_announced_after(told, s1, ConnectionState::DeviceLost);
    lemma_announced_after(told, s1, ConnectionState::Disconnected);
    assert((told + entering(s1, ConnectionState::DeviceLost))[0] == told[0]);
    assert((told + entering(s1, ConnectionState::Disconnected))[0] == told[0]);
}

/// A device that is unplugged has its port closed, and is then lost, from every state in
/// which something is open or opening.
pub proof fn law_unplugged_device_is_lost(s: ActorView)
    requires
        s.state is Connected || s.state is Connecting || s.state is Reconfiguring
            || s.state is AutoReconnecting,
    ensures
        connection_lost(s) == (
            s,
            TurnView {
                effects: Seq::empty(),
                next: NextView::ToPort {
                    msg: PortMessageView::Close,
                    then: ContinuationView::LoseDevice,
                },
            },
        ),
        continuing(s, ContinuationView::LoseDevice).0.state is DeviceLost,
        announces(
            continuing(s, ContinuationView::LoseDevice).1.effects,
            ConnectionState::DeviceLost,
        ),
        continuing(s, ContinuationView::LoseDevice).1.next == NextView::Finished(Ok(())),
        continuing(s, ContinuationView::LoseDevice).0.pending_baud == s.pending_baud,
{
    lemma_announced_after(Seq::empty(), s, ConnectionState::DeviceLost);
}

/// A lost device that comes back is opened at the rate it had, or at 115200, with 8N1 and
/// without a wake-up; in a browser by its new port object, after a moment.
pub proof fn law_returned_device_is_opened(
    s: ActorView,
    port: SerialPortInfoView,
    handle: Option<PortHandle>,
)
    ensures
        s.state is DeviceLost ==> ({
            let (next, turn) = device_reappeared(s, port, handle);
            &&& next.state is AutoReconnecting
            &&& announces(turn.effects, ConnectionState::AutoReconnecting)
            &&& s.browser ==> turn.effects.last() == (EffectView::Delay { millis: 50 })
            &&& next.operation_sequence != s.operation_sequence
            &&& turn.next matches NextView::ToPort { msg, then } && then is Done && msg == opening(
                port,
                if s.pending_baud == 0 {
                    115200
                } else {
                    s.pending_baud
                },
                "8N1"@,
                false,
                next.operation_sequence,
                if s.browser {
                    handle
                } else {
                    None
                },
            )
        }),
        !(s.state is DeviceLost) ==> device_reappeared(s, port, handle) == (
            s,
            TurnView { effects: Seq::empty(), next: NextView::Finished(Ok(())) },
        ),
{
    let settle: Seq<EffectView> = if s.browser {
        seq![EffectView::Delay { millis: 50 }]
    } else {
        Seq::empty()
    };
    lemma_announced_before(s, ConnectionState::AutoReconnecting, settle);
}

/// What a probe found is told: the baud rate, the framing and the protocol that it found,
/// and the protocol's decoder is chosen.
pub proof fn law_detection_is_told(
    s: ActorView,
    baud: u32,
    framing: Seq<char>,
    protocol: Option<Seq<char>>,
    data: Seq<u8>,
)
    requires
        s.state is Probing,
    ensures
        ({
            let effects = probe_complete(s, baud, framing, protocol, data).1.effects;
            &&& effects[0] == EffectView::Event(
                SystemEventView::StatusUpdate {
                    message: if protocol is Some {
                        "Detected: "@ + protocol->0 + " @ "@ + decimal(baud as nat) + " baud ("@
                            + framing + ")"@
                    } else {
                        "Detected: "@ + decimal(baud as nat) + " baud ("@ + framing + ")"@
                    },
                },
            )
            &&& effects[1] == EffectView::Event(
                SystemEventView::ProbeComplete { baud, framing, protocol },
            )
            &&& protocol matches Some(p) ==> effects[2] == EffectView::Event(
                SystemEventView::DecoderChanged { id: p },
            )
            &&& announces(effects, ConnectionState::Connecting)
        }),
{
    let told = crate::actors::state_actor::behavior::detection_events(baud, framing, protocol);
    lemma_announced_after(
        told,
        ActorView { pending_baud: baud, ..s },
        ConnectionState::Connecting,
    );
    let all = told + entering(ActorView { pending_baud: baud, ..s }, ConnectionState::Connecting);
    assert(all[0] == told[0] && all[1] == told[1]);
    if protocol is Some {
        assert(all[2] == told[2]);
    }
}

/// A byte that shows that someone is there: a letter, a digit, or a sign of a shell prompt.
pub open spec fn shows_life(b: u8) -> bool {
    (97 <= b <= 122) || (65 <= b <= 90) || (48 <= b <= 57) || b == 36 || b == 35 || b == 62 || b
        == 37 || b == 126
}

/// A port that was probed is opened with what was found. The data of a known protocol is
/// handed over untouched, and the device is not woken up. Without a protocol the data is
/// handed over without its shell artifacts if that shows that someone is there, and then
/// the device is not woken up either; otherwise nothing is handed over, and it is.
pub proof fn law_probed_port_is_opened(
    s: ActorView,
    port: SerialPortInfoView,
    baud: u32,
    framing: Seq<char>,
    protocol: Option<Seq<char>>,
    data: Seq<u8>,
)
    requires
        s.state is Probing,
        s.pending_port == Some(port),
        s.browser ==> s.pending_port_handle is Some,
    ensures
        ({
            let (next, turn) = probe_complete(s, baud, framing, protocol, data);
            let rest = without_artifacts(data);
            let alive = exists|i: int| 0 <= i < rest.len() && shows_life(#[trigger] rest[i]);
            let handle = if s.browser {
                s.pending_port_handle
            } else {
                None
            };
            &&& next.state is Connecting
            &&& next.pending_baud == baud
            &&& next.pending_port == Some(port)
            &&& next.operation_sequence != s.operation_sequence
            &&& turn.next matches NextView::ToPort { msg, then } && msg == opening(
                port,
                baud,
                framing,
                protocol is None && !alive,
                next.operation_sequence,
                handle,
            ) && (protocol is Some && data.len() > 0 ==> then == (ContinuationView::Inject { data }))
                && (protocol is Some && data.len() == 0 ==> then is Done) && (protocol is None
                && alive ==> then == (ContinuationView::Inject { data: rest })) && (protocol is None
                && !alive ==> then is Done)
        }),
{
    let rest = without_artifacts(data);
    assert forall|b: u8| crate::actors::data_processing::is_meaningful(b) == #[trigger] shows_life(
        b,
    ) by {}
    if exists|i: int| 0 <= i < rest.len() && crate::actors::data_processing::is_meaningful(rest[i]) {
        let i = choose|i: int|
            0 <= i < rest.len() && crate::actors::data_processing::is_meaningful(rest[i]);
        assert(shows_life(rest[i]));
    }
    if exists|i: int| 0 <= i < rest.len() && shows_life(#[trigger] rest[i]) {
        let i = choose|i: int| 0 <= i < rest.len() && shows_life(#[trigger] rest[i]);
        assert(crate::actors::data_processing::is_meaningful(rest[i]));
    }
}

/// Data that is to be handed over goes to the port actor as it is.
pub proof fn law_data_is_handed_over_as_it_is(s: ActorView, data: Seq<u8>)
    ensures
        continuing(s, ContinuationView::Inject { data }) == (
            s,
            TurnView {
                effects: Seq::empty(),
                next: NextView::ToPort {
                    msg: PortMessageView::InjectData { data },
                    then: ContinuationView::Done,
                },
            },
        ),
{
}

/// What was found is of no use once the probe is over, and a probe without a port fails.
pub proof fn law_late_detection_is_ignored(
    s: ActorView,
    baud: u32,
    framing: Seq<char>,
    protocol: Option<Seq<char>>,
    data: Seq<u8>,
)
    ensures
        !(s.state is Probing) ==> probe_complete(s, baud, framing, protocol, data) == (
            s,
            TurnView { effects: Seq::empty(), next: NextView::Finished(Ok(())) },
        ),
        s.state is Probing && s.pending_port is None ==> probe_complete(
            s,
            baud,
            framing,
            protocol,
            data,
        ).1.next == NextView::Finished(
            Err(ActorErrorView::Other("No pending port for probe completion"@)),
        ),
{
}

/// New settings open the same port again, once it is closed, at the new rate: with the new
/// framing, or with the active one for "auto" in any case, without a wake-up. In a browser
/// the port object that came with them is used, if one did.
pub proof fn law_new_settings_are_applied(
    s: ActorView,
    baud: u32,
    framing: Seq<char>,
    active: Seq<char>,
    given: Option<PortHandle>,
    port: SerialPortInfoView,
)
    requires
        s.state is Connected,
        baud != 0,
        s.browser ==> given is Some || s.pending_port_handle is Some,
        !s.browser ==> s.pending_port == Some(port),
    ensures
        ({
            let closing = reconfigure(s, baud, framing, active, given).0;
            let (next, turn) = connection_closed(closing);
            let object = if given is Some {
                given
            } else {
                s.pending_port_handle
            };
            &&& closing.state is Disconnecting
            &&& next.state is Connecting
            &&& next.pending_baud == baud
            &&& turn.next matches NextView::ToPort { msg, then } && then is Done && (msg
                matches PortMessageView::Open {
                port: p,
                baud: b,
                framing: f,
                send_wakeup,
                operation_id,
                port_handle,
            } && b == baud && !send_wakeup && operation_id == next.operation_sequence && f
                == if is_auto(framing) {
                active
            } else {
                framing
            } && (!s.browser ==> p == port && port_handle is None) && (s.browser ==> port_handle
                == object && p.vid == object->0.vid && p.pid == object->0.pid && p.path == hex4(
                if object->0.vid is Some {
                    object->0.vid->0 as int
                } else {
                    0
                },
            ) + ":"@ + hex4(
                if object->0.pid is Some {
                    object->0.pid->0 as int
                } else {
                    0
                },
            )))
        }),
{
    lemma_auto(framing);
}

/// A closed port ends the connection where no settings wait, and means nothing unless it
/// was to be closed.
pub proof fn law_closed_port_ends_the_connection(s: ActorView)
    ensures
        s.state is Disconnecting && s.pending_reconfigure is None ==> connection_closed(s).0.state
            is Disconnected && announces(
            connection_closed(s).1.effects,
            ConnectionState::Disconnected,
        ) && connection_closed(s).1.next == NextView::Finished(Ok(())),
        !(s.state is Disconnecting) ==> connection_closed(s) == (
            s,
            TurnView { effects: Seq::empty(), next: NextView::Finished(Ok(())) },
        ),
{
    lemma_entering_announces(s, ConnectionState::Disconnected);
}

/// A timeout is told to the user by the name of what took too long; one for a state that is
/// over means nothing.
pub proof fn law_timeouts_are_told(s: ActorView, operation: Seq<char>, expected: ConnectionState)
    ensures
        s.state == expected ==> operation_timeout(s, operation, expected).1.effects[0]
            == EffectView::Event(
            SystemEventView::Error {
                message: operation + " operation timed out. Please try again."@,
            },
        ),
        s.state != expected ==> operation_timeout(s, operation, expected) == (
            s,
            TurnView { effects: Seq::empty(), next: NextView::Finished(Ok(())) },
        ),
{
    let told = seq![
        EffectView::Event(
            SystemEventView::Error {
                message: operation + " operation timed out. Please try again."@,
            },
        ),
    ];
    let s1 = ActorView { pending_reconfigure: None, ..s };
    assert((told + entering(s1, ConnectionState::Disconnected))[0] == told[0]);
}

/// Entering a state that passes starts a timeout of the length that is set for it, and
/// leaves no other running; a state that may last has none.
pub proof fn law_states_have_their_timeouts(s: ActorView, to: ConnectionState)
    ensures
        ({
            let effects = entering(s, to);
            let next = entered(s, to);
            let c: SupervisionConfig = s.config;
            &&& next.state == to
            &&& s.active_timeout is Some ==> effects[0] is CancelTimeout
            &&& to is Probing ==> effects.last() == (EffectView::StartTimeout {
                state: to,
                secs: c.probe_timeout_secs,
            })
            &&& to is Connecting ==> effects.last() == (EffectView::StartTimeout {
                state: to,
                secs: c.connect_timeout_secs,
            })
            &&& to is AutoReconnecting ==> effects.last() == (EffectView::StartTimeout {
                state: to,
                secs: c.auto_reconnect_timeout_secs,
            })
            &&& to is Disconnecting ==> effects.last() == (EffectView::StartTimeout {
                state: to,
                secs: c.disconnect_timeout_secs,
            })
            &&& to is Reconfiguring ==> effects.last() == (EffectView::StartTimeout {
                state: to,
                secs: c.reconfigure_timeout_secs,
            })
            &&& to is Probing || to is Connecting || to is AutoReconnecting || to is Disconnecting
                || to is Reconfiguring ==> next.active_timeout == Some(to)
            &&& to is Disconnected || to is Connected || to is DeviceLost ==> next.active_timeout
                is None && forall|i: int|
                0 <= i < effects.len() ==> !(#[trigger] effects[i] is StartTimeout)
        }),
{
}

/// Each message is handled as what it is: commands by what they ask for, with the port
/// object that came with them, and reports by their own contents. Commands about decoders,
/// framers and data to write are not the state actor's.
pub proof fn law_messages_are_handled_as_what_they_are(
    s: ActorView,
    cmd: UiCommand,
    handle: PortHandle,
    msg: StateMessage,
)
    ensures
        reaction(s, StateMessage::UiCommand(cmd)) == command(s, cmd, None),
        reaction(s, StateMessage::UiCommandWithPort { cmd, port_handle: handle }) == command(
            s,
            cmd,
            Some(handle),
        ),
        cmd matches UiCommand::Connect { port, baud, framing } ==> command(s, cmd, Some(handle))
            == connect(s, port@, baud, framing@, Some(handle)) && command(s, cmd, None) == connect(
            s,
            port@,
            baud,
            framing@,
            None,
        ),
        cmd is Disconnect ==> command(s, cmd, None) == disconnect(s),
        cmd matches UiCommand::Reconfigure { baud, framing, active_framing } ==> command(
            s,
            cmd,
            Some(handle),
        ) == reconfigure(s, baud, framing@, active_framing@, Some(handle)),
        cmd is SetDecoder || cmd is SetFramer || cmd is WriteData ==> command(s, cmd, None) == (
            s,
            TurnView { effects: Seq::empty(), next: NextView::Finished(Ok(())) },
        ),
        msg matches StateMessage::ConnectionEstablished { operation_id } ==> reaction(s, msg)
            == connection_established(s, operation_id),
        msg matches StateMessage::ConnectionFailed { reason } ==> reaction(s, msg)
            == connection_failed(s, reason@),
        msg is ConnectionLost ==> reaction(s, msg) == connection_lost(s),
        msg is ConnectionClosed ==> reaction(s, msg) == connection_closed(s),
        msg matches StateMessage::DeviceReappeared { port, port_handle } ==> reaction(s, msg)
            == device_reappeared(s, port@, port_handle),
        msg matches StateMessage::OperationTimeout { operation, state } ==> reaction(s, msg)
            == operation_timeout(s, operation@, state),
{
}

/// A message that could not be sent fails the handler with what is wrong with its receiver.
pub proof fn law_undelivered_messages_are_told(s: ActorView, then: ContinuationView)
    ensures
        resumption(s, Target::Port, then, SendReport::Full).1.next == NextView::Finished(
            Err(ActorErrorView::Other("PortActor channel overloaded"@)),
        ),
        resumption(s, Target::Port, then, SendReport::Disconnected).1.next == NextView::Finished(
            Err(ActorErrorView::ChannelClosed("PortActor has shut down"@)),
        ),
        resumption(s, Target::Probe, then, SendReport::Full).1.next == NextView::Finished(
            Err(ActorErrorView::Other("ProbeActor channel overloaded"@)),
        ),
        resumption(s, Target::Probe, then, SendReport::Disconnected).1.next == NextView::Finished(
            Err(ActorErrorView::ChannelClosed("ProbeActor has shut down"@)),
        ),
        resumption(s, Target::Port, then, SendReport::Delivered) == continuing(s, then),
        continuing(s, ContinuationView::Done) == (
            s,
            TurnView { effects: Seq::empty(), next: NextView::Finished(Ok(())) },
        ),
{
}

/// A disconnected actor that is told to connect at a baud rate asks for that very port, at
/// that rate and with the framing that it was given; with 8N1 where that is empty or "auto".
pub proof fn law_actor_connects_as_asked(
    actor: &mut StateActor,
    port: SerialPortInfo,
    baud: u32,
    framing: String,
    handle: Option<PortHandle>,
    r: Turn,
)
    requires
        call_ensures(StateActor::handle_connect, (actor, port, baud, framing, handle), r),
        old(actor).state is Disconnected,
        baud != 0,
        old(actor).browser ==> handle is Some,
    ensures
        final(actor).state is Connecting,
        final(actor).pending_baud == baud,
        final(actor)@.pending_port == Some(port@),
        announces(r@.effects, ConnectionState::Connecting),
        r@.next matches NextView::ToPort { msg, then } && (msg matches PortMessageView::Open {
            port: p,
            baud: b,
            framing: f,
            send_wakeup,
            operation_id,
            port_handle,
        } && p == port@ && b == baud && send_wakeup && operation_id == final(
            actor
        ).operation_sequence && (old(actor).browser ==> port_handle == handle) && (!old(
            actor
        ).browser ==> port_handle is None) && (framing@.len() > 0 && !is_auto(framing@) ==> f
            == framing@) && (framing@.len() == 0 || is_auto(framing@) ==> f == "8N1"@)),
{
    law_connecting_opens_as_asked(old(actor)@, port@, baud, framing@, handle);
}

/// Every message to the actor has the effects, and leaves the actor in the state, that the
/// model of its kind has for it.
pub proof fn law_actor_follows_its_model(
    actor: &mut StateActor,
    port: SerialPortInfo,
    baud: u32,
    text: String,
    other: String,
    handle: Option<PortHandle>,
    protocol: Option<String>,
    data: Vec<u8>,
    r: Turn,
)
    ensures
        call_ensures(StateActor::handle_connect, (actor, port, baud, text, handle), r) ==> (
        final(actor)@, r@) == connect(old(actor)@, port@, baud, text@, handle),
        call_ensures(StateActor::handle_disconnect, (actor,), r) ==> (final(actor)@, r@)
            == disconnect(old(actor)@),
        call_ensures(StateActor::handle_connection_established, (actor, baud), r) ==> (
        final(actor)@, r@) == connection_established(old(actor)@, baud),
        call_ensures(StateActor::handle_connection_failed, (actor, text), r) ==> (
        final(actor)@, r@) == connection_failed(old(actor)@, text@),
        call_ensures(StateActor::handle_probe_complete, (actor, baud, text, protocol, data), r)
            ==> (final(actor)@, r@) == probe_complete(
            old(actor)@,
            baud,
            text@,
            opt_text(protocol),
            data@,
        ),
        call_ensures(StateActor::handle_connection_closed, (actor,), r) ==> (final(actor)@, r@)
            == connection_closed(old(actor)@),
        call_ensures(StateActor::handle_device_reappeared, (actor, port, handle), r) ==> (
        final(actor)@, r@) == device_reappeared(old(actor)@, port@, handle),
        call_ensures(StateActor::handle_reconfigure, (actor, baud, text, other, handle), r) ==> (
        final(actor)@, r@) == reconfigure(old(actor)@, baud, text@, other@, handle),
{
}

/// So has every message as a whole, and every report on what was sent on.
pub proof fn law_actor_reacts_as_its_model(
    actor: &mut StateActor,
    msg: StateMessage,
    operation: String,
    expected: ConnectionState,
    target: Target,
    then: Continuation,
    report: SendReport,
    r: Turn,
)
    ensures
        call_ensures(StateActor::handle, (actor, msg), r) ==> (final(actor)@, r@) == reaction(
            old(actor)@,
            msg,
        ),
        call_ensures(StateActor::handle_operation_timeout, (actor, operation, expected), r) ==> (
        final(actor)@, r@) == operation_timeout(old(actor)@, operation@, expected),
        call_ensures(StateActor::resume, (actor, target, then, report), r) ==> (final(actor)@, r@)
            == resumption(old(actor)@, target, then@, report),
{
}

/// A new actor is disconnected, has asked for nothing and waits for nothing; it supervises
/// detection for 30 seconds, closing for 5 and everything else for 10.
pub proof fn law_actor_begins_disconnected(r: StateActor, q: StateActor)
    requires
        call_ensures(StateActor::new, (), r),
        call_ensures(StateActor::new_in_browser, (), q),
    ensures
        !r.browser && q.browser,
        r.state is Disconnected && q.state is Disconnected,
        r.active_timeout is None && q.active_timeout is None,
        r.pending_port is None && q.pending_port is None,
        r.pending_baud == 0 && q.pending_baud == 0,
        r.operation_sequence == 0 && q.operation_sequence == 0,
        r.pending_port_handle is None && q.pending_port_handle is None,
        r.pending_reconfigure is None && q.pending_reconfigure is None,
        r.supervision_config == q.supervision_config,
        r.supervision_config.probe_timeout_secs == 30,
        r.supervision_config.connect_timeout_secs == 10,
        r.supervision_config.auto_reconnect_timeout_secs == 10,
        r.supervision_config.disconnect_timeout_secs == 5,
        r.supervision_config.reconfigure_timeout_secs == 10,
{
}

/// The view of an actor keeps all of it.
pub proof fn law_view_of_an_actor(a: StateActor)
    ensures
        a@.state == a.state,
        a@.config == a.supervision_config,
        a@.active_timeout == a.active_timeout,
        a@.pending_baud == a.pending_baud,
        a@.operation_sequence == a.operation_sequence,
        a@.browser == a.browser,
        a@.pending_port_handle == a.pending_port_handle,
        a@.pending_port is None <==> a.pending_port is None,
        a.pending_port matches Some(p) ==> a@.pending_port == Some(p@),
        a@.pending_reconfigure is None <==> a.pending_reconfigure is None,
        a.pending_reconfigure matches Some(n) ==> (a@.pending_reconfigure matches Some(m) && m.baud
            == n.baud && m.framing == n.framing@ && m.active_framing == n.active_framing@),
{
}

/// Open requests are counted one by one, from 0 again after the largest number, and
/// counting one changes nothing else.
pub proof fn law_open_requests_are_counted(actor: &mut StateActor, r: u32)
    requires
        call_ensures(StateActor::next_operation_id, (actor,), r),
    ensures
        old(actor).operation_sequence < u32::MAX ==> r == old(actor).operation_sequence + 1,
        old(actor).operation_sequence == u32::MAX ==> r == 0,
        final(actor)@ == (ActorView { operation_sequence: r, ..old(actor)@ }),
{
}

/// A transition is made exactly if the new state may follow: the actor is then in it, which
/// is announced, and nothing but its state and its timeout has changed. One that is refused
/// changes nothing.
pub proof fn law_transitions_are_made_or_refused(
    actor: &mut StateActor,
    to: ConnectionState,
    effects: &mut Vec<Effect>,
    r: Result<(), ActorError>,
)
    requires
        call_ensures(StateActor::transition, (actor, to, effects), r),
    ensures
        r is Ok <==> may_follow(old(actor).state, to),
        r is Ok ==> {
            &&& final(actor).state == to
            &&& final(actor)@ == (ActorView {
                state: to,
                active_timeout: final(actor).active_timeout,
                ..old(actor)@
            })
            &&& final(actor).active_timeout == (if supervised_for(
                old(actor).supervision_config,
                to,
            ) is Some {
                Some(to)
            } else {
                None
            })
            &&& announces(seen(final(effects)@), to)
        },
        r is Err ==> final(actor)@ == old(actor)@ && final(effects)@ == old(effects)@,
        r matches Err(e) ==> e@ == ActorErrorView::InvalidTransition(
            name_of(old(actor).state) + " → "@ + name_of(to),
        ),
{
    lemma_announced_after(seen(old(effects)@), old(actor)@, to);
}

} // verus!
