//! What holds of the state actor over whole turns.
use vstd::prelude::*;

use crate::actors::state_actor::behavior::{
    command, connect, connection_closed, connection_established, continuing, detection_events,
    device_reappeared, direct_framing, disconnect, entered, entering, going, handed_over,
    next_operation, operation_timeout, probe_complete, reaction, reconfigure, registration, renewed_framing,
    resumption, starting, stored_port, success, tear_down, usable, wakes_up, ActorView,
    ReconfigureView,
};
use crate::actors::state_actor::turn::{
    ContinuationView, EffectView, NextView, Target, TurnView,
};
use crate::protocol::messages::{opt_text, SerialPortInfoView, SystemEventView, UiCommand};
use crate::protocol::state::{may_follow, user_can_disconnect, ConnectionState};
use crate::runtime::channels::{
    PortHandle, PortMessageView, ProbeMessageView, ReconnectMessage, SendReport, StateMessage,
};
use crate::runtime::supervision::supervised_for;

verus! {

/// Where the announced states lead from `from`; `None` if a step is not allowed.
pub open spec fn walked(from: ConnectionState, effects: Seq<EffectView>) -> Option<ConnectionState>
    decreases effects.len(),
{
    if effects.len() == 0 {
        Some(from)
    } else {
        match walked(from, effects.drop_last()) {
            None => None,
            Some(at) => match effects.last() {
                EffectView::Event(SystemEventView::StateChanged { state }) => if may_follow(
                    at,
                    state,
                ) {
                    Some(state)
                } else {
                    None
                },
                _ => Some(at),
            },
        }
    }
}

proof fn lemma_walked_on(from: ConnectionState, a: Seq<EffectView>, b: Seq<EffectView>)
    ensures
        walked(from, a + b) == match walked(from, a) {
            Some(at) => walked(at, b),
            None => None,
        },
    decreases b.len(),
{
    if b.len() == 0 {
        assert(a + b =~= a);
    } else {
        lemma_walked_on(from, a, b.drop_last());
        assert((a + b).drop_last() =~= a + b.drop_last());
    }
}

proof fn lemma_quiet(from: ConnectionState, effects: Seq<EffectView>)
    requires
        forall|i: int| 0 <= i < effects.len() ==> !(#[trigger] effects[i] matches EffectView::Event(
            SystemEventView::StateChanged { state },
        )),
    ensures
        walked(from, effects) == Some(from),
    decreases effects.len(),
{
    if effects.len() > 0 {
        lemma_quiet(from, effects.drop_last());
    }
}

proof fn lemma_entering(s: ActorView, from: ConnectionState, to: ConnectionState)
    ensures
        may_follow(from, to) ==> walked(from, entering(s, to)) == Some(to),
{
    let cancel: Seq<EffectView> = if s.active_timeout is Some {
        seq![EffectView::CancelTimeout]
    } else {
        Seq::empty()
    };
    let told = seq![EffectView::Event(SystemEventView::StateChanged { state: to })];
    let start: Seq<EffectView> = match supervised_for(s.config, to) {
        Some(secs) => seq![EffectView::StartTimeout { state: to, secs }],
        None => Seq::empty(),
    };
    lemma_quiet(from, cancel);
    lemma_quiet(to, start);
    lemma_walked_on(from, cancel, told);
    lemma_walked_on(from, cancel + told, start);
    assert(told.drop_last() =~= Seq::<EffectView>::empty());
    assert(walked(from, told) == if may_follow(from, to) {
        Some(to)
    } else {
        None
    }) by {
        assert(told.last() == EffectView::Event(SystemEventView::StateChanged { state: to }));
        assert(walked(from, told.drop_last()) == Some(from));
    }
}

proof fn lemma_entered_after(
    from: ConnectionState,
    before: Seq<EffectView>,
    s: ActorView,
    to: ConnectionState,
)
    requires
        walked(from, before) matches Some(at) && may_follow(at, to),
    ensures
        walked(from, before + entering(s, to)) == Some(to),
{
    lemma_walked_on(from, before, entering(s, to));
    lemma_entering(s, walked(from, before)->0, to);
}

proof fn lemma_starting_walks(
    from: ConnectionState,
    s: ActorView,
    before: Seq<EffectView>,
    port: SerialPortInfoView,
    baud: u32,
    framing: Seq<char>,
    send_wakeup: bool,
    handle: Option<PortHandle>,
)
    requires
        walked(from, before) == Some(ConnectionState::Disconnected) || (walked(from, before)
            == Some(ConnectionState::Disconnecting) && baud != 0),
    ensures
        ({
            let (next, turn) = starting(s, before, port, baud, framing, send_wakeup, handle);
            walked(from, turn.effects) == Some(next.state)
        }),
{
    let s1 = ActorView { pending_port: Some(port), pending_baud: baud, ..s };
    if baud == 0 {
        lemma_entered_after(from, before, s1, ConnectionState::Probing);
    } else {
        lemma_entered_after(from, before, s1, ConnectionState::Connecting);
    }
}

proof fn lemma_going_walks(
    s: ActorView,
    before: Seq<EffectView>,
    to: ConnectionState,
    next: NextView,
)
    requires
        walked(s.state, before) == Some(s.state),
    ensures
        walked(s.state, going(s, before, to, next).1.effects) == Some(
            going(s, before, to, next).0.state,
        ),
{
    if may_follow(s.state, to) {
        lemma_entered_after(s.state, before, s, to);
    }
}

proof fn lemma_tear_down_walks(s: ActorView)
    ensures
        walked(s.state, tear_down(s).1.effects) == Some(tear_down(s).0.state),
{
    let s1 = ActorView { pending_port: None, pending_baud: 0, pending_reconfigure: None, ..s };
    let hint = seq![EffectView::Hint(ReconnectMessage::ClearDevice)];
    lemma_quiet(s.state, hint);
    lemma_going_walks(
        s1,
        hint,
        ConnectionState::Disconnecting,
        NextView::ToPort { msg: PortMessageView::Close, then: ContinuationView::Done },
    );
}

proof fn lemma_closed_walks(s: ActorView)
    ensures
        walked(s.state, connection_closed(s).1.effects) == Some(connection_closed(s).0.state),
{
    if s.state is Disconnecting {
        let s1 = ActorView { pending_reconfigure: None, ..s };
        let over = entered(s1, ConnectionState::Disconnected);
        let effects = entering(s1, ConnectionState::Disconnected);
        lemma_entering(s, s.state, ConnectionState::Disconnected);
        lemma_entering(s1, s.state, ConnectionState::Disconnected);
        match (s.pending_reconfigure, stored_port(s)) {
            (Some(new), Some((port, handle))) => {
                let framing = renewed_framing(new.framing, new.active_framing);
                if new.baud == 0 {
                    lemma_starting_walks(s.state, over, effects, port, 0, framing, false, handle);
                } else {
                    let none: Seq<EffectView> = Seq::empty();
                    lemma_starting_walks(
                        s.state,
                        s1,
                        none,
                        port,
                        new.baud,
                        framing,
                        false,
                        handle,
                    );
                }
            },
            _ => {},
        }
    }
}

proof fn lemma_probe_complete_walks(
    s: ActorView,
    baud: u32,
    framing: Seq<char>,
    protocol: Option<Seq<char>>,
    data: Seq<u8>,
)
    ensures
        ({
            let (next, turn) = probe_complete(s, baud, framing, protocol, data);
            walked(s.state, turn.effects) == Some(next.state)
        }),
{
    let told = detection_events(baud, framing, protocol);
    lemma_quiet(s.state, told);
    if s.state is Probing {
        lemma_entered_after(
            s.state,
            told,
            ActorView { pending_baud: baud, ..s },
            ConnectionState::Connecting,
        );
    }
}

/// The timeout runs exactly while a supervised state lasts.
pub open spec fn supervised(s: ActorView) -> bool {
    s.active_timeout == if supervised_for(s.config, s.state) is Some {
        Some(s.state)
    } else {
        None
    }
}

/// The timeout keeps running exactly while a supervised state lasts.
pub proof fn law_timeout_follows_state(s: ActorView, msg: StateMessage)
    requires
        supervised(s),
    ensures
        supervised(reaction(s, msg).0),
{
}

/// The same, for the rest of a handler.
pub proof fn law_timeout_follows_state_on_resuming(
    s: ActorView,
    target: Target,
    then: ContinuationView,
    report: SendReport,
)
    requires
        supervised(s),
    ensures
        supervised(resumption(s, target, then, report).0),
{
}

/// A connection is taken as established only on the answer to the latest open
/// request, and only while one is awaited.
pub proof fn law_only_the_latest_open_connects(s: ActorView, msg: StateMessage)
    requires
        !(s.state is Connected),
        reaction(s, msg).0.state is Connected,
    ensures
        msg == (StateMessage::ConnectionEstablished { operation_id: s.operation_sequence }),
        s.state is Connecting || s.state is AutoReconnecting,
{
}

/// Resuming a handler never makes a connection established.
pub proof fn law_resuming_never_connects(
    s: ActorView,
    target: Target,
    then: ContinuationView,
    report: SendReport,
)
    requires
        !(s.state is Connected),
    ensures
        !(resumption(s, target, then, report).0.state is Connected),
{
}

/// A message that must arrive and did not fails the handler, and changes nothing more.
pub proof fn law_failed_send_changes_nothing(
    s: ActorView,
    target: Target,
    then: ContinuationView,
    report: SendReport,
)
    requires
        !(report is Delivered),
    ensures
        resumption(s, target, then, report).0 == s,
        resumption(s, target, then, report).1.effects.len() == 0,
        resumption(s, target, then, report).1.next matches NextView::Finished(Err(_)),
{
}

/// The turn asks for a port to be opened under this number.
pub open spec fn opens_as(t: TurnView, id: u32) -> bool {
    t.next matches NextView::ToPort {
        msg: PortMessageView::Open {
            port: _,
            baud: _,
            framing: _,
            send_wakeup: _,
            operation_id,
            port_handle: _,
        },
        then: _,
    } && operation_id == id
}

/// Every open request carries a number that was not the latest before, and is now.
pub proof fn law_open_requests_are_numbered(s: ActorView, msg: StateMessage, id: u32)
    requires
        opens_as(reaction(s, msg).1, id),
    ensures
        id == reaction(s, msg).0.operation_sequence,
        id == next_operation(s.operation_sequence),
        id != s.operation_sequence,
{
}

/// The answer to an open request that was just made connects.
pub proof fn law_answered_open_connects(s: ActorView, msg: StateMessage, id: u32)
    requires
        opens_as(reaction(s, msg).1, id),
    ensures
        connection_established(reaction(s, msg).0, id).0.state is Connected,
{
}

/// Whatever the message, neither the timeouts' lengths nor the platform change.
pub proof fn law_settings_stay(s: ActorView, msg: StateMessage)
    ensures
        reaction(s, msg).0.config == s.config,
        reaction(s, msg).0.browser == s.browser,
{
}

/// Disconnecting, once the port reports that it is closed, ends disconnected with
/// no port remembered.
pub proof fn law_disconnect_completes(s: ActorView)
    requires
        user_can_disconnect(s.state),
    ensures
        ({
            let asked = disconnect(s).0;
            let closing = if s.state is Probing {
                continuing(asked, ContinuationView::FinishDisconnect).0
            } else {
                asked
            };
            let closed = connection_closed(closing).0;
            closing.state is Disconnecting && closed.state is Disconnected
                && closed.pending_port is None && closed.pending_baud == 0
        }),
{
}

/// New settings wait only while the port is closing.
pub open spec fn settings_wait_for_the_close(s: ActorView) -> bool {
    s.pending_reconfigure is Some ==> s.state is Disconnecting
}

/// New settings wait only while the port is closing: whatever the message, none are left
/// over once the close is confirmed or given up.
pub proof fn law_settings_wait_for_the_close(s: ActorView, msg: StateMessage)
    requires
        settings_wait_for_the_close(s),
    ensures
        settings_wait_for_the_close(reaction(s, msg).0),
{
}

/// The same, for the rest of a handler.
pub proof fn law_settings_wait_for_the_close_on_resuming(
    s: ActorView,
    target: Target,
    then: ContinuationView,
    report: SendReport,
)
    requires
        settings_wait_for_the_close(s),
    ensures
        settings_wait_for_the_close(resumption(s, target, then, report).0),
{
}

/// An attempt to connect that a timeout gives up closes the port, and ends disconnected
/// once the port reports that it is closed.
pub proof fn law_attempt_given_up_ends_disconnected(s: ActorView, operation: Seq<char>)
    requires
        settings_wait_for_the_close(s),
        s.state is Probing || s.state is Connecting || s.state is Reconfiguring
            || s.state is AutoReconnecting,
    ensures
        ({
            let (waiting, turn) = operation_timeout(s, operation, s.state);
            let closing = continuing(waiting, ContinuationView::AwaitClose).0;
            let (closed, done) = connection_closed(closing);
            &&& turn.next == (NextView::ToPort {
                msg: PortMessageView::Close,
                then: ContinuationView::AwaitClose,
            })
            &&& closing.state is Disconnecting
            &&& closed.state is Disconnected
            &&& done.next == success()
        }),
{
}

/// A close that a timeout gives up ends disconnected too, and what was to follow it is
/// given up with it.
pub proof fn law_close_given_up_ends_disconnected(s: ActorView, operation: Seq<char>)
    requires
        s.state is Disconnecting,
    ensures
        ({
            let (over, turn) = operation_timeout(s, operation, s.state);
            over.state is Disconnected && over.pending_reconfigure is None && turn.next
                == success()
        }),
{
}

/// A device that is unplugged while connected and comes back is opened again at
/// the same baud rate, or at 115200 where none is known, in a browser by the port object that it came back with, and the
/// answer to that connects.
pub proof fn law_replugged_device_reconnects(
    s: ActorView,
    port: SerialPortInfoView,
    handle: Option<PortHandle>,
)
    requires
        s.state is Connected,
    ensures
        ({
            let lost = continuing(s, ContinuationView::LoseDevice).0;
            let (back, turn) = device_reappeared(lost, port, handle);
            let connected = connection_established(back, back.operation_sequence).0;
            &&& lost.state is DeviceLost
            &&& back.state is AutoReconnecting
            &&& turn.next == (NextView::ToPort {
                msg: PortMessageView::Open {
                    port,
                    baud: if s.pending_baud > 0 {
                        s.pending_baud
                    } else {
                        115200
                    },
                    framing: "8N1"@,
                    send_wakeup: false,
                    operation_id: back.operation_sequence,
                    port_handle: usable(lost, handle),
                },
                then: ContinuationView::Done,
            })
            &&& connected.state is Connected
        }),
{
}

/// The actor with the port object that came with new settings, if one did.
pub open spec fn with_port_object(s: ActorView, given: Option<PortHandle>) -> ActorView {
    ActorView {
        pending_port_handle: if s.browser && given is Some {
            given
        } else {
            s.pending_port_handle
        },
        ..s
    }
}

/// New settings for an open connection are applied once its port is closed: the
/// connection goes through being reconfigured and closing, the same port, or in a browser
/// the one that came with the settings, is opened again at the new baud rate and with the
/// new framing, and the answer to that connects. Without a baud rate it is detected.
pub proof fn law_reconfiguration_opens_again(
    s: ActorView,
    baud: u32,
    framing: Seq<char>,
    active_framing: Seq<char>,
    given: Option<PortHandle>,
    port: SerialPortInfoView,
    handle: Option<PortHandle>,
)
    requires
        s.state is Connected,
        stored_port(with_port_object(s, given)) == Some((port, handle)),
    ensures
        ({
            let (closing, asked) = reconfigure(s, baud, framing, active_framing, given);
            let (opening, turn) = connection_closed(closing);
            let connected = connection_established(opening, opening.operation_sequence).0;
            &&& closing.state is Disconnecting
            &&& asked.next == (NextView::ToPort {
                msg: PortMessageView::Close,
                then: ContinuationView::Done,
            })
            &&& asked.effects.contains(
                EffectView::Event(
                    SystemEventView::StateChanged { state: ConnectionState::Reconfiguring },
                ),
            )
            &&& opening.pending_reconfigure is None
            &&& baud != 0 ==> opening.state is Connecting && connected.state is Connected
                && turn.next == (NextView::ToPort {
                msg: PortMessageView::Open {
                    port,
                    baud,
                    framing: renewed_framing(framing, active_framing),
                    send_wakeup: false,
                    operation_id: opening.operation_sequence,
                    port_handle: handle,
                },
                then: ContinuationView::Done,
            })
            &&& baud == 0 ==> opening.state is Probing && turn.next == (NextView::ToProbe {
                msg: ProbeMessageView::Start { port, port_handle: handle },
                then: ContinuationView::Done,
            })
        }),
{
    let s1 = ActorView {
        pending_reconfigure: Some(ReconfigureView { baud, framing, active_framing }),
        ..with_port_object(s, given)
    };
    let told = entering(s1, ConnectionState::Reconfiguring);
    let at: int = if s.active_timeout is Some {
        1
    } else {
        0
    };
    let asked = reconfigure(s, baud, framing, active_framing, given).1;
    assert(told[at] == EffectView::Event(
        SystemEventView::StateChanged { state: ConnectionState::Reconfiguring },
    ));
    assert(asked.effects[at] == told[at]);
}

/// Auto-detection that finds something opens the very port that it was started
/// for, in a browser by the port object that it was started with, at the baud rate and
/// with the framing that it found, and the answer to that connects.
pub proof fn law_detection_opens_what_it_found(
    s: ActorView,
    port: SerialPortInfoView,
    asked: Seq<char>,
    baud: u32,
    framing: Seq<char>,
    protocol: Option<Seq<char>>,
    data: Seq<u8>,
    handle: Option<PortHandle>,
)
    requires
        s.state is Disconnected,
        s.browser ==> handle is Some,
    ensures
        ({
            let (probing, start) = connect(s, port, 0, asked, handle);
            let (connecting, turn) = probe_complete(probing, baud, framing, protocol, data);
            &&& probing.state is Probing
            &&& start.next == (NextView::ToProbe {
                msg: ProbeMessageView::Start { port, port_handle: usable(s, handle) },
                then: ContinuationView::Done,
            })
            &&& connecting.state is Connecting
            &&& turn.next == (NextView::ToPort {
                msg: PortMessageView::Open {
                    port,
                    baud,
                    framing,
                    send_wakeup: wakes_up(protocol, data),
                    operation_id: connecting.operation_sequence,
                    port_handle: usable(s, handle),
                },
                then: if handed_over(protocol, data).len() > 0 {
                    ContinuationView::Inject { data: handed_over(protocol, data) }
                } else {
                    ContinuationView::Done
                },
            })
            &&& connection_established(
                connecting,
                connecting.operation_sequence,
            ).0.state is Connected
        }),
{
}

/// The states that a reaction announces are a path of allowed transitions that
/// leads from the old state to the new one.
pub proof fn law_reactions_follow_the_transitions(s: ActorView, msg: StateMessage)
    ensures
        walked(s.state, reaction(s, msg).1.effects) == Some(reaction(s, msg).0.state),
{
    match msg {
        StateMessage::UiCommand(cmd) => lemma_command_walks(s, cmd, None),
        StateMessage::UiCommandWithPort { cmd, port_handle } => lemma_command_walks(
            s,
            cmd,
            Some(port_handle),
        ),
        StateMessage::ConnectionEstablished { operation_id } => {
            let told = entering(s, ConnectionState::Connected);
            lemma_entering(s, s.state, ConnectionState::Connected);
            lemma_walked_on(s.state, told, registration(s));
            lemma_quiet(ConnectionState::Connected, registration(s));
        },
        StateMessage::ConnectionFailed { reason } => {
            let told = seq![
                EffectView::Event(
                    SystemEventView::Error { message: "Connection failed: "@ + reason@ },
                ),
            ];
            lemma_quiet(s.state, told);
            lemma_going_walks(
                ActorView { pending_reconfigure: None, ..s },
                told,
                if s.state is AutoReconnecting {
                    ConnectionState::DeviceLost
                } else {
                    ConnectionState::Disconnected
                },
                success(),
            );
        },
        StateMessage::ConnectionLost => {},
        StateMessage::ConnectionClosed => lemma_closed_walks(s),
        StateMessage::ProbeComplete { baud, framing, protocol, initial_data } =>
            lemma_probe_complete_walks(s, baud, framing@, opt_text(protocol), initial_data@),
        StateMessage::DeviceReappeared { port, port_handle } => {
            let told = entering(s, ConnectionState::AutoReconnecting);
            let settle: Seq<EffectView> = if s.browser {
                seq![EffectView::Delay { millis: 50 }]
            } else {
                Seq::empty()
            };
            lemma_entering(s, s.state, ConnectionState::AutoReconnecting);
            lemma_walked_on(s.state, told, settle);
            lemma_quiet(ConnectionState::AutoReconnecting, settle);
        },
        StateMessage::OperationTimeout { operation, state } => {
            let told = seq![
                EffectView::Event(
                    SystemEventView::Error {
                        message: operation@ + " operation timed out. Please try again."@,
                    },
                ),
            ];
            lemma_quiet(s.state, told);
            let s1 = ActorView { pending_reconfigure: None, ..s };
            lemma_going_walks(s1, told, ConnectionState::Disconnected, success());
        },
    }
}

proof fn lemma_command_walks(s: ActorView, cmd: UiCommand, handle: Option<PortHandle>)
    ensures
        walked(s.state, command(s, cmd, handle).1.effects) == Some(command(s, cmd, handle).0.state),
{
    match cmd {
        UiCommand::Connect { port, baud, framing } => {
            if s.state is Disconnected {
                let s1 = ActorView {
                    pending_port_handle: if s.browser {
                        handle
                    } else {
                        s.pending_port_handle
                    },
                    ..s
                };
                lemma_starting_walks(
                    s.state,
                    s1,
                    Seq::empty(),
                    port@,
                    baud,
                    direct_framing(framing@),
                    true,
                    usable(s, handle),
                );
            }
        },
        UiCommand::Disconnect => lemma_tear_down_walks(s),
        UiCommand::Reconfigure { baud, framing, active_framing } => {
            let s1 = ActorView {
                pending_reconfigure: Some(
                    ReconfigureView { baud, framing: framing@, active_framing: active_framing@ },
                ),
                pending_port_handle: if s.browser && handle is Some {
                    handle
                } else {
                    s.pending_port_handle
                },
                ..s
            };
            let s2 = entered(s1, ConnectionState::Reconfiguring);
            let told = entering(s1, ConnectionState::Reconfiguring);
            lemma_entering(s1, s.state, ConnectionState::Reconfiguring);
            if s.state is Connected {
                lemma_entered_after(s.state, told, s2, ConnectionState::Disconnecting);
            }
        },
        _ => {},
    }
}

/// The same, for the rest of a handler.
pub proof fn law_resuming_follows_the_transitions(
    s: ActorView,
    target: Target,
    then: ContinuationView,
    report: SendReport,
)
    ensures
        walked(s.state, resumption(s, target, then, report).1.effects) == Some(
            resumption(s, target, then, report).0.state,
        ),
{
    lemma_tear_down_walks(s);
    lemma_going_walks(s, Seq::empty(), ConnectionState::DeviceLost, success());
    lemma_going_walks(s, Seq::empty(), ConnectionState::Disconnecting, success());
}

} // verus!
