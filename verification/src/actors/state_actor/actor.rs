//! The state actor and its handlers.
use vstd::prelude::*;

use crate::actors::data_processing::{detect_meaningful_content, trim_shell_artifacts};
use crate::actors::state_actor::behavior::{
    command, complete_reconfigure, connect, connection_closed, connection_established,
    connection_failed, detection_events, device_reappeared, direct_framing, disconnect, entered,
    entering, handed_over, handle_info, next_operation, operation_timeout, probe_complete,
    reaction, reconfigure, refusal, registration, renewed_framing, resumption, send_error,
    starting, stored_port, tear_down, unexpected, usable, wakes_up, ActorView, ReconfigureView,
};
use crate::actors::state_actor::turn::{
    lemma_seen_empty, lemma_seen_push, result_view, seen, Continuation, Effect,
    EffectView, Next, NextView, Target, Turn, TurnView,
};
use crate::protocol::errors::ActorError;
use crate::protocol::messages::{
    clone_opt_text, opt_text, SerialConfig, SerialPortInfo, SystemEvent, UiCommand,
};
use crate::protocol::state::{may_follow, ConnectionState};
use crate::runtime::channels::{
    PortHandle, PortMessage, ProbeMessage, ReconnectMessage, SendReport, StateMessage,
};
use crate::runtime::supervision::SupervisionConfig;
use crate::text::{decimal_text, eq_ignore_case, joined, push_hex4};

verus! {

broadcast use {lemma_seen_push, lemma_seen_empty};

/// New settings that wait for the port to close.
#[derive(Debug)]
pub struct Reconfigure {
    pub baud: u32,
    pub framing: String,
    pub active_framing: String,
}

impl View for Reconfigure {
    type V = ReconfigureView;

    open spec fn view(&self) -> ReconfigureView {
        ReconfigureView {
            baud: self.baud,
            framing: self.framing@,
            active_framing: self.active_framing@,
        }
    }
}

/// The actor that owns the connection state and coordinates the others.
#[derive(Debug)]
pub struct StateActor {
    pub state: ConnectionState,
    pub supervision_config: SupervisionConfig,
    /// The state whose timeout is running.
    pub active_timeout: Option<ConnectionState>,
    /// The port of the current connection.
    pub pending_port: Option<SerialPortInfo>,
    pub pending_baud: u32,
    /// The number of the latest open request.
    pub operation_sequence: u32,
    /// Whether ports are a browser's port objects.
    pub browser: bool,
    pub pending_port_handle: Option<PortHandle>,
    pub pending_reconfigure: Option<Reconfigure>,
}

impl View for StateActor {
    type V = ActorView;

    open spec fn view(&self) -> ActorView {
        ActorView {
            state: self.state,
            config: self.supervision_config,
            active_timeout: self.active_timeout,
            pending_port: match self.pending_port {
                Some(p) => Some(p@),
                None => None,
            },
            pending_baud: self.pending_baud,
            operation_sequence: self.operation_sequence,
            browser: self.browser,
            pending_port_handle: self.pending_port_handle,
            pending_reconfigure: match self.pending_reconfigure {
                Some(n) => Some(n@),
                None => None,
            },
        }
    }
}

/// The timeouts that a new actor supervises with.
pub open spec fn default_timeouts(c: SupervisionConfig) -> bool {
    c.probe_timeout_secs == 30 && c.connect_timeout_secs == 10 && c.auto_reconnect_timeout_secs
        == 10 && c.disconnect_timeout_secs == 5 && c.reconfigure_timeout_secs == 10
}

fn send_failure(target: Target, full: bool) -> (r: ActorError)
    ensures
        r@ == send_error(target, full),
{
    match target {
        Target::Port => if full {
            ActorError::Other("PortActor channel overloaded".to_owned())
        } else {
            ActorError::ChannelClosed("PortActor has shut down".to_owned())
        },
        Target::Probe => if full {
            ActorError::Other("ProbeActor channel overloaded".to_owned())
        } else {
            ActorError::ChannelClosed("ProbeActor has shut down".to_owned())
        },
    }
}

fn finished(r: Result<(), ActorError>) -> (t: Turn)
    ensures
        t@ == (TurnView {
            effects: Seq::<EffectView>::empty(),
            next: NextView::Finished(result_view(r)),
        }),
{
    Turn { effects: Vec::new(), next: Next::Finished(r) }
}

fn ending(effects: Vec<Effect>, next: Next) -> (t: Turn)
    ensures
        t@ == (TurnView { effects: seen(effects@), next: next@ }),
{
    Turn { effects, next }
}

impl StateActor {
    /// A disconnected actor that opens ports by their paths.
    pub fn new() -> (r: StateActor)
        ensures
            r.state is Disconnected,
            default_timeouts(r.supervision_config),
            r.active_timeout is None,
            r.pending_port is None,
            r.pending_baud == 0,
            r.operation_sequence == 0,
            !r.browser,
            r.pending_port_handle is None,
            r.pending_reconfigure is None,
    {
        StateActor {
            state: ConnectionState::Disconnected,
            supervision_config: SupervisionConfig::default(),
            active_timeout: None,
            pending_port: None,
            pending_baud: 0,
            operation_sequence: 0,
            browser: false,
            pending_port_handle: None,
            pending_reconfigure: None,
        }
    }

    /// A disconnected actor that opens a browser's port objects.
    pub fn new_in_browser() -> (r: StateActor)
        ensures
            r.state is Disconnected,
            default_timeouts(r.supervision_config),
            r.active_timeout is None,
            r.pending_port is None,
            r.pending_baud == 0,
            r.operation_sequence == 0,
            r.browser,
            r.pending_port_handle is None,
            r.pending_reconfigure is None,
    {
        let mut actor = StateActor::new();
        actor.browser = true;
        actor
    }

    /// The actor's name in messages about it.
    pub fn name(&self) -> (r: &'static str)
        ensures
            r@ == "StateActor"@,
    {
        "StateActor"
    }

    /// Counts an open request and returns its number.
    pub fn next_operation_id(&mut self) -> (r: u32)
        ensures
            r == next_operation(old(self).operation_sequence),
            final(self)@ == (ActorView { operation_sequence: r, ..old(self)@ }),
    {
        self.operation_sequence = self.operation_sequence.wrapping_add(1);
        self.operation_sequence
    }

    /// Goes to a new state, if that is allowed, and appends what goes with it.
    pub fn transition(
        &mut self,
        new_state: ConnectionState,
        effects: &mut Vec<Effect>,
    ) -> (r: Result<(), ActorError>)
        ensures
            may_follow(old(self).state, new_state) ==> {
                &&& r is Ok
                &&& final(self)@ == entered(old(self)@, new_state)
                &&& seen(final(effects)@) == seen(old(effects)@) + entering(old(self)@, new_state)
            },
            !may_follow(old(self).state, new_state) ==> {
                &&& result_view(r) == Err::<(), _>(refusal(old(self).state, new_state))
                &&& final(self)@ == old(self)@
                &&& final(effects)@ == old(effects)@
            },
    {
        if !self.state.can_transition_to(new_state) {
            let mut text = joined(self.state.name(), " → ");
            text.append(new_state.name());
            return Err(ActorError::InvalidTransition(text));
        }
        if self.active_timeout.is_some() {
            effects.push(Effect::CancelTimeout);
        }
        self.state = new_state;
        effects.push(Effect::Event(SystemEvent::StateChanged { state: new_state }));
        match self.supervision_config.timeout_for(new_state) {
            Some(secs) => {
                effects.push(Effect::StartTimeout { state: new_state, secs });
                self.active_timeout = Some(new_state);
            },
            None => {
                self.active_timeout = None;
            },
        }
        assert(seen(effects@) =~= seen(old(effects)@) + entering(old(self)@, new_state));
        Ok(())
    }

    fn unexpected_message(&self, message: &str) -> (r: Turn)
        ensures
            r@ == (TurnView {
                effects: Seq::<EffectView>::empty(),
                next: NextView::Finished(Err(unexpected(self.state, message@))),
            }),
    {
        finished(
            Err(
                ActorError::UnexpectedMessage {
                    state: self.state.name().to_owned(),
                    message: message.to_owned(),
                },
            ),
        )
    }

    /// Detects the settings of `port`, or opens it directly.
    fn start(
        &mut self,
        mut effects: Vec<Effect>,
        port: SerialPortInfo,
        baud: u32,
        framing: String,
        send_wakeup: bool,
        port_handle: Option<PortHandle>,
    ) -> (r: Turn)
        requires
            old(self).state is Disconnected || (old(self).state is Disconnecting && baud != 0),
        ensures
            (final(self)@, r@) == starting(
                old(self)@,
                seen(effects@),
                port@,
                baud,
                framing@,
                send_wakeup,
                port_handle,
            ),
    {
        self.pending_port = Some(port.clone());
        self.pending_baud = baud;
        if baud == 0 {
            let _ = self.transition(ConnectionState::Probing, &mut effects);
            if self.browser && port_handle.is_none() {
                return ending(
                    effects,
                    Next::Finished(Err(ActorError::Transport("No port handle provided".to_owned()))),
                );
            }
            ending(
                effects,
                Next::ToProbe {
                    msg: ProbeMessage::Start { port, port_handle },
                    then: Continuation::Done,
                },
            )
        } else {
            let _ = self.transition(ConnectionState::Connecting, &mut effects);
            let operation_id = self.next_operation_id();
            if self.browser && port_handle.is_none() {
                return ending(
                    effects,
                    Next::Finished(Err(ActorError::Transport("No port handle provided".to_owned()))),
                );
            }
            ending(
                effects,
                Next::ToPort {
                    msg: PortMessage::Open {
                        port,
                        baud,
                        framing,
                        send_wakeup,
                        operation_id,
                        port_handle,
                    },
                    then: Continuation::Done,
                },
            )
        }
    }

    fn usable_handle(&self, port_handle: Option<PortHandle>) -> (r: Option<PortHandle>)
        ensures
            r == usable(self@, port_handle),
    {
        if self.browser {
            port_handle
        } else {
            None
        }
    }

    /// Serves a request to connect.
    pub fn handle_connect(
        &mut self,
        port: SerialPortInfo,
        baud: u32,
        framing: String,
        port_handle: Option<PortHandle>,
    ) -> (r: Turn)
        ensures
            (final(self)@, r@) == connect(old(self)@, port@, baud, framing@, port_handle),
    {
        if self.state != ConnectionState::Disconnected {
            return self.unexpected_message("Connect");
        }
        let actual_framing = if framing.as_str().is_empty() || eq_ignore_case(
            framing.as_str(),
            "auto",
        ) {
            "8N1".to_owned()
        } else {
            framing
        };
        assert(actual_framing@ == direct_framing(framing@));
        let handle = self.usable_handle(port_handle);
        if self.browser {
            self.pending_port_handle = port_handle;
        }
        self.start(Vec::new(), port, baud, actual_framing, true, handle)
    }

    /// Forgets the port and asks for it to be closed.
    fn finish_disconnect(&mut self) -> (r: Turn)
        ensures
            (final(self)@, r@) == tear_down(old(self)@),
    {
        self.pending_port = None;
        self.pending_baud = 0;
        self.pending_reconfigure = None;
        let mut effects: Vec<Effect> = Vec::new();
        effects.push(Effect::Hint(ReconnectMessage::ClearDevice));
        assert(seen(effects@) =~= seq![EffectView::Hint(ReconnectMessage::ClearDevice)]);
        match self.transition(ConnectionState::Disconnecting, &mut effects) {
            Ok(_) => ending(
                effects,
                Next::ToPort { msg: PortMessage::Close, then: Continuation::Done },
            ),
            Err(e) => ending(effects, Next::Finished(Err(e))),
        }
    }

    /// Serves a request to disconnect.
    pub fn handle_disconnect(&mut self) -> (r: Turn)
        ensures
            (final(self)@, r@) == disconnect(old(self)@),
    {
        if self.state == ConnectionState::Disconnected {
            return finished(Ok(()));
        }
        if !self.state.can_disconnect() {
            return self.unexpected_message("Disconnect");
        }
        if self.state == ConnectionState::Probing {
            return ending(
                Vec::new(),
                Next::ToProbe { msg: ProbeMessage::Abort, then: Continuation::FinishDisconnect },
            );
        }
        self.finish_disconnect()
    }

    /// Takes note that a port is open.
    pub fn handle_connection_established(&mut self, operation_id: u32) -> (r: Turn)
        ensures
            (final(self)@, r@) == connection_established(old(self)@, operation_id),
    {
        if self.state != ConnectionState::Connecting && self.state
            != ConnectionState::AutoReconnecting {
            return self.unexpected_message("ConnectionEstablished");
        }
        if operation_id != self.operation_sequence {
            return ending(
                Vec::new(),
                Next::ToPort { msg: PortMessage::Close, then: Continuation::RejectStale },
            );
        }
        let mut effects: Vec<Effect> = Vec::new();
        let _ = self.transition(ConnectionState::Connected, &mut effects);
        assert(seen(effects@) =~= entering(old(self)@, ConnectionState::Connected));
        match &self.pending_port {
            Some(port) => {
                match (port.vid, port.pid) {
                    (Some(vid), Some(pid)) => {
                        let config = SerialConfig::new_8n1(self.pending_baud);
                        effects.push(
                            Effect::Hint(ReconnectMessage::RegisterDevice { vid, pid, config }),
                        );
                    },
                    _ => {},
                }
            },
            None => {},
        }
        assert(seen(effects@) =~= entering(old(self)@, ConnectionState::Connected) + registration(
            old(self)@,
        ));
        ending(effects, Next::Finished(Ok(())))
    }

    /// Takes note that a port could not be opened.
    pub fn handle_connection_failed(&mut self, reason: String) -> (r: Turn)
        ensures
            (final(self)@, r@) == connection_failed(old(self)@, reason@),
    {
        let mut effects: Vec<Effect> = Vec::new();
        effects.push(
            Effect::Event(
                SystemEvent::Error { message: joined("Connection failed: ", reason.as_str()) },
            ),
        );
        let target = if self.state == ConnectionState::AutoReconnecting {
            ConnectionState::DeviceLost
        } else {
            ConnectionState::Disconnected
        };
        let ghost told = seen(effects@);
        assert(told =~= seq![told[0]]);
        self.pending_reconfigure = None;
        let result = self.transition(target, &mut effects);
        ending(effects, Next::Finished(result))
    }

    fn announce_detection(
        baud: u32,
        framing: &String,
        protocol: &Option<String>,
    ) -> (r: Vec<Effect>)
        ensures
            seen(r@) == detection_events(baud, framing@, opt_text(*protocol)),
    {
        let mut message = "Detected: ".to_owned();
        match protocol {
            Some(p) => {
                message.append(p.as_str());
                message.append(" @ ");
            },
            None => {},
        }
        message.append(decimal_text(baud as u64).as_str());
        message.append(" baud (");
        message.append(framing.as_str());
        message.append(")");
        let mut effects: Vec<Effect> = Vec::new();
        effects.push(Effect::Event(SystemEvent::StatusUpdate { message }));
        effects.push(
            Effect::Event(
                SystemEvent::ProbeComplete {
                    baud,
                    framing: framing.clone(),
                    protocol: clone_opt_text(protocol),
                },
            ),
        );
        match protocol {
            Some(p) => {
                effects.push(Effect::Event(SystemEvent::DecoderChanged { id: p.clone() }));
            },
            None => {},
        }
        assert(seen(effects@) =~= detection_events(baud, framing@, opt_text(*protocol)));
        effects
    }

    /// The captured data to hand over, and whether to wake the device up.
    fn data_to_inject(protocol: &Option<String>, initial_data: Vec<u8>) -> (r: (bool, Vec<u8>))
        ensures
            r.0 == wakes_up(opt_text(*protocol), initial_data@),
            r.1@ == handed_over(opt_text(*protocol), initial_data@),
    {
        if protocol.is_some() {
            (false, initial_data)
        } else {
            let trimmed = trim_shell_artifacts(initial_data.as_slice());
            if detect_meaningful_content(trimmed.as_slice()) {
                (false, trimmed)
            } else {
                (true, Vec::new())
            }
        }
    }

    /// Opens the port with what auto-detection found.
    pub fn handle_probe_complete(
        &mut self,
        baud: u32,
        framing: String,
        protocol: Option<String>,
        initial_data: Vec<u8>,
    ) -> (r: Turn)
        ensures
            (final(self)@, r@) == probe_complete(
                old(self)@,
                baud,
                framing@,
                opt_text(protocol),
                initial_data@,
            ),
    {
        if self.state != ConnectionState::Probing {
            return finished(Ok(()));
        }
        let mut effects = Self::announce_detection(baud, &framing, &protocol);
        self.pending_baud = baud;
        let _ = self.transition(ConnectionState::Connecting, &mut effects);
        let port = match &self.pending_port {
            Some(port) => port.clone(),
            None => {
                return ending(
                    effects,
                    Next::Finished(
                        Err(ActorError::Other("No pending port for probe completion".to_owned())),
                    ),
                );
            },
        };
        let (send_wakeup, data) = Self::data_to_inject(&protocol, initial_data);
        let operation_id = self.next_operation_id();
        let port_handle = self.usable_handle(self.pending_port_handle);
        if !self.browser || port_handle.is_some() {
            let then = if data.len() > 0 {
                Continuation::Inject { data }
            } else {
                Continuation::Done
            };
            ending(
                effects,
                Next::ToPort {
                    msg: PortMessage::Open {
                        port,
                        baud,
                        framing,
                        send_wakeup,
                        operation_id,
                        port_handle,
                    },
                    then,
                },
            )
        } else if data.len() > 0 {
            ending(
                effects,
                Next::ToPort { msg: PortMessage::InjectData { data }, then: Continuation::Done },
            )
        } else {
            ending(effects, Next::Finished(Ok(())))
        }
    }

    fn actual_framing(framing: String, active_framing: String) -> (r: String)
        ensures
            r@ == renewed_framing(framing@, active_framing@),
    {
        if eq_ignore_case(framing.as_str(), "auto") {
            active_framing
        } else {
            framing
        }
    }

    fn info_of(handle: PortHandle) -> (r: SerialPortInfo)
        ensures
            r@ == handle_info(handle),
    {
        let vid: u16 = match handle.vid {
            Some(v) => v,
            None => 0,
        };
        let pid: u16 = match handle.pid {
            Some(p) => p,
            None => 0,
        };
        let mut path = String::new();
        push_hex4(&mut path, vid);
        path.append(":");
        push_hex4(&mut path, pid);
        let r = SerialPortInfo { path, vid: handle.vid, pid: handle.pid };
        assert(r@.path =~= handle_info(handle).path);
        r
    }

    fn port_to_reopen(&self) -> (r: Option<(SerialPortInfo, Option<PortHandle>)>)
        ensures
            match stored_port(self@) {
                Some((port, handle)) => r matches Some((p, h)) && p@ == port && h == handle,
                None => r is None,
            },
    {
        if self.browser {
            match self.pending_port_handle {
                Some(handle) => Some((Self::info_of(handle), Some(handle))),
                None => None,
            }
        } else {
            match &self.pending_port {
                Some(port) => Some((port.clone(), None)),
                None => None,
            }
        }
    }

    /// Applies new settings once the port is closed.
    fn complete_reconfigure(&mut self, new: Reconfigure) -> (r: Turn)
        requires
            old(self).state is Disconnecting,
        ensures
            (final(self)@, r@) == complete_reconfigure(old(self)@, new@),
    {
        self.pending_reconfigure = None;
        let ghost before = self@;
        let mut effects: Vec<Effect> = Vec::new();
        let framing = Self::actual_framing(new.framing, new.active_framing);
        match self.port_to_reopen() {
            Some((port, handle)) => {
                if new.baud == 0 {
                    let _ = self.transition(ConnectionState::Disconnected, &mut effects);
                    assert(seen(effects@) =~= entering(before, ConnectionState::Disconnected));
                }
                self.start(effects, port, new.baud, framing, false, handle)
            },
            None => {
                let _ = self.transition(ConnectionState::Disconnected, &mut effects);
                assert(seen(effects@) =~= entering(before, ConnectionState::Disconnected));
                ending(effects, Next::Finished(Ok(())))
            },
        }
    }

    /// Takes note that the port is closed.
    pub fn handle_connection_closed(&mut self) -> (r: Turn)
        ensures
            (final(self)@, r@) == connection_closed(old(self)@),
    {
        if self.state != ConnectionState::Disconnecting {
            return finished(Ok(()));
        }
        match self.pending_reconfigure.take() {
            Some(new) => self.complete_reconfigure(new),
            None => {
                let mut effects: Vec<Effect> = Vec::new();
                let _ = self.transition(ConnectionState::Disconnected, &mut effects);
                assert(seen(effects@) =~= entering(old(self)@, ConnectionState::Disconnected));
                ending(effects, Next::Finished(Ok(())))
            },
        }
    }

    /// Opens the port of a device that came back.
    pub fn handle_device_reappeared(
        &mut self,
        port: SerialPortInfo,
        port_handle: Option<PortHandle>,
    ) -> (r: Turn)
        ensures
            (final(self)@, r@) == device_reappeared(old(self)@, port@, port_handle),
    {
        if self.state != ConnectionState::DeviceLost {
            return finished(Ok(()));
        }
        let mut effects: Vec<Effect> = Vec::new();
        let _ = self.transition(ConnectionState::AutoReconnecting, &mut effects);
        if self.browser {
            effects.push(Effect::Delay { millis: 50 });
        }
        assert(seen(effects@) =~= device_reappeared(old(self)@, port@, port_handle).1.effects);
        let baud = if self.pending_baud > 0 {
            self.pending_baud
        } else {
            115200
        };
        let operation_id = self.next_operation_id();
        let port_handle = self.usable_handle(port_handle);
        ending(
            effects,
            Next::ToPort {
                msg: PortMessage::Open {
                    port,
                    baud,
                    framing: "8N1".to_owned(),
                    send_wakeup: false,
                    operation_id,
                    port_handle,
                },
                then: Continuation::Done,
            },
        )
    }

    /// Leaves a state that took too long.
    pub fn handle_operation_timeout(
        &mut self,
        operation: String,
        expected: ConnectionState,
    ) -> (r: Turn)
        ensures
            (final(self)@, r@) == operation_timeout(old(self)@, operation@, expected),
    {
        if self.state != expected {
            return finished(Ok(()));
        }
        let mut effects: Vec<Effect> = Vec::new();
        effects.push(
            Effect::Event(
                SystemEvent::Error {
                    message: joined(
                        operation.as_str(),
                        " operation timed out. Please try again.",
                    ),
                },
            ),
        );
        let ghost told = seen(effects@);
        assert(told =~= seq![told[0]]);
        match self.state {
            ConnectionState::Probing
            | ConnectionState::Connecting
            | ConnectionState::Reconfiguring
            | ConnectionState::AutoReconnecting => ending(
                effects,
                Next::ToPort { msg: PortMessage::Close, then: Continuation::AwaitClose },
            ),
            ConnectionState::Disconnecting => {
                self.pending_reconfigure = None;
                let result = self.transition(ConnectionState::Disconnected, &mut effects);
                ending(effects, Next::Finished(result))
            },
            _ => ending(effects, Next::Finished(Ok(()))),
        }
    }

    /// Serves a request for new settings.
    pub fn handle_reconfigure(
        &mut self,
        baud: u32,
        framing: String,
        active_framing: String,
        port_handle: Option<PortHandle>,
    ) -> (r: Turn)
        ensures
            (final(self)@, r@) == reconfigure(
                old(self)@,
                baud,
                framing@,
                active_framing@,
                port_handle,
            ),
    {
        if self.state != ConnectionState::Connected {
            return self.unexpected_message("Reconfigure");
        }
        self.pending_reconfigure = Some(Reconfigure { baud, framing, active_framing });
        if self.browser && port_handle.is_some() {
            self.pending_port_handle = port_handle;
        }
        let ghost before = self@;
        let ghost between = entered(before, ConnectionState::Reconfiguring);
        let mut effects: Vec<Effect> = Vec::new();
        let _ = self.transition(ConnectionState::Reconfiguring, &mut effects);
        let _ = self.transition(ConnectionState::Disconnecting, &mut effects);
        assert(seen(effects@) =~= entering(before, ConnectionState::Reconfiguring) + entering(
            between,
            ConnectionState::Disconnecting,
        ));
        ending(effects, Next::ToPort { msg: PortMessage::Close, then: Continuation::Done })
    }

    fn handle_command(&mut self, cmd: UiCommand, port_handle: Option<PortHandle>) -> (r: Turn)
        ensures
            (final(self)@, r@) == command(old(self)@, cmd, port_handle),
    {
        match cmd {
            UiCommand::Connect { port, baud, framing } => self.handle_connect(
                port,
                baud,
                framing,
                port_handle,
            ),
            UiCommand::Disconnect => self.handle_disconnect(),
            UiCommand::Reconfigure { baud, framing, active_framing } => self.handle_reconfigure(
                baud,
                framing,
                active_framing,
                port_handle,
            ),
            // The decoder and the framer are the worker's, data the port actor's.
            UiCommand::SetDecoder { id: _ }
            | UiCommand::SetFramer { id: _ }
            | UiCommand::WriteData { data: _ } => finished(Ok(())),
        }
    }

    /// Reacts to a message.
    pub fn handle(&mut self, msg: StateMessage) -> (r: Turn)
        ensures
            (final(self)@, r@) == reaction(old(self)@, msg),
    {
        match msg {
            StateMessage::UiCommand(cmd) => self.handle_command(cmd, None),
            StateMessage::UiCommandWithPort { cmd, port_handle } => self.handle_command(
                cmd,
                Some(port_handle),
            ),
            StateMessage::ConnectionEstablished { operation_id } =>
                self.handle_connection_established(operation_id),
            StateMessage::ConnectionFailed { reason } => self.handle_connection_failed(reason),
            StateMessage::ConnectionLost => ending(
                Vec::new(),
                Next::ToPort { msg: PortMessage::Close, then: Continuation::LoseDevice },
            ),
            StateMessage::ConnectionClosed => self.handle_connection_closed(),
            StateMessage::ProbeComplete { baud, framing, protocol, initial_data } =>
                self.handle_probe_complete(baud, framing, protocol, initial_data),
            StateMessage::DeviceReappeared { port, port_handle } => self.handle_device_reappeared(
                port,
                port_handle,
            ),
            StateMessage::OperationTimeout { operation, state } => self.handle_operation_timeout(
                operation,
                state,
            ),
        }
    }

    /// Goes on after a message that must arrive was sent.
    pub fn resume(&mut self, target: Target, then: Continuation, report: SendReport) -> (r: Turn)
        ensures
            (final(self)@, r@) == resumption(old(self)@, target, then@, report),
    {
        match report {
            SendReport::Delivered => {},
            SendReport::Full => {
                return finished(Err(send_failure(target, true)));
            },
            SendReport::Disconnected => {
                return finished(Err(send_failure(target, false)));
            },
        }
        match then {
            Continuation::Done => finished(Ok(())),
            Continuation::RejectStale => finished(
                Err(ActorError::InvalidTransition("Stale ConnectionEstablished".to_owned())),
            ),
            Continuation::FinishDisconnect => self.finish_disconnect(),
            Continuation::LoseDevice => {
                let mut effects: Vec<Effect> = Vec::new();
                let result = self.transition(ConnectionState::DeviceLost, &mut effects);
                ending(effects, Next::Finished(result))
            },
            Continuation::AwaitClose => {
                let mut effects: Vec<Effect> = Vec::new();
                let result = self.transition(ConnectionState::Disconnecting, &mut effects);
                ending(effects, Next::Finished(result))
            },
            Continuation::Inject { data } => ending(
                Vec::new(),
                Next::ToPort { msg: PortMessage::InjectData { data }, then: Continuation::Done },
            ),
        }
    }
}

} // verus!
