//! The reconnect actor and its handlers.
use vstd::prelude::*;

use crate::actors::reconnect_actor::persistence::{device_of, device_text, format_device, parse_device};
use crate::protocol::errors::{ActorError, ActorErrorView};
use crate::protocol::messages::{SerialConfig, SerialPortInfo, SerialPortInfoView, SystemEvent, SystemEventView};
use crate::runtime::channels::{PortHandle, ReconnectMessage};
use crate::text::{hex4, push_hex4};

verus! {

/// What a device is recognised by.
#[derive(Debug, Clone, Copy, PartialEq, Eq, Structural)]
pub struct DeviceIdentity {
    pub vid: u16,
    pub pid: u16,
}

/// A device that is watched for, and whether it is connected.
#[derive(Debug, Clone, Copy, PartialEq, Eq, Structural)]
pub struct DeviceState {
    pub identity: DeviceIdentity,
    pub is_connected: bool,
}

/// What to reconnect with.
#[derive(Debug, Clone, PartialEq)]
pub struct ReconnectConfig {
    pub baud: u32,
    pub framing: String,
}

/// What to reconnect with, with the framing as a character sequence.
pub struct ReconnectConfigView {
    pub baud: u32,
    pub framing: Seq<char>,
}

/// The actor that watches for a device that went away.
#[derive(Debug)]
pub struct ReconnectActor {
    /// The device that a newly plugged one is compared with.
    pub last_device: Option<DeviceIdentity>,
    pub reconnect_config: Option<ReconnectConfig>,
    /// The device that plug events are about.
    pub watched: Option<DeviceState>,
    /// Whether ports are a browser's port objects.
    pub browser: bool,
}

/// What the reconnect actor knows.
pub struct ReconnectView {
    pub last_device: Option<DeviceIdentity>,
    pub reconnect_config: Option<ReconnectConfigView>,
    pub watched: Option<DeviceState>,
    pub browser: bool,
}

impl View for ReconnectActor {
    type V = ReconnectView;

    open spec fn view(&self) -> ReconnectView {
        ReconnectView {
            last_device: self.last_device,
            reconnect_config: match self.reconnect_config {
                Some(c) => Some(ReconnectConfigView { baud: c.baud, framing: c.framing@ }),
                None => None,
            },
            watched: self.watched,
            browser: self.browser,
        }
    }
}

/// What a message asks for.
#[derive(Debug)]
pub enum ReconnectStep {
    /// Nothing.
    Nothing,
    /// Store this text as the last device.
    Persist { text: String },
    /// Remove the stored device.
    Forget,
    /// Tell the user interface; then tell the state actor that the device came
    /// back, unless there is no port object to open in a browser.
    Reappeared { event: SystemEvent, port: SerialPortInfo, port_handle: Option<PortHandle>, tell: bool },
}

/// What a message asks for, with its texts as character sequences.
pub enum ReconnectStepView {
    Nothing,
    Persist { text: Seq<char> },
    Forget,
    Reappeared {
        event: SystemEventView,
        port: SerialPortInfoView,
        port_handle: Option<PortHandle>,
        tell: bool,
    },
}

impl View for ReconnectStep {
    type V = ReconnectStepView;

    open spec fn view(&self) -> ReconnectStepView {
        match *self {
            ReconnectStep::Nothing => ReconnectStepView::Nothing,
            ReconnectStep::Persist { text } => ReconnectStepView::Persist { text: text@ },
            ReconnectStep::Forget => ReconnectStepView::Forget,
            ReconnectStep::Reappeared { event, port, port_handle, tell } =>
                ReconnectStepView::Reappeared {
                event: event@,
                port: port@,
                port_handle,
                tell,
            },
        }
    }
}

/// Nothing is known.
pub open spec fn nothing_known(browser: bool) -> ReconnectView {
    ReconnectView { last_device: None, reconnect_config: None, watched: None, browser }
}

/// A device was connected to: it is remembered, stored and watched for.
pub open spec fn registered(
    s: ReconnectView,
    vid: u16,
    pid: u16,
    baud: u32,
) -> (ReconnectView, ReconnectStepView) {
    let identity = DeviceIdentity { vid, pid };
    (
        ReconnectView {
            last_device: Some(identity),
            reconnect_config: Some(ReconnectConfigView { baud, framing: "8N1"@ }),
            watched: if s.browser {
                Some(DeviceState { identity, is_connected: true })
            } else {
                s.watched
            },
            ..s
        },
        ReconnectStepView::Persist { text: device_text(vid, pid) },
    )
}

/// The user disconnected: the device is forgotten everywhere.
pub open spec fn cleared(s: ReconnectView) -> (ReconnectView, ReconnectStepView) {
    (
        ReconnectView {
            last_device: None,
            reconnect_config: None,
            watched: if s.browser {
                None
            } else {
                s.watched
            },
            ..s
        },
        ReconnectStepView::Forget,
    )
}

/// A device was plugged in. It counts only if it is the remembered one.
pub open spec fn plugged(
    s: ReconnectView,
    port: SerialPortInfoView,
    port_handle: Option<PortHandle>,
) -> ReconnectStepView {
    match (s.last_device, port.vid, port.pid) {
        (Some(target), Some(vid), Some(pid)) => if vid == target.vid && pid == target.pid {
            ReconnectStepView::Reappeared {
                event: SystemEventView::StatusUpdate {
                    message: "Device "@ + hex4(vid as int) + ":"@ + hex4(pid as int)
                        + " detected. Auto-reconnecting..."@,
                },
                port,
                port_handle,
                tell: !s.browser || port_handle is Some,
            }
        } else {
            ReconnectStepView::Nothing
        },
        _ => ReconnectStepView::Nothing,
    }
}

/// How the actor reacts to a message.
pub open spec fn reaction(
    s: ReconnectView,
    msg: ReconnectMessage,
) -> (ReconnectView, ReconnectStepView) {
    match msg {
        ReconnectMessage::RegisterDevice { vid, pid, config } => registered(
            s,
            vid,
            pid,
            config.baud_rate,
        ),
        ReconnectMessage::ClearDevice => cleared(s),
        ReconnectMessage::DeviceConnected { port, port_handle } => (
            s,
            plugged(s, port@, port_handle),
        ),
    }
}

impl ReconnectActor {
    /// An actor that knows no device.
    pub fn new() -> (r: ReconnectActor)
        ensures
            r@ == nothing_known(false),
    {
        ReconnectActor {
            last_device: None,
            reconnect_config: None,
            watched: None,
            browser: false,
        }
    }

    /// An actor that knows no device, for a browser's port objects.
    pub fn new_in_browser() -> (r: ReconnectActor)
        ensures
            r@ == nothing_known(true),
    {
        ReconnectActor {
            last_device: None,
            reconnect_config: None,
            watched: None,
            browser: true,
        }
    }

    /// The actor's name in messages about it.
    pub fn name(&self) -> (r: &'static str)
        ensures
            r@ == "ReconnectActor"@,
    {
        "ReconnectActor"
    }

    /// Takes up the device that was stored, if any.
    pub fn init(&mut self, stored: Option<&str>)
        ensures
            final(self)@ == (ReconnectView {
                last_device: match stored {
                    Some(text) => match device_of(text@) {
                        Some((vid, pid)) => Some(DeviceIdentity { vid, pid }),
                        None => old(self).last_device,
                    },
                    None => old(self).last_device,
                },
                ..old(self)@
            }),
    {
        match stored {
            Some(text) => match parse_device(text) {
                Some((vid, pid)) => {
                    self.last_device = Some(DeviceIdentity { vid, pid });
                },
                None => {},
            },
            None => {},
        }
    }

    /// Remembers a device that was connected to.
    pub fn handle_register_device(&mut self, vid: u16, pid: u16, config: SerialConfig) -> (r:
        ReconnectStep)
        ensures
            (final(self)@, r@) == registered(old(self)@, vid, pid, config.baud_rate),
    {
        let identity = DeviceIdentity { vid, pid };
        self.last_device = Some(identity);
        self.reconnect_config = Some(
            ReconnectConfig { baud: config.baud_rate, framing: "8N1".to_owned() },
        );
        if self.browser {
            self.watched = Some(DeviceState { identity, is_connected: true });
        }
        ReconnectStep::Persist { text: format_device(vid, pid) }
    }

    /// Forgets the device.
    pub fn handle_clear_device(&mut self) -> (r: ReconnectStep)
        ensures
            (final(self)@, r@) == cleared(old(self)@),
    {
        self.last_device = None;
        self.reconnect_config = None;
        if self.browser {
            self.watched = None;
        }
        ReconnectStep::Forget
    }

    /// Compares a device that was plugged in with the remembered one.
    pub fn handle_device_connected(
        &self,
        port: SerialPortInfo,
        port_handle: Option<PortHandle>,
    ) -> (r: ReconnectStep)
        ensures
            r@ == plugged(self@, port@, port_handle),
    {
        match (self.last_device, port.vid, port.pid) {
            (Some(target), Some(vid), Some(pid)) => {
                if vid == target.vid && pid == target.pid {
                    let mut message = "Device ".to_owned();
                    push_hex4(&mut message, vid);
                    message.append(":");
                    push_hex4(&mut message, pid);
                    message.append(" detected. Auto-reconnecting...");
                    let tell = !self.browser || port_handle.is_some();
                    return ReconnectStep::Reappeared {
                        event: SystemEvent::StatusUpdate { message },
                        port,
                        port_handle,
                        tell,
                    };
                }
                ReconnectStep::Nothing
            },
            _ => ReconnectStep::Nothing,
        }
    }

    /// Reacts to a message.
    pub fn handle(&mut self, msg: ReconnectMessage) -> (r: ReconnectStep)
        ensures
            (final(self)@, r@) == reaction(old(self)@, msg),
    {
        match msg {
            ReconnectMessage::RegisterDevice { vid, pid, config } => self.handle_register_device(
                vid,
                pid,
                config,
            ),
            ReconnectMessage::ClearDevice => self.handle_clear_device(),
            ReconnectMessage::DeviceConnected { port, port_handle } =>
                self.handle_device_connected(port, port_handle),
        }
    }

    /// The result once the state actor was told that the device came back.
    pub fn reappearance_result(delivered: bool) -> (r: Result<(), ActorError>)
        ensures
            delivered ==> r is Ok,
            !delivered ==> (r matches Err(e) && e@ == ActorErrorView::ChannelClosed(
                "StateActor unavailable during DeviceReappeared"@,
            )),
    {
        if delivered {
            Ok(())
        } else {
            Err(
                ActorError::ChannelClosed(
                    "StateActor unavailable during DeviceReappeared".to_owned(),
                ),
            )
        }
    }

    /// The device to look for when something was plugged in.
    pub fn on_connect(&self) -> (r: Option<DeviceIdentity>)
        ensures
            r == match self.watched {
                Some(d) => Some(d.identity),
                None => None,
            },
    {
        match self.watched {
            Some(d) => Some(d.identity),
            None => None,
        }
    }

    /// Whether something that was unplugged means that the connection is lost: only
    /// while a device is watched and connected.
    pub fn on_disconnect(&self) -> (r: bool)
        ensures
            r == match self.watched {
                Some(d) => d.is_connected,
                None => false,
            },
    {
        match self.watched {
            Some(d) => d.is_connected,
            None => false,
        }
    }
}

/// A registered device that is plugged in again is recognised, and one with other
/// identifiers is not.
pub proof fn law_registered_device_is_recognised(
    s: ReconnectView,
    vid: u16,
    pid: u16,
    baud: u32,
    port: SerialPortInfoView,
    handle: Option<PortHandle>,
)
    ensures
        (plugged(registered(s, vid, pid, baud).0, port, handle) is Reappeared) <==> (port.vid
            == Some(vid) && port.pid == Some(pid)),
{
}

/// Once cleared, no device is recognised and no event means anything.
pub proof fn law_cleared_device_is_ignored(
    s: ReconnectView,
    port: SerialPortInfoView,
    handle: Option<PortHandle>,
)
    ensures
        plugged(cleared(s).0, port, handle) is Nothing,
        s.browser ==> cleared(s).0.watched is None,
{
}

/// What is stored for a registered device names it.
pub proof fn law_stored_text_names_the_device(s: ReconnectView, vid: u16, pid: u16, baud: u32)
    ensures
        registered(s, vid, pid, baud).1 matches ReconnectStepView::Persist { text } && device_of(
            text,
        ) == Some((vid, pid)),
{
    crate::actors::reconnect_actor::persistence::law_stored_device_is_read_back(vid, pid);
}

/// A registered device that comes back is told to the user by its identifiers and handed
/// on as it came, with its port object; in a browser the state actor hears of it only if
/// there is one. Registering remembers the very device and baud rate.
pub proof fn law_returning_device_is_handed_on(
    s: ReconnectView,
    vid: u16,
    pid: u16,
    config: SerialConfig,
    port: SerialPortInfo,
    handle: Option<PortHandle>,
)
    requires
        port.vid == Some(vid),
        port.pid == Some(pid),
    ensures
        ({
            let known = reaction(s, ReconnectMessage::RegisterDevice { vid, pid, config }).0;
            let (after, step) = reaction(
                known,
                ReconnectMessage::DeviceConnected { port, port_handle: handle },
            );
            &&& known.last_device == Some(DeviceIdentity { vid, pid })
            &&& known.reconnect_config matches Some(c) && c.baud == config.baud_rate && c.framing
                == "8N1"@
            &&& known.browser == s.browser
            &&& s.browser ==> known.watched == Some(
                DeviceState { identity: DeviceIdentity { vid, pid }, is_connected: true },
            )
            &&& after == known
            &&& step == (ReconnectStepView::Reappeared {
                event: SystemEventView::StatusUpdate {
                    message: "Device "@ + hex4(vid as int) + ":"@ + hex4(pid as int)
                        + " detected. Auto-reconnecting..."@,
                },
                port: port@,
                port_handle: handle,
                tell: s.browser ==> handle is Some,
            })
        }),
{
}

/// Clearing forgets the device, its settings and, in a browser, the watch; what is stored
/// is to be removed.
pub proof fn law_clearing_forgets_everything(s: ReconnectView)
    ensures
        ({
            let (after, step) = reaction(s, ReconnectMessage::ClearDevice);
            &&& after.last_device is None
            &&& after.reconnect_config is None
            &&& s.browser ==> after.watched is None
            &&& after.browser == s.browser
            &&& step is Forget
        }),
{
}

/// A device with another vendor or another product than the remembered one, or with none,
/// means nothing, and so does any device while none is remembered.
pub proof fn law_other_devices_mean_nothing(
    s: ReconnectView,
    port: SerialPortInfo,
    handle: Option<PortHandle>,
)
    requires
        match s.last_device {
            Some(d) => port.vid != Some(d.vid) || port.pid != Some(d.pid),
            None => true,
        },
    ensures
        reaction(s, ReconnectMessage::DeviceConnected { port, port_handle: handle }) == (
            s,
            ReconnectStepView::Nothing,
        ),
{
}

/// A device that is registered is remembered with its own numbers and rate, and stored; one
/// that is plugged in counts exactly if both of its numbers are those of the remembered one,
/// and is handed on as it is; clearing forgets it.
pub proof fn law_actor_remembers_one_device(
    actor: &mut ReconnectActor,
    vid: u16,
    pid: u16,
    config: SerialConfig,
    port: SerialPortInfo,
    handle: Option<PortHandle>,
    r: ReconnectStep,
)
    ensures
        call_ensures(ReconnectActor::handle_register_device, (actor, vid, pid, config), r) ==> {
            &&& final(actor).last_device == Some(DeviceIdentity { vid, pid })
            &&& final(actor)@.reconnect_config matches Some(c) && c.baud == config.baud_rate
            &&& final(actor).browser == old(actor).browser
            &&& old(actor).browser ==> final(actor).watched == Some(
                DeviceState { identity: DeviceIdentity { vid, pid }, is_connected: true },
            )
            &&& r@ == (ReconnectStepView::Persist {
                text: hex4(vid as int) + seq![':'] + hex4(pid as int),
            })
        },
        call_ensures(ReconnectActor::handle_clear_device, (actor,), r) ==> {
            &&& final(actor).last_device is None
            &&& final(actor).reconnect_config is None
            &&& old(actor).browser ==> final(actor).watched is None
            &&& final(actor).browser == old(actor).browser
            &&& r@ is Forget
        },
        call_ensures(ReconnectActor::handle_device_connected, (&*old(actor), port, handle), r)
            ==> {
            &&& r@ is Reappeared || r@ is Nothing
            &&& r@ is Reappeared <==> (old(actor).last_device matches Some(d) && port.vid == Some(
                d.vid,
            ) && port.pid == Some(d.pid))
            &&& r@ matches ReconnectStepView::Reappeared { event, port: p, port_handle, tell }
                ==> p == port@ && port_handle == handle && (tell <==> !old(actor).browser || handle
                is Some)
        },
{
}

/// What was stored is taken up if it names a device, and otherwise changes nothing; every
/// message is handled as what it is.
pub proof fn law_actor_takes_up_what_was_stored(
    actor: &mut ReconnectActor,
    text: &str,
    msg: ReconnectMessage,
    r: ReconnectStep,
)
    ensures
        call_ensures(ReconnectActor::init, (actor, Some(text)), ()) ==> {
            &&& device_of(text@) matches Some((vid, pid)) ==> final(actor).last_device == Some(
                DeviceIdentity { vid, pid },
            )
            &&& device_of(text@) is None ==> final(actor).last_device == old(actor).last_device
            &&& final(actor).watched == old(actor).watched && final(actor).browser == old(
                actor
            ).browser
        },
        call_ensures(ReconnectActor::init, (actor, None), ()) ==> final(actor)@ == old(actor)@,
        call_ensures(ReconnectActor::handle, (actor, msg), r) ==> (final(actor)@, r@) == reaction(
            old(actor)@,
            msg,
        ),
        msg matches ReconnectMessage::RegisterDevice { vid, pid, config } ==> reaction(
            old(actor)@,
            msg,
        ) == registered(old(actor)@, vid, pid, config.baud_rate),
        msg is ClearDevice ==> reaction(old(actor)@, msg) == cleared(old(actor)@),
        msg matches ReconnectMessage::DeviceConnected { port, port_handle } ==> reaction(
            old(actor)@,
            msg,
        ) == (old(actor)@, plugged(old(actor)@, port@, port_handle)),
{
}

/// Plug events are about the device that is watched, and its going away is one only while
/// it is connected.
pub proof fn law_plug_events(actor: ReconnectActor, r: Option<DeviceIdentity>, lost: bool)
    requires
        call_ensures(ReconnectActor::on_connect, (&actor,), r),
        call_ensures(ReconnectActor::on_disconnect, (&actor,), lost),
    ensures
        actor.watched is None ==> r is None && !lost,
        actor.watched matches Some(d) ==> r == Some(d.identity) && lost == d.is_connected,
{
}

} // verus!
