//! The messages of each actor.
use vstd::prelude::*;

use crate::protocol::messages::{SerialConfig, SerialPortInfo, SerialPortInfoView, UiCommand};
use crate::protocol::state::ConnectionState;

verus! {

/// A browser's serial port object: a number under which the object is kept, and
/// the USB identifiers that it reports.
#[derive(Debug, Clone, Copy, PartialEq, Eq, Structural)]
pub struct PortHandle {
    pub id: u32,
    pub vid: Option<u16>,
    pub pid: Option<u16>,
}

/// Messages to the state actor.
#[derive(Clone)]
pub enum StateMessage {
    /// A command from the user interface.
    UiCommand(UiCommand),
    /// A command from the user interface, with the port object it is about.
    UiCommandWithPort { cmd: UiCommand, port_handle: PortHandle },
    /// The port is open. The number is that of the open request.
    ConnectionEstablished { operation_id: u32 },
    /// The port could not be opened.
    ConnectionFailed { reason: String },
    /// The device went away.
    ConnectionLost,
    /// The port has been closed completely.
    ConnectionClosed,
    /// What auto-detection found.
    ProbeComplete {
        baud: u32,
        framing: String,
        protocol: Option<String>,
        initial_data: Vec<u8>,
    },
    /// The device came back; in a browser, with its port object.
    DeviceReappeared { port: SerialPortInfo, port_handle: Option<PortHandle> },
    /// A supervised state took too long.
    OperationTimeout { operation: String, state: ConnectionState },
}

/// Messages to the port actor.
#[derive(Clone)]
pub enum PortMessage {
    /// Open a port; in a browser, the port object.
    Open {
        port: SerialPortInfo,
        baud: u32,
        framing: String,
        send_wakeup: bool,
        operation_id: u32,
        port_handle: Option<PortHandle>,
    },
    /// Close the port.
    Close,
    /// Write data to the port.
    Write { data: Vec<u8> },
    /// Treat data as if it had just been read from the port.
    InjectData { data: Vec<u8> },
}

/// A message to the port actor, with its texts as character sequences.
pub enum PortMessageView {
    Open {
        port: SerialPortInfoView,
        baud: u32,
        framing: Seq<char>,
        send_wakeup: bool,
        operation_id: u32,
        port_handle: Option<PortHandle>,
    },
    Close,
    Write { data: Seq<u8> },
    InjectData { data: Seq<u8> },
}

impl View for PortMessage {
    type V = PortMessageView;

    open spec fn view(&self) -> PortMessageView {
        match *self {
            PortMessage::Open { port, baud, framing, send_wakeup, operation_id, port_handle } =>
                PortMessageView::Open {
                port: port@,
                baud,
                framing: framing@,
                send_wakeup,
                operation_id,
                port_handle,
            },
            PortMessage::Close => PortMessageView::Close,
            PortMessage::Write { data } => PortMessageView::Write { data: data@ },
            PortMessage::InjectData { data } => PortMessageView::InjectData { data: data@ },
        }
    }
}

/// Messages to the probe actor.
#[derive(Clone)]
pub enum ProbeMessage {
    /// Detect the settings of a port; in a browser, of the port object.
    Start { port: SerialPortInfo, port_handle: Option<PortHandle> },
    /// Stop detecting.
    Abort,
}

/// A message to the probe actor, with its texts as character sequences.
pub enum ProbeMessageView {
    Start { port: SerialPortInfoView, port_handle: Option<PortHandle> },
    Abort,
}

impl View for ProbeMessage {
    type V = ProbeMessageView;

    open spec fn view(&self) -> ProbeMessageView {
        match *self {
            ProbeMessage::Start { port, port_handle } => ProbeMessageView::Start {
                port: port@,
                port_handle,
            },
            ProbeMessage::Abort => ProbeMessageView::Abort,
        }
    }
}

/// Messages to the reconnect actor.
#[derive(Clone)]
pub enum ReconnectMessage {
    /// Watch for this device.
    RegisterDevice { vid: u16, pid: u16, config: SerialConfig },
    /// Watch for no device.
    ClearDevice,
    /// A device was plugged in; in a browser, with its port object.
    DeviceConnected { port: SerialPortInfo, port_handle: Option<PortHandle> },
}

/// How sending a message went.
#[derive(Debug, Clone, Copy, PartialEq, Eq, Structural)]
pub enum SendReport {
    /// The message is in the channel.
    Delivered,
    /// The channel is full.
    Full,
    /// The receiving actor is gone.
    Disconnected,
}

/// Room for messages to the state actor.
pub const STATE_CAPACITY: usize = 256;

/// Room for messages to the port actor.
pub const PORT_CAPACITY: usize = 512;

/// Room for messages to the probe actor.
pub const PROBE_CAPACITY: usize = 128;

/// Room for messages to the reconnect actor.
pub const RECONNECT_CAPACITY: usize = 128;

/// Room for events to the user interface: enough for the fastest ports while the
/// interface is busy.
pub const EVENT_CAPACITY: usize = 8192;

/// Where a command from the user interface goes.
pub enum Route {
    State(StateMessage),
    Port(PortMessage),
}

/// Data to write goes straight to the port actor, every other command to the state
/// actor.
pub open spec fn routed(cmd: UiCommand) -> Route {
    match cmd {
        UiCommand::WriteData { data } => Route::Port(PortMessage::Write { data }),
        _ => Route::State(StateMessage::UiCommand(cmd)),
    }
}

/// Where a command goes, and as what message.
pub fn route_command(cmd: UiCommand) -> (r: Route)
    ensures
        r == routed(cmd),
{
    match cmd {
        UiCommand::WriteData { data } => Route::Port(PortMessage::Write { data }),
        _ => Route::State(StateMessage::UiCommand(cmd)),
    }
}

/// What the user is told when a command could not be sent; `None` if it was sent.
pub open spec fn command_complaint(to_port: bool, report: SendReport) -> Option<Seq<char>> {
    match report {
        SendReport::Delivered => None,
        SendReport::Full => Some(
            if to_port {
                "System overloaded: Write queue full. Data transmission too fast."@
            } else {
                "System overloaded: Too many pending commands. Please slow down."@
            },
        ),
        SendReport::Disconnected => Some(
            if to_port {
                "System error: Port communication unavailable. Please refresh the page."@
            } else {
                "System error: State management unavailable. Please refresh the page."@
            },
        ),
    }
}

/// A result that is an error exactly if there is a complaint, with its text.
pub open spec fn tells(r: Result<(), String>, complaint: Option<Seq<char>>) -> bool {
    match complaint {
        None => r is Ok,
        Some(text) => r matches Err(e) && e@ == text,
    }
}

/// The result of sending a command to the port actor or to the state actor.
pub fn command_result(to_port: bool, report: SendReport) -> (r: Result<(), String>)
    ensures
        tells(r, command_complaint(to_port, report)),
{
    match report {
        SendReport::Delivered => Ok(()),
        SendReport::Full => if to_port {
            Err("System overloaded: Write queue full. Data transmission too fast.".to_owned())
        } else {
            Err("System overloaded: Too many pending commands. Please slow down.".to_owned())
        },
        SendReport::Disconnected => if to_port {
            Err(
                "System error: Port communication unavailable. Please refresh the page.".to_owned(),
            )
        } else {
            Err("System error: State management unavailable. Please refresh the page.".to_owned())
        },
    }
}

/// What the user is told when a command with a port object could not be sent.
pub open spec fn port_command_complaint(report: SendReport) -> Option<Seq<char>> {
    match report {
        SendReport::Delivered => None,
        SendReport::Full => Some("System overloaded: Command queue full."@),
        SendReport::Disconnected => Some("StateActor channel closed"@),
    }
}

/// The result of sending a command with a port object to the state actor.
pub fn port_command_result(report: SendReport) -> (r: Result<(), String>)
    ensures
        tells(r, port_command_complaint(report)),
{
    match report {
        SendReport::Delivered => Ok(()),
        SendReport::Full => Err("System overloaded: Command queue full.".to_owned()),
        SendReport::Disconnected => Err("StateActor channel closed".to_owned()),
    }
}

/// Data to write reaches the port actor byte for byte; every other command reaches the
/// state actor as it is, and nothing else does.
pub proof fn law_commands_arrive_as_they_are(cmd: UiCommand)
    ensures
        cmd matches UiCommand::WriteData { data } ==> (routed(cmd)
            matches Route::Port(message) && (message matches PortMessage::Write { data: d } && d
            == data)),
        !(cmd is WriteData) ==> (routed(cmd) matches Route::State(message) && (message
            matches StateMessage::UiCommand(c) && c == cmd)),
{
}

/// A command that was delivered is no error; one that was not is an error that says why.
pub proof fn law_undelivered_commands_are_told(
    to_port: bool,
    report: SendReport,
    r: Result<(), String>,
    q: Result<(), String>,
)
    requires
        tells(r, command_complaint(to_port, report)),
        tells(q, port_command_complaint(report)),
    ensures
        r is Ok <==> report is Delivered,
        q is Ok <==> report is Delivered,
        r matches Err(e) ==> (report is Full && to_port ==> e@
            == "System overloaded: Write queue full. Data transmission too fast."@) && (report
            is Full && !to_port ==> e@
            == "System overloaded: Too many pending commands. Please slow down."@) && (report
            is Disconnected && to_port ==> e@
            == "System error: Port communication unavailable. Please refresh the page."@) && (
        report is Disconnected && !to_port ==> e@
            == "System error: State management unavailable. Please refresh the page."@),
        q matches Err(e) ==> (report is Full ==> e@ == "System overloaded: Command queue full."@)
            && (report is Disconnected ==> e@ == "StateActor channel closed"@),
{
}

/// The view of a message to the port actor tells its content in full.
pub proof fn law_view_of_a_port_message(message: PortMessage)
    ensures
        message matches PortMessage::Open {
            port,
            baud,
            framing,
            send_wakeup,
            operation_id,
            port_handle,
        } ==> (message@ matches PortMessageView::Open {
            port: p,
            baud: b,
            framing: f,
            send_wakeup: w,
            operation_id: o,
            port_handle: h,
        } && p == port@ && b == baud && f == framing@ && w == send_wakeup && o == operation_id
            && h == port_handle),
        message is Close <==> message@ is Close,
        message matches PortMessage::Write { data } ==> message@ == (PortMessageView::Write {
            data: data@,
        }),
        message matches PortMessage::InjectData { data } ==> message@ == (
        PortMessageView::InjectData { data: data@ }),
{
}

/// The view of a message to the probe actor tells its content in full.
pub proof fn law_view_of_a_probe_message(message: ProbeMessage)
    ensures
        message matches ProbeMessage::Start { port, port_handle } ==> (message@
            matches ProbeMessageView::Start { port: p, port_handle: h } && p == port@ && h
            == port_handle),
        message is Abort <==> message@ is Abort,
{
}

/// Commands are sent on, and what came of it is told, as the model has it.
pub proof fn law_commands_are_sent_on(
    cmd: UiCommand,
    route: Route,
    to_port: bool,
    report: SendReport,
    r: Result<(), String>,
    q: Result<(), String>,
)
    requires
        call_ensures(route_command, (cmd,), route),
        call_ensures(command_result, (to_port, report), r),
        call_ensures(port_command_result, (report,), q),
    ensures
        route is Port <==> cmd is WriteData,
        route matches Route::State(m) ==> m == StateMessage::UiCommand(cmd),
        cmd matches UiCommand::WriteData { data } ==> (route matches Route::Port(m) && m == (
        PortMessage::Write { data })),
        r is Ok <==> report is Delivered,
        q is Ok <==> report is Delivered,
        tells(r, command_complaint(to_port, report)),
        tells(q, port_command_complaint(report)),
{
}

} // verus!
