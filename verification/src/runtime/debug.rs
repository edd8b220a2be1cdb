//! Messages as text, for whoever logs them. A port object shows as a placeholder.
use vstd::prelude::*;

use crate::protocol::messages::{
    opt_text, FlowControl, ParityMode, SerialConfig, SerialPortInfo, SerialPortInfoView, UiCommand,
};
use crate::protocol::state::name_of;
use crate::runtime::channels::{
    PortHandle, PortMessage, PortMessageView, ProbeMessage, ProbeMessageView, ReconnectMessage,
    StateMessage,
};
use crate::text::{decimal, decimal_text, joined, quoted, quoted_text};

verus! {

/// A name and the text of its value.
pub struct FieldText {
    pub name: Seq<char>,
    pub value: Seq<char>,
}

/// A field with this name and value.
pub open spec fn field(name: Seq<char>, value: Seq<char>) -> FieldText {
    FieldText { name, value }
}

/// Fields, separated by commas.
pub open spec fn fields_text(fields: Seq<FieldText>) -> Seq<char>
    decreases fields.len(),
{
    if fields.len() == 0 {
        Seq::empty()
    } else {
        let last = fields.last();
        let told = last.name + ": "@ + last.value;
        if fields.len() == 1 {
            told
        } else {
            fields_text(fields.drop_last()) + (", "@ + told)
        }
    }
}

/// A value with named fields.
pub open spec fn record_text(name: Seq<char>, fields: Seq<FieldText>) -> Seq<char> {
    name + (" { "@ + fields_text(fields) + " }"@)
}

/// Writes a value with named fields, field by field.
struct Record {
    name: String,
    text: String,
    empty: bool,
    fields: Ghost<Seq<FieldText>>,
}

impl Record {
    spec fn wf(&self) -> bool {
        self.text@ == fields_text(self.fields@) && self.empty == (self.fields@.len() == 0)
    }

    /// A value with this name and no fields yet.
    fn new(name: &str) -> (r: Record)
        ensures
            r.wf(),
            r.name@ == name@,
            r.fields@ == Seq::<FieldText>::empty(),
    {
        Record {
            name: name.to_owned(),
            text: String::new(),
            empty: true,
            fields: Ghost(Seq::empty()),
        }
    }

    /// The same value with one more field.
    fn with(self, name: &str, value: String) -> (r: Record)
        requires
            self.wf(),
        ensures
            r.wf(),
            r.name == self.name,
            r.fields@ == self.fields@.push(field(name@, value@)),
    {
        let mut told = joined(name, ": ");
        told.append(value.as_str());
        let ghost all = self.fields@.push(field(name@, value@));
        assert(all.drop_last() =~= self.fields@);
        let text = if self.empty {
            told
        } else {
            joined(self.text.as_str(), joined(", ", told.as_str()).as_str())
        };
        Record { name: self.name, text, empty: false, fields: Ghost(all) }
    }

    /// The text.
    fn finish(self) -> (r: String)
        requires
            self.wf(),
        ensures
            r@ == record_text(self.name@, self.fields@),
    {
        let mut body = joined(" { ", self.text.as_str());
        body.append(" }");
        joined(self.name.as_str(), body.as_str())
    }
}

/// An optional value whose text is known.
pub open spec fn option_text(value: Option<Seq<char>>) -> Seq<char> {
    match value {
        Some(text) => "Some("@ + text + ")"@,
        None => "None"@,
    }
}

fn option(value: Option<String>) -> (r: String)
    ensures
        r@ == option_text(opt_text(value)),
{
    match value {
        Some(text) => {
            let mut out = joined("Some(", text.as_str());
            out.append(")");
            out
        },
        None => "None".to_owned(),
    }
}

/// An optional number.
pub open spec fn option_number_text(value: Option<u16>) -> Seq<char> {
    option_text(
        match value {
            Some(n) => Some(decimal(n as nat)),
            None => None,
        },
    )
}

fn option_number(value: Option<u16>) -> (r: String)
    ensures
        r@ == option_number_text(value),
{
    match value {
        Some(n) => option(Some(decimal_text(n as u64))),
        None => option(None),
    }
}

/// An optional text, quoted.
pub open spec fn option_quoted_text(value: Option<Seq<char>>) -> Seq<char> {
    option_text(
        match value {
            Some(text) => Some(quoted(text)),
            None => None,
        },
    )
}

fn option_quoted(value: &Option<String>) -> (r: String)
    ensures
        r@ == option_quoted_text(opt_text(*value)),
{
    match value {
        Some(text) => option(Some(quoted_text(text.as_str()))),
        None => option(None),
    }
}

/// Bytes as numbers, separated by commas.
pub open spec fn numbers_text(bytes: Seq<u8>) -> Seq<char>
    decreases bytes.len(),
{
    if bytes.len() == 0 {
        Seq::empty()
    } else if bytes.len() == 1 {
        decimal(bytes[0] as nat)
    } else {
        numbers_text(bytes.drop_last()) + (", "@ + decimal(bytes.last() as nat))
    }
}

/// Bytes in square brackets.
pub open spec fn bytes_text(bytes: Seq<u8>) -> Seq<char> {
    "["@ + numbers_text(bytes) + "]"@
}

fn bytes_list(bytes: &Vec<u8>) -> (r: String)
    ensures
        r@ == bytes_text(bytes@),
{
    let mut numbers = String::new();
    let mut i: usize = 0;
    while i < bytes.len()
        invariant
            i <= bytes.len(),
            numbers@ == numbers_text(bytes@.take(i as int)),
        decreases bytes.len() - i,
    {
        let number = decimal_text(bytes[i] as u64);
        assert(bytes@.take(i + 1).drop_last() =~= bytes@.take(i as int));
        if i == 0 {
            numbers = number;
        } else {
            numbers.append(joined(", ", number.as_str()).as_str());
        }
        i += 1;
    }
    assert(bytes@.take(bytes@.len() as int) =~= bytes@);
    let mut out = joined("[", numbers.as_str());
    out.append("]");
    out
}

fn truth(value: bool) -> (r: String)
    ensures
        r@ == truth_text(value),
{
    if value {
        "true".to_owned()
    } else {
        "false".to_owned()
    }
}

/// A truth value.
pub open spec fn truth_text(value: bool) -> Seq<char> {
    if value {
        "true"@
    } else {
        "false"@
    }
}

/// What identifies a port.
pub open spec fn port_text(port: SerialPortInfoView) -> Seq<char> {
    record_text(
        "SerialPortInfo"@,
        seq![
            field("path"@, quoted(port.path)),
            field("vid"@, option_number_text(port.vid)),
            field("pid"@, option_number_text(port.pid)),
        ],
    )
}

fn port_record(port: &SerialPortInfo) -> (r: String)
    ensures
        r@ == port_text(port@),
{
    let record = Record::new("SerialPortInfo")
        .with("path", quoted_text(port.path.as_str()))
        .with("vid", option_number(port.vid))
        .with("pid", option_number(port.pid));
    assert(record.fields@ =~= seq![
        field("path"@, quoted(port.path@)),
        field("vid"@, option_number_text(port.vid)),
        field("pid"@, option_number_text(port.pid)),
    ]);
    record.finish()
}

/// The parity of a serial line.
pub open spec fn parity_text(parity: ParityMode) -> Seq<char> {
    match parity {
        ParityMode::Off => "None"@,
        ParityMode::Even => "Even"@,
        ParityMode::Odd => "Odd"@,
    }
}

/// The flow control of a serial line.
pub open spec fn flow_text(flow: FlowControl) -> Seq<char> {
    match flow {
        FlowControl::Off => "None"@,
        FlowControl::Hardware => "Hardware"@,
        FlowControl::Software => "Software"@,
    }
}

/// The parameters of a serial line.
pub open spec fn config_text(config: SerialConfig) -> Seq<char> {
    record_text(
        "SerialConfig"@,
        seq![
            field("baud_rate"@, decimal(config.baud_rate as nat)),
            field("data_bits"@, decimal(config.data_bits as nat)),
            field("stop_bits"@, decimal(config.stop_bits as nat)),
            field("parity"@, parity_text(config.parity)),
            field("flow_control"@, flow_text(config.flow_control)),
        ],
    )
}

fn config_record(config: SerialConfig) -> (r: String)
    ensures
        r@ == config_text(config),
{
    let parity = match config.parity {
        ParityMode::Off => "None",
        ParityMode::Even => "Even",
        ParityMode::Odd => "Odd",
    };
    let flow = match config.flow_control {
        FlowControl::Off => "None",
        FlowControl::Hardware => "Hardware",
        FlowControl::Software => "Software",
    };
    let record = Record::new("SerialConfig")
        .with("baud_rate", decimal_text(config.baud_rate as u64))
        .with("data_bits", decimal_text(config.data_bits as u64))
        .with("stop_bits", decimal_text(config.stop_bits as u64))
        .with("parity", parity.to_owned())
        .with("flow_control", flow.to_owned());
    assert(record.fields@ =~= seq![
        field("baud_rate"@, decimal(config.baud_rate as nat)),
        field("data_bits"@, decimal(config.data_bits as nat)),
        field("stop_bits"@, decimal(config.stop_bits as nat)),
        field("parity"@, parity_text(config.parity)),
        field("flow_control"@, flow_text(config.flow_control)),
    ]);
    record.finish()
}

/// A command from the user interface.
pub open spec fn command_text(cmd: UiCommand) -> Seq<char> {
    match cmd {
        UiCommand::Connect { port, baud, framing } => record_text(
            "Connect"@,
            seq![
                field("port"@, port_text(port@)),
                field("baud"@, decimal(baud as nat)),
                field("framing"@, quoted(framing@)),
            ],
        ),
        UiCommand::Disconnect => "Disconnect"@,
        UiCommand::WriteData { data } => record_text(
            "WriteData"@,
            seq![field("data"@, bytes_text(data@))],
        ),
        UiCommand::SetDecoder { id } => record_text(
            "SetDecoder"@,
            seq![field("id"@, quoted(id@))],
        ),
        UiCommand::SetFramer { id } => record_text(
            "SetFramer"@,
            seq![field("id"@, quoted(id@))],
        ),
        UiCommand::Reconfigure { baud, framing, active_framing } => record_text(
            "Reconfigure"@,
            seq![
                field("baud"@, decimal(baud as nat)),
                field("framing"@, quoted(framing@)),
                field("active_framing"@, quoted(active_framing@)),
            ],
        ),
    }
}

fn command_record(cmd: &UiCommand) -> (r: String)
    ensures
        r@ == command_text(*cmd),
{
    match cmd {
        UiCommand::Connect { port, baud, framing } => {
            let record = Record::new("Connect")
                .with("port", port_record(port))
                .with("baud", decimal_text(*baud as u64))
                .with("framing", quoted_text(framing.as_str()));
            assert(record.fields@ =~= seq![
                field("port"@, port_text(port@)),
                field("baud"@, decimal(*baud as nat)),
                field("framing"@, quoted(framing@)),
            ]);
            record.finish()
        },
        UiCommand::Disconnect => "Disconnect".to_owned(),
        UiCommand::WriteData { data } => {
            let record = Record::new("WriteData").with("data", bytes_list(data));
            assert(record.fields@ =~= seq![field("data"@, bytes_text(data@))]);
            record.finish()
        },
        UiCommand::SetDecoder { id } => {
            let record = Record::new("SetDecoder").with("id", quoted_text(id.as_str()));
            assert(record.fields@ =~= seq![field("id"@, quoted(id@))]);
            record.finish()
        },
        UiCommand::SetFramer { id } => {
            let record = Record::new("SetFramer").with("id", quoted_text(id.as_str()));
            assert(record.fields@ =~= seq![field("id"@, quoted(id@))]);
            record.finish()
        },
        UiCommand::Reconfigure { baud, framing, active_framing } => {
            let record = Record::new("Reconfigure")
                .with("baud", decimal_text(*baud as u64))
                .with("framing", quoted_text(framing.as_str()))
                .with("active_framing", quoted_text(active_framing.as_str()));
            assert(record.fields@ =~= seq![
                field("baud"@, decimal(*baud as nat)),
                field("framing"@, quoted(framing@)),
                field("active_framing"@, quoted(active_framing@)),
            ]);
            record.finish()
        },
    }
}

/// The field of a port object: a placeholder, and none where there is no object.
pub open spec fn object_field(handle: Option<PortHandle>) -> Seq<FieldText> {
    match handle {
        Some(_) => seq![field("port_handle"@, "\"<SerialPort>\""@)],
        None => Seq::empty(),
    }
}

impl Record {
    /// The same value, with a port object if there is one.
    fn with_object(self, handle: &Option<PortHandle>) -> (r: Record)
        requires
            self.wf(),
        ensures
            r.wf(),
            r.name == self.name,
            r.fields@ == self.fields@ + object_field(*handle),
    {
        let ghost before = self.fields@;
        match handle {
            Some(_) => {
                let r = self.with("port_handle", "\"<SerialPort>\"".to_owned());
                assert(r.fields@ =~= before + object_field(*handle));
                r
            },
            None => {
                assert(before =~= before + object_field(*handle));
                self
            },
        }
    }
}

/// A message to the state actor.
pub open spec fn state_message_text(msg: StateMessage) -> Seq<char> {
    match msg {
        StateMessage::UiCommand(cmd) => "UiCommand("@ + command_text(cmd) + ")"@,
        StateMessage::UiCommandWithPort { cmd, port_handle } => record_text(
            "UiCommandWithPort"@,
            seq![field("cmd"@, command_text(cmd))] + object_field(Some(port_handle)),
        ),
        StateMessage::ConnectionEstablished { operation_id } => record_text(
            "ConnectionEstablished"@,
            seq![field("operation_id"@, decimal(operation_id as nat))],
        ),
        StateMessage::ConnectionFailed { reason } => record_text(
            "ConnectionFailed"@,
            seq![field("reason"@, quoted(reason@))],
        ),
        StateMessage::ConnectionLost => "ConnectionLost"@,
        StateMessage::ConnectionClosed => "ConnectionClosed"@,
        StateMessage::ProbeComplete { baud, framing, protocol, initial_data } => record_text(
            "ProbeComplete"@,
            seq![
                field("baud"@, decimal(baud as nat)),
                field("framing"@, quoted(framing@)),
                field("protocol"@, option_quoted_text(opt_text(protocol))),
                field("initial_data"@, bytes_text(initial_data@)),
            ],
        ),
        StateMessage::DeviceReappeared { port, port_handle } => record_text(
            "DeviceReappeared"@,
            seq![field("port"@, port_text(port@))] + object_field(port_handle),
        ),
        StateMessage::OperationTimeout { operation, state } => record_text(
            "OperationTimeout"@,
            seq![field("operation"@, quoted(operation@)), field("state"@, name_of(state))],
        ),
    }
}

impl StateMessage {
    /// The message as text.
    pub fn debug_text(&self) -> (r: String)
        ensures
            r@ == state_message_text(*self),
    {
        match self {
            StateMessage::UiCommand(cmd) => {
                let mut out = joined("UiCommand(", command_record(cmd).as_str());
                out.append(")");
                out
            },
            StateMessage::UiCommandWithPort { cmd, port_handle } => {
                let record = Record::new("UiCommandWithPort").with("cmd", command_record(cmd));
                assert(record.fields@ =~= seq![field("cmd"@, command_text(*cmd))]);
                record.with_object(&Some(*port_handle)).finish()
            },
            StateMessage::ConnectionEstablished { operation_id } => {
                let record = Record::new("ConnectionEstablished").with(
                    "operation_id",
                    decimal_text(*operation_id as u64),
                );
                assert(record.fields@ =~= seq![
                    field("operation_id"@, decimal(*operation_id as nat)),
                ]);
                record.finish()
            },
            StateMessage::ConnectionFailed { reason } => {
                let record = Record::new("ConnectionFailed").with(
                    "reason",
                    quoted_text(reason.as_str()),
                );
                assert(record.fields@ =~= seq![field("reason"@, quoted(reason@))]);
                record.finish()
            },
            StateMessage::ConnectionLost => "ConnectionLost".to_owned(),
            StateMessage::ConnectionClosed => "ConnectionClosed".to_owned(),
            StateMessage::ProbeComplete { baud, framing, protocol, initial_data } => {
                let record = Record::new("ProbeComplete")
                    .with("baud", decimal_text(*baud as u64))
                    .with("framing", quoted_text(framing.as_str()))
                    .with("protocol", option_quoted(protocol))
                    .with("initial_data", bytes_list(initial_data));
                assert(record.fields@ =~= seq![
                    field("baud"@, decimal(*baud as nat)),
                    field("framing"@, quoted(framing@)),
                    field("protocol"@, option_quoted_text(opt_text(*protocol))),
                    field("initial_data"@, bytes_text(initial_data@)),
                ]);
                record.finish()
            },
            StateMessage::DeviceReappeared { port, port_handle } => {
                let record = Record::new("DeviceReappeared").with("port", port_record(port));
                assert(record.fields@ =~= seq![field("port"@, port_text(port@))]);
                record.with_object(port_handle).finish()
            },
            StateMessage::OperationTimeout { operation, state } => {
                let record = Record::new("OperationTimeout")
                    .with("operation", quoted_text(operation.as_str()))
                    .with("state", state.name().to_owned());
                assert(record.fields@ =~= seq![
                    field("operation"@, quoted(operation@)),
                    field("state"@, name_of(*state)),
                ]);
                record.finish()
            },
        }
    }
}

/// A message to the port actor.
pub open spec fn port_message_text(msg: PortMessageView) -> Seq<char> {
    match msg {
        PortMessageView::Open { port, baud, framing, send_wakeup, operation_id, port_handle } =>
            record_text(
            "Open"@,
            seq![
                field("port"@, port_text(port)),
                field("baud"@, decimal(baud as nat)),
                field("framing"@, quoted(framing)),
                field("send_wakeup"@, truth_text(send_wakeup)),
                field("operation_id"@, decimal(operation_id as nat)),
            ] + object_field(port_handle),
        ),
        PortMessageView::Close => "Close"@,
        PortMessageView::Write { data } => record_text(
            "Write"@,
            seq![field("data"@, bytes_text(data))],
        ),
        PortMessageView::InjectData { data } => record_text(
            "InjectData"@,
            seq![field("data"@, bytes_text(data))],
        ),
    }
}

impl PortMessage {
    /// The message as text.
    pub fn debug_text(&self) -> (r: String)
        ensures
            r@ == port_message_text(self@),
    {
        match self {
            PortMessage::Open { port, baud, framing, send_wakeup, operation_id, port_handle } => {
                let record = Record::new("Open")
                    .with("port", port_record(port))
                    .with("baud", decimal_text(*baud as u64))
                    .with("framing", quoted_text(framing.as_str()))
                    .with("send_wakeup", truth(*send_wakeup))
                    .with("operation_id", decimal_text(*operation_id as u64));
                assert(record.fields@ =~= seq![
                    field("port"@, port_text(port@)),
                    field("baud"@, decimal(*baud as nat)),
                    field("framing"@, quoted(framing@)),
                    field("send_wakeup"@, truth_text(*send_wakeup)),
                    field("operation_id"@, decimal(*operation_id as nat)),
                ]);
                record.with_object(port_handle).finish()
            },
            PortMessage::Close => "Close".to_owned(),
            PortMessage::Write { data } => {
                let record = Record::new("Write").with("data", bytes_list(data));
                assert(record.fields@ =~= seq![field("data"@, bytes_text(data@))]);
                record.finish()
            },
            PortMessage::InjectData { data } => {
                let record = Record::new("InjectData").with("data", bytes_list(data));
                assert(record.fields@ =~= seq![field("data"@, bytes_text(data@))]);
                record.finish()
            },
        }
    }
}

/// A message to the probe actor.
pub open spec fn probe_message_text(msg: ProbeMessageView) -> Seq<char> {
    match msg {
        ProbeMessageView::Start { port, port_handle } => record_text(
            "Start"@,
            seq![field("port"@, port_text(port))] + object_field(port_handle),
        ),
        ProbeMessageView::Abort => "Abort"@,
    }
}

impl ProbeMessage {
    /// The message as text.
    pub fn debug_text(&self) -> (r: String)
        ensures
            r@ == probe_message_text(self@),
    {
        match self {
            ProbeMessage::Start { port, port_handle } => {
                let record = Record::new("Start").with("port", port_record(port));
                assert(record.fields@ =~= seq![field("port"@, port_text(port@))]);
                record.with_object(port_handle).finish()
            },
            ProbeMessage::Abort => "Abort".to_owned(),
        }
    }
}

/// A message to the reconnect actor.
pub open spec fn reconnect_message_text(msg: ReconnectMessage) -> Seq<char> {
    match msg {
        ReconnectMessage::RegisterDevice { vid, pid, config } => record_text(
            "RegisterDevice"@,
            seq![
                field("vid"@, decimal(vid as nat)),
                field("pid"@, decimal(pid as nat)),
                field("config"@, config_text(config)),
            ],
        ),
        ReconnectMessage::ClearDevice => "ClearDevice"@,
        ReconnectMessage::DeviceConnected { port, port_handle } => record_text(
            "DeviceConnected"@,
            seq![field("port"@, port_text(port@))] + object_field(port_handle),
        ),
    }
}

impl ReconnectMessage {
    /// The message as text.
    pub fn debug_text(&self) -> (r: String)
        ensures
            r@ == reconnect_message_text(*self),
    {
        match self {
            ReconnectMessage::RegisterDevice { vid, pid, config } => {
                let record = Record::new("RegisterDevice")
                    .with("vid", decimal_text(*vid as u64))
                    .with("pid", decimal_text(*pid as u64))
                    .with("config", config_record(*config));
                assert(record.fields@ =~= seq![
                    field("vid"@, decimal(*vid as nat)),
                    field("pid"@, decimal(*pid as nat)),
                    field("config"@, config_text(*config)),
                ]);
                record.finish()
            },
            ReconnectMessage::ClearDevice => "ClearDevice".to_owned(),
            ReconnectMessage::DeviceConnected { port, port_handle } => {
                let record = Record::new("DeviceConnected").with("port", port_record(port));
                assert(record.fields@ =~= seq![field("port"@, port_text(port@))]);
                record.with_object(port_handle).finish()
            },
        }
    }
}

/// A name and a value in words of their own.
pub open spec fn told(name: Seq<char>, value: Seq<char>) -> Seq<char> {
    name + ": "@ + value
}

/// Words in braces behind a name.
pub open spec fn braced(name: Seq<char>, words: Seq<char>) -> Seq<char> {
    name + (" { "@ + words + " }"@)
}

proof fn lemma_fields(a: FieldText, b: FieldText, c: FieldText, d: FieldText, e: FieldText)
    ensures
        fields_text(seq![a]) == told(a.name, a.value),
        fields_text(seq![a, b]) == told(a.name, a.value) + (", "@ + told(b.name, b.value)),
        fields_text(seq![a, b, c]) == told(a.name, a.value) + (", "@ + told(b.name, b.value)) + (
        ", "@ + told(c.name, c.value)),
        fields_text(seq![a, b, c, d]) == told(a.name, a.value) + (", "@ + told(b.name, b.value))
            + (", "@ + told(c.name, c.value)) + (", "@ + told(d.name, d.value)),
        fields_text(seq![a, b, c, d, e]) == told(a.name, a.value) + (", "@ + told(
            b.name,
            b.value,
        )) + (", "@ + told(c.name, c.value)) + (", "@ + told(d.name, d.value)) + (", "@ + told(
            e.name,
            e.value,
        )),
{
    lemma_last_field(Seq::empty(), a);
    lemma_last_field(seq![a], b);
    lemma_last_field(seq![a, b], c);
    lemma_last_field(seq![a, b, c], d);
    lemma_last_field(seq![a, b, c, d], e);
    assert(Seq::empty().push(a) =~= seq![a]);
    assert(seq![a].push(b) =~= seq![a, b]);
    assert(seq![a, b].push(c) =~= seq![a, b, c]);
    assert(seq![a, b, c].push(d) =~= seq![a, b, c, d]);
    assert(seq![a, b, c, d].push(e) =~= seq![a, b, c, d, e]);
}

proof fn lemma_last_field(fields: Seq<FieldText>, last: FieldText)
    ensures
        fields.len() == 0 ==> fields_text(fields.push(last)) == told(last.name, last.value),
        fields.len() > 0 ==> fields_text(fields.push(last)) == fields_text(fields) + (", "@ + told(
            last.name,
            last.value,
        )),
{
    assert(fields.push(last).drop_last() =~= fields);
}

/// A port shows with its path, quoted, and both of its identifiers.
pub proof fn law_ports_show_in_full(port: SerialPortInfoView)
    ensures
        port_text(port) == braced(
            "SerialPortInfo"@,
            told("path"@, quoted(port.path)) + (", "@ + told(
                "vid"@,
                option_number_text(port.vid),
            )) + (", "@ + told("pid"@, option_number_text(port.pid))),
        ),
        forall|n: u16| #[trigger] option_number_text(Some(n)) == "Some("@ + decimal(n as nat)
            + ")"@,
        option_number_text(None) == "None"@,
{
    let a = field("path"@, quoted(port.path));
    let b = field("vid"@, option_number_text(port.vid));
    let c = field("pid"@, option_number_text(port.pid));
    lemma_fields(a, b, c, a, a);
}

/// The parameters of a line show by name, every one of them.
pub proof fn law_parameters_show_in_full(config: SerialConfig)
    ensures
        config_text(config) == braced(
            "SerialConfig"@,
            told("baud_rate"@, decimal(config.baud_rate as nat)) + (", "@ + told(
                "data_bits"@,
                decimal(config.data_bits as nat),
            )) + (", "@ + told("stop_bits"@, decimal(config.stop_bits as nat))) + (", "@ + told(
                "parity"@,
                parity_text(config.parity),
            )) + (", "@ + told("flow_control"@, flow_text(config.flow_control))),
        ),
        parity_text(ParityMode::Off) == "None"@,
        parity_text(ParityMode::Even) == "Even"@,
        parity_text(ParityMode::Odd) == "Odd"@,
        flow_text(FlowControl::Off) == "None"@,
        flow_text(FlowControl::Hardware) == "Hardware"@,
        flow_text(FlowControl::Software) == "Software"@,
{
    lemma_fields(
        field("baud_rate"@, decimal(config.baud_rate as nat)),
        field("data_bits"@, decimal(config.data_bits as nat)),
        field("stop_bits"@, decimal(config.stop_bits as nat)),
        field("parity"@, parity_text(config.parity)),
        field("flow_control"@, flow_text(config.flow_control)),
    );
}

/// Bytes show as numbers in square brackets, each of them, in order.
pub proof fn law_bytes_show_in_order(bytes: Seq<u8>, b: u8)
    ensures
        bytes_text(Seq::empty()) == "["@ + Seq::<char>::empty() + "]"@,
        bytes_text(bytes) == "["@ + numbers_text(bytes) + "]"@,
        numbers_text(seq![b]) == decimal(b as nat),
        bytes.len() > 0 ==> numbers_text(bytes.push(b)) == numbers_text(bytes) + (", "@ + decimal(
            b as nat,
        )),
{
    assert(bytes.push(b).drop_last() =~= bytes);
}

/// A command shows by its name and with all that it carries.
pub proof fn law_commands_show_in_full(cmd: UiCommand)
    ensures
        cmd matches UiCommand::Connect { port, baud, framing } ==> command_text(cmd) == braced(
            "Connect"@,
            told("port"@, port_text(port@)) + (", "@ + told("baud"@, decimal(baud as nat))) + (
            ", "@ + told("framing"@, quoted(framing@))),
        ),
        cmd is Disconnect ==> command_text(cmd) == "Disconnect"@,
        cmd matches UiCommand::WriteData { data } ==> command_text(cmd) == braced(
            "WriteData"@,
            told("data"@, bytes_text(data@)),
        ),
        cmd matches UiCommand::SetDecoder { id } ==> command_text(cmd) == braced(
            "SetDecoder"@,
            told("id"@, quoted(id@)),
        ),
        cmd matches UiCommand::SetFramer { id } ==> command_text(cmd) == braced(
            "SetFramer"@,
            told("id"@, quoted(id@)),
        ),
        cmd matches UiCommand::Reconfigure { baud, framing, active_framing } ==> command_text(cmd)
            == braced(
            "Reconfigure"@,
            told("baud"@, decimal(baud as nat)) + (", "@ + told("framing"@, quoted(framing@))) + (
            ", "@ + told("active_framing"@, quoted(active_framing@))),
        ),
{
    match cmd {
        UiCommand::Connect { port, baud, framing } => {
            let a = field("port"@, port_text(port@));
            let b = field("baud"@, decimal(baud as nat));
            let c = field("framing"@, quoted(framing@));
            lemma_fields(a, b, c, a, a);
        },
        UiCommand::Disconnect => {},
        UiCommand::WriteData { data } => {
            let a = field("data"@, bytes_text(data@));
            lemma_fields(a, a, a, a, a);
        },
        UiCommand::SetDecoder { id } => {
            let a = field("id"@, quoted(id@));
            lemma_fields(a, a, a, a, a);
        },
        UiCommand::SetFramer { id } => {
            let a = field("id"@, quoted(id@));
            lemma_fields(a, a, a, a, a);
        },
        UiCommand::Reconfigure { baud, framing, active_framing } => {
            let a = field("baud"@, decimal(baud as nat));
            let b = field("framing"@, quoted(framing@));
            let c = field("active_framing"@, quoted(active_framing@));
            lemma_fields(a, b, c, a, a);
        },
    }
}

/// A message to the state actor shows by its name and with all that it carries; a port
/// object shows as a placeholder.
pub proof fn law_state_messages_show_in_full(msg: StateMessage)
    ensures
        msg matches StateMessage::UiCommand(cmd) ==> state_message_text(msg) == "UiCommand("@
            + command_text(cmd) + ")"@,
        msg matches StateMessage::UiCommandWithPort { cmd, port_handle } ==> state_message_text(
            msg,
        ) == braced(
            "UiCommandWithPort"@,
            told("cmd"@, command_text(cmd)) + (", "@ + told(
                "port_handle"@,
                "\"<SerialPort>\""@,
            )),
        ),
        msg matches StateMessage::ConnectionEstablished { operation_id } ==> state_message_text(
            msg,
        ) == braced(
            "ConnectionEstablished"@,
            told("operation_id"@, decimal(operation_id as nat)),
        ),
        msg matches StateMessage::ConnectionFailed { reason } ==> state_message_text(msg)
            == braced("ConnectionFailed"@, told("reason"@, quoted(reason@))),
        msg is ConnectionLost ==> state_message_text(msg) == "ConnectionLost"@,
        msg is ConnectionClosed ==> state_message_text(msg) == "ConnectionClosed"@,
        msg matches StateMessage::ProbeComplete { baud, framing, protocol, initial_data } ==>
            state_message_text(msg) == braced(
            "ProbeComplete"@,
            told("baud"@, decimal(baud as nat)) + (", "@ + told("framing"@, quoted(framing@))) + (
            ", "@ + told("protocol"@, option_quoted_text(opt_text(protocol)))) + (", "@ + told(
                "initial_data"@,
                bytes_text(initial_data@),
            )),
        ),
        msg matches StateMessage::OperationTimeout { operation, state } ==> state_message_text(
            msg,
        ) == braced(
            "OperationTimeout"@,
            told("operation"@, quoted(operation@)) + (", "@ + told("state"@, name_of(state))),
        ),
        msg matches StateMessage::DeviceReappeared { port, port_handle } ==> (port_handle is None
            ==> state_message_text(msg) == braced(
            "DeviceReappeared"@,
            told("port"@, port_text(port@)),
        )) && (port_handle is Some ==> state_message_text(msg) == braced(
            "DeviceReappeared"@,
            told("port"@, port_text(port@)) + (", "@ + told(
                "port_handle"@,
                "\"<SerialPort>\""@,
            )),
        )),
{
    let h = field("port_handle"@, "\"<SerialPort>\""@);
    match msg {
        StateMessage::UiCommandWithPort { cmd, port_handle } => {
            let a = field("cmd"@, command_text(cmd));
            assert(seq![a] + object_field(Some(port_handle)) =~= seq![a, h]);
            lemma_fields(a, h, a, a, a);
        },
        StateMessage::ConnectionEstablished { operation_id } => {
            let a = field("operation_id"@, decimal(operation_id as nat));
            lemma_fields(a, a, a, a, a);
        },
        StateMessage::ConnectionFailed { reason } => {
            let a = field("reason"@, quoted(reason@));
            lemma_fields(a, a, a, a, a);
        },
        StateMessage::ProbeComplete { baud, framing, protocol, initial_data } => {
            let a = field("baud"@, decimal(baud as nat));
            let b = field("framing"@, quoted(framing@));
            let c = field("protocol"@, option_quoted_text(opt_text(protocol)));
            let d = field("initial_data"@, bytes_text(initial_data@));
            lemma_fields(a, b, c, d, a);
        },
        StateMessage::OperationTimeout { operation, state } => {
            let a = field("operation"@, quoted(operation@));
            let b = field("state"@, name_of(state));
            lemma_fields(a, b, a, a, a);
        },
        StateMessage::DeviceReappeared { port, port_handle } => {
            let a = field("port"@, port_text(port@));
            lemma_fields(a, h, a, a, a);
            if port_handle is Some {
                assert(seq![a] + object_field(port_handle) =~= seq![a, h]);
            } else {
                assert(seq![a] + object_field(port_handle) =~= seq![a]);
            }
        },
        _ => {},
    }
}

/// A message to the port actor shows by its name and with all that it carries; a port
/// object shows as a placeholder.
pub proof fn law_port_messages_show_in_full(msg: PortMessageView)
    ensures
        msg matches PortMessageView::Open {
            port,
            baud,
            framing,
            send_wakeup,
            operation_id,
            port_handle,
        } ==> ({
            let words = told("port"@, port_text(port)) + (", "@ + told(
                "baud"@,
                decimal(baud as nat),
            )) + (", "@ + told("framing"@, quoted(framing))) + (", "@ + told(
                "send_wakeup"@,
                if send_wakeup {
                    "true"@
                } else {
                    "false"@
                },
            )) + (", "@ + told("operation_id"@, decimal(operation_id as nat)));
            &&& port_handle is None ==> port_message_text(msg) == braced("Open"@, words)
            &&& port_handle is Some ==> port_message_text(msg) == braced(
                "Open"@,
                words + (", "@ + told("port_handle"@, "\"<SerialPort>\""@)),
            )
        }),
        msg is Close ==> port_message_text(msg) == "Close"@,
        msg matches PortMessageView::Write { data } ==> port_message_text(msg) == braced(
            "Write"@,
            told("data"@, bytes_text(data)),
        ),
        msg matches PortMessageView::InjectData { data } ==> port_message_text(msg) == braced(
            "InjectData"@,
            told("data"@, bytes_text(data)),
        ),
{
    let h = field("port_handle"@, "\"<SerialPort>\""@);
    match msg {
        PortMessageView::Open { port, baud, framing, send_wakeup, operation_id, port_handle } => {
            let a = field("port"@, port_text(port));
            let b = field("baud"@, decimal(baud as nat));
            let c = field("framing"@, quoted(framing));
            let d = field("send_wakeup"@, truth_text(send_wakeup));
            let e = field("operation_id"@, decimal(operation_id as nat));
            lemma_fields(a, b, c, d, e);
            let all = seq![a, b, c, d, e] + object_field(port_handle);
            if port_handle is Some {
                assert(all.drop_last() =~= seq![a, b, c, d, e]);
                assert(all.last() == h);
            } else {
                assert(all =~= seq![a, b, c, d, e]);
            }
        },
        PortMessageView::Close => {},
        PortMessageView::Write { data } => {
            let a = field("data"@, bytes_text(data));
            lemma_fields(a, a, a, a, a);
        },
        PortMessageView::InjectData { data } => {
            let a = field("data"@, bytes_text(data));
            lemma_fields(a, a, a, a, a);
        },
    }
}

/// Messages to the probe actor and to the reconnect actor show by their names and with all
/// that they carry; a port object shows as a placeholder.
pub proof fn law_other_messages_show_in_full(probe: ProbeMessageView, msg: ReconnectMessage)
    ensures
        probe is Abort ==> probe_message_text(probe) == "Abort"@,
        probe matches ProbeMessageView::Start { port, port_handle } ==> (port_handle is None
            ==> probe_message_text(probe) == braced("Start"@, told("port"@, port_text(port)))) && (
        port_handle is Some ==> probe_message_text(probe) == braced(
            "Start"@,
            told("port"@, port_text(port)) + (", "@ + told("port_handle"@, "\"<SerialPort>\""@)),
        )),
        msg is ClearDevice ==> reconnect_message_text(msg) == "ClearDevice"@,
        msg matches ReconnectMessage::RegisterDevice { vid, pid, config } ==>
            reconnect_message_text(msg) == braced(
            "RegisterDevice"@,
            told("vid"@, decimal(vid as nat)) + (", "@ + told("pid"@, decimal(pid as nat))) + (
            ", "@ + told("config"@, config_text(config))),
        ),
        msg matches ReconnectMessage::DeviceConnected { port, port_handle } ==> (port_handle
            is None ==> reconnect_message_text(msg) == braced(
            "DeviceConnected"@,
            told("port"@, port_text(port@)),
        )) && (port_handle is Some ==> reconnect_message_text(msg) == braced(
            "DeviceConnected"@,
            told("port"@, port_text(port@)) + (", "@ + told(
                "port_handle"@,
                "\"<SerialPort>\""@,
            )),
        )),
{
    let h = field("port_handle"@, "\"<SerialPort>\""@);
    if let ProbeMessageView::Start { port, port_handle } = probe {
        let a = field("port"@, port_text(port));
        lemma_fields(a, h, a, a, a);
        if port_handle is Some {
            assert(seq![a] + object_field(port_handle) =~= seq![a, h]);
        } else {
            assert(seq![a] + object_field(port_handle) =~= seq![a]);
        }
    }
    match msg {
        ReconnectMessage::RegisterDevice { vid, pid, config } => {
            let a = field("vid"@, decimal(vid as nat));
            let b = field("pid"@, decimal(pid as nat));
            let c = field("config"@, config_text(config));
            lemma_fields(a, b, c, a, a);
        },
        ReconnectMessage::ClearDevice => {},
        ReconnectMessage::DeviceConnected { port, port_handle } => {
            let a = field("port"@, port_text(port@));
            lemma_fields(a, h, a, a, a);
            if port_handle is Some {
                assert(seq![a] + object_field(port_handle) =~= seq![a, h]);
            } else {
                assert(seq![a] + object_field(port_handle) =~= seq![a]);
            }
        },
    }
}

/// Messages show as the model has it.
pub proof fn law_messages_show_as_modelled(
    s: StateMessage,
    p: PortMessage,
    b: ProbeMessage,
    m: ReconnectMessage,
    r: String,
)
    ensures
        call_ensures(StateMessage::debug_text, (&s,), r) ==> r@ == state_message_text(s),
        call_ensures(PortMessage::debug_text, (&p,), r) ==> r@ == port_message_text(p@),
        call_ensures(ProbeMessage::debug_text, (&b,), r) ==> r@ == probe_message_text(b@),
        call_ensures(ReconnectMessage::debug_text, (&m,), r) ==> r@ == reconnect_message_text(m),
{
}

} // verus!
