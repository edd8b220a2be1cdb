//! How the bridge treats its serial port.
use vstd::prelude::*;
use vstd::slice::{slice_subrange, slice_to_vec};

use crate::bridge::protocol::{PortInfo, PortType};
use crate::protocol::messages::opt_text;
use crate::text::{
    contains_text, decimal, decimal_text, eq_ignore_case, joined,
    law_case_is_ignored_letter_by_letter, law_what_occurs_is_mentioned, lower, lower_text,
    occurs_in, same_ignoring_case,
};

verus! {

/// How long one read may take, in milliseconds: short, so that writes and settings
/// need not wait for it.
pub const READ_TIMEOUT_MS: u64 = 100;

/// After how many reads without data the device is looked for.
pub const PATH_CHECK_INTERVAL: u64 = 20;

/// How often a port is tried.
pub const MAX_OPEN_ATTEMPTS: u32 = 4;

/// The wait before a port that is busy is tried again, in milliseconds: drivers take
/// time to release a device.
pub const BUSY_WAIT_MS: u64 = 150;

/// What the system says of a port's attachment.
#[derive(Debug)]
pub enum Attachment {
    Usb {
        vid: u16,
        pid: u16,
        serial_number: Option<String>,
        manufacturer: Option<String>,
        product: Option<String>,
    },
    Bluetooth,
    Pci,
    Unknown,
}

/// What is told to clients of a port.
pub open spec fn described(path: String, attachment: Attachment) -> PortInfo {
    match attachment {
        Attachment::Usb { vid, pid, serial_number, manufacturer, product } => PortInfo {
            path,
            port_type: PortType::UsbSerial,
            vid: Some(vid),
            pid: Some(pid),
            serial_number,
            manufacturer,
            product,
        },
        Attachment::Bluetooth => bare(path, PortType::Bluetooth),
        Attachment::Pci => bare(path, PortType::Pci),
        Attachment::Unknown => bare(path, PortType::Unknown),
    }
}

/// A port of which nothing but its path and type is known.
pub open spec fn bare(path: String, port_type: PortType) -> PortInfo {
    PortInfo {
        path,
        port_type,
        vid: None,
        pid: None,
        serial_number: None,
        manufacturer: None,
        product: None,
    }
}

fn bare_port(path: String, port_type: PortType) -> (r: PortInfo)
    ensures
        r == bare(path, port_type),
{
    PortInfo {
        path,
        port_type,
        vid: None,
        pid: None,
        serial_number: None,
        manufacturer: None,
        product: None,
    }
}

/// What is told to clients of a port.
pub fn describe_port(path: String, attachment: Attachment) -> (r: PortInfo)
    ensures
        r == described(path, attachment),
{
    match attachment {
        Attachment::Usb { vid, pid, serial_number, manufacturer, product } => PortInfo {
            path,
            port_type: PortType::UsbSerial,
            vid: Some(vid),
            pid: Some(pid),
            serial_number,
            manufacturer,
            product,
        },
        Attachment::Bluetooth => bare_port(path, PortType::Bluetooth),
        Attachment::Pci => bare_port(path, PortType::Pci),
        Attachment::Unknown => bare_port(path, PortType::Unknown),
    }
}

/// The port is taken, for now.
pub open spec fn is_busy(error: Seq<char>) -> bool {
    occurs_in("busy"@, lower(error)) || occurs_in("resource"@, lower(error))
}

/// A port that is being opened.
#[derive(Debug)]
pub struct PortOpening {
    pub path: String,
    pub baud_rate: u32,
    /// Which attempt comes next, counted from 1.
    pub attempt: u32,
    /// What has to be done before the first attempt with the port that was open.
    pub closing: CloseStep,
}

/// A port that is being opened, with its path as a character sequence.
pub struct PortOpeningView {
    pub path: Seq<char>,
    pub baud_rate: u32,
    pub attempt: u32,
    pub closing: CloseStep,
}

impl View for PortOpening {
    type V = PortOpeningView;

    open spec fn view(&self) -> PortOpeningView {
        PortOpeningView {
            path: self.path@,
            baud_rate: self.baud_rate,
            attempt: self.attempt,
            closing: self.closing,
        }
    }
}

/// What is done after an attempt to open a port.
#[derive(Debug)]
pub enum OpenStep {
    /// Read the port, which is open now.
    Opened,
    /// Wait, then try again.
    Retry { millis: u64, opening: PortOpening },
    /// Wait, then report this error.
    WaitAndFail { millis: u64, error: String },
    /// Report this error.
    Fail { error: String },
}

/// What is done after an attempt to open a port, with its texts as character sequences.
pub enum OpenStepView {
    Opened,
    Retry { millis: u64, opening: PortOpeningView },
    WaitAndFail { millis: u64, error: Seq<char> },
    Fail { error: Seq<char> },
}

impl View for OpenStep {
    type V = OpenStepView;

    open spec fn view(&self) -> OpenStepView {
        match *self {
            OpenStep::Opened => OpenStepView::Opened,
            OpenStep::Retry { millis, opening } => OpenStepView::Retry {
                millis,
                opening: opening@,
            },
            OpenStep::WaitAndFail { millis, error } => OpenStepView::WaitAndFail {
                millis,
                error: error@,
            },
            OpenStep::Fail { error } => OpenStepView::Fail { error: error@ },
        }
    }
}

/// The first attempt to open a port, after what was open is closed.
pub open spec fn first_attempt(
    port_open: bool,
    path: Seq<char>,
    baud_rate: u32,
) -> PortOpeningView {
    PortOpeningView { path, baud_rate, attempt: 1, closing: closing_step(port_open) }
}

/// The error of a port that could not be opened.
pub open spec fn open_complaint(path: Seq<char>, error: Seq<char>) -> Seq<char> {
    "Failed to open port "@ + path + ": "@ + error
}

/// What is done after an attempt to open a port, which gave an error or none: a busy port
/// is tried again, up to a limit; any other failure is final.
pub open spec fn after_attempt(
    opening: PortOpeningView,
    error: Option<Seq<char>>,
) -> OpenStepView {
    match error {
        None => OpenStepView::Opened,
        Some(e) => if !is_busy(e) {
            OpenStepView::Fail { error: open_complaint(opening.path, e) }
        } else if opening.attempt < MAX_OPEN_ATTEMPTS {
            OpenStepView::Retry {
                millis: BUSY_WAIT_MS,
                opening: PortOpeningView {
                    attempt: (opening.attempt + 1) as u32,
                    closing: CloseStep::Nothing,
                    ..opening
                },
            }
        } else {
            OpenStepView::WaitAndFail {
                millis: BUSY_WAIT_MS,
                error: open_complaint(opening.path, e),
            }
        },
    }
}

/// How many attempts are made if one after another ends like this, and what is done after
/// the last of them; `None` while more would be made.
pub open spec fn attempts_made(
    opening: PortOpeningView,
    errors: Seq<Option<Seq<char>>>,
) -> (nat, Option<OpenStepView>)
    decreases errors.len(),
{
    if errors.len() == 0 {
        (0, None)
    } else {
        match after_attempt(opening, errors[0]) {
            OpenStepView::Retry { opening: next, .. } => {
                let (more, end) = attempts_made(next, errors.drop_first());
                ((1 + more) as nat, end)
            },
            end => (1, Some(end)),
        }
    }
}

/// Attempts go on for as long as the port is busy, and no longer; four are the most.
proof fn lemma_attempts_made(opening: PortOpeningView, errors: Seq<Option<Seq<char>>>)
    requires
        1 <= opening.attempt <= MAX_OPEN_ATTEMPTS,
    ensures
        ({
            let (made, end) = attempts_made(opening, errors);
            &&& opening.attempt + made <= MAX_OPEN_ATTEMPTS + 1
            &&& made <= errors.len()
            &&& forall|i: int|
                0 <= i < made - 1 ==> (#[trigger] errors[i] matches Some(e) && is_busy(e))
            &&& match end {
                None => made == errors.len(),
                Some(OpenStepView::Opened) => made > 0 && errors[made - 1] is None,
                Some(OpenStepView::Fail { error }) => made > 0 && (errors[made - 1] matches Some(
                    e,
                ) && !is_busy(e) && error == open_complaint(opening.path, e)),
                Some(OpenStepView::WaitAndFail { millis, error }) => opening.attempt + made
                    == MAX_OPEN_ATTEMPTS + 1 && (errors[made - 1] matches Some(e) && is_busy(e)
                    && error == open_complaint(opening.path, e)),
                Some(OpenStepView::Retry { .. }) => false,
            }
        }),
    decreases errors.len(),
{
    if errors.len() > 0 {
        if let OpenStepView::Retry { opening: next, .. } = after_attempt(opening, errors[0]) {
            let rest = errors.drop_first();
            lemma_attempts_made(next, rest);
            let (more, end) = attempts_made(next, rest);
            assert forall|i: int| 0 <= i < more implies #[trigger] errors[i + 1] == rest[i] by {}
            assert forall|i: int| 0 <= i < more implies (#[trigger] errors[i] matches Some(e)
                && is_busy(e)) by {
                if i > 0 {
                    assert(rest[i - 1] == errors[i]);
                }
            }
            if more > 0 {
                assert(errors[more as int] == rest[more - 1]);
            }
        }
    }
}

/// A port is tried at most four times, and again only while it is busy: the first attempt
/// that succeeds opens it, the first that fails otherwise is reported, and so is the
/// fourth that finds it busy.
pub proof fn law_a_port_is_tried_four_times_at_most(
    port_open: bool,
    path: Seq<char>,
    baud_rate: u32,
    errors: Seq<Option<Seq<char>>>,
)
    ensures
        ({
            let (made, end) = attempts_made(first_attempt(port_open, path, baud_rate), errors);
            &&& made <= 4
            &&& made <= errors.len()
            &&& forall|i: int|
                0 <= i < made - 1 ==> (#[trigger] errors[i] matches Some(e) && is_busy(e))
            &&& match end {
                None => made == errors.len(),
                Some(OpenStepView::Opened) => made > 0 && errors[made - 1] is None,
                Some(OpenStepView::Fail { error }) => made > 0 && (errors[made - 1] matches Some(
                    e,
                ) && !is_busy(e) && error == open_complaint(path, e)),
                Some(OpenStepView::WaitAndFail { millis, error }) => made == 4 && (
                errors[made - 1] matches Some(e) && is_busy(e) && error == open_complaint(path, e)),
                Some(OpenStepView::Retry { .. }) => false,
            }
        }),
{
    lemma_attempts_made(first_attempt(port_open, path, baud_rate), errors);
}

/// A setting of the port.
#[derive(Debug, Clone, Copy, PartialEq, Eq, Structural)]
pub enum Setting {
    BaudRate(u32),
    /// From 5 to 8.
    DataBits(u8),
    /// 1 or 2.
    StopBits(u8),
    Parity(LineParity),
}

/// The parity of the line.
#[derive(Debug, Clone, Copy, PartialEq, Eq, Structural)]
pub enum LineParity {
    Off,
    Odd,
    Even,
}

/// What is to be set, in order, and what is wrong with the request: the settings
/// before the first wrong one are still made.
#[derive(Debug)]
pub struct SettingPlan {
    pub settings: Vec<Setting>,
    pub complaint: Option<String>,
}

/// What is to be set, with its texts as character sequences.
pub struct SettingPlanView {
    pub settings: Seq<Setting>,
    pub complaint: Option<Seq<char>>,
}

impl View for SettingPlan {
    type V = SettingPlanView;

    open spec fn view(&self) -> SettingPlanView {
        SettingPlanView { settings: self.settings@, complaint: opt_text(self.complaint) }
    }
}

/// The baud rate, if one is asked for.
pub open spec fn baud_setting(baud_rate: Option<u32>) -> Seq<Setting> {
    match baud_rate {
        Some(baud) => seq![Setting::BaudRate(baud)],
        None => Seq::empty(),
    }
}

/// What one part of a request asks for: nothing, a setting, or nothing that can be
/// set.
pub open spec fn data_setting(bits: Option<u8>) -> Result<Seq<Setting>, Seq<char>> {
    match bits {
        Some(n) => if 5 <= n <= 8 {
            Ok(seq![Setting::DataBits(n)])
        } else {
            Err("Invalid data bits: "@ + decimal(n as nat))
        },
        None => Ok(Seq::empty()),
    }
}

/// What the stop bits of a request ask for.
pub open spec fn stop_setting(bits: Option<u8>) -> Result<Seq<Setting>, Seq<char>> {
    match bits {
        Some(n) => if n == 1 || n == 2 {
            Ok(seq![Setting::StopBits(n)])
        } else {
            Err("Invalid stop bits: "@ + decimal(n as nat))
        },
        None => Ok(Seq::empty()),
    }
}

/// What the parity of a request asks for, upper or lower case.
pub open spec fn parity_setting(parity: Option<Seq<char>>) -> Result<Seq<Setting>, Seq<char>> {
    match parity {
        Some(p) => if same_ignoring_case(p, "none"@) {
            Ok(seq![Setting::Parity(LineParity::Off)])
        } else if same_ignoring_case(p, "odd"@) {
            Ok(seq![Setting::Parity(LineParity::Odd)])
        } else if same_ignoring_case(p, "even"@) {
            Ok(seq![Setting::Parity(LineParity::Even)])
        } else {
            Err("Invalid parity: "@ + p)
        },
        None => Ok(Seq::empty()),
    }
}

/// What is to be set: baud rate, data bits, stop bits and parity, in this order, up to
/// the first that cannot be.
pub open spec fn setting_plan(
    baud_rate: Option<u32>,
    data_bits: Option<u8>,
    stop_bits: Option<u8>,
    parity: Option<Seq<char>>,
) -> SettingPlanView {
    let first = baud_setting(baud_rate);
    match data_setting(data_bits) {
        Err(e) => SettingPlanView { settings: first, complaint: Some(e) },
        Ok(data) => match stop_setting(stop_bits) {
            Err(e) => SettingPlanView { settings: first + data, complaint: Some(e) },
            Ok(stop) => match parity_setting(parity) {
                Err(e) => SettingPlanView { settings: first + data + stop, complaint: Some(e) },
                Ok(parity) => SettingPlanView {
                    settings: first + data + stop + parity,
                    complaint: None,
                },
            },
        },
    }
}

/// What is to be set.
pub fn plan_settings(
    baud_rate: Option<u32>,
    data_bits: Option<u8>,
    stop_bits: Option<u8>,
    parity: Option<String>,
) -> (r: SettingPlan)
    ensures
        r@ == setting_plan(baud_rate, data_bits, stop_bits, opt_text(parity)),
{
    let mut settings: Vec<Setting> = Vec::new();
    match baud_rate {
        Some(baud) => {
            settings.push(Setting::BaudRate(baud));
        },
        None => {},
    }
    let ghost first = baud_setting(baud_rate);
    assert(settings@ =~= first);
    match data_bits {
        Some(n) => {
            if 5 <= n && n <= 8 {
                settings.push(Setting::DataBits(n));
            } else {
                let text = joined("Invalid data bits: ", decimal_text(n as u64).as_str());
                return SettingPlan { settings, complaint: Some(text) };
            }
        },
        None => {},
    }
    let ghost second = first + data_setting(data_bits)->Ok_0;
    assert(settings@ =~= second);
    match stop_bits {
        Some(n) => {
            if n == 1 || n == 2 {
                settings.push(Setting::StopBits(n));
            } else {
                let text = joined("Invalid stop bits: ", decimal_text(n as u64).as_str());
                return SettingPlan { settings, complaint: Some(text) };
            }
        },
        None => {},
    }
    let ghost third = second + stop_setting(stop_bits)->Ok_0;
    assert(settings@ =~= third);
    match parity {
        Some(p) => {
            if eq_ignore_case(p.as_str(), "none") {
                settings.push(Setting::Parity(LineParity::Off));
            } else if eq_ignore_case(p.as_str(), "odd") {
                settings.push(Setting::Parity(LineParity::Odd));
            } else if eq_ignore_case(p.as_str(), "even") {
                settings.push(Setting::Parity(LineParity::Even));
            } else {
                return SettingPlan {
                    settings,
                    complaint: Some(joined("Invalid parity: ", p.as_str())),
                };
            }
        },
        None => {},
    }
    assert(settings@ =~= third + parity_setting(opt_text(parity))->Ok_0);
    SettingPlan { settings, complaint: None }
}

/// The name of a setting in messages about it.
pub open spec fn setting_name(setting: Setting) -> Seq<char> {
    match setting {
        Setting::BaudRate(_) => "baud rate"@,
        Setting::DataBits(_) => "data bits"@,
        Setting::StopBits(_) => "stop bits"@,
        Setting::Parity(_) => "parity"@,
    }
}

/// The error for a setting that could not be made.
pub fn setting_failure(setting: Setting, error: &str) -> (r: String)
    ensures
        r@ == "Failed to set "@ + setting_name(setting) + ": "@ + error@,
{
    let name = match setting {
        Setting::BaudRate(_) => "baud rate",
        Setting::DataBits(_) => "data bits",
        Setting::StopBits(_) => "stop bits",
        Setting::Parity(_) => "parity",
    };
    let mut out = joined("Failed to set ", name);
    out.append(": ");
    out.append(error);
    out
}

/// The bridge's side of one client's port.
#[derive(Debug)]
pub struct SerialManager {
    /// Whether a port is open, and read by a task of its own.
    pub port_open: bool,
}

/// What has to be done with a port that is no longer wanted.
#[derive(Debug, Clone, Copy, PartialEq, Eq, Structural)]
pub enum CloseStep {
    /// End the reading task, wait until it has ended, then let go of the port.
    StopAndRelease,
    /// Nothing.
    Nothing,
}

/// What has to be done to close a port, if one is open.
pub open spec fn closing_step(port_open: bool) -> CloseStep {
    if port_open {
        CloseStep::StopAndRelease
    } else {
        CloseStep::Nothing
    }
}

impl SerialManager {
    /// No port is open.
    pub fn new() -> (r: SerialManager)
        ensures
            !r.port_open,
    {
        SerialManager { port_open: false }
    }

    /// What is told to clients of the ports that the system lists, in order.
    pub fn list_ports(found: Result<Vec<(String, Attachment)>, String>) -> (r: Result<
        Vec<PortInfo>,
        String,
    >)
        ensures
            match found {
                Ok(ports) => r matches Ok(told) && told@ == ports@.map_values(
                    |p: (String, Attachment)| described(p.0, p.1),
                ),
                Err(e) => r matches Err(t) && t@ == "Failed to list ports: "@ + e@,
            },
    {
        match found {
            Ok(ports) => {
                let ghost all = ports@;
                let ghost tell = |p: (String, Attachment)| described(p.0, p.1);
                let mut told: Vec<PortInfo> = Vec::new();
                for port in it: ports
                    invariant
                        it.seq() == all,
                        tell == (|p: (String, Attachment)| described(p.0, p.1)),
                        told@ == all.take(it.index() as int).map_values(tell),
                {
                    told.push(describe_port(port.0, port.1));
                    assert(told@ =~= all.take(it.index() as int + 1).map_values(tell));
                }
                assert(all.take(all.len() as int) =~= all);
                Ok(told)
            },
            Err(e) => Err(joined("Failed to list ports: ", e.as_str())),
        }
    }

    /// Whether a port is open.
    pub fn is_open(&self) -> (r: bool)
        ensures
            r == self.port_open,
    {
        self.port_open
    }

    /// Closes the port.
    pub fn close(&mut self) -> (r: CloseStep)
        ensures
            !final(self).port_open,
            r == closing_step(old(self).port_open),
    {
        if self.port_open {
            self.port_open = false;
            CloseStep::StopAndRelease
        } else {
            CloseStep::Nothing
        }
    }

    /// Begins to open a port; the port that was open is closed first.
    pub fn open(&mut self, path: &str, baud_rate: u32) -> (r: PortOpening)
        ensures
            !final(self).port_open,
            r@ == first_attempt(old(self).port_open, path@, baud_rate),
    {
        let closing = self.close();
        PortOpening { path: path.to_owned(), baud_rate, attempt: 1, closing }
    }

    /// Takes note of how an attempt to open a port went.
    pub fn tried(&mut self, opening: PortOpening, outcome: Result<(), String>) -> (r: OpenStep)
        ensures
            r@ == after_attempt(
                opening@,
                match outcome {
                    Ok(_) => None,
                    Err(e) => Some(e@),
                },
            ),
            final(self).port_open == (old(self).port_open || outcome is Ok),
    {
        let error = match outcome {
            Ok(_) => {
                self.port_open = true;
                return OpenStep::Opened;
            },
            Err(error) => error,
        };
        let mut text = joined("Failed to open port ", opening.path.as_str());
        text.append(": ");
        text.append(error.as_str());
        let small = lower_text(error.as_str());
        if !(contains_text(small.as_str(), "busy") || contains_text(small.as_str(), "resource")) {
            OpenStep::Fail { error: text }
        } else if opening.attempt < MAX_OPEN_ATTEMPTS {
            OpenStep::Retry {
                millis: BUSY_WAIT_MS,
                opening: PortOpening {
                    path: opening.path,
                    baud_rate: opening.baud_rate,
                    attempt: opening.attempt + 1,
                    closing: CloseStep::Nothing,
                },
            }
        } else {
            OpenStep::WaitAndFail { millis: BUSY_WAIT_MS, error: text }
        }
    }

    /// Whether the port can be used.
    pub fn require_open(&self) -> (r: Result<(), String>)
        ensures
            self.port_open ==> r is Ok,
            !self.port_open ==> (r matches Err(e) && e@ == "No port open"@),
    {
        if self.port_open {
            Ok(())
        } else {
            Err("No port open".to_owned())
        }
    }

    /// The result of writing this many bytes.
    pub fn write_result(len: usize, outcome: Result<(), String>) -> (r: Result<usize, String>)
        ensures
            match outcome {
                Ok(_) => r matches Ok(n) && n == len,
                Err(e) => r matches Err(t) && t@ == "Failed to write: "@ + e@,
            },
    {
        match outcome {
            Ok(_) => Ok(len),
            Err(e) => Err(joined("Failed to write: ", e.as_str())),
        }
    }
}

/// How one read from the port went.
#[derive(Debug)]
pub enum PortRead<'a> {
    /// This many bytes were read into the buffer.
    Bytes { buffer: &'a [u8], n: usize },
    /// The read failed.
    Failed { error: &'a str },
    /// Nothing came in time.
    TimedOut,
}

/// What the reading task does next.
#[derive(Debug)]
pub enum ReaderStep {
    /// Read again.
    Read,
    /// Pass the data on, then go on with `forwarded`.
    Forward { data: Vec<u8> },
    /// Look whether the device is there, then go on with `looked`.
    Look,
    /// Stop, for this reason.
    Stop { reason: String },
}

/// What the reading task does next, with its texts as character sequences.
pub enum ReaderStepView {
    Read,
    Forward { data: Seq<u8> },
    Look,
    Stop { reason: Seq<char> },
}

impl View for ReaderStep {
    type V = ReaderStepView;

    open spec fn view(&self) -> ReaderStepView {
        match *self {
            ReaderStep::Read => ReaderStepView::Read,
            ReaderStep::Forward { data } => ReaderStepView::Forward { data: data@ },
            ReaderStep::Look => ReaderStepView::Look,
            ReaderStep::Stop { reason } => ReaderStepView::Stop { reason: reason@ },
        }
    }
}

/// What is done after a read, and how many reads in a row brought nothing.
pub open spec fn after_port_read(idle_ticks: u64, read: PortRead) -> (u64, ReaderStepView) {
    match read {
        PortRead::Bytes { buffer, n } => if n == 0 {
            (idle_ticks, ReaderStepView::Stop { reason: "EOF"@ })
        } else if n > buffer@.len() {
            (0, ReaderStepView::Stop { reason: "Buffer error"@ })
        } else {
            (0, ReaderStepView::Forward { data: buffer@.take(n as int) })
        },
        PortRead::Failed { error } => (
            idle_ticks,
            ReaderStepView::Stop { reason: "Read error: "@ + error@ },
        ),
        PortRead::TimedOut => {
            let ticks = (idle_ticks + 1) as u64;
            (
                ticks,
                if ticks % PATH_CHECK_INTERVAL == 0 {
                    ReaderStepView::Look
                } else {
                    ReaderStepView::Read
                },
            )
        },
    }
}

/// The task that reads from the port. Some drivers hang when a device is unplugged,
/// so it looks from time to time whether the device is still there.
#[derive(Debug)]
pub struct PortReader {
    /// How many reads in a row brought nothing.
    pub idle_ticks: u64,
}

impl PortReader {
    /// A task that has read nothing.
    pub fn new() -> (r: PortReader)
        ensures
            r.idle_ticks == 0,
    {
        PortReader { idle_ticks: 0 }
    }

    /// Takes in one read.
    pub fn take(&mut self, read: PortRead) -> (r: ReaderStep)
        requires
            old(self).idle_ticks < u64::MAX,
        ensures
            (final(self).idle_ticks, r@) == after_port_read(old(self).idle_ticks, read),
    {
        match read {
            PortRead::Bytes { buffer, n } => {
                if n == 0 {
                    return ReaderStep::Stop { reason: "EOF".to_owned() };
                }
                self.idle_ticks = 0;
                if n > buffer.len() {
                    return ReaderStep::Stop { reason: "Buffer error".to_owned() };
                }
                let data = slice_to_vec(slice_subrange(buffer, 0, n));
                assert(data@ =~= buffer@.take(n as int));
                ReaderStep::Forward { data }
            },
            PortRead::Failed { error } => ReaderStep::Stop {
                reason: joined("Read error: ", error),
            },
            PortRead::TimedOut => {
                self.idle_ticks = self.idle_ticks + 1;
                if self.idle_ticks % PATH_CHECK_INTERVAL == 0 {
                    ReaderStep::Look
                } else {
                    ReaderStep::Read
                }
            },
        }
    }

    /// Takes in whether data could be passed on.
    pub fn forwarded(&self, delivered: bool) -> (r: ReaderStep)
        ensures
            r@ == if delivered {
                ReaderStepView::Read
            } else {
                ReaderStepView::Stop { reason: "Channel closed"@ }
            },
    {
        if delivered {
            ReaderStep::Read
        } else {
            ReaderStep::Stop { reason: "Channel closed".to_owned() }
        }
    }

    /// Takes in whether the device is there.
    pub fn looked(&self, there: bool) -> (r: ReaderStep)
        ensures
            r@ == if there {
                ReaderStepView::Read
            } else {
                ReaderStepView::Stop { reason: "Device removed"@ }
            },
    {
        if there {
            ReaderStep::Read
        } else {
            ReaderStep::Stop { reason: "Device removed".to_owned() }
        }
    }
}

/// Every setting that is made was asked for and can be made, and nothing that was
/// asked for is passed over without a complaint.
pub proof fn law_settings_are_as_asked(
    baud_rate: Option<u32>,
    data_bits: Option<u8>,
    stop_bits: Option<u8>,
    parity: Option<Seq<char>>,
)
    ensures
        ({
            let plan = setting_plan(baud_rate, data_bits, stop_bits, parity);
            &&& forall|i: int|
                0 <= i < plan.settings.len() ==> match #[trigger] plan.settings[i] {
                    Setting::BaudRate(b) => baud_rate == Some(b),
                    Setting::DataBits(n) => data_bits == Some(n) && 5 <= n <= 8,
                    Setting::StopBits(n) => stop_bits == Some(n) && 1 <= n <= 2,
                    Setting::Parity(_) => parity is Some,
                }
            &&& plan.complaint is None ==> plan.settings.len() == (if baud_rate is Some {
                1int
            } else {
                0
            }) + (if data_bits is Some {
                1int
            } else {
                0
            }) + (if stop_bits is Some {
                1int
            } else {
                0
            }) + (if parity is Some {
                1int
            } else {
                0
            })
        }),
{
}

/// Clients are told all that the system says of a USB port, each part as what it is, and
/// of any other port its path and what it is attached by.
pub proof fn law_ports_are_told_in_full(path: String, attachment: Attachment)
    ensures
        ({
            let told = described(path, attachment);
            &&& told.path == path
            &&& attachment matches Attachment::Usb {
                vid,
                pid,
                serial_number,
                manufacturer,
                product,
            } ==> told.port_type is UsbSerial && told.vid == Some(vid) && told.pid == Some(pid)
                && told.serial_number == serial_number && told.manufacturer == manufacturer
                && told.product == product
            &&& !(attachment is Usb) ==> told.vid is None && told.pid is None
                && told.serial_number is None && told.manufacturer is None && told.product is None
            &&& attachment is Bluetooth ==> told.port_type is Bluetooth
            &&& attachment is Pci ==> told.port_type is Pci
            &&& attachment is Unknown ==> told.port_type is Unknown
        }),
{
}

/// A port is busy exactly if the error, in small letters, has "busy" or "resource" in it.
pub proof fn law_what_busy_is(error: Seq<char>)
    ensures
        is_busy(error) <==> {
            ||| exists|a: Seq<char>, b: Seq<char>| lower(error) == #[trigger] (a + "busy"@ + b)
            ||| exists|a: Seq<char>, b: Seq<char>| lower(error) == #[trigger] (a + "resource"@
                + b)
        },
{
    law_what_occurs_is_mentioned(lower(error), "busy"@);
    law_what_occurs_is_mentioned(lower(error), "resource"@);
}

/// The first attempt is at the port and the rate that were asked for, once an open port is
/// stopped and released. A port that is busy is tried again 150 ms later, the same one at
/// the same rate, until the fourth attempt; every failure that is reported names the port.
pub proof fn law_attempts_are_at_what_was_asked_for(
    port_open: bool,
    path: Seq<char>,
    baud_rate: u32,
    opening: PortOpeningView,
    e: Seq<char>,
)
    ensures
        first_attempt(port_open, path, baud_rate).path == path,
        first_attempt(port_open, path, baud_rate).baud_rate == baud_rate,
        first_attempt(port_open, path, baud_rate).attempt == 1,
        first_attempt(port_open, path, baud_rate).closing is StopAndRelease <==> port_open,
        after_attempt(opening, None) is Opened,
        !is_busy(e) ==> after_attempt(opening, Some(e)) == (OpenStepView::Fail {
            error: "Failed to open port "@ + opening.path + ": "@ + e,
        }),
        is_busy(e) && opening.attempt >= 4 ==> after_attempt(opening, Some(e)) == (
        OpenStepView::WaitAndFail {
            millis: 150,
            error: "Failed to open port "@ + opening.path + ": "@ + e,
        }),
        is_busy(e) && opening.attempt < 4 ==> (after_attempt(opening, Some(e))
            matches OpenStepView::Retry { millis, opening: next } && millis == 150 && next.path
            == opening.path && next.baud_rate == opening.baud_rate && next.attempt
            == opening.attempt + 1 && next.closing is Nothing),
{
}

/// A parity is set to what its name says, in letters of either case; any other name is
/// complained about and sets nothing.
pub proof fn law_parities_are_set_by_name(
    baud_rate: Option<u32>,
    data_bits: Option<u8>,
    stop_bits: Option<u8>,
    parity: Seq<char>,
)
    requires
        data_bits matches Some(n) ==> 5 <= n <= 8,
        stop_bits matches Some(n) ==> 1 <= n <= 2,
    ensures
        ({
            let plan = setting_plan(baud_rate, data_bits, stop_bits, Some(parity));
            let without = setting_plan(baud_rate, data_bits, stop_bits, None);
            &&& without.complaint is None
            &&& same_ignoring_case(parity, "none"@) ==> plan.complaint is None && plan.settings
                == without.settings.push(Setting::Parity(LineParity::Off))
            &&& same_ignoring_case(parity, "odd"@) ==> plan.complaint is None && plan.settings
                == without.settings.push(Setting::Parity(LineParity::Odd))
            &&& same_ignoring_case(parity, "even"@) ==> plan.complaint is None && plan.settings
                == without.settings.push(Setting::Parity(LineParity::Even))
            &&& !same_ignoring_case(parity, "none"@) && !same_ignoring_case(parity, "odd"@)
                && !same_ignoring_case(parity, "even"@) ==> plan.settings == without.settings
                && plan.complaint == Some("Invalid parity: "@ + parity)
        }),
{
    let plan = setting_plan(baud_rate, data_bits, stop_bits, Some(parity));
    let without = setting_plan(baud_rate, data_bits, stop_bits, None);
    reveal_strlit("none");
    reveal_strlit("odd");
    reveal_strlit("even");
    law_case_is_ignored_letter_by_letter(parity, "none"@);
    law_case_is_ignored_letter_by_letter(parity, "odd"@);
    law_case_is_ignored_letter_by_letter(parity, "even"@);
    if same_ignoring_case(parity, "none"@) && same_ignoring_case(parity, "even"@) {
        assert(crate::text::same_letter(parity[0], "none"@[0]));
        assert(crate::text::same_letter(parity[0], "even"@[0]));
    }
    assert(without.settings + Seq::<Setting>::empty() =~= without.settings);
    assert(plan.settings =~= without.settings + parity_setting(Some(parity))->Ok_0
        || plan.complaint is Some);
    assert(without.settings =~= baud_setting(baud_rate) + data_setting(data_bits)->Ok_0
        + stop_setting(stop_bits)->Ok_0);
}

/// The rate, the data bits and the stop bits are set as they are asked for, in this order;
/// a number of bits that no line has is complained about, and nothing after it is set.
pub proof fn law_numbers_are_set_as_asked(
    baud: u32,
    bits: u8,
    stop: u8,
    data_bits: Option<u8>,
    stop_bits: Option<u8>,
    parity: Option<Seq<char>>,
)
    ensures
        5 <= bits <= 8 && 1 <= stop <= 2 ==> setting_plan(
            Some(baud),
            Some(bits),
            Some(stop),
            None,
        ) == (SettingPlanView {
            settings: seq![
                Setting::BaudRate(baud),
                Setting::DataBits(bits),
                Setting::StopBits(stop),
            ],
            complaint: None,
        }),
        !(5 <= bits <= 8) ==> setting_plan(Some(baud), Some(bits), stop_bits, parity) == (
        SettingPlanView {
            settings: seq![Setting::BaudRate(baud)],
            complaint: Some("Invalid data bits: "@ + decimal(bits as nat)),
        }),
        (data_bits matches Some(n) ==> 5 <= n <= 8) && !(1 <= stop <= 2) ==> setting_plan(
            None,
            data_bits,
            Some(stop),
            parity,
        ).complaint == Some("Invalid stop bits: "@ + decimal(stop as nat)),
        setting_plan(None, None, None, None) == (SettingPlanView {
            settings: Seq::empty(),
            complaint: None,
        }),
        setting_plan(Some(baud), None, None, None).settings == seq![Setting::BaudRate(baud)],
{
    let all = setting_plan(Some(baud), Some(bits), Some(stop), None).settings;
    if 5 <= bits <= 8 && 1 <= stop <= 2 {
        assert(all =~= seq![
            Setting::BaudRate(baud),
            Setting::DataBits(bits),
            Setting::StopBits(stop),
        ]);
    }
    assert(setting_plan(None, None, None, None).settings =~= Seq::<Setting>::empty());
    assert(setting_plan(Some(baud), None, None, None).settings =~= seq![Setting::BaudRate(baud)]);
}

/// Settings go by these names.
pub proof fn law_settings_have_names(baud: u32, bits: u8, parity: LineParity)
    ensures
        setting_name(Setting::BaudRate(baud)) == "baud rate"@,
        setting_name(Setting::DataBits(bits)) == "data bits"@,
        setting_name(Setting::StopBits(bits)) == "stop bits"@,
        setting_name(Setting::Parity(parity)) == "parity"@,
{
}

/// What was read is passed on, from the first byte to the last that was read, and the count
/// of idle reads begins anew; the end of the port and an error stop the reading; after
/// every twentieth read in a row that brought nothing the device is looked for.
pub proof fn law_reads_of_the_port(idle_ticks: u64, read: PortRead)
    requires
        idle_ticks < u64::MAX,
    ensures
        ({
            let (ticks, step) = after_port_read(idle_ticks, read);
            &&& read matches PortRead::Bytes { buffer, n } ==> {
                &&& n == 0 ==> step == (ReaderStepView::Stop { reason: "EOF"@ })
                &&& 0 < n <= buffer@.len() ==> ticks == 0 && (step
                    matches ReaderStepView::Forward { data } && data.len() == n && forall|i: int|
                    0 <= i < n ==> #[trigger] data[i] == buffer@[i])
                &&& n > buffer@.len() && n > 0 ==> step == (ReaderStepView::Stop {
                    reason: "Buffer error"@,
                })
            }
            &&& read matches PortRead::Failed { error } ==> step == (ReaderStepView::Stop {
                reason: "Read error: "@ + error@,
            })
            &&& read is TimedOut ==> ticks == idle_ticks + 1 && (step is Look <==> (idle_ticks
                + 1) % 20 == 0) && (step is Read <==> (idle_ticks + 1) % 20 != 0)
        }),
{
}

/// The ports that the system lists are all told, in its order, each with its own path and
/// attachment.
pub proof fn law_all_ports_are_told(
    ports: Vec<(String, Attachment)>,
    r: Result<Vec<PortInfo>, String>,
)
    requires
        call_ensures(SerialManager::list_ports, (Ok(ports),), r),
    ensures
        r matches Ok(told) && told@.len() == ports@.len() && forall|i: int|
            0 <= i < told@.len() ==> #[trigger] told@[i] == described(ports@[i].0, ports@[i].1)
                && told@[i].path == ports@[i].0,
{
}

/// A port counts as open from the attempt that succeeds until it is closed, or another is
/// to be opened; while none is open, nothing can be done with it.
pub proof fn law_manager_knows_whether_a_port_is_open(
    m: &mut SerialManager,
    path: &str,
    baud_rate: u32,
    opened: PortOpening,
    closed: CloseStep,
    opening: PortOpening,
    outcome: Result<(), String>,
    step: OpenStep,
    required: Result<(), String>,
    open: bool,
)
    ensures
        call_ensures(SerialManager::open, (m, path, baud_rate), opened) ==> !final(m).port_open
            && opened.path@ == path@ && opened.baud_rate == baud_rate && opened.attempt == 1 && (
        opened.closing is StopAndRelease <==> old(m).port_open),
        call_ensures(SerialManager::close, (m,), closed) ==> !final(m).port_open && (closed
            is StopAndRelease <==> old(m).port_open),
        call_ensures(SerialManager::tried, (m, opening, outcome), step) ==> {
            &&& outcome is Ok ==> final(m).port_open && step@ is Opened
            &&& outcome is Err ==> final(m).port_open == old(m).port_open && !(step@ is Opened)
            &&& outcome matches Err(e) ==> step@ == after_attempt(opening@, Some(e@))
        },
        call_ensures(SerialManager::require_open, (&*old(m),), required) ==> (required is Ok <==>
            old(m).port_open) && (required matches Err(e) ==> e@ == "No port open"@),
        call_ensures(SerialManager::is_open, (&*old(m),), open) ==> open == old(m).port_open,
{
}

/// What was written is told by its length, and a failure by its words; data that cannot be
/// passed on, and a device that is gone, stop the reading.
pub proof fn law_writing_and_reading_are_told(
    len: usize,
    outcome: Result<(), String>,
    r: Result<usize, String>,
    reader: &mut PortReader,
    read: PortRead,
    step: ReaderStep,
    yes: bool,
    forwarded: ReaderStep,
    looked: ReaderStep,
)
    requires
        call_ensures(SerialManager::write_result, (len, outcome), r),
        call_ensures(PortReader::take, (reader, read), step),
        call_ensures(PortReader::forwarded, (&*old(reader), yes), forwarded),
        call_ensures(PortReader::looked, (&*old(reader), yes), looked),
    ensures
        outcome is Ok ==> r == Ok::<usize, String>(len),
        outcome matches Err(e) ==> (r matches Err(t) && t@ == "Failed to write: "@ + e@),
        (final(reader).idle_ticks, step@) == after_port_read(old(reader).idle_ticks, read),
        forwarded@ is Read <==> yes,
        looked@ is Read <==> yes,
        !yes ==> forwarded@ == (ReaderStepView::Stop { reason: "Channel closed"@ }),
        !yes ==> looked@ == (ReaderStepView::Stop { reason: "Device removed"@ }),
{
}

/// Settings are planned as the model has them, and one that could not be made is named.
pub proof fn law_settings_are_planned(
    baud_rate: Option<u32>,
    data_bits: Option<u8>,
    stop_bits: Option<u8>,
    parity: Option<String>,
    r: SettingPlan,
    setting: Setting,
    error: &str,
    text: String,
)
    requires
        call_ensures(plan_settings, (baud_rate, data_bits, stop_bits, parity), r),
        call_ensures(setting_failure, (setting, error), text),
    ensures
        r@ == setting_plan(baud_rate, data_bits, stop_bits, opt_text(parity)),
        r.settings@ == r@.settings,
        r.complaint is None <==> r@.complaint is None,
        text@ == "Failed to set "@ + setting_name(setting) + ": "@ + error@,
{
}

} // verus!
