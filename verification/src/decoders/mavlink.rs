//! MAVLink packets of both versions, found in a stream of bytes.
use vstd::prelude::*;

use crate::float::{
    double_quotient, law_different_numbers_have_different_quotients, widened, Double, Single,
};
use crate::text::same_text;
use crate::types::{
    bare_event, events_view, tells, with, DecodedEvent, Decoder, EventView, Frame, FrameView,
    Value, ValueView,
};

verus! {

/// The bytes kept at most between frames.
pub const MAX_BUFFER_SIZE: usize = 1024;

/// Without a magic byte in it, a buffer longer than this is dropped.
pub const GARBAGE_SKIP_THRESHOLD: usize = 200;

/// The version of a packet.
#[derive(Debug, Clone, Copy, PartialEq, Eq, Structural)]
pub enum MavVersion {
    V1,
    V2,
}

/// The head of a packet, and the name of its message.
#[derive(Debug)]
pub struct MavSummary {
    pub system_id: u8,
    pub component_id: u8,
    pub sequence: u8,
    pub name: String,
}

/// The head of a packet, with the name as a character sequence.
pub struct MavSummaryView {
    pub system_id: u8,
    pub component_id: u8,
    pub sequence: u8,
    pub name: Seq<char>,
}

impl View for MavSummary {
    type V = MavSummaryView;

    open spec fn view(&self) -> MavSummaryView {
        MavSummaryView {
            system_id: self.system_id,
            component_id: self.component_id,
            sequence: self.sequence,
            name: self.name@,
        }
    }
}

/// What a HEARTBEAT says.
#[derive(Debug)]
pub struct Heartbeat {
    pub mavtype: String,
    pub autopilot: String,
    pub base_mode: String,
    pub system_status: String,
    pub mavlink_version: u8,
}

/// What a HEARTBEAT says, with its texts as character sequences.
pub struct HeartbeatView {
    pub mavtype: Seq<char>,
    pub autopilot: Seq<char>,
    pub base_mode: Seq<char>,
    pub system_status: Seq<char>,
    pub mavlink_version: u8,
}

impl View for Heartbeat {
    type V = HeartbeatView;

    open spec fn view(&self) -> HeartbeatView {
        HeartbeatView {
            mavtype: self.mavtype@,
            autopilot: self.autopilot@,
            base_mode: self.base_mode@,
            system_status: self.system_status@,
            mavlink_version: self.mavlink_version,
        }
    }
}

/// What an ATTITUDE says.
#[derive(Debug, Clone, Copy)]
pub struct Attitude {
    pub roll: Single,
    pub pitch: Single,
    pub yaw: Single,
}

/// What a GLOBAL_POSITION_INT says: degrees in units of 1e-7, heights in millimetres.
#[derive(Debug, Clone, Copy)]
pub struct GlobalPosition {
    pub lat: i32,
    pub lon: i32,
    pub alt: i32,
    pub relative_alt: i32,
}

/// What a GPS_RAW_INT says: degrees in units of 1e-7, heights in millimetres.
#[derive(Debug)]
pub struct GpsRaw {
    pub fix_type: String,
    pub lat: i32,
    pub lon: i32,
    pub alt: i32,
    pub satellites_visible: u8,
}

/// What a GPS_RAW_INT says, with its text as a character sequence.
pub struct GpsRawView {
    pub fix_type: Seq<char>,
    pub lat: i32,
    pub lon: i32,
    pub alt: i32,
    pub satellites_visible: u8,
}

impl View for GpsRaw {
    type V = GpsRawView;

    open spec fn view(&self) -> GpsRawView {
        GpsRawView {
            fix_type: self.fix_type@,
            lat: self.lat,
            lon: self.lon,
            alt: self.alt,
            satellites_visible: self.satellites_visible,
        }
    }
}

/// What a SYS_STATUS says: millivolts, units of 10 mA, percent, and load in
/// tenths of a percent.
#[derive(Debug, Clone, Copy)]
pub struct SysStatus {
    pub voltage_battery: u16,
    pub current_battery: i16,
    pub battery_remaining: i8,
    pub load: u16,
}

/// The head of the first packet of that version in the bytes, as the `mavlink`
/// crate reads it; `None` if it finds none that is whole, has a valid checksum and
/// can be parsed.
pub uninterp spec fn packet_summary(version: MavVersion, bytes: Seq<u8>) -> Option<MavSummaryView>;

/// What that packet says, if it is a HEARTBEAT.
pub uninterp spec fn packet_heartbeat(version: MavVersion, bytes: Seq<u8>) -> Option<HeartbeatView>;

/// What that packet says, if it is an ATTITUDE.
pub uninterp spec fn packet_attitude(version: MavVersion, bytes: Seq<u8>) -> Option<Attitude>;

/// What that packet says, if it is a GLOBAL_POSITION_INT.
pub uninterp spec fn packet_position(version: MavVersion, bytes: Seq<u8>) -> Option<GlobalPosition>;

/// What that packet says, if it is a GPS_RAW_INT.
pub uninterp spec fn packet_gps(version: MavVersion, bytes: Seq<u8>) -> Option<GpsRawView>;

/// What that packet says, if it is a SYS_STATUS.
pub uninterp spec fn packet_status(version: MavVersion, bytes: Seq<u8>) -> Option<SysStatus>;

/// `mavlink::read_versioned_msg` on the bytes, with the messages of the common
/// dialect: the ids and the sequence number of the packet's head, and the name of
/// its message. The result depends on the version and the bytes alone.
#[verifier::external_body]
pub(crate) fn read_summary(version: MavVersion, bytes: &[u8]) -> (r: Option<MavSummary>)
    ensures
        match r {
            Some(s) => packet_summary(version, bytes@) == Some(s@),
            None => packet_summary(version, bytes@) is None,
        },
{
    let version = match version {
        MavVersion::V1 => mavlink::MavlinkVersion::V1,
        MavVersion::V2 => mavlink::MavlinkVersion::V2,
    };
    let mut reader = mavlink::peek_reader::PeekReader::new(bytes);
    let (header, body): (mavlink::MavHeader, mavlink::common::MavMessage) =
        mavlink::read_versioned_msg(&mut reader, mavlink::ReadVersion::Single(version)).ok()?;
    Some(MavSummary {
        system_id: header.system_id,
        component_id: header.component_id,
        sequence: header.sequence,
        name: mavlink::Message::message_name(&body).to_owned(),
    })
}

/// `mavlink::read_versioned_msg` on the bytes: the fields of a HEARTBEAT, its
/// enumerations by the names that `Debug` prints; `None` for anything else.
#[verifier::external_body]
fn read_heartbeat(version: MavVersion, bytes: &[u8]) -> (r: Option<Heartbeat>)
    ensures
        match r {
            Some(h) => packet_heartbeat(version, bytes@) == Some(h@),
            None => packet_heartbeat(version, bytes@) is None,
        },
{
    let version = match version {
        MavVersion::V1 => mavlink::MavlinkVersion::V1,
        MavVersion::V2 => mavlink::MavlinkVersion::V2,
    };
    let mut reader = mavlink::peek_reader::PeekReader::new(bytes);
    match mavlink::read_versioned_msg(&mut reader, mavlink::ReadVersion::Single(version)) {
        Ok((_, mavlink::common::MavMessage::HEARTBEAT(m))) => Some(Heartbeat {
            mavtype: format!("{:?}", m.mavtype),
            autopilot: format!("{:?}", m.autopilot),
            base_mode: format!("{:?}", m.base_mode),
            system_status: format!("{:?}", m.system_status),
            mavlink_version: m.mavlink_version }),
        _ => None }
}

/// `mavlink::read_versioned_msg` on the bytes: the fields of an ATTITUDE, by their
/// bit patterns; `None` for anything else.
#[verifier::external_body]
fn read_attitude(version: MavVersion, bytes: &[u8]) -> (r: Option<Attitude>)
    ensures
        r == packet_attitude(version, bytes@),
{
    let version = match version {
        MavVersion::V1 => mavlink::MavlinkVersion::V1,
        MavVersion::V2 => mavlink::MavlinkVersion::V2,
    };
    let mut reader = mavlink::peek_reader::PeekReader::new(bytes);
    match mavlink::read_versioned_msg(&mut reader, mavlink::ReadVersion::Single(version)) {
        Ok((_, mavlink::common::MavMessage::ATTITUDE(m))) => Some(Attitude {
            roll: Single { bits: m.roll.to_bits() },
            pitch: Single { bits: m.pitch.to_bits() },
            yaw: Single { bits: m.yaw.to_bits() },
        }),
        _ => None,
    }
}

/// `mavlink::read_versioned_msg` on the bytes: the fields of a
/// GLOBAL_POSITION_INT; `None` for anything else.
#[verifier::external_body]
fn read_position(version: MavVersion, bytes: &[u8]) -> (r: Option<GlobalPosition>)
    ensures
        r == packet_position(version, bytes@),
{
    let version = match version {
        MavVersion::V1 => mavlink::MavlinkVersion::V1,
        MavVersion::V2 => mavlink::MavlinkVersion::V2,
    };
    let mut reader = mavlink::peek_reader::PeekReader::new(bytes);
    match mavlink::read_versioned_msg(&mut reader, mavlink::ReadVersion::Single(version)) {
        Ok((_, mavlink::common::MavMessage::GLOBAL_POSITION_INT(m))) => Some(GlobalPosition {
            lat: m.lat,
            lon: m.lon,
            alt: m.alt,
            relative_alt: m.relative_alt }),
        _ => None,
    }
}

/// `mavlink::read_versioned_msg` on the bytes: the fields of a GPS_RAW_INT, its
/// fix type by the name that `Debug` prints; `None` for anything else.
#[verifier::external_body]
fn read_gps(version: MavVersion, bytes: &[u8]) -> (r: Option<GpsRaw>)
    ensures
        match r {
            Some(g) => packet_gps(version, bytes@) == Some(g@),
            None => packet_gps(version, bytes@) is None,
        },
{
    let version = match version {
        MavVersion::V1 => mavlink::MavlinkVersion::V1,
        MavVersion::V2 => mavlink::MavlinkVersion::V2,
    };
    let mut reader = mavlink::peek_reader::PeekReader::new(bytes);
    match mavlink::read_versioned_msg(&mut reader, mavlink::ReadVersion::Single(version)) {
        Ok((_, mavlink::common::MavMessage::GPS_RAW_INT(m))) => Some(GpsRaw {
            fix_type: format!("{:?}", m.fix_type),
            lat: m.lat,
            lon: m.lon,
            alt: m.alt,
            satellites_visible: m.satellites_visible }),
        _ => None }
}

/// `mavlink::read_versioned_msg` on the bytes: the fields of a SYS_STATUS; `None`
/// for anything else.
#[verifier::external_body]
fn read_status(version: MavVersion, bytes: &[u8]) -> (r: Option<SysStatus>)
    ensures
        r == packet_status(version, bytes@),
{
    let version = match version {
        MavVersion::V1 => mavlink::MavlinkVersion::V1,
        MavVersion::V2 => mavlink::MavlinkVersion::V2,
    };
    let mut reader = mavlink::peek_reader::PeekReader::new(bytes);
    match mavlink::read_versioned_msg(&mut reader, mavlink::ReadVersion::Single(version)) {
        Ok((_, mavlink::common::MavMessage::SYS_STATUS(m))) => Some(SysStatus {
            voltage_battery: m.voltage_battery,
            current_battery: m.current_battery,
            battery_remaining: m.battery_remaining,
            load: m.load }),
        _ => None,
    }
}

/// A byte that begins a packet.
pub open spec fn is_magic(b: u8) -> bool {
    b == 0xFE || b == 0xFD
}

/// The position, from `from` on, of the first byte that begins a packet; the
/// length of `bytes` if there is none.
pub open spec fn magic_position(bytes: Seq<u8>, from: int) -> int
    decreases bytes.len() - from,
{
    if from >= bytes.len() {
        bytes.len() as int
    } else if is_magic(bytes[from]) {
        from
    } else {
        magic_position(bytes, from + 1)
    }
}

/// The version that a magic byte stands for.
pub open spec fn version_of(magic: u8) -> MavVersion {
    if magic == 0xFE {
        MavVersion::V1
    } else {
        MavVersion::V2
    }
}

/// The length of the packet that begins `bytes`, by its head: header, payload and
/// checksum, and 13 more for the signature of a signed packet of version 2.
pub open spec fn packet_length(bytes: Seq<u8>) -> int {
    if bytes[0] == 0xFE {
        8 + bytes[1]
    } else if bytes[2] % 2 == 1 {
        25 + bytes[1]
    } else {
        12 + bytes[1]
    }
}

/// A whole number as a field.
pub open spec fn whole(n: int) -> ValueView {
    ValueView::I64(n as i64)
}

/// A ratio as a field.
pub open spec fn ratio(num: int, den: nat) -> ValueView {
    ValueView::F64(Double { bits: double_quotient(num, den) as u64 })
}

/// A single-precision value as a field.
pub open spec fn widened_field(v: Single) -> ValueView {
    ValueView::F64(Double { bits: widened(v.bits) as u64 })
}

pub open spec fn with_heartbeat(e: EventView, h: HeartbeatView) -> EventView {
    let e = with(e, "type"@, ValueView::Text(h.mavtype));
    let e = with(e, "autopilot"@, ValueView::Text(h.autopilot));
    let e = with(e, "base_mode"@, ValueView::Text(h.base_mode));
    let e = with(e, "system_status"@, ValueView::Text(h.system_status));
    with(e, "mavlink_version"@, whole(h.mavlink_version as int))
}

pub open spec fn with_attitude(e: EventView, a: Attitude) -> EventView {
    let e = with(e, "roll"@, widened_field(a.roll));
    let e = with(e, "pitch"@, widened_field(a.pitch));
    with(e, "yaw"@, widened_field(a.yaw))
}

pub open spec fn with_position(e: EventView, p: GlobalPosition) -> EventView {
    let e = with(e, "lat"@, ratio(p.lat as int, 10_000_000));
    let e = with(e, "lon"@, ratio(p.lon as int, 10_000_000));
    let e = with(e, "alt"@, ratio(p.alt as int, 1000));
    with(e, "relative_alt"@, ratio(p.relative_alt as int, 1000))
}

pub open spec fn with_gps(e: EventView, g: GpsRawView) -> EventView {
    let e = with(e, "fix_type"@, ValueView::Text(g.fix_type));
    let e = with(e, "lat"@, ratio(g.lat as int, 10_000_000));
    let e = with(e, "lon"@, ratio(g.lon as int, 10_000_000));
    let e = with(e, "alt"@, ratio(g.alt as int, 1000));
    with(e, "satellites_visible"@, whole(g.satellites_visible as int))
}

pub open spec fn with_status(e: EventView, s: SysStatus) -> EventView {
    let e = with(e, "voltage_battery"@, ratio(s.voltage_battery as int, 1000));
    let e = with(e, "current_battery"@, whole(s.current_battery as int));
    let e = with(e, "battery_remaining"@, whole(s.battery_remaining as int));
    with(e, "load"@, ratio(s.load as int, 10))
}

/// What a packet says beyond its head, by the kind of its message.
#[derive(Debug)]
pub enum MavBody {
    Heartbeat(Heartbeat),
    Attitude(Attitude),
    Position(GlobalPosition),
    Gps(GpsRaw),
    Status(SysStatus),
    /// A message whose fields are not shown.
    Opaque,
}

/// A packet's body, with its texts as character sequences.
pub enum MavBodyView {
    Heartbeat(HeartbeatView),
    Attitude(Attitude),
    Position(GlobalPosition),
    Gps(GpsRawView),
    Status(SysStatus),
    Opaque,
}

impl View for MavBody {
    type V = MavBodyView;

    open spec fn view(&self) -> MavBodyView {
        match *self {
            MavBody::Heartbeat(h) => MavBodyView::Heartbeat(h@),
            MavBody::Attitude(a) => MavBodyView::Attitude(a),
            MavBody::Position(p) => MavBodyView::Position(p),
            MavBody::Gps(g) => MavBodyView::Gps(g@),
            MavBody::Status(s) => MavBodyView::Status(s),
            MavBody::Opaque => MavBodyView::Opaque,
        }
    }
}

/// The body of a packet whose message has this name.
pub open spec fn packet_body(
    version: MavVersion,
    bytes: Seq<u8>,
    name: Seq<char>,
) -> MavBodyView {
    if name == "HEARTBEAT"@ {
        match packet_heartbeat(version, bytes) {
            Some(h) => MavBodyView::Heartbeat(h),
            None => MavBodyView::Opaque,
        }
    } else if name == "ATTITUDE"@ {
        match packet_attitude(version, bytes) {
            Some(a) => MavBodyView::Attitude(a),
            None => MavBodyView::Opaque,
        }
    } else if name == "GLOBAL_POSITION_INT"@ {
        match packet_position(version, bytes) {
            Some(p) => MavBodyView::Position(p),
            None => MavBodyView::Opaque,
        }
    } else if name == "GPS_RAW_INT"@ {
        match packet_gps(version, bytes) {
            Some(g) => MavBodyView::Gps(g),
            None => MavBodyView::Opaque,
        }
    } else if name == "SYS_STATUS"@ {
        match packet_status(version, bytes) {
            Some(s) => MavBodyView::Status(s),
            None => MavBodyView::Opaque,
        }
    } else {
        MavBodyView::Opaque
    }
}

/// The event for a packet: its head, what its message says, and its version.
pub open spec fn message_event(
    timestamp_us: u64,
    version: MavVersion,
    head: MavSummaryView,
    body: MavBodyView,
) -> EventView {
    let e = bare_event(timestamp_us, "MAVLink"@, head.name);
    let e = with(e, "sys_id"@, whole(head.system_id as int));
    let e = with(e, "comp_id"@, whole(head.component_id as int));
    let e = with(e, "seq"@, whole(head.sequence as int));
    let e = match body {
        MavBodyView::Heartbeat(h) => with_heartbeat(e, h),
        MavBodyView::Attitude(a) => with_attitude(e, a),
        MavBodyView::Position(p) => with_position(e, p),
        MavBodyView::Gps(g) => with_gps(e, g),
        MavBodyView::Status(s) => with_status(e, s),
        MavBodyView::Opaque => e,
    };
    with(
        e,
        "version"@,
        ValueView::Text(
            match version {
                MavVersion::V1 => "v1"@,
                MavVersion::V2 => "v2"@,
            },
        ),
    )
}

/// The event of the packet that makes up `bytes`, if it is one.
pub open spec fn packet_event(
    timestamp_us: u64,
    version: MavVersion,
    bytes: Seq<u8>,
) -> Option<EventView> {
    match packet_summary(version, bytes) {
        Some(head) => Some(
            message_event(timestamp_us, version, head, packet_body(version, bytes, head.name)),
        ),
        None => None,
    }
}

/// The bytes that wait for more, and the events of the packets before them. Bytes
/// that begin no packet are dropped; so is, up to the next magic byte, what looks
/// like a packet and is none.
pub open spec fn scanned(timestamp_us: u64, bytes: Seq<u8>) -> (Seq<u8>, Seq<EventView>)
    decreases bytes.len(),
{
    let at = magic_position(bytes, 0);
    let rest = bytes.skip(at);
    if bytes.len() < 12 {
        (bytes, Seq::empty())
    } else if !(0 <= at < bytes.len()) {
        (
            if bytes.len() > GARBAGE_SKIP_THRESHOLD {
                Seq::empty()
            } else {
                bytes
            },
            Seq::empty(),
        )
    } else if rest.len() < 2 || (rest[0] == 0xFD && rest.len() < 3) || rest.len() < packet_length(
        rest,
    ) {
        (rest, Seq::empty())
    } else {
        let n = packet_length(rest);
        match packet_event(timestamp_us, version_of(rest[0]), rest.take(n)) {
            Some(event) => {
                let (left, events) = scanned(timestamp_us, rest.skip(n));
                (left, seq![event] + events)
            },
            None => {
                let next = magic_position(rest, 1);
                if 0 < next <= rest.len() {
                    scanned(timestamp_us, rest.skip(next))
                } else {
                    (rest, Seq::empty())
                }
            },
        }
    }
}

/// What a decoder that waits with `buffer` scans when `bytes` come in: everything,
/// or nothing where that would be too much.
pub open spec fn to_scan(buffer: Seq<u8>, bytes: Seq<u8>) -> Seq<u8> {
    if buffer.len() + bytes.len() > MAX_BUFFER_SIZE {
        Seq::empty()
    } else {
        buffer + bytes
    }
}

pub proof fn lemma_magic_position(bytes: Seq<u8>, from: int)
    requires
        0 <= from <= bytes.len(),
    ensures
        from <= magic_position(bytes, from) <= bytes.len(),
        magic_position(bytes, from) < bytes.len() ==> is_magic(
            bytes[magic_position(bytes, from)],
        ),
    decreases bytes.len() - from,
{
    if from < bytes.len() && !is_magic(bytes[from]) {
        lemma_magic_position(bytes, from + 1);
    }
}

/// No byte before the position that is found begins a packet.
pub proof fn lemma_magic_position_is_first(bytes: Seq<u8>, from: int, at: int)
    requires
        0 <= from <= at < bytes.len(),
        bytes[at] == 0xFE || bytes[at] == 0xFD,
    ensures
        magic_position(bytes, from) <= at,
    decreases at - from,
{
    if from < at && !is_magic(bytes[from]) {
        lemma_magic_position_is_first(bytes, from + 1, at);
    }
}

fn find_magic(bytes: &[u8], from: usize) -> (r: usize)
    requires
        from <= bytes.len(),
    ensures
        r == magic_position(bytes@, from as int),
        from <= r <= bytes.len(),
{
    proof {
        lemma_magic_position(bytes@, from as int);
    }
    let mut i: usize = from;
    while i < bytes.len()
        invariant
            from <= i <= bytes.len(),
            magic_position(bytes@, from as int) == magic_position(bytes@, i as int),
        decreases bytes.len() - i,
    {
        if bytes[i] == 0xFE || bytes[i] == 0xFD {
            return i;
        }
        i += 1;
    }
    i
}

fn read_body(version: MavVersion, bytes: &[u8], name: &str) -> (r: MavBody)
    ensures
        r@ == packet_body(version, bytes@, name@),
{
    if same_text(name, "HEARTBEAT") {
        match read_heartbeat(version, bytes) {
            Some(h) => MavBody::Heartbeat(h),
            None => MavBody::Opaque,
        }
    } else if same_text(name, "ATTITUDE") {
        match read_attitude(version, bytes) {
            Some(a) => MavBody::Attitude(a),
            None => MavBody::Opaque,
        }
    } else if same_text(name, "GLOBAL_POSITION_INT") {
        match read_position(version, bytes) {
            Some(p) => MavBody::Position(p),
            None => MavBody::Opaque,
        }
    } else if same_text(name, "GPS_RAW_INT") {
        match read_gps(version, bytes) {
            Some(g) => MavBody::Gps(g),
            None => MavBody::Opaque,
        }
    } else if same_text(name, "SYS_STATUS") {
        match read_status(version, bytes) {
            Some(s) => MavBody::Status(s),
            None => MavBody::Opaque,
        }
    } else {
        MavBody::Opaque
    }
}

/// The event for a packet that was read: its head, what its message says, and its
/// version.
pub fn parse_message(
    timestamp_us: u64,
    version: MavVersion,
    head: MavSummary,
    body: MavBody,
) -> (r: DecodedEvent)
    ensures
        r@ == message_event(timestamp_us, version, head@, body@),
{
    let event = DecodedEvent::new(timestamp_us, "MAVLink", head.name.as_str()).with_value(
        "sys_id",
        Value::I64(head.system_id as i64),
    ).with_value("comp_id", Value::I64(head.component_id as i64)).with_value(
        "seq",
        Value::I64(head.sequence as i64),
    );
    let event = match body {
        MavBody::Heartbeat(h) => event.with_value("type", Value::String(h.mavtype)).with_value(
            "autopilot",
            Value::String(h.autopilot),
        ).with_value("base_mode", Value::String(h.base_mode)).with_value(
            "system_status",
            Value::String(h.system_status),
        ).with_value("mavlink_version", Value::I64(h.mavlink_version as i64)),
        MavBody::Attitude(a) => event.with_value(
            "roll",
            Value::F64(a.roll.widen()),
        ).with_value("pitch", Value::F64(a.pitch.widen())).with_value(
            "yaw",
            Value::F64(a.yaw.widen()),
        ),
        MavBody::Position(p) => event.with_value(
            "lat",
            Value::F64(Double::quotient(p.lat, 10_000_000)),
        ).with_value("lon", Value::F64(Double::quotient(p.lon, 10_000_000))).with_value(
            "alt",
            Value::F64(Double::quotient(p.alt, 1000)),
        ).with_value("relative_alt", Value::F64(Double::quotient(p.relative_alt, 1000))),
        MavBody::Gps(g) => event.with_value("fix_type", Value::String(g.fix_type)).with_value(
            "lat",
            Value::F64(Double::quotient(g.lat, 10_000_000)),
        ).with_value("lon", Value::F64(Double::quotient(g.lon, 10_000_000))).with_value(
            "alt",
            Value::F64(Double::quotient(g.alt, 1000)),
        ).with_value("satellites_visible", Value::I64(g.satellites_visible as i64)),
        MavBody::Status(s) => event.with_value(
            "voltage_battery",
            Value::F64(Double::quotient(s.voltage_battery as i32, 1000)),
        ).with_value("current_battery", Value::I64(s.current_battery as i64)).with_value(
            "battery_remaining",
            Value::I64(s.battery_remaining as i64),
        ).with_value("load", Value::F64(Double::quotient(s.load as i32, 10))),
        MavBody::Opaque => event,
    };
    let version_text = match version {
        MavVersion::V1 => "v1",
        MavVersion::V2 => "v2",
    };
    event.with_value("version", Value::String(version_text.to_owned()))
}

/// Reads the packet that makes up `bytes`.
fn read_event(timestamp_us: u64, version: MavVersion, bytes: &[u8]) -> (r: Option<DecodedEvent>)
    ensures
        match r {
            Some(e) => packet_event(timestamp_us, version, bytes@) == Some(e@),
            None => packet_event(timestamp_us, version, bytes@) is None,
        },
{
    match read_summary(version, bytes) {
        Some(head) => {
            let body = read_body(version, bytes, head.name.as_str());
            Some(parse_message(timestamp_us, version, head, body))
        },
        None => None,
    }
}

/// Finds packets in a stream of bytes, across frames.
#[derive(Debug)]
pub struct MavlinkDecoder {
    /// Bytes that wait for more.
    pub buffer: Vec<u8>,
}

impl MavlinkDecoder {
    /// A decoder that waits with nothing.
    pub fn new() -> (r: MavlinkDecoder)
        ensures
            r.buffer@.len() == 0,
    {
        MavlinkDecoder { buffer: Vec::new() }
    }
}

impl Default for MavlinkDecoder {
    fn default() -> (r: MavlinkDecoder)
        ensures
            r.buffer@.len() == 0,
    {
        MavlinkDecoder::new()
    }
}

/// How many bytes to drop where the first of `bytes` begins no packet: all up to
/// the next magic byte.
pub fn resync(bytes: &[u8]) -> (r: usize)
    requires
        bytes@.len() > 0,
    ensures
        r == magic_position(bytes@, 1),
        1 <= r <= bytes@.len(),
{
    find_magic(bytes, 1)
}

/// Scans `bytes`: appends the events, and returns what waits for more.
fn scan<'a>(timestamp_us: u64, bytes: &'a [u8], results: &mut Vec<DecodedEvent>) -> (r: &'a [u8])
    ensures
        r@ == scanned(timestamp_us, bytes@).0,
        events_view(final(results)@) == events_view(old(results)@) + scanned(
            timestamp_us,
            bytes@,
        ).1,
        final(results)@.len() >= old(results)@.len(),
        final(results)@.take(old(results)@.len() as int) == old(results)@,
{
    let ghost target = scanned(timestamp_us, bytes@);
    let ghost given = results@;
    let mut rest: &'a [u8] = bytes;
    assert(results@.take(given.len() as int) =~= given);
    while rest.len() >= 12
        invariant_except_break
            target.0 == scanned(timestamp_us, rest@).0,
            events_view(given) + target.1 == events_view(results@) + scanned(
                timestamp_us,
                rest@,
            ).1,
        invariant
            results@.len() >= given.len(),
            results@.take(given.len() as int) == given,
        ensures
            target.0 == rest@,
            events_view(given) + target.1 == events_view(results@),
        decreases rest.len(),
    {
        let ghost here = rest@;
        let at = find_magic(rest, 0);
        if at == rest.len() {
            if rest.len() > GARBAGE_SKIP_THRESHOLD {
                rest = vstd::slice::slice_subrange(rest, at, at);
                assert(rest@ =~= Seq::<u8>::empty());
            }
            assert(events_view(results@) + Seq::<EventView>::empty() =~= events_view(results@));
            break;
        }
        rest = vstd::slice::slice_subrange(rest, at, rest.len());
        assert(rest@ =~= here.skip(at as int));
        proof {
            lemma_magic_position(here, 0);
        }
        assert(events_view(results@) + Seq::<EventView>::empty() =~= events_view(results@));
        if rest.len() < 2 || (rest[0] == 0xFD && rest.len() < 3) {
            break;
        }
        let payload = rest[1] as usize;
        let total: usize = if rest[0] == 0xFE {
            8 + payload
        } else if rest[2] % 2 == 1 {
            25 + payload
        } else {
            12 + payload
        };
        assert(total == packet_length(rest@));
        if rest.len() < total {
            break;
        }
        let version = if rest[0] == 0xFE {
            MavVersion::V1
        } else {
            MavVersion::V2
        };
        let packet = vstd::slice::slice_subrange(rest, 0, total);
        assert(packet@ =~= rest@.take(total as int));
        let ghost there = rest@;
        match read_event(timestamp_us, version, packet) {
            Some(event) => {
                let ghost seen = event@;
                let ghost sent = results@;
                results.push(event);
                assert(events_view(results@) =~= events_view(sent).push(seen));
                assert(results@.take(given.len() as int) =~= sent.take(given.len() as int));
                rest = vstd::slice::slice_subrange(rest, total, rest.len());
                assert(rest@ =~= there.skip(total as int));
                let ghost more = scanned(timestamp_us, rest@).1;
                assert(events_view(sent) + (seq![seen] + more) =~= events_view(sent).push(seen)
                    + more);
            },
            None => {
                let next = resync(rest);
                rest = vstd::slice::slice_subrange(rest, next, rest.len());
                assert(rest@ =~= there.skip(next as int));
            },
        }
    }
    rest
}

impl Decoder for MavlinkDecoder {
    open spec fn decoded(&self, frame: FrameView) -> Seq<EventView> {
        scanned(frame.timestamp_us, to_scan(self.buffer@, frame.bytes)).1
    }

    fn ingest(&mut self, frame: &Frame, results: &mut Vec<DecodedEvent>)
        ensures
            final(self).buffer@ == scanned(
                frame.timestamp_us,
                to_scan(old(self).buffer@, frame.bytes@),
            ).0,
    {
        let mut bytes: Vec<u8> = Vec::new();
        bytes.append(&mut self.buffer);
        if frame.bytes.len() > MAX_BUFFER_SIZE || bytes.len() > MAX_BUFFER_SIZE
            - frame.bytes.len() {
            bytes.clear();
        } else {
            let mut more = frame.bytes.clone();
            assert(more@ =~= frame.bytes@);
            bytes.append(&mut more);
        }
        assert(bytes@ =~= to_scan(old(self).buffer@, frame.bytes@));
        let rest = scan(frame.timestamp_us, bytes.as_slice(), results);
        self.buffer = vstd::slice::slice_to_vec(rest);
    }

    fn id(&self) -> (r: &'static str)
        ensures
            r@ == "mavlink"@,
    {
        "mavlink"
    }

    fn name(&self) -> (r: &'static str)
        ensures
            r@ == "MAVLink v1/v2"@,
    {
        "MAVLink v1/v2"
    }
}

/// What waits for more is an end of what was scanned.
pub proof fn law_waiting_bytes_are_a_suffix(timestamp_us: u64, bytes: Seq<u8>)
    ensures
        ({
            let left = scanned(timestamp_us, bytes).0;
            left.len() <= bytes.len() && left == bytes.skip(bytes.len() - left.len())
        }),
    decreases bytes.len(),
{
    let at = magic_position(bytes, 0);
    let rest = bytes.skip(at);
    lemma_magic_position(bytes, 0);
    assert(bytes.skip(0) =~= bytes);
    assert(bytes.skip(bytes.len() as int) =~= Seq::<u8>::empty());
    if bytes.len() >= 12 && at < bytes.len() {
        let n = packet_length(rest);
        if rest.len() >= 3 && rest.len() >= n {
            law_waiting_bytes_are_a_suffix(timestamp_us, rest.skip(n));
            let a = scanned(timestamp_us, rest.skip(n)).0;
            assert(rest.skip(n).skip(rest.skip(n).len() - a.len()) =~= bytes.skip(
                bytes.len() - a.len(),
            ));
            lemma_magic_position(rest, 1);
            let next = magic_position(rest, 1);
            law_waiting_bytes_are_a_suffix(timestamp_us, rest.skip(next));
            let b = scanned(timestamp_us, rest.skip(next)).0;
            assert(rest.skip(next).skip(rest.skip(next).len() - b.len()) =~= bytes.skip(
                bytes.len() - b.len(),
            ));
        }
    }
}

/// Whatever comes in, no more than a full buffer is kept waiting.
pub proof fn law_buffer_stays_bounded(timestamp_us: u64, buffer: Seq<u8>, bytes: Seq<u8>)
    ensures
        scanned(timestamp_us, to_scan(buffer, bytes)).0.len() <= MAX_BUFFER_SIZE,
{
    law_waiting_bytes_are_a_suffix(timestamp_us, to_scan(buffer, bytes));
}

/// A packet that has come only in part waits for the rest.
pub proof fn law_partial_packet_waits(timestamp_us: u64, bytes: Seq<u8>)
    requires
        bytes.len() > 0,
        is_magic(bytes[0]),
        bytes.len() < 3 || bytes.len() < packet_length(bytes),
    ensures
        scanned(timestamp_us, bytes).0 == bytes,
        scanned(timestamp_us, bytes).1.len() == 0,
{
    assert(bytes.skip(0) =~= bytes);
}

/// A packet that came in two parts makes the event that it makes in one: the first
/// part waits, and the second completes it.
pub proof fn law_split_packet_is_decoded(timestamp_us: u64, first: Seq<u8>, second: Seq<u8>)
    requires
        first.len() > 0,
        is_magic(first[0]),
        12 <= first.len() + second.len() == packet_length(first + second) <= MAX_BUFFER_SIZE,
        first.len() < 3 || first.len() < packet_length(first),
    ensures
        ({
            let waiting = scanned(timestamp_us, first).0;
            let (left, events) = scanned(timestamp_us, to_scan(waiting, second));
            match packet_event(timestamp_us, version_of(first[0]), first + second) {
                Some(event) => left.len() == 0 && events == seq![event],
                None => true,
            }
        }),
{
    law_partial_packet_waits(timestamp_us, first);
    let bytes = first + second;
    assert(bytes[0] == first[0]);
    assert(bytes.skip(0) =~= bytes);
    assert(bytes.take(bytes.len() as int) =~= bytes);
    let empty = bytes.skip(bytes.len() as int);
    assert(empty.len() == 0);
    assert(magic_position(bytes, 0) == 0);
    match packet_event(timestamp_us, version_of(first[0]), bytes) {
        Some(event) => {
            assert(scanned(timestamp_us, empty) == (empty, Seq::<EventView>::empty()));
            assert(seq![event] + Seq::<EventView>::empty() =~= seq![event]);
        },
        None => {},
    }
}

/// Bytes without a magic byte never make an event, and once there are more of
/// them than the threshold, they are dropped.
pub proof fn law_garbage_makes_no_event(timestamp_us: u64, bytes: Seq<u8>)
    requires
        forall|i: int| 0 <= i < bytes.len() ==> !is_magic(#[trigger] bytes[i]),
    ensures
        scanned(timestamp_us, bytes).1.len() == 0,
        bytes.len() > GARBAGE_SKIP_THRESHOLD ==> scanned(timestamp_us, bytes).0.len() == 0,
{
    lemma_magic_position(bytes, 0);
}

/// No two of the names are the same.
pub open spec fn names_differ(names: Seq<Seq<char>>) -> bool {
    forall|i: int, j: int| 0 <= i < j < names.len() ==> #[trigger] names[i] != #[trigger] names[j]
}

proof fn lemma_message_names_differ()
    ensures
        names_differ(seq!["HEARTBEAT"@, "ATTITUDE"@, "GLOBAL_POSITION_INT"@, "GPS_RAW_INT"@, "SYS_STATUS"@]),
{
    reveal_strlit("HEARTBEAT");
    reveal_strlit("ATTITUDE");
    reveal_strlit("GLOBAL_POSITION_INT");
    reveal_strlit("GPS_RAW_INT");
    reveal_strlit("SYS_STATUS");
    assert("HEARTBEAT"@.len() == 9);
    assert("ATTITUDE"@.len() == 8);
    assert("GLOBAL_POSITION_INT"@.len() == 19);
    assert("GPS_RAW_INT"@.len() == 11);
    assert("SYS_STATUS"@.len() == 10);
}

/// The head of the event: it names the message, has the packet's time and full confidence,
/// and tells the numbers of the packet's head and its version.
pub open spec fn tells_head(
    e: EventView,
    timestamp_us: u64,
    version: MavVersion,
    head: MavSummaryView,
) -> bool {
    &&& e.timestamp_us == timestamp_us
    &&& e.protocol == "MAVLink"@
    &&& e.summary == head.name
    &&& e.confidence.bits == 0x3F80_0000
    &&& tells(e, "sys_id"@, ValueView::I64(head.system_id as i64))
    &&& tells(e, "comp_id"@, ValueView::I64(head.component_id as i64))
    &&& tells(e, "seq"@, ValueView::I64(head.sequence as i64))
    &&& version is V1 ==> tells(e, "version"@, ValueView::Text("v1"@))
    &&& version is V2 ==> tells(e, "version"@, ValueView::Text("v2"@))
}

/// A field at a known place, whose name no other field has, is told.
proof fn lemma_told(e: EventView, names: Seq<Seq<char>>, i: int, value: ValueView)
    requires
        names_differ(names),
        names.len() == e.fields.len(),
        forall|j: int| 0 <= j < names.len() ==> (#[trigger] e.fields[j]).0 == names[j],
        0 <= i < names.len(),
        e.fields[i].1 == value,
    ensures
        tells(e, names[i], value),
{
    assert(e.fields[i] == (names[i], value));
    assert forall|j: int| 0 <= j < e.fields.len() && (#[trigger] e.fields[j]).0
        == names[i] implies e.fields[j].1 == value by {
        assert(e.fields[j].0 == names[j]);
        if j < i {
            assert(names[j] != names[i]);
        }
        if i < j {
            assert(names[i] != names[j]);
        }
    }
}

proof fn lemma_heartbeat_keys_differ()
    ensures
        names_differ(seq!["sys_id"@, "comp_id"@, "seq"@, "type"@, "autopilot"@, "base_mode"@, "system_status"@, "mavlink_version"@, "version"@]),
{
    reveal_strlit("sys_id");
    reveal_strlit("comp_id");
    reveal_strlit("seq");
    reveal_strlit("type");
    reveal_strlit("autopilot");
    reveal_strlit("base_mode");
    reveal_strlit("system_status");
    reveal_strlit("mavlink_version");
    reveal_strlit("version");
    assert("sys_id"@.len() == 6);
    assert("comp_id"@.len() == 7);
    assert("seq"@.len() == 3);
    assert("type"@.len() == 4);
    assert("autopilot"@.len() == 9);
    assert("base_mode"@.len() == 9);
    assert("system_status"@.len() == 13);
    assert("mavlink_version"@.len() == 15);
    assert("version"@.len() == 7);
    assert("autopilot"@[0] == 'a');
    assert("base_mode"@[0] == 'b');
    assert("comp_id"@[0] == 'c');
    assert("version"@[0] == 'v');
}

/// The event of a HEARTBEAT tells the type, autopilot, mode, status and version that the
/// packet itself states, each under its own name.
pub proof fn law_heartbeat_is_told(
    timestamp_us: u64,
    version: MavVersion,
    bytes: Seq<u8>,
    head: MavSummaryView,
    h: HeartbeatView,
)
    requires
        packet_summary(version, bytes) == Some(head),
        head.name == "HEARTBEAT"@,
        packet_heartbeat(version, bytes) == Some(h),
    ensures
        packet_event(timestamp_us, version, bytes) matches Some(e) && ({
            &&& tells_head(e, timestamp_us, version, head)
            &&& tells(e, "type"@, ValueView::Text(h.mavtype))
            &&& tells(e, "autopilot"@, ValueView::Text(h.autopilot))
            &&& tells(e, "base_mode"@, ValueView::Text(h.base_mode))
            &&& tells(e, "system_status"@, ValueView::Text(h.system_status))
            &&& tells(e, "mavlink_version"@, ValueView::I64(h.mavlink_version as i64))
        }),
{
    lemma_message_names_differ();
    lemma_heartbeat_keys_differ();
    let all = seq!["HEARTBEAT"@, "ATTITUDE"@, "GLOBAL_POSITION_INT"@, "GPS_RAW_INT"@, "SYS_STATUS"@];
    assert(names_differ(all));
    let e = message_event(timestamp_us, version, head, MavBodyView::Heartbeat(h));
    let names = seq!["sys_id"@, "comp_id"@, "seq"@, "type"@, "autopilot"@, "base_mode"@, "system_status"@, "mavlink_version"@, "version"@];
    assert(names_differ(names));
    assert(e.fields.len() == 9);

    lemma_told(e, names, 0, e.fields[0].1);
    lemma_told(e, names, 1, e.fields[1].1);
    lemma_told(e, names, 2, e.fields[2].1);
    lemma_told(e, names, 3, e.fields[3].1);
    lemma_told(e, names, 4, e.fields[4].1);
    lemma_told(e, names, 5, e.fields[5].1);
    lemma_told(e, names, 6, e.fields[6].1);
    lemma_told(e, names, 7, e.fields[7].1);
    lemma_told(e, names, 8, e.fields[8].1);
}

proof fn lemma_attitude_keys_differ()
    ensures
        names_differ(seq!["sys_id"@, "comp_id"@, "seq"@, "roll"@, "pitch"@, "yaw"@, "version"@]),
{
    reveal_strlit("sys_id");
    reveal_strlit("comp_id");
    reveal_strlit("seq");
    reveal_strlit("roll");
    reveal_strlit("pitch");
    reveal_strlit("yaw");
    reveal_strlit("version");
    assert("sys_id"@.len() == 6);
    assert("comp_id"@.len() == 7);
    assert("seq"@.len() == 3);
    assert("roll"@.len() == 4);
    assert("pitch"@.len() == 5);
    assert("yaw"@.len() == 3);
    assert("version"@.len() == 7);
    assert("comp_id"@[0] == 'c');
    assert("seq"@[0] == 's');
    assert("version"@[0] == 'v');
    assert("yaw"@[0] == 'y');
}

/// The event of an ATTITUDE tells the packet's own roll, pitch and yaw, each under its own
/// name.
pub proof fn law_attitude_is_told(
    timestamp_us: u64,
    version: MavVersion,
    bytes: Seq<u8>,
    head: MavSummaryView,
    a: Attitude,
)
    requires
        packet_summary(version, bytes) == Some(head),
        head.name == "ATTITUDE"@,
        packet_attitude(version, bytes) == Some(a),
    ensures
        packet_event(timestamp_us, version, bytes) matches Some(e) && ({
            &&& tells_head(e, timestamp_us, version, head)
            &&& tells(e, "roll"@, ValueView::F64(Double { bits: widened(a.roll.bits) as u64 }))
            &&& tells(e, "pitch"@, ValueView::F64(Double { bits: widened(a.pitch.bits) as u64 }))
            &&& tells(e, "yaw"@, ValueView::F64(Double { bits: widened(a.yaw.bits) as u64 }))
        }),
{
    lemma_message_names_differ();
    lemma_attitude_keys_differ();
    let all = seq!["HEARTBEAT"@, "ATTITUDE"@, "GLOBAL_POSITION_INT"@, "GPS_RAW_INT"@, "SYS_STATUS"@];
    assert(names_differ(all));
    let e = message_event(timestamp_us, version, head, MavBodyView::Attitude(a));
    let names = seq!["sys_id"@, "comp_id"@, "seq"@, "roll"@, "pitch"@, "yaw"@, "version"@];
    assert(names_differ(names));
    assert(e.fields.len() == 7);
    assert(all[0] != all[1]);
    lemma_told(e, names, 0, e.fields[0].1);
    lemma_told(e, names, 1, e.fields[1].1);
    lemma_told(e, names, 2, e.fields[2].1);
    lemma_told(e, names, 3, e.fields[3].1);
    lemma_told(e, names, 4, e.fields[4].1);
    lemma_told(e, names, 5, e.fields[5].1);
    lemma_told(e, names, 6, e.fields[6].1);
}

proof fn lemma_position_keys_differ()
    ensures
        names_differ(seq!["sys_id"@, "comp_id"@, "seq"@, "lat"@, "lon"@, "alt"@, "relative_alt"@, "version"@]),
{
    reveal_strlit("sys_id");
    reveal_strlit("comp_id");
    reveal_strlit("seq");
    reveal_strlit("lat");
    reveal_strlit("lon");
    reveal_strlit("alt");
    reveal_strlit("relative_alt");
    reveal_strlit("version");
    assert("sys_id"@.len() == 6);
    assert("comp_id"@.len() == 7);
    assert("seq"@.len() == 3);
    assert("lat"@.len() == 3);
    assert("lon"@.len() == 3);
    assert("alt"@.len() == 3);
    assert("relative_alt"@.len() == 12);
    assert("version"@.len() == 7);
    assert("alt"@[0] == 'a');
    assert("comp_id"@[0] == 'c');
    assert("lat"@[0] == 'l');
    assert("lat"@[1] == 'a');
    assert("lon"@[0] == 'l');
    assert("lon"@[1] == 'o');
    assert("seq"@[0] == 's');
    assert("version"@[0] == 'v');
}

/// The event of a GLOBAL_POSITION_INT tells the packet's own latitude and longitude in
/// degrees and heights in metres, each under its own name.
pub proof fn law_position_is_told(
    timestamp_us: u64,
    version: MavVersion,
    bytes: Seq<u8>,
    head: MavSummaryView,
    p: GlobalPosition,
)
    requires
        packet_summary(version, bytes) == Some(head),
        head.name == "GLOBAL_POSITION_INT"@,
        packet_position(version, bytes) == Some(p),
    ensures
        packet_event(timestamp_us, version, bytes) matches Some(e) && ({
            &&& tells_head(e, timestamp_us, version, head)
            &&& tells(e, "lat"@, ValueView::F64(Double { bits: double_quotient(p.lat as int, 10_000_000) as u64 }))
            &&& tells(e, "lon"@, ValueView::F64(Double { bits: double_quotient(p.lon as int, 10_000_000) as u64 }))
            &&& tells(e, "alt"@, ValueView::F64(Double { bits: double_quotient(p.alt as int, 1000) as u64 }))
            &&& tells(e, "relative_alt"@, ValueView::F64(Double { bits: double_quotient(p.relative_alt as int, 1000) as u64 }))
        }),
{
    lemma_message_names_differ();
    lemma_position_keys_differ();
    let all = seq!["HEARTBEAT"@, "ATTITUDE"@, "GLOBAL_POSITION_INT"@, "GPS_RAW_INT"@, "SYS_STATUS"@];
    assert(names_differ(all));
    let e = message_event(timestamp_us, version, head, MavBodyView::Position(p));
    let names = seq!["sys_id"@, "comp_id"@, "seq"@, "lat"@, "lon"@, "alt"@, "relative_alt"@, "version"@];
    assert(names_differ(names));
    assert(e.fields.len() == 8);
    assert(all[0] != all[2]);
    assert(all[1] != all[2]);
    lemma_told(e, names, 0, e.fields[0].1);
    lemma_told(e, names, 1, e.fields[1].1);
    lemma_told(e, names, 2, e.fields[2].1);
    lemma_told(e, names, 3, e.fields[3].1);
    lemma_told(e, names, 4, e.fields[4].1);
    lemma_told(e, names, 5, e.fields[5].1);
    lemma_told(e, names, 6, e.fields[6].1);
    lemma_told(e, names, 7, e.fields[7].1);
}

proof fn lemma_gps_keys_differ()
    ensures
        names_differ(seq!["sys_id"@, "comp_id"@, "seq"@, "fix_type"@, "lat"@, "lon"@, "alt"@, "satellites_visible"@, "version"@]),
{
    reveal_strlit("sys_id");
    reveal_strlit("comp_id");
    reveal_strlit("seq");
    reveal_strlit("fix_type");
    reveal_strlit("lat");
    reveal_strlit("lon");
    reveal_strlit("alt");
    reveal_strlit("satellites_visible");
    reveal_strlit("version");
    assert("sys_id"@.len() == 6);
    assert("comp_id"@.len() == 7);
    assert("seq"@.len() == 3);
    assert("fix_type"@.len() == 8);
    assert("lat"@.len() == 3);
    assert("lon"@.len() == 3);
    assert("alt"@.len() == 3);
    assert("satellites_visible"@.len() == 18);
    assert("version"@.len() == 7);
    assert("alt"@[0] == 'a');
    assert("comp_id"@[0] == 'c');
    assert("lat"@[0] == 'l');
    assert("lat"@[1] == 'a');
    assert("lon"@[0] == 'l');
    assert("lon"@[1] == 'o');
    assert("seq"@[0] == 's');
    assert("version"@[0] == 'v');
}

/// The event of a GPS_RAW_INT tells the packet's own latitude and longitude in degrees,
/// height in metres, kind of fix and number of satellites, each under its own name.
pub proof fn law_gps_is_told(
    timestamp_us: u64,
    version: MavVersion,
    bytes: Seq<u8>,
    head: MavSummaryView,
    g: GpsRawView,
)
    requires
        packet_summary(version, bytes) == Some(head),
        head.name == "GPS_RAW_INT"@,
        packet_gps(version, bytes) == Some(g),
    ensures
        packet_event(timestamp_us, version, bytes) matches Some(e) && ({
            &&& tells_head(e, timestamp_us, version, head)
            &&& tells(e, "fix_type"@, ValueView::Text(g.fix_type))
            &&& tells(e, "lat"@, ValueView::F64(Double { bits: double_quotient(g.lat as int, 10_000_000) as u64 }))
            &&& tells(e, "lon"@, ValueView::F64(Double { bits: double_quotient(g.lon as int, 10_000_000) as u64 }))
            &&& tells(e, "alt"@, ValueView::F64(Double { bits: double_quotient(g.alt as int, 1000) as u64 }))
            &&& tells(e, "satellites_visible"@, ValueView::I64(g.satellites_visible as i64))
        }),
{
    lemma_message_names_differ();
    lemma_gps_keys_differ();
    let all = seq!["HEARTBEAT"@, "ATTITUDE"@, "GLOBAL_POSITION_INT"@, "GPS_RAW_INT"@, "SYS_STATUS"@];
    assert(names_differ(all));
    let e = message_event(timestamp_us, version, head, MavBodyView::Gps(g));
    let names = seq!["sys_id"@, "comp_id"@, "seq"@, "fix_type"@, "lat"@, "lon"@, "alt"@, "satellites_visible"@, "version"@];
    assert(names_differ(names));
    assert(e.fields.len() == 9);
    assert(all[0] != all[3]);
    assert(all[1] != all[3]);
    assert(all[2] != all[3]);
    lemma_told(e, names, 0, e.fields[0].1);
    lemma_told(e, names, 1, e.fields[1].1);
    lemma_told(e, names, 2, e.fields[2].1);
    lemma_told(e, names, 3, e.fields[3].1);
    lemma_told(e, names, 4, e.fields[4].1);
    lemma_told(e, names, 5, e.fields[5].1);
    lemma_told(e, names, 6, e.fields[6].1);
    lemma_told(e, names, 7, e.fields[7].1);
    lemma_told(e, names, 8, e.fields[8].1);
}

proof fn lemma_status_keys_differ()
    ensures
        names_differ(seq!["sys_id"@, "comp_id"@, "seq"@, "voltage_battery"@, "current_battery"@, "battery_remaining"@, "load"@, "version"@]),
{
    reveal_strlit("sys_id");
    reveal_strlit("comp_id");
    reveal_strlit("seq");
    reveal_strlit("voltage_battery");
    reveal_strlit("current_battery");
    reveal_strlit("battery_remaining");
    reveal_strlit("load");
    reveal_strlit("version");
    assert("sys_id"@.len() == 6);
    assert("comp_id"@.len() == 7);
    assert("seq"@.len() == 3);
    assert("voltage_battery"@.len() == 15);
    assert("current_battery"@.len() == 15);
    assert("battery_remaining"@.len() == 17);
    assert("load"@.len() == 4);
    assert("version"@.len() == 7);
    assert("comp_id"@[0] == 'c');
    assert("current_battery"@[0] == 'c');
    assert("version"@[0] == 'v');
    assert("voltage_battery"@[0] == 'v');
}

/// The event of a SYS_STATUS tells the packet's own voltage in volts, current, charge and
/// load in percent, each under its own name.
pub proof fn law_status_is_told(
    timestamp_us: u64,
    version: MavVersion,
    bytes: Seq<u8>,
    head: MavSummaryView,
    s: SysStatus,
)
    requires
        packet_summary(version, bytes) == Some(head),
        head.name == "SYS_STATUS"@,
        packet_status(version, bytes) == Some(s),
    ensures
        packet_event(timestamp_us, version, bytes) matches Some(e) && ({
            &&& tells_head(e, timestamp_us, version, head)
            &&& tells(e, "voltage_battery"@, ValueView::F64(Double { bits: double_quotient(s.voltage_battery as int, 1000) as u64 }))
            &&& tells(e, "current_battery"@, ValueView::I64(s.current_battery as i64))
            &&& tells(e, "battery_remaining"@, ValueView::I64(s.battery_remaining as i64))
            &&& tells(e, "load"@, ValueView::F64(Double { bits: double_quotient(s.load as int, 10) as u64 }))
        }),
{
    lemma_message_names_differ();
    lemma_status_keys_differ();
    let all = seq!["HEARTBEAT"@, "ATTITUDE"@, "GLOBAL_POSITION_INT"@, "GPS_RAW_INT"@, "SYS_STATUS"@];
    assert(names_differ(all));
    let e = message_event(timestamp_us, version, head, MavBodyView::Status(s));
    let names = seq!["sys_id"@, "comp_id"@, "seq"@, "voltage_battery"@, "current_battery"@, "battery_remaining"@, "load"@, "version"@];
    assert(names_differ(names));
    assert(e.fields.len() == 8);
    assert(all[0] != all[4]);
    assert(all[1] != all[4]);
    assert(all[2] != all[4]);
    assert(all[3] != all[4]);
    lemma_told(e, names, 0, e.fields[0].1);
    lemma_told(e, names, 1, e.fields[1].1);
    lemma_told(e, names, 2, e.fields[2].1);
    lemma_told(e, names, 3, e.fields[3].1);
    lemma_told(e, names, 4, e.fields[4].1);
    lemma_told(e, names, 5, e.fields[5].1);
    lemma_told(e, names, 6, e.fields[6].1);
    lemma_told(e, names, 7, e.fields[7].1);
}

proof fn lemma_head_keys_differ()
    ensures
        names_differ(seq!["sys_id"@, "comp_id"@, "seq"@, "version"@]),
{
    reveal_strlit("sys_id");
    reveal_strlit("comp_id");
    reveal_strlit("seq");
    reveal_strlit("version");
    assert("sys_id"@.len() == 6);
    assert("comp_id"@.len() == 7);
    assert("seq"@.len() == 3);
    assert("version"@.len() == 7);
    assert("comp_id"@[0] == 'c');
    assert("version"@[0] == 'v');
}

/// The event of any other message tells the packet's head and version, and no more.
pub proof fn law_other_messages_are_told_by_their_head(
    timestamp_us: u64,
    version: MavVersion,
    bytes: Seq<u8>,
    head: MavSummaryView,
)
    requires
        packet_summary(version, bytes) == Some(head),
        head.name != "HEARTBEAT"@ && head.name != "ATTITUDE"@ && head.name
            != "GLOBAL_POSITION_INT"@ && head.name != "GPS_RAW_INT"@ && head.name != "SYS_STATUS"@,
    ensures
        packet_event(timestamp_us, version, bytes) matches Some(e) && tells_head(
            e,
            timestamp_us,
            version,
            head,
        ) && e.fields.len() == 4,
{
    lemma_head_keys_differ();
    let e = message_event(timestamp_us, version, head, MavBodyView::Opaque);
    let names = seq!["sys_id"@, "comp_id"@, "seq"@, "version"@];
    assert(names_differ(names));
    assert(e.fields.len() == 4);
    lemma_told(e, names, 0, e.fields[0].1);
    lemma_told(e, names, 1, e.fields[1].1);
    lemma_told(e, names, 2, e.fields[2].1);
    lemma_told(e, names, 3, e.fields[3].1);
}

/// A whole packet at the beginning of the bytes: header, payload and checksum by its length
/// byte, and a signature of 13 bytes where version 2 says so.
pub open spec fn is_whole_packet(packet: Seq<u8>) -> bool {
    packet.len() >= 3 && ((packet[0] == 0xFE && packet.len() == packet[1] + 8) || (packet[0] == 0xFD
        && packet.len() == packet[1] + if packet[2] % 2 == 1 {
        25int
    } else {
        12int
    }))
}

/// A packet that can be read makes its event, and what follows it is decoded as if the
/// packet had not been there: events come in the order of their packets, one each. The
/// magic byte tells the version.
pub proof fn law_packets_are_decoded_in_order(
    timestamp_us: u64,
    packet: Seq<u8>,
    rest: Seq<u8>,
    event: EventView,
)
    requires
        is_whole_packet(packet),
        packet.len() + rest.len() >= 12,
        packet_event(
            timestamp_us,
            if packet[0] == 0xFE {
                MavVersion::V1
            } else {
                MavVersion::V2
            },
            packet,
        ) == Some(event),
    ensures
        scanned(timestamp_us, packet + rest).1 == seq![event] + scanned(timestamp_us, rest).1,
        scanned(timestamp_us, packet + rest).0 == scanned(timestamp_us, rest).0,
{
    let bytes = packet + rest;
    assert(bytes[0] == packet[0] && bytes[1] == packet[1] && bytes[2] == packet[2]);
    assert(magic_position(bytes, 0) == 0);
    assert(bytes.skip(0) =~= bytes);
    assert(bytes.take(packet.len() as int) =~= packet);
    assert(bytes.skip(packet.len() as int) =~= rest);
}

/// Bytes before a packet that begin none are passed over.
pub proof fn law_bytes_before_a_packet_are_passed_over(
    timestamp_us: u64,
    noise: Seq<u8>,
    bytes: Seq<u8>,
)
    requires
        forall|i: int| 0 <= i < noise.len() ==> #[trigger] noise[i] != 0xFE && noise[i] != 0xFD,
        bytes.len() >= 12,
        bytes[0] == 0xFE || bytes[0] == 0xFD,
    ensures
        scanned(timestamp_us, noise + bytes) == scanned(timestamp_us, bytes),
{
    let whole = noise + bytes;
    lemma_magic_position(whole, 0);
    assert(whole[noise.len() as int] == bytes[0]);
    lemma_magic_position_is_first(whole, 0, noise.len() as int);
    let at = magic_position(whole, 0);
    if at < noise.len() {
        assert(whole[at] == noise[at]);
    }
    assert(at == noise.len());
    assert(whole.skip(at) =~= bytes);
    assert(magic_position(bytes, 0) == 0);
    assert(bytes.skip(0) =~= bytes);
}

/// What looks like a packet and cannot be read makes no event: the search goes on at the
/// next byte that can begin one.
pub proof fn law_damaged_packet_is_passed_over(
    timestamp_us: u64,
    packet: Seq<u8>,
    rest: Seq<u8>,
    next: int,
)
    requires
        is_whole_packet(packet),
        packet.len() + rest.len() >= 12,
        packet_event(
            timestamp_us,
            if packet[0] == 0xFE {
                MavVersion::V1
            } else {
                MavVersion::V2
            },
            packet,
        ) is None,
        0 < next <= (packet + rest).len(),
        forall|i: int|
            0 < i < next ==> #[trigger] (packet + rest)[i] != 0xFE && (packet + rest)[i] != 0xFD,
        next < (packet + rest).len() ==> (packet + rest)[next] == 0xFE || (packet + rest)[next]
            == 0xFD,
    ensures
        scanned(timestamp_us, packet + rest) == scanned(timestamp_us, (packet + rest).skip(next)),
{
    let bytes = packet + rest;
    assert(bytes[0] == packet[0] && bytes[1] == packet[1] && bytes[2] == packet[2]);
    assert(magic_position(bytes, 0) == 0);
    assert(bytes.skip(0) =~= bytes);
    assert(bytes.take(packet.len() as int) =~= packet);
    lemma_magic_position(bytes, 1);
    if next < bytes.len() {
        lemma_magic_position_is_first(bytes, 1, next);
    }
    let at = magic_position(bytes, 1);
    if at < next {
        assert(bytes[at] == 0xFE || bytes[at] == 0xFD);
    }
}

/// Fewer than 12 bytes wait, and so do bytes that begin no packet up to 200 of them; more
/// than 1024 bytes at once are dropped with what waited.
pub proof fn law_what_waits(timestamp_us: u64, buffer: Seq<u8>, bytes: Seq<u8>)
    ensures
        bytes.len() < 12 ==> scanned(timestamp_us, bytes).0 == bytes && scanned(
            timestamp_us,
            bytes,
        ).1.len() == 0,
        bytes.len() <= 200 && (forall|i: int|
            0 <= i < bytes.len() ==> #[trigger] bytes[i] != 0xFE && bytes[i] != 0xFD) ==> scanned(
            timestamp_us,
            bytes,
        ).0 == bytes,
        buffer.len() + bytes.len() <= 1024 ==> to_scan(buffer, bytes) == buffer + bytes,
        buffer.len() + bytes.len() > 1024 ==> to_scan(buffer, bytes).len() == 0,
{
    lemma_magic_position(bytes, 0);
}

/// Two GPS_RAW_INT packets that differ in latitude, longitude or height make different
/// events.
pub proof fn law_different_places_are_told_apart(
    timestamp_us: u64,
    version: MavVersion,
    head: MavSummaryView,
    a: GpsRawView,
    b: GpsRawView,
)
    requires
        a.lat != b.lat || a.lon != b.lon || a.alt != b.alt,
    ensures
        message_event(timestamp_us, version, head, MavBodyView::Gps(a)) != message_event(
            timestamp_us,
            version,
            head,
            MavBodyView::Gps(b),
        ),
{
    let x = message_event(timestamp_us, version, head, MavBodyView::Gps(a));
    let y = message_event(timestamp_us, version, head, MavBodyView::Gps(b));
    assert(x.fields[4].1 == ratio(a.lat as int, 10_000_000));
    assert(y.fields[4].1 == ratio(b.lat as int, 10_000_000));
    assert(x.fields[5].1 == ratio(a.lon as int, 10_000_000));
    assert(y.fields[5].1 == ratio(b.lon as int, 10_000_000));
    assert(x.fields[6].1 == ratio(a.alt as int, 1000));
    assert(y.fields[6].1 == ratio(b.alt as int, 1000));
    if a.lat != b.lat {
        law_different_numbers_have_different_quotients(a.lat, b.lat, 10_000_000);
    } else if a.lon != b.lon {
        law_different_numbers_have_different_quotients(a.lon, b.lon, 10_000_000);
    } else {
        law_different_numbers_have_different_quotients(a.alt, b.alt, 1000);
    }
}

/// Showing a GPS_RAW_INT tells its own latitude and longitude in degrees, height in metres,
/// kind of fix and number of satellites, each under its own name.
pub proof fn law_gps_is_shown(
    timestamp_us: u64,
    version: MavVersion,
    head: MavSummary,
    g: GpsRaw,
    r: DecodedEvent,
)
    requires
        call_ensures(parse_message, (timestamp_us, version, head, MavBody::Gps(g)), r),
    ensures
        tells_head(r@, timestamp_us, version, head@),
        tells(r@, "fix_type"@, ValueView::Text(g.fix_type@)),
        tells(
            r@,
            "lat"@,
            ValueView::F64(Double { bits: double_quotient(g.lat as int, 10_000_000) as u64 }),
        ),
        tells(
            r@,
            "lon"@,
            ValueView::F64(Double { bits: double_quotient(g.lon as int, 10_000_000) as u64 }),
        ),
        tells(
            r@,
            "alt"@,
            ValueView::F64(Double { bits: double_quotient(g.alt as int, 1000) as u64 }),
        ),
        tells(r@, "satellites_visible"@, ValueView::I64(g.satellites_visible as i64)),
{
    lemma_gps_keys_differ();
    let e = r@;
    let names = seq!["sys_id"@, "comp_id"@, "seq"@, "fix_type"@, "lat"@, "lon"@, "alt"@, "satellites_visible"@, "version"@];
    assert(names_differ(names));
    assert(e.fields.len() == 9);
    lemma_told(e, names, 0, e.fields[0].1);
    lemma_told(e, names, 1, e.fields[1].1);
    lemma_told(e, names, 2, e.fields[2].1);
    lemma_told(e, names, 3, e.fields[3].1);
    lemma_told(e, names, 4, e.fields[4].1);
    lemma_told(e, names, 5, e.fields[5].1);
    lemma_told(e, names, 6, e.fields[6].1);
    lemma_told(e, names, 7, e.fields[7].1);
    lemma_told(e, names, 8, e.fields[8].1);
}

/// A frame's bytes are scanned behind those that waited, unless both together are more than
/// 1024: what waited is thrown away then, and so is the frame. The events come behind those
/// that were there.
pub proof fn law_frames_are_scanned_behind_what_waited(
    decoder: &mut MavlinkDecoder,
    frame: Frame,
    results: &mut Vec<DecodedEvent>,
)
    requires
        call_ensures(<MavlinkDecoder as Decoder>::ingest, (decoder, &frame, results), ()),
    ensures
        ({
            let bytes = if old(decoder).buffer@.len() + frame.bytes@.len() > 1024 {
                Seq::empty()
            } else {
                old(decoder).buffer@ + frame.bytes@
            };
            &&& final(decoder).buffer@ == scanned(frame.timestamp_us, bytes).0
            &&& events_view(final(results)@) == events_view(old(results)@) + scanned(
                frame.timestamp_us,
                bytes,
            ).1
        }),
{
}

/// A packet is shown as the model has it, and a search begins again at the next byte that
/// can begin a packet.
pub proof fn law_packets_are_shown(
    timestamp_us: u64,
    version: MavVersion,
    head: MavSummary,
    body: MavBody,
    r: DecodedEvent,
    bytes: &[u8],
    at: usize,
)
    requires
        call_ensures(parse_message, (timestamp_us, version, head, body), r),
        call_ensures(resync, (bytes,), at),
    ensures
        r@ == message_event(timestamp_us, version, head@, body@),
        at == magic_position(bytes@, 1),
        1 <= at <= bytes@.len(),
{
}

} // verus!
