//! Frames, raw events, selections, and what decoders make of frames.
use vstd::prelude::*;

use crate::float::{widened, Double, Single};
use crate::text::{joined, same_text, signed_decimal, signed_decimal_text};

verus! {

/// How raw bytes are interpreted.
#[derive(Debug, Clone, Copy, PartialEq, Eq, Structural)]
pub enum DecoderId {
    /// UTF-8 text.
    Utf8,
    /// Hexadecimal dump.
    Hex,
    /// MAVLink packets.
    Mavlink,
}

/// The text identifier of a decoder.
pub open spec fn decoder_name(id: DecoderId) -> Seq<char> {
    match id {
        DecoderId::Utf8 => "utf8"@,
        DecoderId::Hex => "hex"@,
        DecoderId::Mavlink => "mavlink"@,
    }
}

impl DecoderId {
    /// The text identifier.
    pub fn as_str(&self) -> (r: &'static str)
        ensures
            r@ == decoder_name(*self),
    {
        match self {
            DecoderId::Utf8 => "utf8",
            DecoderId::Hex => "hex",
            DecoderId::Mavlink => "mavlink",
        }
    }

    /// The decoder with this text identifier.
    pub fn from_str(s: &str) -> (r: Result<DecoderId, String>)
        ensures
            r matches Ok(id) ==> decoder_name(id) == s@,
            r matches Err(e) ==> e@ == "Invalid decoder ID: "@ + s@ && forall|id: DecoderId|
                decoder_name(id) != s@,
    {
        if same_text(s, "utf8") {
            Ok(DecoderId::Utf8)
        } else if same_text(s, "hex") {
            Ok(DecoderId::Hex)
        } else if same_text(s, "mavlink") {
            Ok(DecoderId::Mavlink)
        } else {
            Err(joined("Invalid decoder ID: ", s))
        }
    }
}

impl Default for DecoderId {
    fn default() -> (r: DecoderId)
        ensures
            r is Utf8,
    {
        DecoderId::Utf8
    }
}

impl std::str::FromStr for DecoderId {
    type Err = String;

    fn from_str(s: &str) -> (r: Result<DecoderId, String>)
        ensures
            r matches Ok(id) ==> decoder_name(id) == s@,
            r matches Err(e) ==> e@ == "Invalid decoder ID: "@ + s@ && forall|id: DecoderId|
                decoder_name(id) != s@,
    {
        DecoderId::from_str(s)
    }
}

/// No two decoders have the same text identifier.
pub proof fn law_decoder_names_differ(a: DecoderId, b: DecoderId)
    ensures
        decoder_name(a) == decoder_name(b) ==> a == b,
{
    reveal_strlit("utf8");
    reveal_strlit("hex");
    reveal_strlit("mavlink");
    assert("utf8"@.len() == 4);
    assert("hex"@.len() == 3);
    assert("mavlink"@.len() == 7);
}

/// How a byte stream is split into frames.
#[derive(Debug, Clone, Copy, PartialEq, Eq, Structural)]
pub enum FramerId {
    /// Lines that end in a newline.
    Lines,
    /// Chunks as they come.
    Raw,
    /// Consistent Overhead Byte Stuffing.
    Cobs,
    /// Serial Line Internet Protocol.
    Slip,
}

/// The text identifier of a framer.
pub open spec fn framer_name(id: FramerId) -> Seq<char> {
    match id {
        FramerId::Lines => "lines"@,
        FramerId::Raw => "raw"@,
        FramerId::Cobs => "cobs"@,
        FramerId::Slip => "slip"@,
    }
}

impl FramerId {
    /// The text identifier.
    pub fn as_str(&self) -> (r: &'static str)
        ensures
            r@ == framer_name(*self),
    {
        match self {
            FramerId::Lines => "lines",
            FramerId::Raw => "raw",
            FramerId::Cobs => "cobs",
            FramerId::Slip => "slip",
        }
    }

    /// The framer with this text identifier.
    pub fn from_str(s: &str) -> (r: Result<FramerId, String>)
        ensures
            r matches Ok(id) ==> framer_name(id) == s@,
            r matches Err(e) ==> e@ == "Invalid framer ID: "@ + s@ && forall|id: FramerId|
                framer_name(id) != s@,
    {
        if same_text(s, "lines") {
            Ok(FramerId::Lines)
        } else if same_text(s, "raw") {
            Ok(FramerId::Raw)
        } else if same_text(s, "cobs") {
            Ok(FramerId::Cobs)
        } else if same_text(s, "slip") {
            Ok(FramerId::Slip)
        } else {
            Err(joined("Invalid framer ID: ", s))
        }
    }
}

impl Default for FramerId {
    fn default() -> (r: FramerId)
        ensures
            r is Raw,
    {
        FramerId::Raw
    }
}

impl std::str::FromStr for FramerId {
    type Err = String;

    fn from_str(s: &str) -> (r: Result<FramerId, String>)
        ensures
            r matches Ok(id) ==> framer_name(id) == s@,
            r matches Err(e) ==> e@ == "Invalid framer ID: "@ + s@ && forall|id: FramerId|
                framer_name(id) != s@,
    {
        FramerId::from_str(s)
    }
}

/// No two framers have the same text identifier.
pub proof fn law_framer_names_differ(a: FramerId, b: FramerId)
    ensures
        framer_name(a) == framer_name(b) ==> a == b,
{
    reveal_strlit("lines");
    reveal_strlit("raw");
    reveal_strlit("cobs");
    reveal_strlit("slip");
    assert("lines"@.len() == 5);
    assert("raw"@.len() == 3);
    assert("cobs"@.len() == 4 && "cobs"@[0] == 'c');
    assert("slip"@.len() == 4 && "slip"@[0] == 's');
}

/// The direction of data flow.
#[derive(Debug, Clone, Copy, PartialEq, Eq, Structural)]
pub enum Channel {
    /// Received from the device.
    Rx,
    /// Sent to the device.
    Tx,
}

/// A piece of data that belongs together, such as a line or a packet.
#[derive(Debug, Clone, PartialEq)]
pub struct Frame {
    pub bytes: Vec<u8>,
    /// Microseconds since the session began, or since the epoch.
    pub timestamp_us: u64,
    pub channel: Channel,
}

/// A frame, with its bytes as a sequence.
#[verifier::ext_equal]
pub struct FrameView {
    pub bytes: Seq<u8>,
    pub timestamp_us: u64,
    pub channel: Channel,
}

impl View for Frame {
    type V = FrameView;

    open spec fn view(&self) -> FrameView {
        FrameView {
            bytes: self.bytes@,
            timestamp_us: self.timestamp_us,
            channel: self.channel,
        }
    }
}

impl Frame {
    /// A received frame.
    pub fn new_rx(bytes: Vec<u8>, timestamp_us: u64) -> (r: Frame)
        ensures
            r == (Frame { bytes, timestamp_us, channel: Channel::Rx }),
    {
        Frame { bytes, timestamp_us, channel: Channel::Rx }
    }

    /// A sent frame.
    pub fn new_tx(bytes: Vec<u8>, timestamp_us: u64) -> (r: Frame)
        ensures
            r == (Frame { bytes, timestamp_us, channel: Channel::Tx }),
    {
        Frame { bytes, timestamp_us, channel: Channel::Tx }
    }
}

/// An entry of the log from which every view derives what it shows.
#[derive(Debug, Clone, PartialEq)]
pub struct RawEvent {
    pub timestamp_us: u64,
    pub channel: Channel,
    pub bytes: Vec<u8>,
}

impl RawEvent {
    /// Puts the parts together.
    pub fn new(timestamp_us: u64, channel: Channel, bytes: Vec<u8>) -> (r: RawEvent)
        ensures
            r == (RawEvent { timestamp_us, channel, bytes }),
    {
        RawEvent { timestamp_us, channel, bytes }
    }

    /// The log entry of a frame.
    pub fn from_frame(frame: &Frame) -> (r: RawEvent)
        ensures
            r.timestamp_us == frame.timestamp_us,
            r.channel == frame.channel,
            r.bytes@ == frame.bytes@,
    {
        let bytes = frame.bytes.clone();
        assert(bytes@ =~= frame.bytes@);
        RawEvent { timestamp_us: frame.timestamp_us, channel: frame.channel, bytes }
    }

    /// How many bytes the entry holds.
    pub fn byte_size(&self) -> (r: usize)
        ensures
            r == self.bytes@.len(),
    {
        self.bytes.len()
    }
}

/// The view that a selection was made in.
#[derive(Debug, Clone, Copy, PartialEq, Eq, Structural)]
pub enum SelectionSource {
    Terminal,
    HexView,
}

/// A selected range of bytes of the log.
#[derive(Debug, Clone, PartialEq)]
pub struct SelectionRange {
    /// The first byte.
    pub start_byte_offset: usize,
    /// The byte after the last.
    pub end_byte_offset: usize,
    pub timestamp_start_us: u64,
    pub timestamp_end_us: u64,
    pub source_view: SelectionSource,
}

impl SelectionRange {
    /// Puts the parts together.
    pub fn new(
        start_byte_offset: usize,
        end_byte_offset: usize,
        timestamp_start_us: u64,
        timestamp_end_us: u64,
        source_view: SelectionSource,
    ) -> (r: SelectionRange)
        ensures
            r == (SelectionRange {
                start_byte_offset,
                end_byte_offset,
                timestamp_start_us,
                timestamp_end_us,
                source_view,
            }),
    {
        SelectionRange {
            start_byte_offset,
            end_byte_offset,
            timestamp_start_us,
            timestamp_end_us,
            source_view,
        }
    }

    /// The offset is in the selection.
    pub open spec fn has(&self, offset: int) -> bool {
        self.start_byte_offset <= offset < self.end_byte_offset
    }

    /// How many bytes are selected.
    pub fn byte_len(&self) -> (r: usize)
        ensures
            self.start_byte_offset <= self.end_byte_offset ==> r == self.end_byte_offset
                - self.start_byte_offset,
            self.start_byte_offset > self.end_byte_offset ==> r == 0,
    {
        self.end_byte_offset.saturating_sub(self.start_byte_offset)
    }

    /// Is the offset in the selection?
    pub fn contains_offset(&self, offset: usize) -> (r: bool)
        ensures
            r == self.has(offset as int),
    {
        offset >= self.start_byte_offset && offset < self.end_byte_offset
    }
}

/// The value of a field of a decoded event.
#[derive(Debug, Clone, PartialEq)]
pub enum Value {
    Null,
    Bool(bool),
    I64(i64),
    F64(Double),
    String(String),
}

/// A field's value, with its text as a character sequence.
pub enum ValueView {
    Null,
    Bool(bool),
    I64(i64),
    F64(Double),
    Text(Seq<char>),
}

impl View for Value {
    type V = ValueView;

    open spec fn view(&self) -> ValueView {
        match self {
            Value::Null => ValueView::Null,
            Value::Bool(b) => ValueView::Bool(*b),
            Value::I64(n) => ValueView::I64(*n),
            Value::F64(d) => ValueView::F64(*d),
            Value::String(s) => ValueView::Text(s@),
        }
    }
}

impl From<bool> for Value {
    fn from(v: bool) -> (r: Value) {
        Value::Bool(v)
    }
}

impl vstd::std_specs::convert::FromSpecImpl<bool> for Value {
    open spec fn obeys_from_spec() -> bool {
        true
    }

    open spec fn from_spec(v: bool) -> Value {
        Value::Bool(v)
    }
}

impl From<i64> for Value {
    fn from(v: i64) -> (r: Value) {
        Value::I64(v)
    }
}

impl vstd::std_specs::convert::FromSpecImpl<i64> for Value {
    open spec fn obeys_from_spec() -> bool {
        true
    }

    open spec fn from_spec(v: i64) -> Value {
        Value::I64(v)
    }
}

impl From<i32> for Value {
    fn from(v: i32) -> (r: Value) {
        Value::I64(v as i64)
    }
}

impl vstd::std_specs::convert::FromSpecImpl<i32> for Value {
    open spec fn obeys_from_spec() -> bool {
        true
    }

    open spec fn from_spec(v: i32) -> Value {
        Value::I64(v as i64)
    }
}

impl From<Double> for Value {
    fn from(v: Double) -> (r: Value) {
        Value::F64(v)
    }
}

impl vstd::std_specs::convert::FromSpecImpl<Double> for Value {
    open spec fn obeys_from_spec() -> bool {
        true
    }

    open spec fn from_spec(v: Double) -> Value {
        Value::F64(v)
    }
}

impl From<Single> for Value {
    fn from(v: Single) -> (r: Value) {
        Value::F64(v.widen())
    }
}

impl vstd::std_specs::convert::FromSpecImpl<Single> for Value {
    open spec fn obeys_from_spec() -> bool {
        true
    }

    open spec fn from_spec(v: Single) -> Value {
        Value::F64(Double { bits: widened(v.bits) as u64 })
    }
}

impl From<String> for Value {
    fn from(v: String) -> (r: Value) {
        Value::String(v)
    }
}

impl vstd::std_specs::convert::FromSpecImpl<String> for Value {
    open spec fn obeys_from_spec() -> bool {
        true
    }

    open spec fn from_spec(v: String) -> Value {
        Value::String(v)
    }
}

impl<'a> From<&'a str> for Value {
    fn from(v: &'a str) -> (r: Value)
        ensures
            r@ == ValueView::Text(v@),
    {
        Value::String(v.to_owned())
    }
}

impl<'a> vstd::std_specs::convert::FromSpecImpl<&'a str> for Value {
    open spec fn obeys_from_spec() -> bool {
        false
    }

    open spec fn from_spec(v: &'a str) -> Value {
        arbitrary()
    }
}

impl From<usize> for Value {
    fn from(v: usize) -> (r: Value) {
        Value::I64(v as i64)
    }
}

impl vstd::std_specs::convert::FromSpecImpl<usize> for Value {
    open spec fn obeys_from_spec() -> bool {
        true
    }

    open spec fn from_spec(v: usize) -> Value {
        Value::I64(v as i64)
    }
}

impl Value {
    /// The value as text; a floating-point value comes back for the caller to print.
    pub fn text(&self) -> (r: Result<String, Double>)
        ensures
            match self@ {
                ValueView::Null => r matches Ok(s) && s@ == "null"@,
                ValueView::Bool(b) => r matches Ok(s) && s@ == if b {
                    "true"@
                } else {
                    "false"@
                },
                ValueView::I64(n) => r matches Ok(s) && s@ == signed_decimal(n as int),
                ValueView::F64(d) => r == Err::<String, Double>(d),
                ValueView::Text(t) => r matches Ok(s) && s@ == t,
            },
    {
        match self {
            Value::Null => Ok("null".to_owned()),
            Value::Bool(b) => if *b {
                Ok("true".to_owned())
            } else {
                Ok("false".to_owned())
            },
            Value::I64(n) => Ok(signed_decimal_text(*n)),
            Value::F64(d) => Err(*d),
            Value::String(s) => Ok(s.clone()),
        }
    }
}

/// What a decoder makes of a frame.
#[derive(Debug, Clone, PartialEq)]
pub struct DecodedEvent {
    /// The frame's time.
    pub timestamp_us: u64,
    /// The protocol, such as "NMEA" or "Hex".
    pub protocol: String,
    /// A short text for people.
    pub summary: String,
    /// Named values, in the order in which they were added.
    pub fields: Vec<(String, Value)>,
    /// How sure the decoder is, from zero to one.
    pub confidence: Single,
}

/// A decoded event, with its texts as character sequences.
#[verifier::ext_equal]
pub struct EventView {
    pub timestamp_us: u64,
    pub protocol: Seq<char>,
    pub summary: Seq<char>,
    pub fields: Seq<(Seq<char>, ValueView)>,
    pub confidence: Single,
}

/// A list of fields, one by one.
pub open spec fn fields_view(fields: Seq<(String, Value)>) -> Seq<(Seq<char>, ValueView)> {
    fields.map_values(|f: (String, Value)| (f.0@, f.1@))
}

impl View for DecodedEvent {
    type V = EventView;

    open spec fn view(&self) -> EventView {
        EventView {
            timestamp_us: self.timestamp_us,
            protocol: self.protocol@,
            summary: self.summary@,
            fields: fields_view(self.fields@),
            confidence: self.confidence,
        }
    }
}

/// An event without fields, of full confidence.
pub open spec fn bare_event(
    timestamp_us: u64,
    protocol: Seq<char>,
    summary: Seq<char>,
) -> EventView {
    EventView {
        timestamp_us,
        protocol,
        summary,
        fields: Seq::empty(),
        confidence: Single { bits: 0x3F80_0000 },
    }
}

/// An event with one more field.
pub open spec fn with(e: EventView, key: Seq<char>, value: ValueView) -> EventView {
    EventView { fields: e.fields.push((key, value)), ..e }
}

/// The position of the first field with this key; the number of fields if there is none.
pub open spec fn field_position(fields: Seq<(Seq<char>, ValueView)>, key: Seq<char>) -> int
    decreases fields.len(),
{
    if fields.len() == 0 || fields[0].0 == key {
        0
    } else {
        1 + field_position(fields.skip(1), key)
    }
}

impl DecodedEvent {
    /// An event without fields, of full confidence.
    pub fn new(timestamp_us: u64, protocol: &str, summary: &str) -> (r: DecodedEvent)
        ensures
            r@ == bare_event(timestamp_us, protocol@, summary@),
    {
        let r = DecodedEvent {
            timestamp_us,
            protocol: protocol.to_owned(),
            summary: summary.to_owned(),
            fields: Vec::new(),
            confidence: Single::one(),
        };
        assert(r@.fields =~= Seq::empty());
        r
    }

    /// Adds a field.
    pub fn with_field<V: Into<Value>>(self, key: &str, value: V) -> (r: DecodedEvent)
        ensures
            exists|v: Value| #[trigger]
                call_ensures(<V as Into<Value>>::into, (value,), v) && r@ == with(self@, key@, v@),
    {
        let mut r = self;
        let v = value.into();
        let ghost gv = v;
        r.fields.push((key.to_owned(), v));
        assert(r@.fields =~= self@.fields.push((key@, gv@)));
        r
    }

    /// Adds a field that is a value already.
    pub(crate) fn with_value(self, key: &str, value: Value) -> (r: DecodedEvent)
        ensures
            r@ == with(self@, key@, value@),
    {
        let mut r = self;
        let ghost gv = value;
        r.fields.push((key.to_owned(), value));
        assert(r@.fields =~= self@.fields.push((key@, gv@)));
        r
    }

    /// The value of the first field with this key.
    pub fn get_field(&self, key: &str) -> (r: Option<&Value>)
        ensures
            ({
                let at = field_position(self@.fields, key@);
                if at < self.fields@.len() {
                    r == Some(&self.fields@[at].1)
                } else {
                    r is None
                }
            }),
    {
        let mut i: usize = 0;
        assert(self@.fields.skip(0) =~= self@.fields);
        while i < self.fields.len()
            invariant
                i <= self.fields.len(),
                field_position(self@.fields, key@) == i + field_position(
                    self@.fields.skip(i as int),
                    key@,
                ),
            decreases self.fields.len() - i,
        {
            assert(self@.fields.skip(i as int)[0] == (
                self.fields@[i as int].0@,
                self.fields@[i as int].1@,
            ));
            if same_text(self.fields[i].0.as_str(), key) {
                return Some(&self.fields[i].1);
            }
            assert(self@.fields.skip(i as int).skip(1) =~= self@.fields.skip(i + 1));
            i += 1;
        }
        None
    }

    /// Empties the event but for its time.
    pub fn clear(&mut self)
        ensures
            final(self)@ == (EventView {
                timestamp_us: old(self).timestamp_us,
                protocol: ""@,
                summary: ""@,
                fields: Seq::empty(),
                confidence: Single { bits: 0 },
            }),
    {
        self.protocol = "".to_owned();
        self.summary = "".to_owned();
        self.fields.clear();
        self.confidence = Single::zero();
        assert(self@.fields =~= Seq::empty());
    }
}

/// Events, one by one.
pub open spec fn events_view(events: Seq<DecodedEvent>) -> Seq<EventView> {
    events.map_values(|e: DecodedEvent| e@)
}

/// Something that makes events of frames.
pub trait Decoder: Sized {
    /// What the decoder makes of a frame, in its present state.
    spec fn decoded(&self, frame: FrameView) -> Seq<EventView>;

    /// Appends what the decoder makes of a frame.
    fn ingest(&mut self, frame: &Frame, results: &mut Vec<DecodedEvent>)
        ensures
            events_view(final(results)@) == events_view(old(results)@) + old(self).decoded(frame@),
            final(results)@.len() >= old(results)@.len(),
            final(results)@.take(old(results)@.len() as int) == old(results)@,
    ;

    /// A short identifier, such as "hex".
    fn id(&self) -> &'static str;

    /// A name for people, such as "Hex Inspector".
    fn name(&self) -> &'static str;
}

/// What was added as a field is found again, unless an earlier field has its key.
pub proof fn law_added_field_is_found(e: EventView, key: Seq<char>, value: ValueView)
    ensures
        field_position(with(e, key, value).fields, key) <= e.fields.len(),
        field_position(e.fields, key) == e.fields.len() ==> field_position(
            with(e, key, value).fields,
            key,
        ) == e.fields.len(),
        field_position(e.fields, key) < e.fields.len() ==> field_position(
            with(e, key, value).fields,
            key,
        ) == field_position(e.fields, key),
    decreases e.fields.len(),
{
    let fields = with(e, key, value).fields;
    if e.fields.len() > 0 {
        let rest = EventView { fields: e.fields.skip(1), ..e };
        law_added_field_is_found(rest, key, value);
        assert(fields.skip(1) =~= with(rest, key, value).fields);
        assert(field_position(e.fields.skip(1), key) >= 0) by {
            lemma_field_position_bound(e.fields.skip(1), key);
        }
    }
}

proof fn lemma_field_position_bound(fields: Seq<(Seq<char>, ValueView)>, key: Seq<char>)
    ensures
        0 <= field_position(fields, key) <= fields.len(),
    decreases fields.len(),
{
    if fields.len() > 0 {
        lemma_field_position_bound(fields.skip(1), key);
    }
}

/// The event has a field with this key, and its value is this one.
pub open spec fn tells(e: EventView, key: Seq<char>, value: ValueView) -> bool {
    &&& exists|i: int| 0 <= i < e.fields.len() && #[trigger] e.fields[i] == (key, value)
    &&& forall|i: int|
        0 <= i < e.fields.len() && (#[trigger] e.fields[i]).0 == key ==> e.fields[i].1 == value
}

/// The position of a field is that of the first one with its key, and the number of fields
/// exactly if none has it.
pub proof fn law_first_field_is_found(fields: Seq<(Seq<char>, ValueView)>, key: Seq<char>)
    ensures
        ({
            let at = field_position(fields, key);
            &&& 0 <= at <= fields.len()
            &&& at < fields.len() ==> fields[at].0 == key
            &&& forall|i: int| 0 <= i < at ==> (#[trigger] fields[i]).0 != key
        }),
    decreases fields.len(),
{
    if fields.len() > 0 && fields[0].0 != key {
        let rest = fields.skip(1);
        law_first_field_is_found(rest, key);
        let at = field_position(fields, key);
        assert forall|i: int| 0 <= i < at implies (#[trigger] fields[i]).0 != key by {
            if i > 0 {
                assert(rest[i - 1] == fields[i]);
            }
        }
        if at < fields.len() {
            assert(rest[at - 1] == fields[at]);
        }
    }
}

/// A field is added at the end, and nothing else of the event changes.
pub proof fn law_field_is_added_at_the_end(e: EventView, key: Seq<char>, value: ValueView)
    ensures
        with(e, key, value).fields.len() == e.fields.len() + 1,
        with(e, key, value).fields.last() == (key, value),
        with(e, key, value).fields.drop_last() == e.fields,
        with(e, key, value).timestamp_us == e.timestamp_us,
        with(e, key, value).protocol == e.protocol,
        with(e, key, value).summary == e.summary,
        with(e, key, value).confidence == e.confidence,
{
    assert(with(e, key, value).fields.drop_last() =~= e.fields);
}

/// Decoders and framers are known by these texts.
pub proof fn law_identifiers()
    ensures
        decoder_name(DecoderId::Utf8) == "utf8"@,
        decoder_name(DecoderId::Hex) == "hex"@,
        decoder_name(DecoderId::Mavlink) == "mavlink"@,
        framer_name(FramerId::Lines) == "lines"@,
        framer_name(FramerId::Raw) == "raw"@,
        framer_name(FramerId::Cobs) == "cobs"@,
        framer_name(FramerId::Slip) == "slip"@,
{
}

/// The view of an event keeps its time, its texts, its fields in their order and its
/// confidence; that of a frame its bytes, its time and its channel; that of a value the
/// value.
pub proof fn law_views_keep_everything(e: DecodedEvent, f: Frame, v: Value)
    ensures
        e@.timestamp_us == e.timestamp_us,
        e@.protocol == e.protocol@,
        e@.summary == e.summary@,
        e@.confidence == e.confidence,
        e@.fields.len() == e.fields@.len(),
        forall|i: int|
            0 <= i < e.fields@.len() ==> (#[trigger] e@.fields[i]).0 == e.fields@[i].0@
                && e@.fields[i].1 == e.fields@[i].1@,
        f@.bytes == f.bytes@,
        f@.timestamp_us == f.timestamp_us,
        f@.channel == f.channel,
        v is Null <==> v@ is Null,
        v matches Value::Bool(b) ==> v@ == ValueView::Bool(b),
        v matches Value::I64(n) ==> v@ == ValueView::I64(n),
        v matches Value::F64(d) ==> v@ == ValueView::F64(d),
        v matches Value::String(s) ==> v@ == ValueView::Text(s@),
{
}

/// Numbers become fields as the numbers that they are, a text as that text.
pub proof fn law_values_become_fields_as_they_are(
    b: bool,
    n: i64,
    m: i32,
    u: usize,
    d: Double,
    s: String,
)
    ensures
        <Value as vstd::std_specs::convert::FromSpec<bool>>::from_spec(b) == Value::Bool(b),
        <Value as vstd::std_specs::convert::FromSpec<i64>>::from_spec(n) == Value::I64(n),
        <Value as vstd::std_specs::convert::FromSpec<i32>>::from_spec(m) matches Value::I64(k)
            && k == m,
        u <= i64::MAX ==> (<Value as vstd::std_specs::convert::FromSpec<usize>>::from_spec(u)
            matches Value::I64(k) && k == u),
        <Value as vstd::std_specs::convert::FromSpec<Double>>::from_spec(d) == Value::F64(d),
        <Value as vstd::std_specs::convert::FromSpec<String>>::from_spec(s) == Value::String(s),
{
}

/// A selection has the bytes from its start to before its end, and no other.
pub proof fn law_what_is_selected(r: SelectionRange, offset: int)
    ensures
        r.has(offset) <==> r.start_byte_offset <= offset && offset < r.end_byte_offset,
{
}

/// Identifiers are written and read by their texts.
pub proof fn law_identifiers_are_read_and_written(
    d: DecoderId,
    f: FramerId,
    s: &str,
    written: &'static str,
    decoder: Result<DecoderId, String>,
    framer: Result<FramerId, String>,
)
    ensures
        call_ensures(DecoderId::as_str, (&d,), written) ==> written@ == decoder_name(d),
        call_ensures(FramerId::as_str, (&f,), written) ==> written@ == framer_name(f),
        call_ensures(DecoderId::from_str, (s,), decoder) ==> (decoder_name(d) == s@ ==> decoder
            == Ok::<DecoderId, String>(d)) && (decoder matches Ok(x) ==> decoder_name(x) == s@)
            && (decoder matches Err(e) ==> e@ == "Invalid decoder ID: "@ + s@),
        call_ensures(FramerId::from_str, (s,), framer) ==> (framer_name(f) == s@ ==> framer == Ok::<
            FramerId,
            String,
        >(f)) && (framer matches Ok(x) ==> framer_name(x) == s@) && (framer matches Err(e) ==> e@
            == "Invalid framer ID: "@ + s@),
{
    if decoder is Ok {
        law_decoder_names_differ(d, decoder->Ok_0);
    }
    if framer is Ok {
        law_framer_names_differ(f, framer->Ok_0);
    }
}

/// Frames, log entries and selections hold what they are made of.
pub proof fn law_parts_are_put_together(
    bytes: Vec<u8>,
    at: u64,
    channel: Channel,
    frame: Frame,
    entry: RawEvent,
    selection: SelectionRange,
    n: usize,
    offset: usize,
    yes: bool,
)
    ensures
        call_ensures(Frame::new_rx, (bytes, at), frame) ==> frame.bytes == bytes
            && frame.timestamp_us == at && frame.channel is Rx,
        call_ensures(Frame::new_tx, (bytes, at), frame) ==> frame.bytes == bytes
            && frame.timestamp_us == at && frame.channel is Tx,
        call_ensures(RawEvent::new, (at, channel, bytes), entry) ==> entry.bytes == bytes
            && entry.timestamp_us == at && entry.channel == channel,
        call_ensures(RawEvent::from_frame, (&frame,), entry) ==> entry.bytes@ == frame.bytes@
            && entry.timestamp_us == frame.timestamp_us && entry.channel == frame.channel,
        call_ensures(RawEvent::byte_size, (&entry,), n) ==> n == entry.bytes@.len(),
        call_ensures(SelectionRange::byte_len, (&selection,), n) ==> n == (
        if selection.start_byte_offset <= selection.end_byte_offset {
            selection.end_byte_offset - selection.start_byte_offset
        } else {
            0
        }),
        call_ensures(SelectionRange::contains_offset, (&selection, offset), yes) ==> (yes <==>
            selection.start_byte_offset <= offset && offset < selection.end_byte_offset),
{
}

/// An event holds the texts it is made of, is fully trusted and has no fields at first; the
/// value that is found under a key is that of the first field with it; what is cleared
/// keeps its time alone.
pub proof fn law_events_hold_what_they_are_given(
    at: u64,
    protocol: &str,
    summary: &str,
    made: DecodedEvent,
    event: &mut DecodedEvent,
    key: &str,
    found: Option<&Value>,
)
    ensures
        call_ensures(DecodedEvent::new, (at, protocol, summary), made) ==> made.timestamp_us == at
            && made.protocol@ == protocol@ && made.summary@ == summary@ && made.fields@.len() == 0
            && made.confidence.bits == 0x3F80_0000,
        call_ensures(DecodedEvent::get_field, (&*old(event), key), found) ==> (found is None <==>
            forall|i: int|
            0 <= i < old(event)@.fields.len() ==> (#[trigger] old(event)@.fields[i]).0 != key@)
            && (found matches Some(v) ==> exists|i: int|
            0 <= i < old(event)@.fields.len() && #[trigger] old(event)@.fields[i] == (key@, v@)
                && forall|j: int|
                0 <= j < i ==> (#[trigger] old(event)@.fields[j]).0 != key@),
        call_ensures(DecodedEvent::clear, (event,), ()) ==> final(event).timestamp_us == old(
            event
        ).timestamp_us && final(event).protocol@ == ""@ && final(event).summary@ == ""@ && final(
            event
        ).fields@.len() == 0 && final(event).confidence.bits == 0,
{
    law_first_field_is_found(old(event)@.fields, key@);
    let position = field_position(old(event)@.fields, key@);
    if call_ensures(DecodedEvent::get_field, (&*old(event), key), found) {
        if position < old(event)@.fields.len() {
            assert(old(event)@.fields[position] == (key@, old(event).fields@[position].1@));
        }
    }
    if call_ensures(DecodedEvent::new, (at, protocol, summary), made) {
        assert(made@.fields.len() == 0);
    }
    if call_ensures(DecodedEvent::clear, (event,), ()) {
        assert(final(event)@.fields.len() == 0);
    }
}

} // verus!
