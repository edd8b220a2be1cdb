//! NMEA 0183 sentences.
use vstd::prelude::*;
use vstd::utf8::{decode_utf8, valid_utf8};

use crate::float::{widened, Double, Single};
use crate::text::{same_text, text_of};
use crate::types::{
    events_view, tells, DecodedEvent, Decoder, EventView, Frame, FrameView, Value, ValueView,
};

verus! {

/// What is read from a sentence: its type's name, and the position where it has one.
#[derive(Debug)]
pub struct NmeaReading {
    pub sentence_type: String,
    pub latitude: Option<Double>,
    pub longitude: Option<Double>,
    pub altitude: Option<Single>,
}

/// What is read from a sentence, with the type's name as a character sequence.
pub struct NmeaReadingView {
    pub sentence_type: Seq<char>,
    pub latitude: Option<Double>,
    pub longitude: Option<Double>,
    pub altitude: Option<Single>,
}

impl View for NmeaReading {
    type V = NmeaReadingView;

    open spec fn view(&self) -> NmeaReadingView {
        NmeaReadingView {
            sentence_type: self.sentence_type@,
            latitude: self.latitude,
            longitude: self.longitude,
            altitude: self.altitude,
        }
    }
}

/// What the `nmea` crate reads from a sentence; `None` for a text that is no
/// sentence, has a wrong checksum, or is of a type that it does not evaluate.
pub uninterp spec fn sentence_reading(sentence: Seq<char>) -> Option<NmeaReadingView>;

/// `nmea::Nmea::parse` of a new parser: the sentence's type by the name that
/// `Debug` prints, and the parser's position, the numbers by their bit patterns.
/// The result depends on the sentence alone.
#[verifier::external_body]
fn read_sentence(sentence: &str) -> (r: Option<NmeaReading>)
    ensures
        match r {
            Some(n) => sentence_reading(sentence@) == Some(n@),
            None => sentence_reading(sentence@) is None,
        },
{
    let mut parser = nmea::Nmea::default();
    let kind = parser.parse(sentence).ok()?;
    Some(NmeaReading {
        sentence_type: format!("{:?}", kind),
        latitude: parser.latitude.map(|v| Double { bits: v.to_bits() }),
        longitude: parser.longitude.map(|v| Double { bits: v.to_bits() }),
        altitude: parser.altitude.map(|v| Single { bits: v.to_bits() }),
    })
}

/// The name shown for a sentence type: seven are shown as they are.
pub open spec fn shown_type(sentence_type: Seq<char>) -> Seq<char> {
    if sentence_type == "GGA"@ || sentence_type == "RMC"@ || sentence_type == "GSA"@
        || sentence_type == "GSV"@ || sentence_type == "VTG"@ || sentence_type == "GLL"@
        || sentence_type == "TXT"@ {
        sentence_type
    } else {
        "OTHER"@
    }
}

/// The position of a GGA sentence as fields, as far as it has one.
pub open spec fn position_fields(n: NmeaReadingView) -> Seq<(Seq<char>, ValueView)> {
    let lat = match n.latitude {
        Some(d) => seq![("latitude"@, ValueView::F64(d))],
        None => Seq::empty(),
    };
    let lon = match n.longitude {
        Some(d) => seq![("longitude"@, ValueView::F64(d))],
        None => Seq::empty(),
    };
    let alt = match n.altitude {
        Some(f) => seq![
            ("altitude"@, ValueView::F64(Double { bits: widened(f.bits) as u64 })),
        ],
        None => Seq::empty(),
    };
    lat + lon + alt
}

/// The event for what was read from a sentence.
pub open spec fn reading_event(timestamp_us: u64, n: NmeaReadingView) -> EventView {
    let shown = shown_type(n.sentence_type);
    EventView {
        timestamp_us,
        protocol: "NMEA"@,
        summary: shown,
        fields: seq![("type"@, ValueView::Text(shown))] + if n.sentence_type == "GGA"@ {
            position_fields(n)
        } else {
            Seq::empty()
        },
        confidence: Single { bits: 0x3F80_0000 },
    }
}

/// The event for a frame, if it holds a sentence.
pub open spec fn frame_event(frame: FrameView) -> Option<EventView> {
    if valid_utf8(frame.bytes) {
        match sentence_reading(decode_utf8(frame.bytes)) {
            Some(n) => Some(reading_event(frame.timestamp_us, n)),
            None => None,
        }
    } else {
        None
    }
}

/// The event for what was read from a sentence.
pub fn event_of_reading(timestamp_us: u64, reading: &NmeaReading) -> (r: DecodedEvent)
    ensures
        r@ == reading_event(timestamp_us, reading@),
{
    let kind = reading.sentence_type.as_str();
    let is_gga = same_text(kind, "GGA");
    let shown = if is_gga || same_text(kind, "RMC") || same_text(kind, "GSA") || same_text(
        kind,
        "GSV",
    ) || same_text(kind, "VTG") || same_text(kind, "GLL") || same_text(kind, "TXT") {
        kind
    } else {
        "OTHER"
    };
    let mut event = DecodedEvent::new(timestamp_us, "NMEA", shown).with_value(
        "type",
        Value::String(shown.to_owned()),
    );
    assert(event@.fields =~= seq![("type"@, ValueView::Text(shown@))]);
    if is_gga {
        match reading.latitude {
            Some(d) => {
                event = event.with_value("latitude", Value::F64(d));
            },
            None => {},
        }
        match reading.longitude {
            Some(d) => {
                event = event.with_value("longitude", Value::F64(d));
            },
            None => {},
        }
        match reading.altitude {
            Some(f) => {
                event = event.with_value("altitude", Value::F64(f.widen()));
            },
            None => {},
        }
    }
    assert(event@.fields =~= reading_event(timestamp_us, reading@).fields);
    event
}

/// Decodes frames that hold one sentence each. What is shown of a sentence comes from
/// that sentence alone, so nothing is kept from one frame to the next.
#[derive(Debug)]
pub struct NmeaDecoder;

impl NmeaDecoder {
    /// A decoder.
    pub fn new() -> NmeaDecoder {
        NmeaDecoder
    }

    /// The event for a frame, if it holds a sentence.
    pub fn ingest(&mut self, frame: &Frame) -> (r: Option<DecodedEvent>)
        ensures
            match r {
                Some(e) => frame_event(frame@) == Some(e@),
                None => frame_event(frame@) is None,
            },
    {
        match text_of(frame.bytes.as_slice()) {
            Some(text) => match read_sentence(text) {
                Some(reading) => Some(event_of_reading(frame.timestamp_us, &reading)),
                None => None,
            },
            None => None,
        }
    }

    /// Puts the event for a frame in `output`, if the frame holds a sentence; says
    /// whether it does.
    pub fn ingest_into(&mut self, frame: &Frame, output: &mut DecodedEvent) -> (r: bool)
        ensures
            r == (frame_event(frame@) is Some),
            r ==> Some(final(output)@) == frame_event(frame@),
            !r ==> *final(output) == *old(output),
    {
        match NmeaDecoder::ingest(self, frame) {
            Some(event) => {
                *output = event;
                true
            },
            None => false,
        }
    }
}

impl Default for NmeaDecoder {
    fn default() -> NmeaDecoder {
        NmeaDecoder
    }
}

impl Decoder for NmeaDecoder {
    open spec fn decoded(&self, frame: FrameView) -> Seq<EventView> {
        match frame_event(frame) {
            Some(e) => seq![e],
            None => Seq::empty(),
        }
    }

    fn ingest(&mut self, frame: &Frame, results: &mut Vec<DecodedEvent>) {
        let ghost given = results@;
        match NmeaDecoder::ingest(self, frame) {
            Some(event) => {
                let ghost seen = event@;
                results.push(event);
                assert(events_view(results@) =~= events_view(given) + seq![seen]);
            },
            None => {
                assert(events_view(given) + Seq::<EventView>::empty() =~= events_view(given));
            },
        }
        assert(results@.take(given.len() as int) =~= given);
    }

    fn id(&self) -> (r: &'static str)
        ensures
            r@ == "nmea"@,
    {
        "nmea"
    }

    fn name(&self) -> (r: &'static str)
        ensures
            r@ == "NMEA 0183"@,
    {
        "NMEA 0183"
    }
}

proof fn lemma_field_names()
    ensures
        "type"@ != "latitude"@,
        "type"@ != "longitude"@,
        "type"@ != "altitude"@,
        "latitude"@ != "longitude"@,
        "latitude"@ != "altitude"@,
        "longitude"@ != "altitude"@,
{
    reveal_strlit("type");
    reveal_strlit("latitude");
    reveal_strlit("longitude");
    reveal_strlit("altitude");
    assert("type"@.len() == 4 && "longitude"@.len() == 9);
    assert("latitude"@[0] == 'l' && "altitude"@[0] == 'a');
}

/// The event has no field with this key.
pub open spec fn keeps_silent(e: EventView, key: Seq<char>) -> bool {
    forall|i: int| 0 <= i < e.fields.len() ==> (#[trigger] e.fields[i]).0 != key
}

/// The event for a reading tells the reading's type, as both summary and field, by its own
/// name if it is one of the seven that are known.
pub proof fn law_sentence_type_is_told(timestamp_us: u64, n: NmeaReadingView)
    ensures
        ({
            let e = reading_event(timestamp_us, n);
            let t = n.sentence_type;
            &&& e.timestamp_us == timestamp_us && e.protocol == "NMEA"@ && e.confidence.bits
                == 0x3F80_0000
            &&& tells(e, "type"@, ValueView::Text(e.summary))
            &&& t == "GGA"@ || t == "RMC"@ || t == "GSA"@ || t == "GSV"@ || t == "VTG"@ || t
                == "GLL"@ || t == "TXT"@ ==> e.summary == t
            &&& !(t == "GGA"@ || t == "RMC"@ || t == "GSA"@ || t == "GSV"@ || t == "VTG"@ || t
                == "GLL"@ || t == "TXT"@) ==> e.summary == "OTHER"@
        }),
{
    lemma_field_names();
    let e = reading_event(timestamp_us, n);
    assert(e.fields[0] == ("type"@, ValueView::Text(e.summary)));
}

/// The event for a GGA sentence tells each part of the position that the reading has, and
/// none that it has not: the latitude as latitude, the longitude as longitude, and the
/// altitude in double precision. The event for any other sentence tells no position.
pub proof fn law_position_is_told(timestamp_us: u64, n: NmeaReadingView)
    ensures
        ({
            let e = reading_event(timestamp_us, n);
            &&& n.sentence_type == "GGA"@ ==> {
                &&& n.latitude matches Some(d) ==> tells(e, "latitude"@, ValueView::F64(d))
                &&& n.latitude is None ==> keeps_silent(e, "latitude"@)
                &&& n.longitude matches Some(d) ==> tells(e, "longitude"@, ValueView::F64(d))
                &&& n.longitude is None ==> keeps_silent(e, "longitude"@)
                &&& n.altitude matches Some(f) ==> tells(
                    e,
                    "altitude"@,
                    ValueView::F64(Double { bits: widened(f.bits) as u64 }),
                )
                &&& n.altitude is None ==> keeps_silent(e, "altitude"@)
            }
            &&& n.sentence_type != "GGA"@ ==> e.fields.len() == 1
        }),
{
    lemma_field_names();
    let e = reading_event(timestamp_us, n);
    if n.sentence_type == "GGA"@ {
        let lat: int = if n.latitude is Some {
            1
        } else {
            0
        };
        let lon: int = if n.longitude is Some {
            1
        } else {
            0
        };
        if n.latitude is Some {
            assert(e.fields[1] == ("latitude"@, ValueView::F64(n.latitude->0)));
        }
        if n.longitude is Some {
            assert(e.fields[1 + lat] == ("longitude"@, ValueView::F64(n.longitude->0)));
        }
        if n.altitude is Some {
            assert(e.fields[1 + lat + lon] == (
                "altitude"@,
                ValueView::F64(Double { bits: widened((n.altitude->0).bits) as u64 }),
            ));
        }
    }
}

/// A frame has an event exactly if it is text and a sentence can be read from that text;
/// the event is the reading's, at the frame's time.
pub proof fn law_sentences_are_told(frame: FrameView)
    ensures
        !valid_utf8(frame.bytes) ==> frame_event(frame) is None,
        valid_utf8(frame.bytes) ==> (frame_event(frame) is Some <==> sentence_reading(
            decode_utf8(frame.bytes),
        ) is Some),
        frame_event(frame) matches Some(e) ==> valid_utf8(frame.bytes) && (sentence_reading(
            decode_utf8(frame.bytes),
        ) matches Some(n) && e == reading_event(frame.timestamp_us, n)),
{
}

/// Sentences are decoded as the model has it; where a frame holds none, the event that is
/// there stays.
pub proof fn law_sentences_are_decoded(
    decoder: &mut NmeaDecoder,
    frame: Frame,
    r: Option<DecodedEvent>,
    output: &mut DecodedEvent,
    filled: bool,
    timestamp_us: u64,
    reading: NmeaReading,
    event: DecodedEvent,
)
    requires
        call_ensures(NmeaDecoder::ingest, (decoder, &frame), r),
        call_ensures(NmeaDecoder::ingest_into, (decoder, &frame, output), filled),
        call_ensures(event_of_reading, (timestamp_us, &reading), event),
    ensures
        r is Some <==> frame_event(frame@) is Some,
        r matches Some(e) ==> frame_event(frame@) == Some(e@),
        filled <==> r is Some,
        filled ==> Some(final(output)@) == frame_event(frame@),
        !filled ==> *final(output) == *old(output),
        event@ == reading_event(timestamp_us, reading@),
{
}

} // verus!
