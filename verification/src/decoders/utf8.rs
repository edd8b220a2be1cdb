//! Frames passed through as text.
use vstd::prelude::*;
use vstd::utf8::{decode_utf8, valid_utf8};

use crate::types::{
    bare_event, events_view, DecodedEvent, Decoder, EventView, Frame, FrameView,
};

verus! {

/// The bytes as text, each part that is no UTF-8 replaced.
pub uninterp spec fn lossy_text(bytes: Seq<u8>) -> Seq<char>;

/// `String::from_utf8_lossy` of std: the bytes as text, with U+FFFD in place of
/// invalid sequences; valid UTF-8 comes out as the text that it encodes.
#[verifier::external_body]
fn from_utf8_lossy(bytes: &[u8]) -> (r: String)
    ensures
        r@ == lossy_text(bytes@),
        valid_utf8(bytes@) ==> r@ == decode_utf8(bytes@),
{
    String::from_utf8_lossy(bytes).into_owned()
}

/// Passes every frame through as text, control sequences and all.
#[derive(Debug)]
pub struct Utf8Decoder;

impl Utf8Decoder {
    /// A decoder.
    pub fn new() -> Utf8Decoder {
        Utf8Decoder
    }

    /// The event for a frame; there always is one.
    pub fn ingest(&mut self, frame: &Frame) -> (r: Option<DecodedEvent>)
        ensures
            r matches Some(e) && e@ == text_event(frame@),
            valid_utf8(frame.bytes@) ==> (r matches Some(e) && e.summary@ == decode_utf8(
                frame.bytes@,
            )),
    {
        let text = from_utf8_lossy(frame.bytes.as_slice());
        Some(event_of_text(frame.timestamp_us, text.as_str()))
    }
}

/// The event for a frame's text.
pub fn event_of_text(timestamp_us: u64, text: &str) -> (r: DecodedEvent)
    ensures
        r@ == bare_event(timestamp_us, "UTF-8"@, text@),
{
    DecodedEvent::new(timestamp_us, "UTF-8", text)
}

impl Default for Utf8Decoder {
    fn default() -> Utf8Decoder {
        Utf8Decoder
    }
}

/// The event for a frame.
pub open spec fn text_event(frame: FrameView) -> EventView {
    bare_event(frame.timestamp_us, "UTF-8"@, lossy_text(frame.bytes))
}

impl Decoder for Utf8Decoder {
    open spec fn decoded(&self, frame: FrameView) -> Seq<EventView> {
        seq![text_event(frame)]
    }

    fn ingest(&mut self, frame: &Frame, results: &mut Vec<DecodedEvent>) {
        let ghost given = results@;
        let text = from_utf8_lossy(frame.bytes.as_slice());
        results.push(event_of_text(frame.timestamp_us, text.as_str()));
        assert(events_view(results@) =~= events_view(given) + seq![text_event(frame@)]);
        assert(results@.take(given.len() as int) =~= given);
    }

    fn id(&self) -> (r: &'static str)
        ensures
            r@ == "utf8"@,
    {
        "utf8"
    }

    fn name(&self) -> (r: &'static str)
        ensures
            r@ == "UTF-8 Passthrough"@,
    {
        "UTF-8 Passthrough"
    }
}

/// The event for a frame is its text, at its time, with nothing added.
pub proof fn law_text_is_passed_through(frame: FrameView)
    ensures
        text_event(frame).timestamp_us == frame.timestamp_us,
        text_event(frame).protocol == "UTF-8"@,
        text_event(frame).summary == lossy_text(frame.bytes),
        text_event(frame).fields.len() == 0,
        text_event(frame).confidence.bits == 0x3F80_0000,
{
}

} // verus!
