//! A hexadecimal dump of any frame.
use vstd::prelude::*;

use crate::text::{chars_of, hex_char, hex_digit, joined, push_char, string_of};
use crate::types::{
    bare_event, events_view, with, DecodedEvent, Decoder, EventView, Frame, FrameView, Value,
    ValueView,
};

verus! {

/// The bytes as pairs of upper-case hexadecimal digits, with spaces between them.
pub open spec fn hex_dump(bytes: Seq<u8>) -> Seq<char>
    decreases bytes.len(),
{
    if bytes.len() == 0 {
        Seq::empty()
    } else {
        let b = bytes.last() as int;
        let pair = seq![hex_char(b / 16), hex_char(b % 16)];
        if bytes.len() == 1 {
            pair
        } else {
            hex_dump(bytes.drop_last()).push(' ') + pair
        }
    }
}

/// A visible ASCII character or a space as it is, a full stop for any other byte.
pub open spec fn shown(b: u8) -> char {
    if 32 <= b <= 126 {
        b as char
    } else {
        '.'
    }
}

/// The bytes as characters.
pub open spec fn ascii_dump(bytes: Seq<u8>) -> Seq<char> {
    bytes.map_values(|b: u8| shown(b))
}

/// A text of more than 50 characters cut to 47 and three full stops.
pub open spec fn shortened(s: Seq<char>) -> Seq<char> {
    if s.len() > 50 {
        s.take(47) + "..."@
    } else {
        s
    }
}

/// The event for a frame.
pub open spec fn hex_event(frame: FrameView) -> EventView {
    let dump = hex_dump(frame.bytes);
    let e = bare_event(frame.timestamp_us, "Hex"@, shortened(dump));
    let e = with(e, "hex"@, ValueView::Text(dump));
    let e = with(e, "ascii"@, ValueView::Text(ascii_dump(frame.bytes)));
    with(e, "len"@, ValueView::I64(frame.bytes.len() as i64))
}

fn dump(bytes: &Vec<u8>) -> (r: String)
    ensures
        r@ == hex_dump(bytes@),
{
    let mut out = String::new();
    let mut i: usize = 0;
    while i < bytes.len()
        invariant
            i <= bytes.len(),
            out@ == hex_dump(bytes@.take(i as int)),
        decreases bytes.len() - i,
    {
        let ghost before = out@;
        let b = bytes[i];
        if i > 0 {
            push_char(&mut out, ' ');
        }
        push_char(&mut out, hex_digit(b / 16));
        push_char(&mut out, hex_digit(b % 16));
        proof {
            let now = bytes@.take(i + 1);
            assert(now.drop_last() =~= bytes@.take(i as int));
            assert(now.last() == b);
            assert(out@ =~= hex_dump(now));
        }
        i += 1;
    }
    assert(bytes@.take(bytes@.len() as int) =~= bytes@);
    out
}

fn ascii(bytes: &Vec<u8>) -> (r: String)
    ensures
        r@ == ascii_dump(bytes@),
{
    let mut out = String::new();
    let mut i: usize = 0;
    while i < bytes.len()
        invariant
            i <= bytes.len(),
            out@ == ascii_dump(bytes@.take(i as int)),
        decreases bytes.len() - i,
    {
        let b = bytes[i];
        let c = if 32 <= b && b <= 126 {
            b as char
        } else {
            '.'
        };
        push_char(&mut out, c);
        i += 1;
        assert(out@ =~= ascii_dump(bytes@.take(i as int)));
    }
    assert(bytes@.take(bytes@.len() as int) =~= bytes@);
    out
}

fn shorten(s: &String) -> (r: String)
    ensures
        r@ == shortened(s@),
{
    let chars = chars_of(s.as_str());
    if chars.len() > 50 {
        let head = vstd::slice::slice_subrange(chars.as_slice(), 0, 47);
        assert(head@ =~= s@.take(47));
        joined(string_of(head).as_str(), "...")
    } else {
        s.clone()
    }
}

/// Dumps every frame.
#[derive(Debug)]
pub struct HexDecoder;

impl HexDecoder {
    /// A decoder.
    pub fn new() -> HexDecoder {
        HexDecoder
    }
}

impl Default for HexDecoder {
    fn default() -> HexDecoder {
        HexDecoder
    }
}

impl Decoder for HexDecoder {
    open spec fn decoded(&self, frame: FrameView) -> Seq<EventView> {
        seq![hex_event(frame)]
    }

    fn ingest(&mut self, frame: &Frame, results: &mut Vec<DecodedEvent>) {
        let hex = dump(&frame.bytes);
        let summary = shorten(&hex);
        let ascii = ascii(&frame.bytes);
        let event = DecodedEvent::new(frame.timestamp_us, "Hex", summary.as_str()).with_value(
            "hex",
            Value::String(hex),
        ).with_value("ascii", Value::String(ascii)).with_value(
            "len",
            Value::I64(frame.bytes.len() as i64),
        );
        assert(event@ == hex_event(frame@));
        let ghost given = results@;
        results.push(event);
        assert(events_view(results@) =~= events_view(given) + seq![hex_event(frame@)]);
        assert(results@.take(given.len() as int) =~= given);
    }

    fn id(&self) -> (r: &'static str)
        ensures
            r@ == "hex"@,
    {
        "hex"
    }

    fn name(&self) -> (r: &'static str)
        ensures
            r@ == "Hex Inspector"@,
    {
        "Hex Inspector"
    }
}

/// A dump takes three characters for each byte but the last, which takes two.
pub proof fn law_dump_length(bytes: Seq<u8>)
    ensures
        bytes.len() > 0 ==> hex_dump(bytes).len() == 3 * bytes.len() - 1,
        bytes.len() == 0 ==> hex_dump(bytes).len() == 0,
        ascii_dump(bytes).len() == bytes.len(),
    decreases bytes.len(),
{
    if bytes.len() > 1 {
        law_dump_length(bytes.drop_last());
    }
}

/// The dump tells the bytes: no two different sequences have the same dump.
pub proof fn law_dump_tells_the_bytes(a: Seq<u8>, b: Seq<u8>)
    requires
        hex_dump(a) == hex_dump(b),
    ensures
        a == b,
    decreases a.len(),
{
    law_dump_length(a);
    law_dump_length(b);
    assert(a.len() == b.len());
    if a.len() > 0 {
        let d = hex_dump(a);
        let n = d.len() as int;
        assert(d[n - 2] == hex_char(a.last() as int / 16));
        assert(d[n - 1] == hex_char(a.last() as int % 16));
        assert(d[n - 2] == hex_char(b.last() as int / 16));
        assert(d[n - 1] == hex_char(b.last() as int % 16));
        if a.len() > 1 {
            law_dump_length(a.drop_last());
            law_dump_length(b.drop_last());
            assert(hex_dump(a.drop_last()) =~= d.take(n - 3));
            assert(hex_dump(b.drop_last()) =~= d.take(n - 3));
            law_dump_tells_the_bytes(a.drop_last(), b.drop_last());
        }
        assert(a =~= a.drop_last().push(a.last()));
        assert(b =~= b.drop_last().push(b.last()));
        assert(a.drop_last() =~= b.drop_last());
    } else {
        assert(a =~= b);
    }
}

/// A summary is never longer than 50 characters.
pub proof fn law_summary_is_short(s: Seq<char>)
    ensures
        shortened(s).len() <= 50,
{
    reveal_strlit("...");
}

/// Every byte is dumped as its two hexadecimal digits, in order, with a space after each
/// pair but the last.
pub proof fn law_dump_shows_each_byte(bytes: Seq<u8>, i: int)
    requires
        0 <= i < bytes.len(),
    ensures
        hex_dump(bytes).len() == 3 * bytes.len() - 1,
        hex_dump(bytes)[3 * i] == "0123456789ABCDEF"@[bytes[i] as int / 16],
        hex_dump(bytes)[3 * i + 1] == "0123456789ABCDEF"@[bytes[i] as int % 16],
        i + 1 < bytes.len() ==> hex_dump(bytes)[3 * i + 2] == ' ',
    decreases bytes.len(),
{
    law_dump_length(bytes);
    reveal_strlit("0123456789ABCDEF");
    let rest = bytes.drop_last();
    law_dump_length(rest);
    if bytes.len() > 1 {
        assert(hex_dump(bytes).take(3 * rest.len() - 1) =~= hex_dump(rest));
        assert(hex_dump(bytes)[3 * rest.len() - 1] == ' ');
        if i < rest.len() {
            law_dump_shows_each_byte(rest, i);
            assert(hex_dump(bytes)[3 * i] == hex_dump(rest)[3 * i]);
            assert(hex_dump(bytes)[3 * i + 1] == hex_dump(rest)[3 * i + 1]);
            if i + 1 < rest.len() {
                assert(hex_dump(bytes)[3 * i + 2] == hex_dump(rest)[3 * i + 2]);
            }
        }
    }
}

/// The bytes are shown as characters one for one: what can be seen, and a space, as it is,
/// anything else as a full stop.
pub proof fn law_characters_are_shown(bytes: Seq<u8>, i: int)
    requires
        0 <= i < bytes.len(),
    ensures
        ascii_dump(bytes).len() == bytes.len(),
        32 <= bytes[i] <= 126 ==> ascii_dump(bytes)[i] as int == bytes[i] as int,
        !(32 <= bytes[i] <= 126) ==> ascii_dump(bytes)[i] == '.',
{
}

/// The event for a frame tells its time, the whole dump, the characters and the number of
/// bytes; its summary is the dump, or the dump's first 47 characters and three full stops
/// if it is longer than 50.
pub proof fn law_frame_is_told_in_full(frame: FrameView)
    ensures
        ({
            let e = hex_event(frame);
            &&& e.timestamp_us == frame.timestamp_us && e.protocol == "Hex"@
                && e.confidence.bits == 0x3F80_0000
            &&& e.fields.len() == 3
            &&& e.fields[0] == ("hex"@, ValueView::Text(hex_dump(frame.bytes)))
            &&& e.fields[1] == ("ascii"@, ValueView::Text(ascii_dump(frame.bytes)))
            &&& e.fields[2] == ("len"@, ValueView::I64(frame.bytes.len() as i64))
            &&& hex_dump(frame.bytes).len() <= 50 ==> e.summary == hex_dump(frame.bytes)
            &&& hex_dump(frame.bytes).len() > 50 ==> e.summary.len() == 50 && e.summary.take(47)
                == hex_dump(frame.bytes).take(47) && e.summary[47] == '.' && e.summary[48] == '.'
                && e.summary[49] == '.'
        }),
{
    reveal_strlit("...");
    let dump = hex_dump(frame.bytes);
    if dump.len() > 50 {
        assert(hex_event(frame).summary.take(47) =~= dump.take(47));
    }
}

} // verus!
