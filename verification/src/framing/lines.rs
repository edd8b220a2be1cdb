//! Lines that end in a newline.
use vstd::prelude::*;

use crate::framing::segments::{
    completed, law_chunks_do_not_matter, law_no_byte_is_lost, left, nothing, rejoined, Collector,
    Pending,
};
use crate::framing::streams::{
    arrivals, completed_by_all, completed_by_last, law_segments_of_a_stream, left_by_all, stream,
    Chunk,
};
use crate::framing::{frames_view, Framer};
use crate::types::{Channel, Frame, FrameView};

verus! {

/// The byte that ends a line.
pub const NEWLINE: u8 = 0x0A;

/// Makes a frame of every line, with its newline. A line has the time at which its
/// first byte came in.
#[derive(Debug)]
pub struct LineFramer {
    line: Collector,
}

impl View for LineFramer {
    type V = Pending;

    closed spec fn view(&self) -> Pending {
        self.line@
    }
}

impl LineFramer {
    /// A framer in which no line has begun.
    pub fn new() -> (r: LineFramer)
        ensures
            r@ == nothing(),
    {
        LineFramer { line: Collector::new() }
    }
}

impl Default for LineFramer {
    fn default() -> (r: LineFramer)
        ensures
            r@ == nothing(),
    {
        LineFramer::new()
    }
}

/// The frames of lines.
pub open spec fn line_frames(lines: Seq<(Seq<u8>, u64)>) -> Seq<FrameView> {
    lines.map_values(
        |l: (Seq<u8>, u64)|
            FrameView { bytes: l.0.push(NEWLINE), timestamp_us: l.1, channel: Channel::Rx },
    )
}

impl Framer for LineFramer {
    open spec fn frames(&self, bytes: Seq<u8>, timestamp_us: u64) -> Seq<FrameView> {
        line_frames(completed(self@, bytes, NEWLINE, timestamp_us))
    }

    open spec fn is_fresh(&self) -> bool {
        self@ == nothing()
    }

    fn push(&mut self, bytes: &[u8], timestamp_us: u64) -> (r: Vec<Frame>)
        ensures
            final(self)@ == left(old(self)@, bytes@, NEWLINE, timestamp_us),
    {
        let mut frames: Vec<Frame> = Vec::new();
        let ghost before = self@;
        let mut i: usize = 0;
        while i < bytes.len()
            invariant
                i <= bytes.len(),
                self@ == left(before, bytes@.take(i as int), NEWLINE, timestamp_us),
                frames_view(frames@) =~= line_frames(
                    completed(before, bytes@.take(i as int), NEWLINE, timestamp_us),
                ),
            decreases bytes.len() - i,
        {
            let b = bytes[i];
            proof {
                assert(bytes@.take(i + 1).drop_last() =~= bytes@.take(i as int));
            }
            if b == NEWLINE {
                let (mut segment, since) = self.line.finish(timestamp_us);
                segment.push(NEWLINE);
                let ghost sent = frames@;
                frames.push(Frame::new_rx(segment, since));
                proof {
                    let done = completed(before, bytes@.take(i as int), NEWLINE, timestamp_us);
                    let at = left(before, bytes@.take(i as int), NEWLINE, timestamp_us);
                    assert(frames_view(frames@) =~= frames_view(sent).push(frames@.last()@));
                    assert(frames@.last()@.bytes =~= at.bytes.push(NEWLINE));
                    assert(line_frames(done.push((at.bytes, since))) =~= line_frames(done).push(
                        frames@.last()@,
                    ));
                }
            } else {
                self.line.grow(b, timestamp_us);
            }
            i += 1;
        }
        assert(bytes@.take(bytes@.len() as int) =~= bytes@);
        frames
    }

    fn reset(&mut self) {
        self.line.clear();
    }

    fn name(&self) -> (r: &'static str)
        ensures
            r@ == "Lines"@,
    {
        "Lines"
    }
}

/// The bytes of frames, one frame after the other.
pub open spec fn frame_bytes(frames: Seq<FrameView>) -> Seq<u8>
    decreases frames.len(),
{
    if frames.len() == 0 {
        Seq::empty()
    } else {
        frame_bytes(frames.drop_last()) + frames.last().bytes
    }
}

proof fn lemma_lines_rejoin(lines: Seq<(Seq<u8>, u64)>)
    ensures
        frame_bytes(line_frames(lines)) == rejoined(lines, NEWLINE),
    decreases lines.len(),
{
    if lines.len() > 0 {
        lemma_lines_rejoin(lines.drop_last());
        assert(line_frames(lines).drop_last() =~= line_frames(lines.drop_last()));
    }
}

/// How a stream is cut into chunks that come in at the same time does not change its
/// frames.
pub proof fn law_line_chunks_do_not_matter(p: Pending, a: Seq<u8>, b: Seq<u8>, now: u64)
    ensures
        line_frames(completed(p, a + b, NEWLINE, now)) == line_frames(
            completed(p, a, NEWLINE, now),
        ) + line_frames(completed(left(p, a, NEWLINE, now), b, NEWLINE, now)),
        left(p, a + b, NEWLINE, now) == left(left(p, a, NEWLINE, now), b, NEWLINE, now),
{
    law_chunks_do_not_matter(p, a, b, NEWLINE, now);
    assert(line_frames(completed(p, a + b, NEWLINE, now)) =~= line_frames(
        completed(p, a, NEWLINE, now),
    ) + line_frames(completed(left(p, a, NEWLINE, now), b, NEWLINE, now)));
}

/// The frames and the line that has begun hold every byte that came in, in order, and
/// no other.
pub proof fn law_frames_keep_every_byte(p: Pending, bytes: Seq<u8>, now: u64)
    ensures
        frame_bytes(line_frames(completed(p, bytes, NEWLINE, now))) + left(
            p,
            bytes,
            NEWLINE,
            now,
        ).bytes == p.bytes + bytes,
{
    lemma_lines_rejoin(completed(p, bytes, NEWLINE, now));
    law_no_byte_is_lost(p, bytes, NEWLINE, now);
}

/// The frames that chunks give, one chunk after the other, with no line begun before.
pub open spec fn line_frames_of_all(chunks: Seq<Chunk>) -> Seq<FrameView>
    decreases chunks.len(),
{
    if chunks.len() == 0 {
        Seq::empty()
    } else {
        line_frames_of_all(chunks.drop_last()) + line_frames(completed_by_last(chunks, NEWLINE))
    }
}

proof fn lemma_line_frames_of_all(chunks: Seq<Chunk>)
    ensures
        line_frames_of_all(chunks) == line_frames(completed_by_all(chunks, NEWLINE)),
    decreases chunks.len(),
{
    if chunks.len() > 0 {
        lemma_line_frames_of_all(chunks.drop_last());
    }
    assert(line_frames_of_all(chunks) =~= line_frames(completed_by_all(chunks, NEWLINE)));
}

/// However a stream is cut into chunks, and whenever they come in: the frames' bytes, one
/// frame after the other, are the longest part of it, from its beginning, that ends in a
/// newline or is empty, and the rest has begun; each frame holds one newline, at its end;
/// its channel is Rx; and it has the time at which its first byte came in.
pub proof fn law_lines_of_a_stream(chunks: Seq<Chunk>)
    ensures
        ({
            let frames = line_frames_of_all(chunks);
            let n = frame_bytes(frames).len() as int;
            let bytes = stream(chunks);
            &&& arrivals(chunks).len() == bytes.len()
            &&& n <= bytes.len()
            &&& frame_bytes(frames) == bytes.take(n)
            &&& n > 0 ==> bytes[n - 1] == NEWLINE
            &&& forall|i: int| n <= i < bytes.len() ==> #[trigger] bytes[i] != NEWLINE
            &&& left_by_all(chunks, NEWLINE).bytes == bytes.skip(n)
            &&& forall|i: int| 0 <= i < frames.len() ==> is_line(#[trigger] frames[i].bytes)
            &&& forall|i: int|
                0 <= i < frames.len() ==> (#[trigger] frames[i]).channel == Channel::Rx
                    && frames[i].timestamp_us == arrivals(chunks)[frame_bytes(
                    frames.take(i),
                ).len() as int]
        }),
{
    let lines = completed_by_all(chunks, NEWLINE);
    let frames = line_frames_of_all(chunks);
    lemma_line_frames_of_all(chunks);
    lemma_lines_rejoin(lines);
    law_segments_of_a_stream(chunks, NEWLINE);
    assert forall|i: int| 0 <= i < frames.len() implies is_line(#[trigger] frames[i].bytes) by {
        let line = lines[i].0;
        assert(!line.contains(NEWLINE));
        assert(frames[i].bytes == line.push(NEWLINE));
        assert forall|j: int| 0 <= j < line.len() implies line.push(NEWLINE)[j] != NEWLINE by {
            assert(line.contains(line[j]));
        }
    }
    assert forall|i: int| 0 <= i < frames.len() implies (#[trigger] frames[i]).channel
        == Channel::Rx && frames[i].timestamp_us == arrivals(chunks)[frame_bytes(
        frames.take(i),
    ).len() as int] by {
        assert(frames.take(i) =~= line_frames(lines.take(i)));
        lemma_lines_rejoin(lines.take(i));
        assert(frames[i].timestamp_us == lines[i].1);
    }
}

/// A newline at the end, and nowhere else.
pub open spec fn is_line(bytes: Seq<u8>) -> bool {
    bytes.len() > 0 && bytes.last() == NEWLINE && forall|j: int|
        0 <= j < bytes.len() - 1 ==> #[trigger] bytes[j] != NEWLINE
}

/// A line feed ends a line, and nothing else does: bytes without one make no frame, and
/// bytes without one that are followed by one make a frame of both.
pub proof fn law_line_feed_ends_a_line(framer: LineFramer, bytes: Seq<u8>, now: u64)
    requires
        framer.is_fresh(),
        forall|i: int| 0 <= i < bytes.len() ==> #[trigger] bytes[i] != 10,
    ensures
        framer.frames(bytes, now).len() == 0,
        framer.frames(bytes.push(10), now) == seq![
            FrameView { bytes: bytes.push(10), timestamp_us: now, channel: Channel::Rx },
        ],
{
    crate::framing::segments::law_delimiter_completes(bytes, 10, now);
    assert(framer.frames(bytes.push(10), now) =~= seq![
        FrameView { bytes: bytes.push(10), timestamp_us: now, channel: Channel::Rx },
    ]);
}

/// A stream is cut at line feeds, as the model has it.
pub proof fn law_line_streams_are_cut(
    framer: &mut LineFramer,
    bytes: &[u8],
    now: u64,
    frames: Vec<Frame>,
)
    requires
        call_ensures(<LineFramer as Framer>::push, (framer, bytes, now), frames),
    ensures
        frames_view(frames@) == line_frames(completed(old(framer)@, bytes@, 10, now)),
        final(framer)@ == left(old(framer)@, bytes@, 10, now),
{
}

} // verus!
