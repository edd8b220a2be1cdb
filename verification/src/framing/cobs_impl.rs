//! Packets that COBS keeps free of zeros, each ended by a zero.
use vstd::prelude::*;

use crate::framing::segments::{completed, left, nothing, Collector, Pending};
use crate::framing::streams::{completed_by_all, completed_by_last, Chunk};
use crate::framing::{frames_view, Framer};
use crate::types::{Channel, Frame, FrameView};

verus! {

/// The byte that ends a packet.
pub const COBS_DELIMITER: u8 = 0;

/// What the `cobs` crate decodes; `None` if the bytes are no COBS.
pub uninterp spec fn cobs_decoded(bytes: Seq<u8>) -> Option<Seq<u8>>;

/// The bytes that a decoded packet may hold, as an optional sequence.
pub open spec fn opt_bytes(v: Option<Vec<u8>>) -> Option<Seq<u8>> {
    match v {
        Some(b) => Some(b@),
        None => None,
    }
}

/// `cobs::decode_vec`: the bytes that the given ones encode, `None` where it
/// reports an error. The result depends on the bytes alone, and is no longer than
/// they are.
#[verifier::external_body]
fn decode_vec(bytes: &[u8]) -> (r: Option<Vec<u8>>)
    ensures
        opt_bytes(r) == cobs_decoded(bytes@),
        r matches Some(b) ==> b@.len() <= bytes@.len(),
{
    cobs::decode_vec(bytes).ok()
}

/// The frame of a packet that decodes; an empty packet and a damaged one make none.
pub open spec fn packet_frame(
    segment: Seq<u8>,
    decoded: Option<Seq<u8>>,
    timestamp_us: u64,
) -> Seq<FrameView> {
    if segment.len() == 0 {
        Seq::empty()
    } else {
        match decoded {
            Some(bytes) => seq![FrameView { bytes, timestamp_us, channel: Channel::Rx }],
            None => Seq::empty(),
        }
    }
}

/// The frames of packets.
pub open spec fn cobs_frames(packets: Seq<(Seq<u8>, u64)>) -> Seq<FrameView>
    decreases packets.len(),
{
    if packets.len() == 0 {
        Seq::empty()
    } else {
        let (segment, since) = packets.last();
        cobs_frames(packets.drop_last()) + packet_frame(segment, cobs_decoded(segment), since)
    }
}

/// Adds the frame of a packet, whose decoding gave `decoded`.
pub fn push_decoded(
    frames: &mut Vec<Frame>,
    segment: &Vec<u8>,
    decoded: Option<Vec<u8>>,
    timestamp_us: u64,
)
    ensures
        frames_view(final(frames)@) == frames_view(old(frames)@) + packet_frame(
            segment@,
            opt_bytes(decoded),
            timestamp_us,
        ),
{
    if !segment.is_empty() {
        match decoded {
            Some(bytes) => {
                frames.push(Frame::new_rx(bytes, timestamp_us));
            },
            None => {},
        }
    }
    assert(frames_view(frames@) =~= frames_view(old(frames)@) + packet_frame(
        segment@,
        opt_bytes(decoded),
        timestamp_us,
    ));
}

/// Makes a frame of every packet that decodes. A packet has the time at which its
/// first byte came in.
#[derive(Debug)]
pub struct CobsFramer {
    packet: Collector,
}

impl View for CobsFramer {
    type V = Pending;

    closed spec fn view(&self) -> Pending {
        self.packet@
    }
}

impl CobsFramer {
    /// A framer in which no packet has begun.
    pub fn new() -> (r: CobsFramer)
        ensures
            r@ == nothing(),
    {
        CobsFramer { packet: Collector::new() }
    }
}

impl Default for CobsFramer {
    fn default() -> (r: CobsFramer)
        ensures
            r@ == nothing(),
    {
        CobsFramer::new()
    }
}

impl Framer for CobsFramer {
    open spec fn frames(&self, bytes: Seq<u8>, timestamp_us: u64) -> Seq<FrameView> {
        cobs_frames(completed(self@, bytes, COBS_DELIMITER, timestamp_us))
    }

    open spec fn is_fresh(&self) -> bool {
        self@ == nothing()
    }

    fn push(&mut self, bytes: &[u8], timestamp_us: u64) -> (r: Vec<Frame>)
        ensures
            final(self)@ == left(old(self)@, bytes@, COBS_DELIMITER, timestamp_us),
    {
        let mut frames: Vec<Frame> = Vec::new();
        let ghost before = self@;
        let mut i: usize = 0;
        assert(frames_view(frames@) =~= Seq::<FrameView>::empty());
        while i < bytes.len()
            invariant
                i <= bytes.len(),
                self@ == left(before, bytes@.take(i as int), COBS_DELIMITER, timestamp_us),
                frames_view(frames@) == cobs_frames(
                    completed(before, bytes@.take(i as int), COBS_DELIMITER, timestamp_us),
                ),
            decreases bytes.len() - i,
        {
            let b = bytes[i];
            let ghost done = completed(
                before,
                bytes@.take(i as int),
                COBS_DELIMITER,
                timestamp_us,
            );
            proof {
                assert(bytes@.take(i + 1).drop_last() =~= bytes@.take(i as int));
            }
            if b == COBS_DELIMITER {
                let (segment, since) = self.packet.finish(timestamp_us);
                let decoded = decode_vec(segment.as_slice());
                push_decoded(&mut frames, &segment, decoded, since);
                assert(done.push((segment@, since)).drop_last() =~= done);
            } else {
                self.packet.grow(b, timestamp_us);
            }
            i += 1;
        }
        assert(bytes@.take(bytes@.len() as int) =~= bytes@);
        frames
    }

    fn reset(&mut self) {
        self.packet.clear();
    }

    fn name(&self) -> (r: &'static str)
        ensures
            r@ == "COBS"@,
    {
        "COBS"
    }
}

/// Packets that come in one after the other, at the same time, make the frames
/// that they make at once.
pub proof fn law_cobs_chunks_do_not_matter(
    p: Pending,
    a: Seq<u8>,
    b: Seq<u8>,
    now: u64,
)
    ensures
        cobs_frames(completed(p, a + b, COBS_DELIMITER, now)) == cobs_frames(
            completed(p, a, COBS_DELIMITER, now),
        ) + cobs_frames(
            completed(left(p, a, COBS_DELIMITER, now), b, COBS_DELIMITER, now),
        ),
{
    crate::framing::segments::law_chunks_do_not_matter(p, a, b, COBS_DELIMITER, now);
    lemma_frames_of_both(
        completed(p, a, COBS_DELIMITER, now),
        completed(left(p, a, COBS_DELIMITER, now), b, COBS_DELIMITER, now),
    );
}

proof fn lemma_frames_of_both(a: Seq<(Seq<u8>, u64)>, b: Seq<(Seq<u8>, u64)>)
    ensures
        cobs_frames(a + b) == cobs_frames(a) + cobs_frames(b),
    decreases b.len(),
{
    if b.len() == 0 {
        assert(a + b =~= a);
        assert(cobs_frames(a) + Seq::<FrameView>::empty() =~= cobs_frames(a));
    } else {
        lemma_frames_of_both(a, b.drop_last());
        assert((a + b).drop_last() =~= a + b.drop_last());
        let (segment, since) = b.last();
        let last = packet_frame(segment, cobs_decoded(segment), since);
        assert(cobs_frames(a) + cobs_frames(b.drop_last()) + last =~= cobs_frames(a) + (
        cobs_frames(b.drop_last()) + last));
    }
}

/// The frames that chunks give, one chunk after the other, with no packet begun before.
pub open spec fn cobs_frames_of_all(chunks: Seq<Chunk>) -> Seq<FrameView>
    decreases chunks.len(),
{
    if chunks.len() == 0 {
        Seq::empty()
    } else {
        cobs_frames_of_all(chunks.drop_last()) + cobs_frames(
            completed_by_last(chunks, COBS_DELIMITER),
        )
    }
}

/// However a stream is cut into chunks, and whenever they come in, its frames are those of
/// its segments.
pub proof fn law_cobs_packets_of_a_stream(chunks: Seq<Chunk>)
    ensures
        cobs_frames_of_all(chunks) == cobs_frames(completed_by_all(chunks, COBS_DELIMITER)),
    decreases chunks.len(),
{
    if chunks.len() > 0 {
        law_cobs_packets_of_a_stream(chunks.drop_last());
        lemma_frames_of_both(
            completed_by_all(chunks.drop_last(), COBS_DELIMITER),
            completed_by_last(chunks, COBS_DELIMITER),
        );
    }
}

/// Every packet that is not empty and decodes makes one received frame, of what it decodes
/// to, at its own time, behind the frames of those before it; any other packet makes none.
pub proof fn law_cobs_packets_make_frames(
    packets: Seq<(Seq<u8>, u64)>,
    segment: Seq<u8>,
    since: u64,
)
    ensures
        ({
            let before = cobs_frames(packets);
            let frames = cobs_frames(packets.push((segment, since)));
            &&& segment.len() == 0 || cobs_decoded(segment) is None ==> frames == before
            &&& segment.len() > 0 && cobs_decoded(segment) is Some ==> {
                &&& frames.len() == before.len() + 1
                &&& frames.take(before.len() as int) == before
                &&& frames.last().bytes == cobs_decoded(segment)->0
                &&& frames.last().timestamp_us == since
                &&& frames.last().channel is Rx
            }
        }),
{
    let more = packets.push((segment, since));
    assert(more.drop_last() =~= packets);
    assert(more.last() == (segment, since));
    let before = cobs_frames(packets);
    assert(before + Seq::<FrameView>::empty() =~= before);
    assert(cobs_frames(more).take(before.len() as int) =~= before);
}

/// A zero ends a packet, and nothing else does: bytes without a zero that are followed by
/// one make the frame that they decode to.
pub proof fn law_zero_ends_a_packet(framer: CobsFramer, bytes: Seq<u8>, now: u64)
    requires
        framer.is_fresh(),
        bytes.len() > 0,
        forall|i: int| 0 <= i < bytes.len() ==> #[trigger] bytes[i] != 0,
    ensures
        framer.frames(bytes, now).len() == 0,
        cobs_decoded(bytes) is None ==> framer.frames(bytes.push(0), now).len() == 0,
        cobs_decoded(bytes) matches Some(data) ==> framer.frames(bytes.push(0), now) == seq![
            FrameView { bytes: data, timestamp_us: now, channel: Channel::Rx },
        ],
{
    crate::framing::segments::law_delimiter_completes(bytes, 0, now);
    let none = Seq::<(Seq<u8>, u64)>::empty();
    assert(completed(nothing(), bytes, 0, now) =~= none);
    law_cobs_packets_make_frames(none, bytes, now);
    assert(none.push((bytes, now)) =~= seq![(bytes, now)]);
    assert(cobs_frames(none) =~= Seq::<FrameView>::empty());
    if cobs_decoded(bytes) is Some {
        assert(framer.frames(bytes.push(0), now) =~= seq![
            FrameView { bytes: cobs_decoded(bytes)->0, timestamp_us: now, channel: Channel::Rx },
        ]);
    }
}

/// A stream is cut at zeros, as the model has it.
pub proof fn law_cobs_streams_are_cut(
    framer: &mut CobsFramer,
    bytes: &[u8],
    now: u64,
    frames: Vec<Frame>,
)
    requires
        call_ensures(<CobsFramer as Framer>::push, (framer, bytes, now), frames),
    ensures
        frames_view(frames@) == cobs_frames(completed(old(framer)@, bytes@, 0, now)),
        final(framer)@ == left(old(framer)@, bytes@, 0, now),
{
}

} // verus!
