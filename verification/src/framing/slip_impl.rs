//! SLIP packets, as RFC 1055 has them.
use vstd::prelude::*;

use crate::framing::cobs_impl::{opt_bytes, packet_frame, push_decoded};
use crate::framing::segments::{
    completed, law_delimiter_completes, left, nothing, Collector, Pending,
};
use crate::framing::streams::{completed_by_all, completed_by_last, Chunk};
use crate::framing::{frames_view, Framer};
use crate::types::{Channel, Frame, FrameView};

verus! {

/// Ends a packet.
pub const SLIP_END: u8 = 0xC0;

/// Begins an escaped byte.
pub const SLIP_ESC: u8 = 0xDB;

/// Stands for `SLIP_END` when escaped.
pub const SLIP_ESC_END: u8 = 0xDC;

/// Stands for `SLIP_ESC` when escaped.
pub const SLIP_ESC_ESC: u8 = 0xDD;

/// The bytes with every escape undone; `None` if an escape is cut short or unknown.
pub open spec fn unescaped(data: Seq<u8>) -> Option<Seq<u8>>
    decreases data.len(),
{
    if data.len() == 0 {
        Some(Seq::empty())
    } else if data[0] != SLIP_ESC {
        match unescaped(data.skip(1)) {
            Some(rest) => Some(seq![data[0]] + rest),
            None => None,
        }
    } else if data.len() > 1 && data[1] == SLIP_ESC_END {
        match unescaped(data.skip(2)) {
            Some(rest) => Some(seq![SLIP_END] + rest),
            None => None,
        }
    } else if data.len() > 1 && data[1] == SLIP_ESC_ESC {
        match unescaped(data.skip(2)) {
            Some(rest) => Some(seq![SLIP_ESC] + rest),
            None => None,
        }
    } else {
        None
    }
}

/// The bytes with every end and escape byte escaped.
pub open spec fn escaped(data: Seq<u8>) -> Seq<u8>
    decreases data.len(),
{
    if data.len() == 0 {
        Seq::empty()
    } else {
        let head = if data[0] == SLIP_END {
            seq![SLIP_ESC, SLIP_ESC_END]
        } else if data[0] == SLIP_ESC {
            seq![SLIP_ESC, SLIP_ESC_ESC]
        } else {
            seq![data[0]]
        };
        head + escaped(data.skip(1))
    }
}

/// Undoes the escapes of a packet; an error if one is cut short or unknown.
pub fn decode_slip(data: &[u8]) -> (r: Result<Vec<u8>, ()>)
    ensures
        match r {
            Ok(out) => unescaped(data@) == Some(out@),
            Err(_) => unescaped(data@) is None,
        },
{
    let mut out: Vec<u8> = Vec::new();
    let mut i: usize = 0;
    assert(data@.skip(0) =~= data@);
    assert(unescaped(data@) == match unescaped(data@) {
        Some(rest) => Some(out@ + rest),
        None => None::<Seq<u8>>,
    }) by {
        if let Some(rest) = unescaped(data@) {
            assert(out@ + rest =~= rest);
        }
    }
    while i < data.len()
        invariant
            i <= data.len(),
            unescaped(data@) == match unescaped(data@.skip(i as int)) {
                Some(rest) => Some(out@ + rest),
                None => None,
            },
        decreases data.len() - i,
    {
        let ghost here = data@.skip(i as int);
        let ghost sent = out@;
        let byte = data[i];
        if byte == SLIP_ESC {
            if data.len() - i < 2 {
                return Err(());
            }
            let code = data[i + 1];
            assert(here.skip(2) =~= data@.skip(i + 2));
            if code == SLIP_ESC_END {
                out.push(SLIP_END);
                proof {
                    lemma_one_more(sent, SLIP_END, unescaped(here.skip(2)));
                }
            } else if code == SLIP_ESC_ESC {
                out.push(SLIP_ESC);
                proof {
                    lemma_one_more(sent, SLIP_ESC, unescaped(here.skip(2)));
                }
            } else {
                return Err(());
            }
            i += 2;
        } else {
            out.push(byte);
            i += 1;
            proof {
                assert(here.skip(1) =~= data@.skip(i as int));
                lemma_one_more(sent, byte, unescaped(here.skip(1)));
            }
        }
    }
    proof {
        assert(data@.skip(i as int).len() == 0);
        assert(out@ + Seq::<u8>::empty() =~= out@);
    }
    Ok(out)
}

proof fn lemma_one_more(sent: Seq<u8>, b: u8, rest: Option<Seq<u8>>)
    ensures
        rest matches Some(r) ==> sent + (seq![b] + r) == sent.push(b) + r,
{
    if let Some(r) = rest {
        assert(sent + (seq![b] + r) =~= sent.push(b) + r);
    }
}

/// The frames of packets.
pub open spec fn slip_frames(packets: Seq<(Seq<u8>, u64)>) -> Seq<FrameView>
    decreases packets.len(),
{
    if packets.len() == 0 {
        Seq::empty()
    } else {
        let (segment, since) = packets.last();
        slip_frames(packets.drop_last()) + packet_frame(segment, unescaped(segment), since)
    }
}

/// Makes a frame of every packet that decodes. A packet has the time at which its
/// first byte came in.
#[derive(Debug)]
pub struct SlipFramer {
    packet: Collector,
}

impl View for SlipFramer {
    type V = Pending;

    closed spec fn view(&self) -> Pending {
        self.packet@
    }
}

impl SlipFramer {
    /// A framer in which no packet has begun.
    pub fn new() -> (r: SlipFramer)
        ensures
            r@ == nothing(),
    {
        SlipFramer { packet: Collector::new() }
    }
}

impl Default for SlipFramer {
    fn default() -> (r: SlipFramer)
        ensures
            r@ == nothing(),
    {
        SlipFramer::new()
    }
}

impl Framer for SlipFramer {
    open spec fn frames(&self, bytes: Seq<u8>, timestamp_us: u64) -> Seq<FrameView> {
        slip_frames(completed(self@, bytes, SLIP_END, timestamp_us))
    }

    open spec fn is_fresh(&self) -> bool {
        self@ == nothing()
    }

    fn push(&mut self, bytes: &[u8], timestamp_us: u64) -> (r: Vec<Frame>)
        ensures
            final(self)@ == left(old(self)@, bytes@, SLIP_END, timestamp_us),
    {
        let mut frames: Vec<Frame> = Vec::new();
        let ghost before = self@;
        let mut i: usize = 0;
        assert(frames_view(frames@) =~= Seq::<FrameView>::empty());
        while i < bytes.len()
            invariant
                i <= bytes.len(),
                self@ == left(before, bytes@.take(i as int), SLIP_END, timestamp_us),
                frames_view(frames@) == slip_frames(
                    completed(before, bytes@.take(i as int), SLIP_END, timestamp_us),
                ),
            decreases bytes.len() - i,
        {
            let b = bytes[i];
            let ghost done = completed(before, bytes@.take(i as int), SLIP_END, timestamp_us);
            proof {
                assert(bytes@.take(i + 1).drop_last() =~= bytes@.take(i as int));
            }
            if b == SLIP_END {
                let (segment, since) = self.packet.finish(timestamp_us);
                let decoded = match decode_slip(segment.as_slice()) {
                    Ok(out) => Some(out),
                    Err(_) => None,
                };
                assert(opt_bytes(decoded) == unescaped(segment@));
                push_decoded(&mut frames, &segment, decoded, since);
                assert(done.push((segment@, since)).drop_last() =~= done);
            } else {
                self.packet.grow(b, timestamp_us);
            }
            i += 1;
        }
        assert(bytes@.take(bytes@.len() as int) =~= bytes@);
        frames
    }

    fn reset(&mut self) {
        self.packet.clear();
    }

    fn name(&self) -> (r: &'static str)
        ensures
            r@ == "SLIP"@,
    {
        "SLIP"
    }
}

/// Escaping keeps the end byte out, and unescaping undoes it.
pub proof fn law_unescaping_undoes_escaping(data: Seq<u8>)
    ensures
        unescaped(escaped(data)) == Some(data),
        !escaped(data).contains(SLIP_END),
        data.len() > 0 ==> escaped(data).len() > 0,
    decreases data.len(),
{
    if data.len() == 0 {
        assert(data =~= Seq::<u8>::empty());
    } else {
        let rest = data.skip(1);
        law_unescaping_undoes_escaping(rest);
        let all = escaped(data);
        let tail = escaped(rest);
        assert(data =~= seq![data[0]] + rest);
        if data[0] == SLIP_END || data[0] == SLIP_ESC {
            assert(all.skip(2) =~= tail);
        } else {
            assert(all.skip(1) =~= tail);
        }
        assert forall|i: int| 0 <= i < all.len() implies all[i] != SLIP_END by {
            let k = all.len() - tail.len();
            if i >= k {
                assert(tail[i - k] == all[i]);
                assert(tail.contains(tail[i - k]));
            }
        }
    }
}

/// A packet that was escaped and ended comes out of the framer as it went in, in
/// one frame, with the time at which it came.
pub proof fn law_slip_carries_a_packet(data: Seq<u8>, now: u64)
    requires
        data.len() > 0,
    ensures
        slip_frames(completed(nothing(), escaped(data).push(SLIP_END), SLIP_END, now)) == seq![
            FrameView { bytes: data, timestamp_us: now, channel: Channel::Rx },
        ],
{
    law_unescaping_undoes_escaping(data);
    law_delimiter_completes(escaped(data), SLIP_END, now);
    let packets = seq![(escaped(data), now)];
    assert(packets.drop_last() =~= Seq::<(Seq<u8>, u64)>::empty());
    assert(packets.last() == (escaped(data), now));
    assert(slip_frames(packets.drop_last()) =~= Seq::<FrameView>::empty());
    assert(slip_frames(packets) =~= seq![
        FrameView { bytes: data, timestamp_us: now, channel: Channel::Rx },
    ]);
}

/// Packets that come in one after the other, at the same time, make the frames
/// that they make at once.
pub proof fn law_slip_chunks_do_not_matter(p: Pending, a: Seq<u8>, b: Seq<u8>, now: u64)
    ensures
        slip_frames(completed(p, a + b, SLIP_END, now)) == slip_frames(
            completed(p, a, SLIP_END, now),
        ) + slip_frames(completed(left(p, a, SLIP_END, now), b, SLIP_END, now)),
{
    crate::framing::segments::law_chunks_do_not_matter(p, a, b, SLIP_END, now);
    lemma_frames_of_both(
        completed(p, a, SLIP_END, now),
        completed(left(p, a, SLIP_END, now), b, SLIP_END, now),
    );
}

proof fn lemma_frames_of_both(a: Seq<(Seq<u8>, u64)>, b: Seq<(Seq<u8>, u64)>)
    ensures
        slip_frames(a + b) == slip_frames(a) + slip_frames(b),
    decreases b.len(),
{
    if b.len() == 0 {
        assert(a + b =~= a);
        assert(slip_frames(a) + Seq::<FrameView>::empty() =~= slip_frames(a));
    } else {
        lemma_frames_of_both(a, b.drop_last());
        assert((a + b).drop_last() =~= a + b.drop_last());
        let (segment, since) = b.last();
        let last = packet_frame(segment, unescaped(segment), since);
        assert(slip_frames(a) + slip_frames(b.drop_last()) + last =~= slip_frames(a) + (
        slip_frames(b.drop_last()) + last));
    }
}

/// The frames that chunks give, one chunk after the other, with no packet begun before.
pub open spec fn slip_frames_of_all(chunks: Seq<Chunk>) -> Seq<FrameView>
    decreases chunks.len(),
{
    if chunks.len() == 0 {
        Seq::empty()
    } else {
        slip_frames_of_all(chunks.drop_last()) + slip_frames(
            completed_by_last(chunks, SLIP_END),
        )
    }
}

/// However a stream is cut into chunks, and whenever they come in, its frames are those of
/// its segments.
pub proof fn law_slip_packets_of_a_stream(chunks: Seq<Chunk>)
    ensures
        slip_frames_of_all(chunks) == slip_frames(completed_by_all(chunks, SLIP_END)),
    decreases chunks.len(),
{
    if chunks.len() > 0 {
        law_slip_packets_of_a_stream(chunks.drop_last());
        lemma_frames_of_both(
            completed_by_all(chunks.drop_last(), SLIP_END),
            completed_by_last(chunks, SLIP_END),
        );
    }
}

/// Escapes are undone one after the other: of two parts, the first of which holds no
/// escape that is cut short or unknown, each is undone for itself.
pub proof fn law_escapes_are_undone_in_turn(a: Seq<u8>, b: Seq<u8>)
    requires
        unescaped(a) is Some,
    ensures
        unescaped(b) is None ==> unescaped(a + b) is None,
        unescaped(b) matches Some(rest) ==> unescaped(a + b) == Some(unescaped(a)->0 + rest),
    decreases a.len(),
{
    let whole = a + b;
    if a.len() == 0 {
        assert(whole =~= b);
        if let Some(rest) = unescaped(b) {
            assert(unescaped(a)->0 + rest =~= rest);
        }
    } else if a[0] != SLIP_ESC {
        law_escapes_are_undone_in_turn(a.skip(1), b);
        assert(whole.skip(1) =~= a.skip(1) + b);
        if let Some(rest) = unescaped(b) {
            let first = unescaped(a.skip(1))->0;
            assert(seq![a[0]] + first + rest =~= seq![a[0]] + (first + rest));
        }
    } else {
        law_escapes_are_undone_in_turn(a.skip(2), b);
        assert(whole.skip(2) =~= a.skip(2) + b);
        assert(whole[1] == a[1]);
        if let Some(rest) = unescaped(b) {
            let first = unescaped(a.skip(2))->0;
            let byte = if a[1] == SLIP_ESC_END {
                SLIP_END
            } else {
                SLIP_ESC
            };
            assert(seq![byte] + first + rest =~= seq![byte] + (first + rest));
        }
    }
}

/// Every byte but 0xDB stands for itself; 0xDB 0xDC stands for 0xC0 and 0xDB 0xDD for
/// 0xDB; 0xDB before anything else, or at the end, spoils the packet.
pub proof fn law_what_escapes_stand_for(b: u8, rest: Seq<u8>)
    ensures
        unescaped(Seq::empty()) == Some(Seq::<u8>::empty()),
        b != 0xDB ==> unescaped(seq![b]) == Some(seq![b]),
        unescaped(seq![0xDBu8, 0xDCu8]) == Some(seq![0xC0u8]),
        unescaped(seq![0xDBu8, 0xDDu8]) == Some(seq![0xDBu8]),
        unescaped(seq![0xDBu8]) is None,
        b != 0xDC && b != 0xDD ==> unescaped(seq![0xDBu8, b] + rest) is None,
{
    let nothing = Seq::<u8>::empty();
    assert(seq![b].skip(1) =~= nothing);
    assert(seq![0xDBu8, 0xDCu8].skip(2) =~= nothing);
    assert(seq![0xDBu8, 0xDDu8].skip(2) =~= nothing);
    assert(seq![b] + nothing =~= seq![b]);
    assert(seq![0xC0u8] + nothing =~= seq![0xC0u8]);
    assert(seq![0xDBu8] + nothing =~= seq![0xDBu8]);
    assert((seq![0xDBu8, b] + rest)[0] == 0xDB);
    assert((seq![0xDBu8, b] + rest)[1] == b);
}

/// Every packet that is not empty and decodes makes one received frame, of what it decodes
/// to, at its own time, behind the frames of those before it; any other packet makes none.
pub proof fn law_slip_packets_make_frames(
    packets: Seq<(Seq<u8>, u64)>,
    segment: Seq<u8>,
    since: u64,
)
    ensures
        ({
            let before = slip_frames(packets);
            let frames = slip_frames(packets.push((segment, since)));
            &&& segment.len() == 0 || unescaped(segment) is None ==> frames == before
            &&& segment.len() > 0 && unescaped(segment) is Some ==> {
                &&& frames.len() == before.len() + 1
                &&& frames.take(before.len() as int) == before
                &&& frames.last().bytes == unescaped(segment)->0
                &&& frames.last().timestamp_us == since
                &&& frames.last().channel is Rx
            }
        }),
{
    let more = packets.push((segment, since));
    assert(more.drop_last() =~= packets);
    assert(more.last() == (segment, since));
    let before = slip_frames(packets);
    assert(before + Seq::<FrameView>::empty() =~= before);
    assert(slip_frames(more).take(before.len() as int) =~= before);
}

/// Packets are decoded, and a stream is cut, as the model has it.
pub proof fn law_slip_streams_are_cut(
    data: &[u8],
    r: Result<Vec<u8>, ()>,
    framer: &mut SlipFramer,
    bytes: &[u8],
    now: u64,
    frames: Vec<Frame>,
)
    requires
        call_ensures(decode_slip, (data,), r),
        call_ensures(<SlipFramer as Framer>::push, (framer, bytes, now), frames),
    ensures
        r is Ok <==> unescaped(data@) is Some,
        r matches Ok(out) ==> unescaped(data@) == Some(out@),
        frames_view(frames@) == slip_frames(completed(old(framer)@, bytes@, 0xC0, now)),
        final(framer)@ == left(old(framer)@, bytes@, 0xC0, now),
{
}

} // verus!
