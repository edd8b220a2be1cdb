//! Segments of a stream, each ended by a delimiter.
use vstd::prelude::*;

verus! {

/// A segment that has begun: its bytes, and the time of the first of them.
#[verifier::ext_equal]
pub struct Pending {
    pub bytes: Seq<u8>,
    pub since: u64,
}

/// Nothing has begun.
pub open spec fn nothing() -> Pending {
    Pending { bytes: Seq::empty(), since: 0 }
}

/// The segment that has begun once one more byte, not the delimiter, has come in.
pub open spec fn grown(p: Pending, b: u8, now: u64) -> Pending {
    Pending {
        bytes: p.bytes.push(b),
        since: if p.bytes.len() == 0 {
            now
        } else {
            p.since
        },
    }
}

/// The time of a segment: that of its first byte; that of its delimiter if it has none.
pub open spec fn time_of(p: Pending, now: u64) -> u64 {
    if p.bytes.len() == 0 {
        now
    } else {
        p.since
    }
}

/// The segment that has begun once `bytes` have come in.
pub open spec fn left(p: Pending, bytes: Seq<u8>, delimiter: u8, now: u64) -> Pending
    decreases bytes.len(),
{
    if bytes.len() == 0 {
        p
    } else {
        let before = left(p, bytes.drop_last(), delimiter, now);
        if bytes.last() == delimiter {
            nothing()
        } else {
            grown(before, bytes.last(), now)
        }
    }
}

/// The segments, without their delimiters, that `bytes` complete, and their times.
pub open spec fn completed(
    p: Pending,
    bytes: Seq<u8>,
    delimiter: u8,
    now: u64,
) -> Seq<(Seq<u8>, u64)>
    decreases bytes.len(),
{
    if bytes.len() == 0 {
        Seq::empty()
    } else {
        let before = completed(p, bytes.drop_last(), delimiter, now);
        let at = left(p, bytes.drop_last(), delimiter, now);
        if bytes.last() == delimiter {
            before.push((at.bytes, time_of(at, now)))
        } else {
            before
        }
    }
}

/// Collects the bytes of a segment until its delimiter comes.
#[derive(Debug)]
pub struct Collector {
    buffer: Vec<u8>,
    since: u64,
}

impl View for Collector {
    type V = Pending;

    closed spec fn view(&self) -> Pending {
        Pending {
            bytes: self.buffer@,
            since: if self.buffer@.len() == 0 {
                0
            } else {
                self.since
            },
        }
    }
}

impl Collector {
    /// A collector in which nothing has begun.
    pub fn new() -> (r: Collector)
        ensures
            r@ == nothing(),
    {
        let r = Collector { buffer: Vec::new(), since: 0 };
        assert(r@ =~= nothing());
        r
    }

    /// Takes in a byte that is not the delimiter.
    pub fn grow(&mut self, b: u8, now: u64)
        ensures
            final(self)@ == grown(old(self)@, b, now),
    {
        if self.buffer.is_empty() {
            self.since = now;
        }
        self.buffer.push(b);
        assert(self@ =~= grown(old(self)@, b, now));
    }

    /// Ends the segment: its bytes and its time.
    pub fn finish(&mut self, now: u64) -> (r: (Vec<u8>, u64))
        ensures
            r.0@ == old(self)@.bytes,
            r.1 == time_of(old(self)@, now),
            final(self)@ == nothing(),
    {
        let since = if self.buffer.is_empty() {
            now
        } else {
            self.since
        };
        let mut segment: Vec<u8> = Vec::new();
        segment.append(&mut self.buffer);
        assert(segment@ =~= old(self)@.bytes);
        assert(self@ =~= nothing());
        (segment, since)
    }

    /// Forgets the segment.
    pub fn clear(&mut self)
        ensures
            final(self)@ == nothing(),
    {
        self.buffer.clear();
        assert(self@ =~= nothing());
    }
}

/// Bytes that come in one after the other, at the same time, complete the same
/// segments as if they came at once.
pub proof fn law_chunks_do_not_matter(p: Pending, a: Seq<u8>, b: Seq<u8>, delimiter: u8, now: u64)
    ensures
        left(p, a + b, delimiter, now) == left(left(p, a, delimiter, now), b, delimiter, now),
        completed(p, a + b, delimiter, now) == completed(p, a, delimiter, now) + completed(
            left(p, a, delimiter, now),
            b,
            delimiter,
            now,
        ),
    decreases b.len(),
{
    if b.len() == 0 {
        assert(a + b =~= a);
        assert(completed(p, a, delimiter, now) + Seq::<(Seq<u8>, u64)>::empty() =~= completed(
            p,
            a,
            delimiter,
            now,
        ));
    } else {
        law_chunks_do_not_matter(p, a, b.drop_last(), delimiter, now);
        assert((a + b).drop_last() =~= a + b.drop_last());
        assert((a + b).last() == b.last());
    }
}

/// When bytes come in does not change what is in the segments, only their times.
pub proof fn law_times_do_not_change_the_bytes(
    p: Pending,
    q: Pending,
    bytes: Seq<u8>,
    delimiter: u8,
    t: u64,
    u: u64,
)
    requires
        p.bytes == q.bytes,
    ensures
        left(p, bytes, delimiter, t).bytes == left(q, bytes, delimiter, u).bytes,
        completed(p, bytes, delimiter, t).len() == completed(q, bytes, delimiter, u).len(),
        forall|i: int|
            0 <= i < completed(p, bytes, delimiter, t).len() ==> (#[trigger] completed(
                p,
                bytes,
                delimiter,
                t,
            )[i]).0 == completed(q, bytes, delimiter, u)[i].0,
    decreases bytes.len(),
{
    if bytes.len() > 0 {
        law_times_do_not_change_the_bytes(p, q, bytes.drop_last(), delimiter, t, u);
    }
}

/// The segments put together again, each with its delimiter.
pub open spec fn rejoined(segments: Seq<(Seq<u8>, u64)>, delimiter: u8) -> Seq<u8>
    decreases segments.len(),
{
    if segments.len() == 0 {
        Seq::empty()
    } else {
        rejoined(segments.drop_last(), delimiter) + segments.last().0.push(delimiter)
    }
}

/// No byte is lost or added: the segments with their delimiters, and what is left,
/// are what had begun and what came in.
pub proof fn law_no_byte_is_lost(p: Pending, bytes: Seq<u8>, delimiter: u8, now: u64)
    ensures
        rejoined(completed(p, bytes, delimiter, now), delimiter) + left(
            p,
            bytes,
            delimiter,
            now,
        ).bytes == p.bytes + bytes,
    decreases bytes.len(),
{
    if bytes.len() == 0 {
        assert(Seq::<u8>::empty() + p.bytes =~= p.bytes + bytes);
    } else {
        let init = bytes.drop_last();
        law_no_byte_is_lost(p, init, delimiter, now);
        let before = completed(p, init, delimiter, now);
        let at = left(p, init, delimiter, now);
        assert(p.bytes + bytes =~= (p.bytes + init).push(bytes.last()));
        if bytes.last() == delimiter {
            let now_done = completed(p, bytes, delimiter, now);
            assert(now_done.drop_last() =~= before);
            assert(rejoined(now_done, delimiter) + Seq::<u8>::empty() =~= (rejoined(
                before,
                delimiter,
            ) + at.bytes).push(delimiter));
        } else {
            assert(rejoined(before, delimiter) + at.bytes.push(bytes.last()) =~= (rejoined(
                before,
                delimiter,
            ) + at.bytes).push(bytes.last()));
        }
    }
}

/// No segment holds its delimiter, and neither does what has begun.
pub proof fn law_segments_hold_no_delimiter(p: Pending, bytes: Seq<u8>, delimiter: u8, now: u64)
    requires
        !p.bytes.contains(delimiter),
    ensures
        !left(p, bytes, delimiter, now).bytes.contains(delimiter),
        forall|i: int|
            0 <= i < completed(p, bytes, delimiter, now).len() ==> !(#[trigger] completed(
                p,
                bytes,
                delimiter,
                now,
            )[i]).0.contains(delimiter),
    decreases bytes.len(),
{
    if bytes.len() > 0 {
        law_segments_hold_no_delimiter(p, bytes.drop_last(), delimiter, now);
        let at = left(p, bytes.drop_last(), delimiter, now);
        let next = grown(at, bytes.last(), now).bytes;
        let done = completed(p, bytes.drop_last(), delimiter, now);
        assert forall|i: int|
            0 <= i < completed(p, bytes, delimiter, now).len() implies !(#[trigger] completed(
            p,
            bytes,
            delimiter,
            now,
        )[i]).0.contains(delimiter) by {
            if i < done.len() {
                assert(!done[i].0.contains(delimiter));
            }
        }
        if bytes.last() != delimiter {
            assert forall|i: int| 0 <= i < next.len() implies next[i] != delimiter by {
                if i < at.bytes.len() {
                    assert(at.bytes[i] == next[i]);
                    assert(at.bytes.contains(at.bytes[i]));
                }
            }
        }
    }
}

/// Bytes without the delimiter complete nothing; one that follows them completes them.
pub proof fn law_delimiter_completes(bytes: Seq<u8>, delimiter: u8, now: u64)
    requires
        !bytes.contains(delimiter),
    ensures
        left(nothing(), bytes, delimiter, now).bytes == bytes,
        completed(nothing(), bytes, delimiter, now).len() == 0,
        completed(nothing(), bytes.push(delimiter), delimiter, now) == seq![(bytes, now)],
        left(nothing(), bytes.push(delimiter), delimiter, now) == nothing(),
    decreases bytes.len(),
{
    lemma_begun_now(bytes, delimiter, now);
    if bytes.len() > 0 {
        let init = bytes.drop_last();
        assert(!init.contains(delimiter)) by {
            if init.contains(delimiter) {
                let i = choose|i: int| 0 <= i < init.len() && init[i] == delimiter;
                assert(bytes[i] == delimiter);
            }
        }
        law_delimiter_completes(init, delimiter, now);
        assert(bytes[bytes.len() - 1] == bytes.last());
        assert(bytes.last() != delimiter);
        assert(left(nothing(), init, delimiter, now).bytes.push(bytes.last()) =~= bytes);
    }
    assert(left(nothing(), bytes, delimiter, now).bytes =~= bytes);
    let whole = bytes.push(delimiter);
    assert(whole.drop_last() =~= bytes);
    assert(whole.last() == delimiter);
    assert(completed(nothing(), bytes, delimiter, now) =~= Seq::<(Seq<u8>, u64)>::empty());
    assert(completed(nothing(), bytes.push(delimiter), delimiter, now) =~= seq![(bytes, now)]);
}

proof fn lemma_begun_now(bytes: Seq<u8>, delimiter: u8, now: u64)
    ensures
        time_of(left(nothing(), bytes, delimiter, now), now) == now,
    decreases bytes.len(),
{
    if bytes.len() > 0 {
        lemma_begun_now(bytes.drop_last(), delimiter, now);
    }
}

} // verus!
