//! Segments of a stream that comes in chunk by chunk, each chunk at its own time.
use vstd::prelude::*;

use crate::framing::segments::{completed, grown, left, nothing, rejoined, time_of, Pending};

verus! {

/// Bytes that come in at once, and when they do.
pub struct Chunk {
    pub bytes: Seq<u8>,
    pub at: u64,
}

/// The bytes of chunks, one chunk after the other.
pub open spec fn stream(chunks: Seq<Chunk>) -> Seq<u8>
    decreases chunks.len(),
{
    if chunks.len() == 0 {
        Seq::empty()
    } else {
        stream(chunks.drop_last()) + chunks.last().bytes
    }
}

/// When each byte of the chunks comes in.
pub open spec fn arrivals(chunks: Seq<Chunk>) -> Seq<u64>
    decreases chunks.len(),
{
    if chunks.len() == 0 {
        Seq::empty()
    } else {
        arrivals(chunks.drop_last()) + always(chunks.last().at, chunks.last().bytes.len())
    }
}

/// One time, so many times.
pub open spec fn always(at: u64, n: nat) -> Seq<u64> {
    Seq::new(n, |i: int| at)
}

/// The segment that has begun once all chunks have come in.
pub open spec fn left_by_all(chunks: Seq<Chunk>, delimiter: u8) -> Pending
    decreases chunks.len(),
{
    if chunks.len() == 0 {
        nothing()
    } else {
        let last = chunks.last();
        left(left_by_all(chunks.drop_last(), delimiter), last.bytes, delimiter, last.at)
    }
}

/// The segments that the last of the chunks completes.
pub open spec fn completed_by_last(chunks: Seq<Chunk>, delimiter: u8) -> Seq<(Seq<u8>, u64)> {
    let last = chunks.last();
    completed(left_by_all(chunks.drop_last(), delimiter), last.bytes, delimiter, last.at)
}

/// The segments that the chunks complete, one chunk after the other.
pub open spec fn completed_by_all(chunks: Seq<Chunk>, delimiter: u8) -> Seq<(Seq<u8>, u64)>
    decreases chunks.len(),
{
    if chunks.len() == 0 {
        Seq::empty()
    } else {
        completed_by_all(chunks.drop_last(), delimiter) + completed_by_last(chunks, delimiter)
    }
}

/// The segments `done` and the one that has begun are those of the bytes, which came in at
/// these times.
pub open spec fn cut_right(
    bytes: Seq<u8>,
    times: Seq<u64>,
    delimiter: u8,
    done: Seq<(Seq<u8>, u64)>,
    p: Pending,
) -> bool {
    &&& times.len() == bytes.len()
    &&& rejoined(done, delimiter) + p.bytes == bytes
    &&& !p.bytes.contains(delimiter)
    &&& p.bytes.len() > 0 ==> p.since == times[rejoined(done, delimiter).len() as int]
    &&& forall|i: int|
        0 <= i < done.len() ==> !(#[trigger] done[i]).0.contains(delimiter) && done[i].1
            == times[rejoined(done.take(i), delimiter).len() as int]
}

/// The beginning of a segment lies within the segments.
proof fn lemma_begins_within(done: Seq<(Seq<u8>, u64)>, delimiter: u8, i: int)
    requires
        0 <= i < done.len(),
    ensures
        rejoined(done.take(i), delimiter).len() < rejoined(done, delimiter).len(),
    decreases done.len(),
{
    let init = done.drop_last();
    assert(rejoined(done, delimiter).len() == rejoined(init, delimiter).len()
        + done.last().0.len() + 1);
    if i < done.len() - 1 {
        lemma_begins_within(init, delimiter, i);
        assert(init.take(i) =~= done.take(i));
    } else {
        assert(done.take(i) =~= init);
    }
}

/// One more byte.
proof fn lemma_one_byte(
    bytes: Seq<u8>,
    times: Seq<u64>,
    delimiter: u8,
    done: Seq<(Seq<u8>, u64)>,
    p: Pending,
    b: u8,
    now: u64,
)
    requires
        cut_right(bytes, times, delimiter, done, p),
    ensures
        b == delimiter ==> cut_right(
            bytes.push(b),
            times.push(now),
            delimiter,
            done.push((p.bytes, time_of(p, now))),
            nothing(),
        ),
        b != delimiter ==> cut_right(
            bytes.push(b),
            times.push(now),
            delimiter,
            done,
            grown(p, b, now),
        ),
{
    let more = done.push((p.bytes, time_of(p, now)));
    let begun = grown(p, b, now);
    assert forall|i: int| 0 <= i < done.len() implies done[i].1 == times.push(now)[rejoined(
        #[trigger] done.take(i),
        delimiter,
    ).len() as int] by {
        lemma_begins_within(done, delimiter, i);
        assert(!done[i].0.contains(delimiter));
    }
    assert(bytes.len() == rejoined(done, delimiter).len() + p.bytes.len());
    if b == delimiter {
        assert(more.drop_last() =~= done);
        assert(rejoined(more, delimiter) + Seq::<u8>::empty() =~= bytes.push(b));
        assert forall|i: int| 0 <= i < more.len() implies !(#[trigger] more[i]).0.contains(
            delimiter,
        ) && more[i].1 == times.push(now)[rejoined(more.take(i), delimiter).len() as int] by {
            if i < done.len() {
                assert(more.take(i) =~= done.take(i));
                assert(more[i] == done[i]);
            } else {
                assert(more.take(i) =~= done);
            }
        }
    } else {
        assert(rejoined(done, delimiter) + begun.bytes =~= bytes.push(b));
        assert(!begun.bytes.contains(delimiter)) by {
            if begun.bytes.contains(delimiter) {
                let i = choose|i: int| 0 <= i < begun.bytes.len() && begun.bytes[i] == delimiter;
                assert(p.bytes[i] == delimiter);
                assert(p.bytes.contains(delimiter));
            }
        }
        assert forall|i: int| 0 <= i < done.len() implies !(#[trigger] done[i]).0.contains(
            delimiter,
        ) && done[i].1 == times.push(now)[rejoined(done.take(i), delimiter).len() as int] by {
            assert(done.take(i).len() == i);
        }
    }
}

/// One more chunk.
proof fn lemma_one_chunk(
    bytes: Seq<u8>,
    times: Seq<u64>,
    delimiter: u8,
    done: Seq<(Seq<u8>, u64)>,
    p: Pending,
    chunk: Seq<u8>,
    now: u64,
)
    requires
        cut_right(bytes, times, delimiter, done, p),
    ensures
        cut_right(
            bytes + chunk,
            times + always(now, chunk.len()),
            delimiter,
            done + completed(p, chunk, delimiter, now),
            left(p, chunk, delimiter, now),
        ),
    decreases chunk.len(),
{
    if chunk.len() == 0 {
        assert(bytes + chunk =~= bytes);
        assert(times + always(now, chunk.len()) =~= times);
        assert(done + completed(p, chunk, delimiter, now) =~= done);
    } else {
        let init = chunk.drop_last();
        lemma_one_chunk(bytes, times, delimiter, done, p, init, now);
        let at = left(p, init, delimiter, now);
        let before = completed(p, init, delimiter, now);
        lemma_one_byte(
            bytes + init,
            times + always(now, init.len()),
            delimiter,
            done + before,
            at,
            chunk.last(),
            now,
        );
        assert((bytes + init).push(chunk.last()) =~= bytes + chunk);
        assert((times + always(now, init.len())).push(now) =~= times + always(now, chunk.len()));
        if chunk.last() == delimiter {
            let segment = (at.bytes, time_of(at, now));
            assert((done + before).push(segment) =~= done + before.push(segment));
        }
    }
}

proof fn lemma_cut_right(chunks: Seq<Chunk>, delimiter: u8)
    ensures
        cut_right(
            stream(chunks),
            arrivals(chunks),
            delimiter,
            completed_by_all(chunks, delimiter),
            left_by_all(chunks, delimiter),
        ),
    decreases chunks.len(),
{
    if chunks.len() == 0 {
        assert(rejoined(completed_by_all(chunks, delimiter), delimiter) + nothing().bytes
            =~= stream(chunks));
    } else {
        let init = chunks.drop_last();
        lemma_cut_right(init, delimiter);
        lemma_one_chunk(
            stream(init),
            arrivals(init),
            delimiter,
            completed_by_all(init, delimiter),
            left_by_all(init, delimiter),
            chunks.last().bytes,
            chunks.last().at,
        );
    }
}

/// However a stream is cut into chunks, and whenever they come in: the segments with their
/// delimiters are the longest part of it, from its beginning, that ends in a delimiter or
/// is empty; the rest has begun; no segment holds a delimiter; and each has the time at
/// which its first byte, or its delimiter if it has none, came in.
pub proof fn law_segments_of_a_stream(chunks: Seq<Chunk>, delimiter: u8)
    ensures
        ({
            let done = completed_by_all(chunks, delimiter);
            let n = rejoined(done, delimiter).len() as int;
            let bytes = stream(chunks);
            &&& arrivals(chunks).len() == bytes.len()
            &&& n <= bytes.len()
            &&& rejoined(done, delimiter) == bytes.take(n)
            &&& n > 0 ==> bytes[n - 1] == delimiter
            &&& forall|i: int| n <= i < bytes.len() ==> #[trigger] bytes[i] != delimiter
            &&& left_by_all(chunks, delimiter).bytes == bytes.skip(n)
            &&& forall|i: int|
                0 <= i < done.len() ==> !(#[trigger] done[i]).0.contains(delimiter) && done[i].1
                    == arrivals(chunks)[rejoined(done.take(i), delimiter).len() as int]
        }),
{
    let done = completed_by_all(chunks, delimiter);
    let p = left_by_all(chunks, delimiter);
    let n = rejoined(done, delimiter).len() as int;
    let bytes = stream(chunks);
    lemma_cut_right(chunks, delimiter);
    assert(rejoined(done, delimiter) =~= bytes.take(n));
    assert(p.bytes =~= bytes.skip(n));
    if n > 0 {
        assert(rejoined(done, delimiter).last() == delimiter);
        assert(bytes[n - 1] == rejoined(done, delimiter)[n - 1]);
    }
    assert forall|i: int| n <= i < bytes.len() implies #[trigger] bytes[i] != delimiter by {
        assert(p.bytes[i - n] == bytes[i]);
    }
}

} // verus!
