//! How likely received bytes are text, 7E1 text, or MAVLink.
use vstd::prelude::*;

use crate::float::{law_part_is_at_most_one, single_quotient, Single};

verus! {

/// A visible ASCII character, a space, a carriage return or a line feed.
pub open spec fn is_printable(b: u8) -> bool {
    0x20 <= b <= 0x7E || b == 0x0D || b == 0x0A
}

/// How many bits of `n` are set.
pub open spec fn ones(n: nat) -> nat
    decreases n,
{
    if n == 0 {
        0
    } else {
        n % 2 + ones(n / 2)
    }
}

/// Seven data bits that are printable, under an eighth that makes the number of
/// set bits even.
pub open spec fn is_printable_7e1(b: u8) -> bool {
    ones(b as nat) % 2 == 0 && is_printable((b % 128) as u8)
}

/// How many of the bytes satisfy `p`.
pub open spec fn count(buf: Seq<u8>, p: spec_fn(u8) -> bool) -> nat
    decreases buf.len(),
{
    if buf.len() == 0 {
        0
    } else {
        count(buf.drop_last(), p) + if p(buf.last()) {
            1nat
        } else {
            0nat
        }
    }
}

/// The length that a packet at position `i` would have, from its magic byte and
/// its length byte; zero if no packet can begin there.
pub open spec fn packet_len(buf: Seq<u8>, i: int) -> int {
    if i + 1 >= buf.len() {
        0
    } else if buf[i] == 0xFE {
        8 + buf[i + 1]
    } else if buf[i] == 0xFD {
        12 + buf[i + 1]
    } else {
        0
    }
}

/// How many bytes, from position `i` on, belong to packets that are there in full.
pub open spec fn packet_bytes(buf: Seq<u8>, i: int) -> nat
    decreases buf.len() - i,
{
    let n = packet_len(buf, i);
    if i >= buf.len() {
        0
    } else if n > 0 && i + n <= buf.len() {
        n as nat + packet_bytes(buf, i + n)
    } else {
        packet_bytes(buf, i + 1)
    }
}

/// The share of `hits` in `total`; zero of nothing.
pub open spec fn share(hits: nat, total: nat) -> int {
    if total == 0 {
        0
    } else {
        single_quotient(hits, total)
    }
}

/// The pattern of the score for 8N1 text.
pub open spec fn score_8n1(buf: Seq<u8>) -> int {
    share(count(buf, |b: u8| is_printable(b)), buf.len())
}

/// The pattern of the score for 7E1 text.
pub open spec fn score_7e1(buf: Seq<u8>) -> int {
    share(count(buf, |b: u8| is_printable_7e1(b)), buf.len())
}

/// The pattern of the score for MAVLink.
pub open spec fn score_mavlink(buf: Seq<u8>) -> int {
    share(packet_bytes(buf, 0), buf.len())
}

proof fn lemma_count_bound(buf: Seq<u8>, p: spec_fn(u8) -> bool)
    ensures
        count(buf, p) <= buf.len(),
    decreases buf.len(),
{
    if buf.len() > 0 {
        lemma_count_bound(buf.drop_last(), p);
    }
}

pub proof fn lemma_packet_bytes_bound(buf: Seq<u8>, i: int)
    requires
        0 <= i,
    ensures
        i <= buf.len() ==> packet_bytes(buf, i) <= buf.len() - i,
    decreases buf.len() - i,
{
    let n = packet_len(buf, i);
    if i < buf.len() {
        if n > 0 && i + n <= buf.len() {
            lemma_packet_bytes_bound(buf, i + n);
        } else {
            lemma_packet_bytes_bound(buf, i + 1);
        }
    }
}

fn printable(b: u8) -> (r: bool)
    ensures
        r == is_printable(b),
{
    (0x20 <= b && b <= 0x7E) || b == 0x0D || b == 0x0A
}

/// Whether the number of set bits is even.
fn has_even_parity(b: u8) -> (r: bool)
    ensures
        r == (ones(b as nat) % 2 == 0),
{
    let mut rest: u8 = b;
    let mut even: bool = true;
    while rest > 0
        invariant
            (ones(b as nat) % 2 == 0) == (even == (ones(rest as nat) % 2 == 0)),
        decreases rest,
    {
        if rest % 2 == 1 {
            even = !even;
        }
        rest = rest / 2;
    }
    even
}

fn share_of(hits: usize, total: usize) -> (r: Single)
    ensures
        r.bits == share(hits as nat, total as nat),
{
    if total == 0 {
        Single::zero()
    } else {
        Single::quotient(hits as u64, total as u64)
    }
}

/// The likelihood of 8N1 text: the share of printable bytes.
pub fn calculate_score_8n1(buf: &[u8]) -> (r: Single)
    ensures
        r.bits == score_8n1(buf@),
{
    let ghost p = |b: u8| is_printable(b);
    let mut hits: usize = 0;
    let mut i: usize = 0;
    while i < buf.len()
        invariant
            i <= buf.len(),
            p == (|b: u8| is_printable(b)),
            hits == count(buf@.take(i as int), p),
            hits <= i,
        decreases buf.len() - i,
    {
        proof {
            assert(buf@.take(i + 1).drop_last() =~= buf@.take(i as int));
            lemma_count_bound(buf@.take(i + 1), p);
        }
        if printable(buf[i]) {
            hits += 1;
        }
        i += 1;
    }
    assert(buf@.take(buf@.len() as int) =~= buf@);
    share_of(hits, buf.len())
}

/// The likelihood of 7E1 text: the share of bytes that are printable in seven bits
/// and have the right parity.
pub fn calculate_score_7e1(buf: &[u8]) -> (r: Single)
    ensures
        r.bits == score_7e1(buf@),
{
    let ghost p = |b: u8| is_printable_7e1(b);
    let mut hits: usize = 0;
    let mut i: usize = 0;
    while i < buf.len()
        invariant
            i <= buf.len(),
            p == (|b: u8| is_printable_7e1(b)),
            hits == count(buf@.take(i as int), p),
            hits <= i,
        decreases buf.len() - i,
    {
        proof {
            assert(buf@.take(i + 1).drop_last() =~= buf@.take(i as int));
            lemma_count_bound(buf@.take(i + 1), p);
        }
        if has_even_parity(buf[i]) && printable(buf[i] % 128) {
            hits += 1;
        }
        i += 1;
    }
    assert(buf@.take(buf@.len() as int) =~= buf@);
    share_of(hits, buf.len())
}

/// The likelihood of MAVLink: the share of bytes that belong to whole packets, by
/// their magic and length bytes alone.
pub fn calculate_score_mavlink(buf: &[u8]) -> (r: Single)
    ensures
        r.bits == score_mavlink(buf@),
{
    let mut matched: usize = 0;
    let mut i: usize = 0;
    proof {
        lemma_packet_bytes_bound(buf@, 0);
    }
    while i < buf.len()
        invariant
            i <= buf.len(),
            matched + packet_bytes(buf@, i as int) == packet_bytes(buf@, 0),
            packet_bytes(buf@, 0) <= buf@.len(),
        decreases buf.len() - i,
    {
        let b = buf[i];
        if (b == 0xFE || b == 0xFD) && buf.len() - i > 1 {
            let overhead: usize = if b == 0xFE {
                8
            } else {
                12
            };
            let total: usize = buf[i + 1] as usize + overhead;
            if total <= buf.len() - i {
                matched += total;
                i += total;
                continue;
            }
        }
        i += 1;
    }
    share_of(matched, buf.len())
}

/// Every score is between zero and one; the 8N1 score of printable text alone is one.
pub proof fn law_scores_are_shares(buf: Seq<u8>)
    requires
        buf.len() <= u64::MAX,
    ensures
        0 <= score_8n1(buf) <= 0x3F80_0000,
        0 <= score_7e1(buf) <= 0x3F80_0000,
        0 <= score_mavlink(buf) <= 0x3F80_0000,
        buf.len() > 0 && (forall|i: int| 0 <= i < buf.len() ==> is_printable(#[trigger] buf[i]))
            ==> score_8n1(buf) == 0x3F80_0000,
{
    let p = |b: u8| is_printable(b);
    let q = |b: u8| is_printable_7e1(b);
    lemma_count_bound(buf, p);
    lemma_count_bound(buf, q);
    lemma_packet_bytes_bound(buf, 0);
    if buf.len() > 0 {
        law_part_is_at_most_one(count(buf, p), buf.len());
        law_part_is_at_most_one(count(buf, q), buf.len());
        law_part_is_at_most_one(packet_bytes(buf, 0), buf.len());
    }
    if forall|i: int| 0 <= i < buf.len() ==> is_printable(#[trigger] buf[i]) {
        lemma_count_all(buf, p);
    }
}

proof fn lemma_count_all(buf: Seq<u8>, p: spec_fn(u8) -> bool)
    requires
        forall|i: int| 0 <= i < buf.len() ==> p(#[trigger] buf[i]),
    ensures
        count(buf, p) == buf.len(),
    decreases buf.len(),
{
    if buf.len() > 0 {
        lemma_count_all(buf.drop_last(), p);
    }
}

proof fn lemma_count_is_filter(buf: Seq<u8>, p: spec_fn(u8) -> bool, q: spec_fn(u8) -> bool)
    requires
        forall|b: u8| #[trigger] p(b) == #[trigger] q(b),
    ensures
        count(buf, p) == buf.filter(q).len(),
    decreases buf.len(),
{
    reveal(Seq::filter);
    if buf.len() > 0 {
        lemma_count_is_filter(buf.drop_last(), p, q);
    }
}

/// The sum of a byte's eight bits.
pub open spec fn bit_sum(b: u8) -> int {
    b % 2 + b / 2 % 2 + b / 4 % 2 + b / 8 % 2 + b / 16 % 2 + b / 32 % 2 + b / 64 % 2 + b / 128 % 2
}

proof fn lemma_ones_is_bit_sum(b: u8)
    ensures
        ones(b as nat) == bit_sum(b),
{
    let n = b as nat;
    assert(n / 2 / 2 == n / 4 && n / 4 / 2 == n / 8 && n / 8 / 2 == n / 16 && n / 16 / 2 == n / 32
        && n / 32 / 2 == n / 64 && n / 64 / 2 == n / 128 && n / 128 / 2 == 0);
    assert(ones(0) == 0);
    assert(ones(n / 128) == n / 128 % 2) by {
        assert(ones(n / 128) == n / 128 % 2 + ones(n / 128 / 2) || n / 128 == 0);
    }
    assert(ones(n / 64) == n / 64 % 2 + ones(n / 128));
    assert(ones(n / 32) == n / 32 % 2 + ones(n / 64));
    assert(ones(n / 16) == n / 16 % 2 + ones(n / 32));
    assert(ones(n / 8) == n / 8 % 2 + ones(n / 16));
    assert(ones(n / 4) == n / 4 % 2 + ones(n / 8));
    assert(ones(n / 2) == n / 2 % 2 + ones(n / 4));
    assert(ones(n) == n % 2 + ones(n / 2));
}

/// The 8N1 score is the share of the bytes that are visible ASCII characters, spaces,
/// carriage returns or line feeds.
pub proof fn law_8n1_score_is_the_share_of_text(buf: Seq<u8>)
    requires
        buf.len() > 0,
    ensures
        score_8n1(buf) == single_quotient(
            buf.filter(|b: u8| b == 10 || b == 13 || (b >= 32 && b < 127)).len(),
            buf.len(),
        ),
{
    lemma_count_is_filter(
        buf,
        |b: u8| is_printable(b),
        |b: u8| b == 10 || b == 13 || (b >= 32 && b < 127),
    );
}

/// The 7E1 score is the share of the bytes that have an even number of set bits and, but
/// for the highest bit, are visible ASCII characters, spaces, carriage returns or line
/// feeds.
pub proof fn law_7e1_score_is_the_share_of_text_with_parity(buf: Seq<u8>)
    requires
        buf.len() > 0,
    ensures
        score_7e1(buf) == single_quotient(
            buf.filter(
                |b: u8|
                    bit_sum(b) % 2 == 0 && (b % 128 == 10 || b % 128 == 13 || (b % 128 >= 32 && b
                        % 128 < 127)),
            ).len(),
            buf.len(),
        ),
{
    let q = |b: u8|
        bit_sum(b) % 2 == 0 && (b % 128 == 10 || b % 128 == 13 || (b % 128 >= 32 && b % 128 < 127));
    let p = |b: u8| is_printable_7e1(b);
    assert forall|b: u8| #[trigger] p(b) == #[trigger] q(b) by {
        lemma_ones_is_bit_sum(b);
    }
    lemma_count_is_filter(buf, p, q);
}

/// A whole packet, by its magic byte and its length byte.
pub open spec fn is_framed_packet(bytes: Seq<u8>) -> bool {
    bytes.len() >= 2 && ((bytes[0] == 0xFE && bytes.len() == bytes[1] + 8) || (bytes[0] == 0xFD
        && bytes.len() == bytes[1] + 12))
}

proof fn lemma_packet_bytes_from(a: Seq<u8>, b: Seq<u8>, i: int)
    requires
        0 <= i,
    ensures
        packet_bytes(a + b, a.len() + i) == packet_bytes(b, i),
    decreases b.len() - i,
{
    let whole = a + b;
    if i < b.len() {
        assert(whole[a.len() + i] == b[i]);
        if i + 1 < b.len() {
            assert(whole[a.len() + i + 1] == b[i + 1]);
        }
        let n = packet_len(b, i);
        assert(packet_len(whole, a.len() + i) == n);
        if n > 0 && i + n <= b.len() {
            lemma_packet_bytes_from(a, b, i + n);
        } else {
            lemma_packet_bytes_from(a, b, i + 1);
        }
    }
}

/// A whole packet at the beginning counts with all its bytes, and the count goes on after
/// it; a byte that begins no packet counts for nothing.
pub proof fn law_packets_count_in_full(packet: Seq<u8>, rest: Seq<u8>, other: u8)
    ensures
        is_framed_packet(packet) ==> packet_bytes(packet + rest, 0) == packet.len() + packet_bytes(
            rest,
            0,
        ),
        other != 0xFE && other != 0xFD ==> packet_bytes(seq![other] + rest, 0) == packet_bytes(
            rest,
            0,
        ),
{
    lemma_packet_bytes_from(packet, rest, 0);
    lemma_packet_bytes_from(seq![other], rest, 0);
    if is_framed_packet(packet) {
        let whole = packet + rest;
        assert(whole[0] == packet[0] && whole[1] == packet[1]);
        assert(packet_len(whole, 0) == packet.len());
    }
    assert((seq![other] + rest)[0] == other);
}

/// A first byte that looks like the beginning of a packet, of which not everything is
/// there, counts for nothing.
pub proof fn law_truncated_packet_does_not_count(buf: Seq<u8>)
    requires
        buf.len() > 0,
        buf.len() < 2 || (buf[0] == 0xFE && buf.len() < buf[1] + 8) || (buf[0] == 0xFD && buf.len()
            < buf[1] + 12),
    ensures
        packet_bytes(buf, 0) == packet_bytes(buf.skip(1), 0),
{
    lemma_packet_bytes_from(buf.take(1), buf.skip(1), 0);
    assert(buf.take(1) + buf.skip(1) =~= buf);
}

/// The MAVLink score is the share of the bytes in whole packets: one where there is
/// nothing else, and zero where no byte begins a packet.
pub proof fn law_mavlink_score_is_the_share_of_packets(buf: Seq<u8>)
    requires
        0 < buf.len() <= u64::MAX,
    ensures
        score_mavlink(buf) == single_quotient(packet_bytes(buf, 0), buf.len()),
        packet_bytes(buf, 0) == buf.len() ==> score_mavlink(buf) == 0x3F80_0000,
        (forall|i: int| 0 <= i < buf.len() ==> #[trigger] buf[i] != 0xFE && buf[i] != 0xFD)
            ==> score_mavlink(buf) == 0,
{
    lemma_packet_bytes_bound(buf, 0);
    law_part_is_at_most_one(packet_bytes(buf, 0), buf.len());
    if forall|i: int| 0 <= i < buf.len() ==> #[trigger] buf[i] != 0xFE && buf[i] != 0xFD {
        lemma_no_packet_bytes(buf, 0);
        crate::float::law_nothing_is_zero(buf.len());
    }
}

proof fn lemma_no_packet_bytes(buf: Seq<u8>, i: int)
    requires
        0 <= i,
        forall|j: int| 0 <= j < buf.len() ==> #[trigger] buf[j] != 0xFE && buf[j] != 0xFD,
    ensures
        packet_bytes(buf, i) == 0,
    decreases buf.len() - i,
{
    if i < buf.len() {
        lemma_no_packet_bytes(buf, i + 1);
    }
}

/// Scores are computed as the model has them.
pub proof fn law_scores_are_computed(buf: &[u8], r: Single)
    ensures
        call_ensures(calculate_score_8n1, (buf,), r) ==> r.bits == score_8n1(buf@),
        call_ensures(calculate_score_7e1, (buf,), r) ==> r.bits == score_7e1(buf@),
        call_ensures(calculate_score_mavlink, (buf,), r) ==> r.bits == score_mavlink(buf@),
{
}

} // verus!
