//! What received bytes look like.
use vstd::prelude::*;

use crate::actors::constants::probe::{HIGH_SPEED_THRESHOLD, PERFECT_MATCH_THRESHOLD};
use crate::analysis::{
    bit_sum, calculate_score_7e1, calculate_score_8n1, calculate_score_mavlink,
    law_7e1_score_is_the_share_of_text_with_parity, law_8n1_score_is_the_share_of_text,
    law_mavlink_score_is_the_share_of_packets, law_scores_are_shares, lemma_packet_bytes_bound,
    packet_bytes, score_7e1, score_8n1, score_mavlink,
};
use crate::decoders::mavlink::{
    lemma_magic_position, lemma_magic_position_is_first, magic_position, packet_summary,
    read_summary, version_of, MavVersion,
};
use crate::float::{
    exceeds, law_lesser_part_is_a_lesser_share, law_nothing_is_zero, law_part_is_at_most_one,
    law_share_is_zero_or_normal, law_widening_keeps_the_order_of_shares, lemma_widened_share,
    reaches, widened, Double,
};
use crate::protocol::messages::{opt_text, ProbeResult};

verus! {

/// A probe result, with its texts as character sequences.
#[verifier::ext_equal]
pub struct ProbeResultView {
    pub baud: u32,
    pub framing: Seq<char>,
    pub protocol: Option<Seq<char>>,
    pub initial_data: Seq<u8>,
    pub confidence: Double,
}

/// A probe result, with its texts as character sequences.
pub open spec fn result_view(r: ProbeResult) -> ProbeResultView {
    ProbeResultView {
        baud: r.baud,
        framing: r.framing@,
        protocol: opt_text(r.protocol),
        initial_data: r.initial_data@,
        confidence: r.confidence,
    }
}

/// A packet that the `mavlink` crate can read begins at a magic byte at `from` or
/// later. The search ends where what is left is too short for a packet.
pub open spec fn holds_packet(buffer: Seq<u8>, from: int) -> bool
    decreases buffer.len() - from,
{
    let at = magic_position(buffer, from);
    let least = if buffer[at] == 0xFE {
        8int
    } else {
        12int
    };
    if !(0 <= from <= at) || at + 1 >= buffer.len() || at + least > buffer.len() {
        false
    } else if packet_summary(version_of(buffer[at]), buffer.skip(at)) is Some {
        true
    } else {
        holds_packet(buffer, at + 1)
    }
}

/// The bytes `$G` occur, as they do in NMEA sentences of satellite receivers.
pub open spec fn has_nmea(buffer: Seq<u8>) -> bool {
    exists|i: int| 0 <= i < buffer.len() - 1 && #[trigger] buffer[i] == 0x24 && buffer[i + 1] == 0x47
}

/// A score in double precision.
pub open spec fn confidence_of(score: int) -> Double {
    Double { bits: widened(score as u32) as u64 }
}

/// What a buffer looks like, where `verified` says whether it holds a packet that
/// can be read.
pub open spec fn classified(buffer: Seq<u8>, baud: u32, verified: bool) -> ProbeResultView {
    let text = confidence_of(score_8n1(buffer));
    let text_7e1 = confidence_of(score_7e1(buffer));
    let packets = confidence_of(score_mavlink(buffer));
    let found = |framing: Seq<char>, protocol: Option<Seq<char>>, confidence: Double|
        ProbeResultView { baud, framing, protocol, initial_data: buffer, confidence };
    if buffer.len() == 0 {
        found("8N1"@, None, Double { bits: 0 })
    } else if verified {
        found("8N1"@, Some("mavlink"@), Double { bits: 0x3FF0_0000_0000_0000 })
    } else if reaches(packets, Double { bits: PERFECT_MATCH_THRESHOLD }) {
        found("8N1"@, Some("mavlink"@), packets)
    } else if has_nmea(buffer) && exceeds(text, Double { bits: HIGH_SPEED_THRESHOLD }) {
        found("8N1"@, Some("nmea"@), text)
    } else if exceeds(text_7e1, text) {
        found("7E1"@, None, text_7e1)
    } else {
        found("8N1"@, None, text)
    }
}

fn result(
    buffer: &[u8],
    baud: u32,
    framing: &str,
    protocol: Option<String>,
    confidence: Double,
) -> (r: ProbeResult)
    ensures
        result_view(r) == (ProbeResultView {
            baud,
            framing: framing@,
            protocol: opt_text(protocol),
            initial_data: buffer@,
            confidence,
        }),
{
    ProbeResult {
        baud,
        framing: framing.to_owned(),
        protocol,
        initial_data: vstd::slice::slice_to_vec(buffer),
        confidence,
    }
}

fn contains_nmea(buffer: &[u8]) -> (r: bool)
    ensures
        r == has_nmea(buffer@),
{
    let mut i: usize = 0;
    while buffer.len() - i > 1
        invariant
            i <= buffer.len(),
            forall|j: int|
                0 <= j < i && j < buffer@.len() - 1 ==> !(#[trigger] buffer@[j] == 0x24 && buffer@[j
                    + 1] == 0x47),
        decreases buffer.len() - i,
    {
        if buffer[i] == 0x24 && buffer[i + 1] == 0x47 {
            return true;
        }
        i += 1;
    }
    false
}

/// What a buffer looks like, where `verified` says whether it holds a packet that
/// can be read.
pub fn classify(buffer: &[u8], baud: u32, verified: bool) -> (r: ProbeResult)
    ensures
        result_view(r) == classified(buffer@, baud, verified),
{
    if buffer.len() == 0 {
        return result(buffer, baud, "8N1", None, Double { bits: 0 });
    }
    if verified {
        return result(
            buffer,
            baud,
            "8N1",
            Some("mavlink".to_owned()),
            Double { bits: 0x3FF0_0000_0000_0000 },
        );
    }
    let packets = calculate_score_mavlink(buffer).widen();
    if packets.reaches(Double { bits: PERFECT_MATCH_THRESHOLD }) {
        return result(buffer, baud, "8N1", Some("mavlink".to_owned()), packets);
    }
    let text = calculate_score_8n1(buffer).widen();
    if contains_nmea(buffer) && text.exceeds(Double { bits: HIGH_SPEED_THRESHOLD }) {
        return result(buffer, baud, "8N1", Some("nmea".to_owned()), text);
    }
    let text_7e1 = calculate_score_7e1(buffer).widen();
    if text_7e1.exceeds(text) {
        result(buffer, baud, "7E1", None, text_7e1)
    } else {
        result(buffer, baud, "8N1", None, text)
    }
}

/// Does the buffer hold a packet that can be read?
pub fn verify_mavlink_integrity(buffer: &[u8]) -> (r: bool)
    ensures
        r == holds_packet(buffer@, 0),
{
    let mut from: usize = 0;
    loop
        invariant
            from <= buffer.len(),
            holds_packet(buffer@, 0) == holds_packet(buffer@, from as int),
        decreases buffer.len() - from,
    {
        let ghost start = from as int;
        let mut at: usize = from;
        while at < buffer.len() && buffer[at] != 0xFE && buffer[at] != 0xFD
            invariant
                from <= at <= buffer.len(),
                magic_position(buffer@, from as int) == magic_position(buffer@, at as int),
            decreases buffer.len() - at,
        {
            at += 1;
        }
        assert(magic_position(buffer@, from as int) == at);
        if buffer.len() - at < 2 {
            return false;
        }
        let version = if buffer[at] == 0xFE {
            MavVersion::V1
        } else {
            MavVersion::V2
        };
        let least: usize = if buffer[at] == 0xFE {
            8
        } else {
            12
        };
        if buffer.len() - at < least {
            return false;
        }
        let rest = vstd::slice::slice_subrange(buffer, at, buffer.len());
        assert(rest@ =~= buffer@.skip(at as int));
        if read_summary(version, rest).is_some() {
            return true;
        }
        from = at + 1;
    }
}

/// What a buffer looks like.
pub fn analyze_buffer(buffer: &[u8], baud: u32) -> (r: ProbeResult)
    ensures
        result_view(r) == classified(buffer@, baud, holds_packet(buffer@, 0)),
{
    let verified = verify_mavlink_integrity(buffer);
    classify(buffer, baud, verified)
}

/// A result names the baud rate and the bytes that it was made from.
pub proof fn law_result_keeps_rate_and_data(buffer: Seq<u8>, baud: u32, verified: bool)
    ensures
        classified(buffer, baud, verified).baud == baud,
        classified(buffer, baud, verified).initial_data == buffer,
{
}

/// A buffer that holds a packet that can be read is MAVLink, with full confidence.
pub proof fn law_readable_packet_is_certain(buffer: Seq<u8>, baud: u32)
    requires
        holds_packet(buffer, 0),
    ensures
        classified(buffer, baud, holds_packet(buffer, 0)).protocol == Some("mavlink"@),
        classified(buffer, baud, holds_packet(buffer, 0)).confidence.bits
            == 0x3FF0_0000_0000_0000,
{
}

/// A byte of plain text: a visible ASCII character, a space, or the end of a line.
pub open spec fn is_plain(b: u8) -> bool {
    b == 10 || b == 13 || (b >= 32 && b < 127)
}

/// A byte of seven-bit text with even parity.
pub open spec fn is_plain_with_parity(b: u8) -> bool {
    bit_sum(b) % 2 == 0 && is_plain((b % 128) as u8)
}

/// The patterns of the three scores are zero or those of normal numbers up to one.
proof fn lemma_scores(buffer: Seq<u8>)
    requires
        0 < buffer.len() <= u64::MAX,
    ensures
        score_8n1(buffer) == 0 || 0x80_0000 <= score_8n1(buffer) <= 0x3F80_0000,
        score_7e1(buffer) == 0 || 0x80_0000 <= score_7e1(buffer) <= 0x3F80_0000,
        score_mavlink(buffer) == 0 || 0x80_0000 <= score_mavlink(buffer) <= 0x3F80_0000,
{
    law_scores_are_shares(buffer);
    law_8n1_score_is_the_share_of_text(buffer);
    law_7e1_score_is_the_share_of_text_with_parity(buffer);
    law_mavlink_score_is_the_share_of_packets(buffer);
    lemma_packet_bytes_bound(buffer, 0);
    let a = buffer.filter(|b: u8| b == 10 || b == 13 || (b >= 32 && b < 127));
    let c = buffer.filter(
        |b: u8|
            bit_sum(b) % 2 == 0 && (b % 128 == 10 || b % 128 == 13 || (b % 128 >= 32 && b % 128
                < 127)),
    );
    buffer.lemma_filter_len(|b: u8| b == 10 || b == 13 || (b >= 32 && b < 127));
    buffer.lemma_filter_len(
        |b: u8|
            bit_sum(b) % 2 == 0 && (b % 128 == 10 || b % 128 == 13 || (b % 128 >= 32 && b % 128
                < 127)),
    );
    law_nothing_is_zero(buffer.len());
    if a.len() > 0 {
        law_share_is_zero_or_normal(a.len(), buffer.len());
    }
    if c.len() > 0 {
        law_share_is_zero_or_normal(c.len(), buffer.len());
    }
    if packet_bytes(buffer, 0) > 0 {
        law_share_is_zero_or_normal(packet_bytes(buffer, 0), buffer.len());
    }
}

/// Bytes of no known protocol have the framing with the better score, 8N1 where they are
/// equal, and that score is the confidence.
pub proof fn law_framing_is_the_one_with_the_better_score(buffer: Seq<u8>, baud: u32, verified: bool)
    requires
        0 < buffer.len() <= u64::MAX,
        classified(buffer, baud, verified).protocol is None,
    ensures
        score_7e1(buffer) > score_8n1(buffer) ==> classified(buffer, baud, verified).framing
            == "7E1"@ && classified(buffer, baud, verified).confidence.bits == widened(
            score_7e1(buffer) as u32,
        ),
        score_7e1(buffer) <= score_8n1(buffer) ==> classified(buffer, baud, verified).framing
            == "8N1"@ && classified(buffer, baud, verified).confidence.bits == widened(
            score_8n1(buffer) as u32,
        ),
{
    lemma_scores(buffer);
    law_widening_keeps_the_order_of_shares(score_7e1(buffer), score_8n1(buffer));
    lemma_widened_share(score_7e1(buffer));
    lemma_widened_share(score_8n1(buffer));
}

/// Plain text alone, whatever it says, is 8N1 with full confidence: NMEA where the bytes
/// of "$G" occur in it, and of no protocol otherwise.
pub proof fn law_plain_text_is_8n1(buffer: Seq<u8>, baud: u32)
    requires
        0 < buffer.len() <= u64::MAX,
        forall|i: int| 0 <= i < buffer.len() ==> is_plain(#[trigger] buffer[i]),
    ensures
        ({
            let r = classified(buffer, baud, holds_packet(buffer, 0));
            &&& r.framing == "8N1"@
            &&& r.confidence.bits == 0x3FF0_0000_0000_0000
            &&& (exists|i: int|
                0 <= i < buffer.len() - 1 && #[trigger] buffer[i] == 36 && buffer[i + 1] == 71)
                ==> r.protocol == Some("nmea"@)
            &&& (forall|i: int|
                0 <= i < buffer.len() - 1 ==> !(#[trigger] buffer[i] == 36 && buffer[i + 1] == 71))
                ==> r.protocol is None
        }),
{
    assert forall|i: int| 0 <= i < buffer.len() implies #[trigger] buffer[i] != 0xFE && buffer[i]
        != 0xFD by {
        assert(is_plain(buffer[i]));
    }
    assert(!holds_packet(buffer, 0)) by {
        lemma_magic_position(buffer, 0);
    }
    lemma_scores(buffer);
    law_mavlink_score_is_the_share_of_packets(buffer);
    assert forall|i: int| 0 <= i < buffer.len() implies crate::analysis::is_printable(
        #[trigger] buffer[i],
    ) by {
        assert(is_plain(buffer[i]));
    }
    law_scores_are_shares(buffer);
    law_widening_keeps_the_order_of_shares(score_mavlink(buffer), score_mavlink(buffer));
    law_widening_keeps_the_order_of_shares(score_8n1(buffer), score_8n1(buffer));
    law_widening_keeps_the_order_of_shares(score_7e1(buffer), score_8n1(buffer));
    lemma_widened_share(score_8n1(buffer));
    lemma_widened_share(score_mavlink(buffer));
}

/// Text of seven bits with even parity holds no magic byte, and all of it counts.
proof fn lemma_parity_text(buffer: Seq<u8>)
    requires
        forall|i: int| 0 <= i < buffer.len() ==> is_plain_with_parity(#[trigger] buffer[i]),
    ensures
        forall|i: int| 0 <= i < buffer.len() ==> #[trigger] buffer[i] != 0xFE && buffer[i] != 0xFD,
        buffer.filter(
            |b: u8|
                bit_sum(b) % 2 == 0 && (b % 128 == 10 || b % 128 == 13 || (b % 128 >= 32 && b % 128
                    < 127)),
        ).len() == buffer.len(),
{
    let q = |b: u8|
        bit_sum(b) % 2 == 0 && (b % 128 == 10 || b % 128 == 13 || (b % 128 >= 32 && b % 128 < 127));
    assert(bit_sum(0xFE) == 7 && bit_sum(0xFD) == 7);
    assert forall|i: int| 0 <= i < buffer.len() implies #[trigger] buffer[i] != 0xFE && buffer[i]
        != 0xFD && q(buffer[i]) by {
        assert(is_plain_with_parity(buffer[i]));
    }
    lemma_filter_all(buffer, q);
}

/// Text of seven bits with even parity alone, in which some byte shows its parity bit, is
/// 7E1 with full confidence, and of no protocol where the bytes of "$G" do not occur.
pub proof fn law_text_with_parity_is_7e1(buffer: Seq<u8>, baud: u32)
    requires
        0 < buffer.len() < 0x100_0000,
        forall|i: int| 0 <= i < buffer.len() ==> is_plain_with_parity(#[trigger] buffer[i]),
        exists|i: int| 0 <= i < buffer.len() && #[trigger] buffer[i] >= 128,
        forall|i: int|
            0 <= i < buffer.len() - 1 ==> !(#[trigger] buffer[i] == 36 && buffer[i + 1] == 71),
    ensures
        ({
            let r = classified(buffer, baud, holds_packet(buffer, 0));
            r.framing == "7E1"@ && r.confidence.bits == 0x3FF0_0000_0000_0000 && r.protocol is None
        }),
{
    lemma_parity_text(buffer);
    assert(!holds_packet(buffer, 0)) by {
        lemma_magic_position(buffer, 0);
    }
    lemma_scores(buffer);
    law_mavlink_score_is_the_share_of_packets(buffer);
    law_8n1_score_is_the_share_of_text(buffer);
    law_7e1_score_is_the_share_of_text_with_parity(buffer);
    let p = |b: u8| b == 10 || b == 13 || (b >= 32 && b < 127);
    let at = choose|i: int| 0 <= i < buffer.len() && #[trigger] buffer[i] >= 128;
    lemma_filter_less(buffer, p, at);
    law_part_is_at_most_one(buffer.len(), buffer.len());
    law_lesser_part_is_a_lesser_share(buffer.filter(p).len(), buffer.len());
    law_widening_keeps_the_order_of_shares(score_mavlink(buffer), score_mavlink(buffer));
    law_widening_keeps_the_order_of_shares(score_7e1(buffer), score_8n1(buffer));
    lemma_widened_share(score_7e1(buffer));
}

proof fn lemma_filter_all(buffer: Seq<u8>, p: spec_fn(u8) -> bool)
    requires
        forall|i: int| 0 <= i < buffer.len() ==> p(#[trigger] buffer[i]),
    ensures
        buffer.filter(p).len() == buffer.len(),
    decreases buffer.len(),
{
    reveal(Seq::filter);
    if buffer.len() > 0 {
        lemma_filter_all(buffer.drop_last(), p);
    }
}

proof fn lemma_filter_less(buffer: Seq<u8>, p: spec_fn(u8) -> bool, at: int)
    requires
        0 <= at < buffer.len(),
        !p(buffer[at]),
    ensures
        buffer.filter(p).len() < buffer.len(),
    decreases buffer.len(),
{
    reveal(Seq::filter);
    let init = buffer.drop_last();
    init.lemma_filter_len(p);
    if at < init.len() {
        lemma_filter_less(init, p, at);
    }
}

/// Bytes that are whole packets and nothing else, one or many, are MAVLink with full
/// confidence, whether or not they can be read.
pub proof fn law_whole_packets_are_mavlink(buffer: Seq<u8>, baud: u32, verified: bool)
    requires
        0 < buffer.len() <= u64::MAX,
        packet_bytes(buffer, 0) == buffer.len(),
    ensures
        classified(buffer, baud, verified).framing == "8N1"@,
        classified(buffer, baud, verified).protocol == Some("mavlink"@),
        classified(buffer, baud, verified).confidence.bits == 0x3FF0_0000_0000_0000,
{
    law_mavlink_score_is_the_share_of_packets(buffer);
    law_widening_keeps_the_order_of_shares(0x3F80_0000, 0x3F80_0000);
    lemma_widened_share(0x3F80_0000);
}

/// What is told as MAVLink holds a packet that can be read, or consists of packets by 0.99
/// at least; what is told as NMEA holds "$G" and is text by more than 0.85. A buffer that
/// is both is MAVLink. Everything but 7E1 text of no protocol is told as 8N1.
pub proof fn law_protocols_are_told_with_reason(buffer: Seq<u8>, baud: u32, verified: bool)
    ensures
        ({
            let r = classified(buffer, baud, verified);
            let packets = reaches(
                Double { bits: widened(score_mavlink(buffer) as u32) as u64 },
                Double { bits: 0x3FEF_AE14_7AE1_47AE },
            );
            let talker = exists|i: int|
                0 <= i < buffer.len() - 1 && #[trigger] buffer[i] == 36 && buffer[i + 1] == 71;
            let text = exceeds(
                Double { bits: widened(score_8n1(buffer) as u32) as u64 },
                Double { bits: 0x3FEB_3333_3333_3333 },
            );
            &&& buffer.len() == 0 ==> r.protocol is None && r.framing == "8N1"@ && r.confidence.bits
                == 0
            &&& buffer.len() > 0 && (verified || packets) ==> r.protocol == Some("mavlink"@)
            &&& buffer.len() > 0 && !(verified || packets) && talker && text ==> r.protocol == Some(
                "nmea"@,
            )
            &&& !(verified || packets) && !(talker && text) ==> r.protocol is None
            &&& r.protocol is Some ==> r.framing == "8N1"@
            &&& buffer.len() > 0 && verified ==> r.confidence.bits == 0x3FF0_0000_0000_0000
            &&& buffer.len() > 0 && !verified && packets ==> r.confidence.bits == (widened(
                score_mavlink(buffer) as u32,
            ) as u64)
            &&& r.protocol == Some("nmea"@) ==> r.confidence.bits == (widened(
                score_8n1(buffer) as u32,
            ) as u64)
            &&& r.baud == baud && r.initial_data == buffer
        }),
{
    reveal_strlit("nmea");
    reveal_strlit("mavlink");
    assert("nmea"@.len() == 4 && "mavlink"@.len() == 7);
}

/// A packet is found by its magic byte: of version 1 for 0xFE with at least 8 bytes, of
/// version 2 for 0xFD with at least 12, from the magic byte on.
pub proof fn law_packet_that_is_found_can_be_read(buffer: Seq<u8>, from: int)
    requires
        0 <= from,
        holds_packet(buffer, from),
    ensures
        exists|at: int|
            from <= at < buffer.len() && ((#[trigger] buffer[at] == 0xFE && at + 8 <= buffer.len()
                && packet_summary(MavVersion::V1, buffer.skip(at)) is Some) || (buffer[at] == 0xFD
                && at + 12 <= buffer.len() && packet_summary(
                MavVersion::V2,
                buffer.skip(at),
            ) is Some)),
    decreases buffer.len() - from,
{
    let at = magic_position(buffer, from);
    if from <= buffer.len() {
        lemma_magic_position(buffer, from);
        assert(buffer[at] == 0xFE || buffer[at] == 0xFD);
        if packet_summary(version_of(buffer[at]), buffer.skip(at)) is None {
            law_packet_that_is_found_can_be_read(buffer, at + 1);
        }
    }
}

/// A packet that can be read is found, wherever it begins, unless a magic byte before it
/// stands so near the end that no packet has room there.
pub proof fn law_packet_that_can_be_read_is_found(buffer: Seq<u8>, from: int, at: int)
    requires
        0 <= from <= at < buffer.len(),
        (buffer[at] == 0xFE && packet_summary(MavVersion::V1, buffer.skip(at)) is Some) || (
        buffer[at] == 0xFD && packet_summary(MavVersion::V2, buffer.skip(at)) is Some),
        forall|i: int|
            from <= i <= at ==> (#[trigger] buffer[i] == 0xFE ==> i + 8 <= buffer.len()) && (
            buffer[i] == 0xFD ==> i + 12 <= buffer.len()),
    ensures
        holds_packet(buffer, from),
    decreases buffer.len() - from,
{
    let first = magic_position(buffer, from);
    lemma_magic_position(buffer, from);
    lemma_magic_position_is_first(buffer, from, at);
    assert(from <= first <= at);
    assert(buffer[first] == 0xFE || buffer[first] == 0xFD);
    if packet_summary(version_of(buffer[first]), buffer.skip(first)) is None {
        law_packet_that_can_be_read_is_found(buffer, first + 1, at);
    }
}

/// What detection returns for bytes at a baud rate keeps the rate and the bytes as they
/// are. Where it names no protocol, the framing is the one with the better score, 8N1 where
/// they are equal. A MAVLink packet is only looked for in the bytes themselves.
pub proof fn law_detection_keeps_its_input(
    buffer: &[u8],
    baud: u32,
    verified: bool,
    r: ProbeResult,
    q: ProbeResult,
    found: bool,
)
    requires
        0 < buffer@.len() <= u64::MAX,
        call_ensures(classify, (buffer, baud, verified), r),
        call_ensures(analyze_buffer, (buffer, baud), q),
        call_ensures(verify_mavlink_integrity, (buffer,), found),
    ensures
        r.baud == baud && q.baud == baud,
        r.initial_data@ == buffer@ && q.initial_data@ == buffer@,
        r.protocol is None ==> r.framing@ == (if score_7e1(buffer@) > score_8n1(buffer@) {
            "7E1"@
        } else {
            "8N1"@
        }),
        q.protocol is None ==> q.framing@ == (if score_7e1(buffer@) > score_8n1(buffer@) {
            "7E1"@
        } else {
            "8N1"@
        }),
        found == holds_packet(buffer@, 0),
        verified == found ==> result_view(r) == result_view(q),
        result_view(r) == classified(buffer@, baud, verified),
{
    if r.protocol is None {
        law_framing_is_the_one_with_the_better_score(buffer@, baud, verified);
    }
    if q.protocol is None {
        law_framing_is_the_one_with_the_better_score(buffer@, baud, holds_packet(buffer@, 0));
    }
}

} // verus!
