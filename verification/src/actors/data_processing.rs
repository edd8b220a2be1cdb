//! Cleaning the first data that a serial port sends.
use vstd::prelude::*;

verus! {

/// A byte that ends a control sequence.
pub open spec fn ends_sequence(b: u8) -> bool {
    0x40 <= b <= 0x7E
}

/// The position, from `from` on, of the first byte that ends a control sequence;
/// the length of `data` if there is none.
pub open spec fn sequence_end(data: Seq<u8>, from: int) -> int
    decreases data.len() - from,
{
    if from >= data.len() {
        data.len() as int
    } else if ends_sequence(data[from]) {
        from
    } else {
        sequence_end(data, from + 1)
    }
}

/// How many bytes the shell artifact at the head of `data` takes: one for a
/// carriage return, line feed or null; a whole control sequence `ESC [ .. X`; a
/// charset designator `ESC ( X` or `ESC ) X`. Zero if no complete one stands there.
pub open spec fn artifact_len(data: Seq<u8>) -> int {
    if data.len() == 0 {
        0
    } else if data[0] == 0x0D || data[0] == 0x0A || data[0] == 0 {
        1
    } else if data[0] == 0x1B && data.len() > 1 && data[1] == 0x5B {
        let end = sequence_end(data, 2);
        if end < data.len() {
            end + 1
        } else {
            0
        }
    } else if data[0] == 0x1B && data.len() > 2 && (data[1] == 0x28 || data[1] == 0x29) {
        3
    } else {
        0
    }
}

/// What is left of `data` without the shell artifacts at its head.
pub open spec fn without_artifacts(data: Seq<u8>) -> Seq<u8>
    decreases data.len(),
{
    let n = artifact_len(data);
    if 0 < n <= data.len() {
        without_artifacts(data.skip(n))
    } else {
        data
    }
}

proof fn lemma_sequence_end(data: Seq<u8>, from: int)
    requires
        0 <= from,
    ensures
        from <= data.len() ==> from <= sequence_end(data, from) <= data.len(),
        sequence_end(data, from) < data.len() && from <= data.len() ==> ends_sequence(
            data[sequence_end(data, from)],
        ),
    decreases data.len() - from,
{
    if from < data.len() && !ends_sequence(data[from]) {
        lemma_sequence_end(data, from + 1);
    }
}

proof fn lemma_sequence_end_shift(data: Seq<u8>, start: int, from: int)
    requires
        0 <= start <= from <= data.len(),
    ensures
        sequence_end(data.skip(start), from - start) == sequence_end(data, from) - start,
    decreases data.len() - from,
{
    if from < data.len() && !ends_sequence(data[from]) {
        lemma_sequence_end_shift(data, start, from + 1);
    }
}

/// The artifact at the head of `data` from `start` on.
fn artifact_at(data: &[u8], start: usize) -> (n: usize)
    requires
        start < data.len(),
    ensures
        n == artifact_len(data@.skip(start as int)),
        start + n <= data.len(),
{
    let ghost rest = data@.skip(start as int);
    let b = data[start];
    if b == 0x0D || b == 0x0A || b == 0 {
        return 1;
    }
    if b != 0x1B || data.len() - start < 2 {
        return 0;
    }
    let c = data[start + 1];
    if c == 0x5B {
        proof {
            lemma_sequence_end_shift(data@, start as int, start + 2);
            lemma_sequence_end(data@, start + 2);
        }
        let mut j: usize = start + 2;
        while j < data.len()
            invariant
                start + 2 <= j <= data.len(),
                rest == data@.skip(start as int),
                rest.len() > 1,
                rest[0] == 0x1B,
                rest[1] == 0x5B,
                sequence_end(rest, 2) == sequence_end(data@, start + 2) - start,
                sequence_end(data@, start + 2) == sequence_end(data@, j as int),
            decreases data.len() - j,
        {
            if 0x40 <= data[j] && data[j] <= 0x7E {
                return j + 1 - start;
            }
            j += 1;
        }
        return 0;
    }
    if (c == 0x28 || c == 0x29) && data.len() - start > 2 {
        return 3;
    }
    0
}

/// Removes the shell artifacts at the head of `data`: carriage returns, line
/// feeds, nulls, control sequences and charset designators. An incomplete
/// sequence, or any other byte, begins the content and stays.
pub fn trim_shell_artifacts(data: &[u8]) -> (r: Vec<u8>)
    ensures
        r@ == without_artifacts(data@),
{
    let mut start: usize = 0;
    assert(data@.skip(0) =~= data@);
    while start < data.len()
        invariant_except_break
            without_artifacts(data@.skip(start as int)) == without_artifacts(data@),
        invariant
            start <= data.len(),
        ensures
            start <= data.len(),
            data@.skip(start as int) == without_artifacts(data@),
        decreases data.len() - start,
    {
        let n = artifact_at(data, start);
        if n == 0 {
            break;
        }
        assert(data@.skip(start as int).skip(n as int) =~= data@.skip(start + n));
        start += n;
    }
    let rest = vstd::slice::slice_subrange(data, start, data.len());
    assert(rest@ =~= data@.skip(start as int));
    vstd::slice::slice_to_vec(rest)
}

/// A letter, a digit, or a character that shell prompts use.
pub open spec fn is_meaningful(b: u8) -> bool {
    0x61 <= b <= 0x7A || 0x41 <= b <= 0x5A || 0x30 <= b <= 0x39 || b == 0x24 || b == 0x23 || b
        == 0x3E || b == 0x25 || b == 0x7E
}

/// Does `data` hold a letter, a digit, or one of `$ # > % ~`?
pub fn detect_meaningful_content(data: &[u8]) -> (r: bool)
    ensures
        r == exists|i: int| 0 <= i < data@.len() && is_meaningful(data@[i]),
{
    let mut i: usize = 0;
    while i < data.len()
        invariant
            i <= data.len(),
            forall|j: int| 0 <= j < i ==> !is_meaningful(data@[j]),
        decreases data.len() - i,
    {
        let b = data[i];
        if (0x61 <= b && b <= 0x7A) || (0x41 <= b && b <= 0x5A) || (0x30 <= b && b <= 0x39) || b
            == 0x24 || b == 0x23 || b == 0x3E || b == 0x25 || b == 0x7E {
            assert(is_meaningful(data@[i as int]));
            return true;
        }
        i += 1;
    }
    false
}

/// Trimming takes bytes off the head only, and what is left begins with no artifact.
pub proof fn law_trimming_leaves_a_suffix(data: Seq<u8>)
    ensures
        without_artifacts(data).len() <= data.len(),
        without_artifacts(data) == data.skip(data.len() - without_artifacts(data).len()),
        artifact_len(without_artifacts(data)) == 0,
    decreases data.len(),
{
    lemma_sequence_end(data, 2);
    let n = artifact_len(data);
    if 0 < n <= data.len() {
        law_trimming_leaves_a_suffix(data.skip(n));
        let k = without_artifacts(data.skip(n)).len();
        assert(data.skip(n).skip(data.skip(n).len() - k) =~= data.skip(data.len() - k));
    } else {
        assert(data.skip(0) =~= data);
    }
}

/// Trimming twice does no more than trimming once.
pub proof fn law_trimming_is_idempotent(data: Seq<u8>)
    ensures
        without_artifacts(without_artifacts(data)) == without_artifacts(data),
{
    law_trimming_leaves_a_suffix(data);
}

/// The ends of lines and nulls at the head are taken off one by one.
pub proof fn law_line_ends_are_taken_off(b: u8, rest: Seq<u8>)
    requires
        b == 13 || b == 10 || b == 0,
    ensures
        without_artifacts(seq![b] + rest) == without_artifacts(rest),
{
    let data = seq![b] + rest;
    assert(data[0] == b);
    assert(data.skip(1) =~= rest);
}

/// A control sequence at the head is taken off as a whole: an escape, a bracket, any bytes
/// but letters and the like, and the first of those.
pub proof fn law_control_sequence_is_taken_off(middle: Seq<u8>, end: u8, rest: Seq<u8>)
    requires
        forall|i: int| 0 <= i < middle.len() ==> #[trigger] middle[i] < 64 || middle[i] > 126,
        64 <= end <= 126,
    ensures
        without_artifacts(seq![27u8, 91u8] + middle + seq![end] + rest) == without_artifacts(rest),
{
    let data = seq![27u8, 91u8] + middle + seq![end] + rest;
    assert(data[0] == 27 && data[1] == 91);
    let at = 2 + middle.len() as int;
    assert(data[at] == end);
    assert forall|i: int| 2 <= i < at implies !ends_sequence(#[trigger] data[i]) by {
        assert(data[i] == middle[i - 2]);
    }
    lemma_sequence_end_found(data, 2, at);
    assert(data.skip(at + 1) =~= rest);
}

proof fn lemma_sequence_end_found(data: Seq<u8>, from: int, at: int)
    requires
        0 <= from <= at < data.len(),
        ends_sequence(data[at]),
        forall|i: int| from <= i < at ==> !ends_sequence(#[trigger] data[i]),
    ensures
        sequence_end(data, from) == at,
    decreases at - from,
{
    if from < at {
        lemma_sequence_end_found(data, from + 1, at);
    }
}

/// A charset designator at the head is taken off with its letter.
pub proof fn law_charset_designator_is_taken_off(kind: u8, letter: u8, rest: Seq<u8>)
    requires
        kind == 40 || kind == 41,
    ensures
        without_artifacts(seq![27u8, kind, letter] + rest) == without_artifacts(rest),
{
    let data = seq![27u8, kind, letter] + rest;
    assert(data[0] == 27 && data[1] == kind);
    assert(data.skip(3) =~= rest);
}

/// Content stays as it is: whatever begins with a byte that is no line end, null or escape,
/// an escape that is not followed by a bracket or parenthesis, and a sequence without its
/// end.
pub proof fn law_content_stays(data: Seq<u8>)
    requires
        data.len() == 0 || (data[0] != 13 && data[0] != 10 && data[0] != 0 && data[0] != 27) || (
        data[0] == 27 && (data.len() == 1 || (data[1] != 91 && data[1] != 40 && data[1] != 41) || (
        data[1] == 91 && forall|i: int|
            2 <= i < data.len() ==> #[trigger] data[i] < 64 || data[i] > 126) || (data[1] != 91
            && data.len() == 2))),
    ensures
        without_artifacts(data) == data,
{
    if data.len() > 1 && data[0] == 27 && data[1] == 91 {
        lemma_sequence_end(data, 2);
        let end = sequence_end(data, 2);
        if end < data.len() {
            assert(ends_sequence(data[end]));
        }
    }
}

/// Letters, digits and the signs of shell prompts are meaningful; nothing else is.
pub proof fn law_what_is_meaningful(b: u8)
    ensures
        is_meaningful(b) <==> ('a' as int <= b <= 'z' as int) || ('A' as int <= b <= 'Z' as int) || (
        '0' as int <= b <= '9' as int) || b == '$' as int || b == '#' as int || b == '>' as int || b
            == '%' as int || b == '~' as int,
{
}

/// Artifacts are trimmed, and meaning is looked for, as the model has it.
pub proof fn law_data_is_processed(data: &[u8], r: Vec<u8>, yes: bool)
    requires
        call_ensures(trim_shell_artifacts, (data,), r),
        call_ensures(detect_meaningful_content, (data,), yes),
    ensures
        r@ == without_artifacts(data@),
        yes <==> exists|i: int| 0 <= i < data@.len() && is_meaningful(#[trigger] data@[i]),
{
}

} // verus!
