//! Building and inspecting text.
use vstd::prelude::*;
use vstd::utf8::{decode_utf8, valid_utf8};

verus! {

/// `String::push` of std: appends one character at the end.
#[verifier::external_body]
pub(crate) fn push_char(s: &mut String, c: char)
    ensures
        final(s)@ == old(s)@.push(c),
{
    s.push(c)
}

/// What std's `Debug` formatting makes of a text: the text in double quotes, with
/// some of its characters escaped.
pub uninterp spec fn quoted(s: Seq<char>) -> Seq<char>;

/// `format!("{:?}", ..)` of std for a text. Which characters are escaped, and how,
/// is left to std.
#[verifier::external_body]
pub(crate) fn quoted_text(s: &str) -> (r: String)
    ensures
        r@ == quoted(s@),
{
    format!("{:?}", s)
}

/// `std::str::from_utf8`: the text that the bytes encode, if they are valid UTF-8.
#[verifier::external_body]
pub(crate) fn text_of(bytes: &[u8]) -> (r: Option<&str>)
    ensures
        match r {
            Some(s) => valid_utf8(bytes@) && s@ == decode_utf8(bytes@),
            None => !valid_utf8(bytes@),
        },
{
    std::str::from_utf8(bytes).ok()
}

/// The characters of `s`, in order.
pub fn chars_of(s: &str) -> (r: Vec<char>)
    ensures
        r@ == s@,
{
    let mut out: Vec<char> = Vec::new();
    for c in it: s.chars()
        invariant
            out@ == it.seq().take(it.index() as int),
            it.seq() == s@,
    {
        out.push(c);
        assert(out@ =~= it.seq().take(it.index() as int + 1));
    }
    assert(s@.take(s@.len() as int) =~= s@);
    out
}

/// A string made of the characters of `chars`, in order.
pub fn string_of(chars: &[char]) -> (r: String)
    ensures
        r@ == chars@,
{
    let mut out = String::new();
    let mut i: usize = 0;
    while i < chars.len()
        invariant
            i <= chars.len(),
            out@ == chars@.take(i as int),
        decreases chars.len() - i,
    {
        push_char(&mut out, chars[i]);
        assert(chars@.take(i as int + 1) =~= chars@.take(i as int).push(chars@[i as int]));
        i += 1;
    }
    assert(chars@.take(chars@.len() as int) =~= chars@);
    out
}

/// Whether two texts have the same characters.
pub fn same_text(a: &str, b: &str) -> (r: bool)
    ensures
        r == (a@ == b@),
{
    let x = chars_of(a);
    let y = chars_of(b);
    if x.len() != y.len() {
        return false;
    }
    let mut i: usize = 0;
    while i < x.len()
        invariant
            i <= x.len(),
            x.len() == y.len(),
            x@ == a@,
            y@ == b@,
            forall|j: int| 0 <= j < i ==> x@[j] == y@[j],
        decreases x.len() - i,
    {
        if x[i] != y[i] {
            return false;
        }
        i += 1;
    }
    assert(x@ =~= y@);
    true
}


/// The decimal digits of `n`, most significant first.
pub open spec fn decimal(n: nat) -> Seq<char>
    decreases n,
{
    if n < 10 {
        seq![digit_char(n as int)]
    } else {
        decimal(n / 10).push(digit_char((n % 10) as int))
    }
}

/// The character of one decimal digit.
pub open spec fn digit_char(d: int) -> char {
    ('0' as int + d) as char
}

/// The text of a signed number: a minus sign before the digits of a negative one.
pub open spec fn signed_decimal(n: int) -> Seq<char> {
    if n < 0 {
        seq!['-'] + decimal((-n) as nat)
    } else {
        decimal(n as nat)
    }
}

fn digit(d: u64) -> (c: char)
    requires
        d < 10,
    ensures
        c == digit_char(d as int),
{
    (0x30u8 + d as u8) as char
}

/// Writes `n` in decimal.
pub fn decimal_text(n: u64) -> (r: String)
    ensures
        r@ == decimal(n as nat),
    decreases n,
{
    if n < 10 {
        let mut out = String::new();
        push_char(&mut out, digit(n));
        assert(out@ =~= seq![digit_char(n as int)]);
        out
    } else {
        let mut out = decimal_text(n / 10);
        push_char(&mut out, digit(n % 10));
        out
    }
}

/// Writes a signed number in decimal.
pub fn signed_decimal_text(n: i64) -> (r: String)
    ensures
        r@ == signed_decimal(n as int),
{
    if n < 0 {
        let mut out = String::new();
        push_char(&mut out, '-');
        let magnitude: u64 = if n == i64::MIN {
            0x8000_0000_0000_0000
        } else {
            (-n) as u64
        };
        out.append(decimal_text(magnitude).as_str());
        assert(out@ =~= seq!['-'] + decimal((-n) as nat));
        out
    } else {
        decimal_text(n as u64)
    }
}

/// The number that decimal digits make; `None` if one of the characters is no digit.
pub open spec fn decimal_value(s: Seq<char>) -> Option<nat>
    decreases s.len(),
{
    if s.len() == 0 {
        Some(0)
    } else if '0' <= s.last() <= '9' {
        match decimal_value(s.drop_last()) {
            Some(n) => Some(10 * n + (s.last() as nat - '0' as nat) as nat),
            None => None,
        }
    } else {
        None
    }
}

/// The number that a text stands for. A plus sign may lead; there must be a digit.
pub open spec fn unsigned_value(s: Seq<char>) -> Option<nat> {
    let digits = if s.len() > 0 && s[0] == '+' {
        s.skip(1)
    } else {
        s
    };
    if digits.len() > 0 {
        decimal_value(digits)
    } else {
        None
    }
}

/// A longer run of digits makes no smaller number.
proof fn lemma_decimal_value_grows(s: Seq<char>, n: int)
    requires
        0 <= n <= s.len(),
    ensures
        decimal_value(s.take(n)) is None ==> decimal_value(s) is None,
        decimal_value(s) is Some ==> decimal_value(s)->0 >= decimal_value(s.take(n))->0,
    decreases s.len() - n,
{
    if n == s.len() {
        assert(s.take(n) =~= s);
    } else {
        assert(s.drop_last().take(n) =~= s.take(n));
        lemma_decimal_value_grows(s.drop_last(), n);
    }
}

/// The number that a text stands for, if it fits.
pub fn parse_unsigned(s: &[char]) -> (r: Option<u64>)
    ensures
        match unsigned_value(s@) {
            Some(n) if n <= u64::MAX => r == Some(n as u64),
            _ => r is None,
        },
{
    let start: usize = if s.len() > 0 && s[0] == '+' {
        1
    } else {
        0
    };
    let ghost digits = s@.skip(start as int);
    assert(s@.skip(0) =~= s@);
    if start == s.len() {
        return None;
    }
    let mut n: u64 = 0;
    let mut i: usize = start;
    assert(digits.take(0) =~= Seq::<char>::empty());
    while i < s.len()
        invariant
            start <= i <= s.len(),
            digits == s@.skip(start as int),
            decimal_value(digits.take(i - start)) == Some(n as nat),
            digits.len() > 0,
            unsigned_value(s@) == decimal_value(digits),
        decreases s.len() - i,
    {
        let c = s[i];
        let ghost part = digits.take(i - start + 1);
        assert(part.drop_last() =~= digits.take(i - start));
        assert(part.last() == c);
        proof {
            lemma_decimal_value_grows(digits, i - start + 1);
        }
        if !('0' <= c && c <= '9') {
            return None;
        }
        let d: u64 = (c as u32 - 0x30) as u64;
        if n > (u64::MAX - d) / 10 {
            return None;
        }
        n = 10 * n + d;
        i += 1;
    }
    assert(digits.take(i - start) =~= digits);
    Some(n)
}

/// The upper-case character of one hexadecimal digit.
pub open spec fn hex_char(d: int) -> char {
    if d < 10 {
        ('0' as int + d) as char
    } else {
        ('A' as int + d - 10) as char
    }
}

/// The character of one hexadecimal digit, upper case.
pub fn hex_digit(d: u8) -> (c: char)
    requires
        d < 16,
    ensures
        c == hex_char(d as int),
{
    if d < 10 {
        (0x30u8 + d) as char
    } else {
        (0x41u8 + (d - 10)) as char
    }
}

/// Four upper-case hexadecimal digits, with leading zeros.
pub open spec fn hex4(n: int) -> Seq<char> {
    seq![
        hex_char(n / 4096 % 16),
        hex_char(n / 256 % 16),
        hex_char(n / 16 % 16),
        hex_char(n % 16),
    ]
}

/// Appends `n` as four upper-case hexadecimal digits.
pub fn push_hex4(out: &mut String, n: u16)
    ensures
        final(out)@ == old(out)@ + hex4(n as int),
{
    push_char(out, hex_digit((n / 4096 % 16) as u8));
    push_char(out, hex_digit((n / 256 % 16) as u8));
    push_char(out, hex_digit((n / 16 % 16) as u8));
    push_char(out, hex_digit((n % 16) as u8));
    assert(out@ =~= old(out)@ + hex4(n as int));
}

/// The lower-case form of an ASCII letter; any other character as it is.
pub open spec fn ascii_lower(c: char) -> char {
    if 'A' <= c <= 'Z' {
        (c as int + 32) as char
    } else {
        c
    }
}

/// The text with every ASCII letter in lower case.
pub open spec fn lower(s: Seq<char>) -> Seq<char> {
    s.map_values(|c: char| ascii_lower(c))
}

fn lower_char(c: char) -> (r: char)
    ensures
        r == ascii_lower(c),
{
    if 'A' <= c && c <= 'Z' {
        ((c as u32 + 32) as u8) as char
    } else {
        c
    }
}

/// The text with every ASCII letter in lower case.
pub fn lower_text(s: &str) -> (r: String)
    ensures
        r@ == lower(s@),
{
    let x = chars_of(s);
    let mut out = String::new();
    let mut i: usize = 0;
    while i < x.len()
        invariant
            i <= x.len(),
            x@ == s@,
            out@ == lower(x@.take(i as int)),
        decreases x.len() - i,
    {
        push_char(&mut out, lower_char(x[i]));
        i += 1;
        assert(out@ =~= lower(x@.take(i as int)));
    }
    assert(x@.take(x@.len() as int) =~= x@);
    out
}

/// Whether two texts agree when ASCII case is ignored.
pub open spec fn same_ignoring_case(a: Seq<char>, b: Seq<char>) -> bool {
    lower(a) == lower(b)
}

/// Whether two texts agree when ASCII case is ignored.
pub fn eq_ignore_case(a: &str, b: &str) -> (r: bool)
    ensures
        r == same_ignoring_case(a@, b@),
{
    let x = lower_text(a);
    let y = lower_text(b);
    same_text(x.as_str(), y.as_str())
}

/// `part` stands in `whole` at position `i`.
pub open spec fn stands_at<T>(part: Seq<T>, whole: Seq<T>, i: int) -> bool {
    0 <= i && i + part.len() <= whole.len() && whole.subrange(i, i + part.len()) == part
}

/// `part` occurs somewhere in `whole`.
pub open spec fn occurs_in<T>(part: Seq<T>, whole: Seq<T>) -> bool {
    exists|i: int| stands_at(part, whole, i)
}

fn chars_at(part: &Vec<char>, whole: &Vec<char>, i: usize) -> (r: bool)
    requires
        i + part.len() <= whole.len(),
    ensures
        r == stands_at(part@, whole@, i as int),
{
    let mut j: usize = 0;
    while j < part.len()
        invariant
            j <= part.len(),
            i + part.len() <= whole.len(),
            forall|k: int| 0 <= k < j ==> whole@[i + k] == part@[k],
        decreases part.len() - j,
    {
        if whole[i + j] != part[j] {
            assert(whole@.subrange(i as int, i + part.len())[j as int] != part@[j as int]);
            return false;
        }
        j += 1;
    }
    assert(whole@.subrange(i as int, i + part.len()) =~= part@);
    true
}

/// Whether `part` occurs somewhere in `whole`.
pub fn contains_text(whole: &str, part: &str) -> (r: bool)
    ensures
        r == occurs_in(part@, whole@),
{
    let w = chars_of(whole);
    let p = chars_of(part);
    if p.len() > w.len() {
        return false;
    }
    let mut i: usize = 0;
    while i <= w.len() - p.len()
        invariant
            i <= w.len() - p.len() + 1,
            p.len() <= w.len(),
            w@ == whole@,
            p@ == part@,
            forall|k: int| 0 <= k < i ==> !stands_at(p@, w@, k),
        decreases w.len() - p.len() + 1 - i,
    {
        if chars_at(&p, &w, i) {
            return true;
        }
        if i == w.len() - p.len() {
            return false;
        }
        i += 1;
    }
    false
}

/// Whether `whole` begins with `part`.
pub fn begins_with(whole: &str, part: &str) -> (r: bool)
    ensures
        r == stands_at(part@, whole@, 0),
{
    let w = chars_of(whole);
    let p = chars_of(part);
    p.len() <= w.len() && chars_at(&p, &w, 0)
}

/// `a` followed by `b`.
pub fn joined(a: &str, b: &str) -> (r: String)
    ensures
        r@ == a@ + b@,
{
    let mut out = a.to_owned();
    out.append(b);
    out
}

/// Two characters are the same, or the same ASCII letter in different case.
pub open spec fn same_letter(c: char, d: char) -> bool {
    c == d || ('A' <= c <= 'Z' && d as int == c as int + 32) || ('A' <= d <= 'Z' && c as int == d
        as int + 32)
}

/// Two texts agree, case ignored, exactly if they are equally long and agree letter by
/// letter.
pub proof fn law_case_is_ignored_letter_by_letter(a: Seq<char>, b: Seq<char>)
    ensures
        same_ignoring_case(a, b) <==> a.len() == b.len() && forall|i: int|
            0 <= i < a.len() ==> same_letter(#[trigger] a[i], b[i]),
{
    if same_ignoring_case(a, b) {
        assert(lower(a).len() == lower(b).len());
        assert forall|i: int| 0 <= i < a.len() implies same_letter(#[trigger] a[i], b[i]) by {
            assert(lower(a)[i] == lower(b)[i]);
            assert(ascii_lower(a[i]) == ascii_lower(b[i]));
        }
    }
    if a.len() == b.len() && forall|i: int| 0 <= i < a.len() ==> same_letter(#[trigger] a[i], b[i])
    {
        assert forall|i: int| 0 <= i < a.len() implies lower(a)[i] == lower(b)[i] by {
            assert(same_letter(a[i], b[i]));
        }
        assert(lower(a) =~= lower(b));
    }
}

/// Digits read as a number give the number that they were written for, and a plus sign
/// before them changes nothing.
pub proof fn law_written_numbers_are_read_back(n: nat)
    ensures
        unsigned_value(decimal(n)) == Some(n),
        unsigned_value(seq!['+'] + decimal(n)) == Some(n),
{
    lemma_decimal_value(n);
    let s = seq!['+'] + decimal(n);
    assert(s.skip(1) =~= decimal(n));
}

proof fn lemma_decimal_value(n: nat)
    ensures
        decimal_value(decimal(n)) == Some(n),
        decimal(n).len() > 0,
        decimal(n)[0] != '+',
    decreases n,
{
    if n < 10 {
        let s = decimal(n);
        assert(s.drop_last() =~= Seq::<char>::empty());
        assert(decimal_value(s.drop_last()) == Some(0nat));
    } else {
        lemma_decimal_value(n / 10);
        let s = decimal(n);
        assert(s.drop_last() =~= decimal(n / 10));
        assert(n == 10 * (n / 10) + n % 10);
    }
}

/// A number of 16 bits is written in four hexadecimal digits, the highest first, each
/// digit above nine as a capital letter.
pub proof fn law_four_digits_are_those_of_the_number(n: u16, i: int)
    requires
        0 <= i < 4,
    ensures
        hex4(n as int).len() == 4,
        ({
            let digit = if i == 0 {
                n as int / 4096
            } else if i == 1 {
                n as int / 256 % 16
            } else if i == 2 {
                n as int / 16 % 16
            } else {
                n as int % 16
            };
            &&& digit < 10 ==> hex4(n as int)[i] as int == 48 + digit
            &&& digit >= 10 ==> hex4(n as int)[i] as int == 55 + digit
        }),
{
}

/// What occurs in a text is what it has between something before and something after.
pub proof fn law_what_occurs_is_mentioned(whole: Seq<char>, part: Seq<char>)
    ensures
        occurs_in(part, whole) ==> exists|before: Seq<char>, after: Seq<char>|
            whole == #[trigger] (before + part + after),
        forall|before: Seq<char>, after: Seq<char>|
            whole == #[trigger] (before + part + after) ==> occurs_in(part, whole),
{
    if occurs_in(part, whole) {
        let i = choose|i: int| stands_at(part, whole, i);
        let before = whole.take(i);
        let after = whole.skip(i + part.len());
        assert(whole =~= before + part + after) by {
            assert forall|j: int| 0 <= j < whole.len() implies whole[j] == (before + part
                + after)[j] by {
                if i <= j < i + part.len() {
                    assert(whole.subrange(i, i + part.len())[j - i] == whole[j]);
                }
            }
        }
    }
    assert forall|before: Seq<char>, after: Seq<char>| whole == #[trigger] (before + part
        + after) implies occurs_in(part, whole) by {
        let i = before.len() as int;
        assert(whole.subrange(i, i + part.len()) =~= part);
        assert(stands_at(part, whole, i));
    }
}

/// A text begins with another exactly if the rest of it follows.
pub proof fn law_beginnings(whole: Seq<char>, part: Seq<char>, rest: Seq<char>)
    ensures
        stands_at(part, part + rest, 0),
        stands_at(part, whole, 0) ==> part.len() <= whole.len() && whole == part + whole.skip(
            part.len() as int,
        ),
{
    assert((part + rest).subrange(0, part.len() as int) =~= part);
    if stands_at(part, whole, 0) {
        assert(whole =~= part + whole.skip(part.len() as int)) by {
            assert forall|j: int| 0 <= j < whole.len() implies whole[j] == (part + whole.skip(
                part.len() as int,
            ))[j] by {
                if j < part.len() {
                    assert(whole.subrange(0, part.len() as int)[j] == whole[j]);
                }
            }
        }
    }
}

/// Texts are taken apart, put together, compared and searched as the model has it.
pub proof fn law_texts_are_handled(
    a: &str,
    b: &str,
    chars: &[char],
    yes: bool,
    r: String,
    v: Vec<char>,
    n: u64,
    m: i64,
    number: Option<u64>,
)
    ensures
        call_ensures(chars_of, (a,), v) ==> v@ == a@,
        call_ensures(string_of, (chars,), r) ==> r@ == chars@,
        call_ensures(same_text, (a, b), yes) ==> (yes <==> a@ == b@),
        call_ensures(eq_ignore_case, (a, b), yes) ==> (yes <==> a@.len() == b@.len() && forall|
            i: int,
        |
            0 <= i < a@.len() ==> same_letter(#[trigger] a@[i], b@[i])),
        call_ensures(contains_text, (a, b), yes) ==> (yes <==> exists|
            before: Seq<char>,
            after: Seq<char>,
        |
            a@ == #[trigger] (before + b@ + after)),
        call_ensures(begins_with, (a, b), yes) ==> (yes <==> b@.len() <= a@.len() && a@.take(
            b@.len() as int,
        ) == b@),
        call_ensures(joined, (a, b), r) ==> r@ == a@ + b@,
        call_ensures(lower_text, (a,), r) ==> r@ == lower(a@),
        call_ensures(decimal_text, (n,), r) ==> unsigned_value(r@) == Some(n as nat),
        call_ensures(signed_decimal_text, (m,), r) ==> r@ == signed_decimal(m as int),
        call_ensures(parse_unsigned, (chars,), number) ==> (number matches Some(k)
            ==> unsigned_value(chars@) == Some(k as nat)) && (number is None ==> (unsigned_value(
            chars@,
        ) matches Some(k) ==> k > u64::MAX)),
{
    law_case_is_ignored_letter_by_letter(a@, b@);
    law_what_occurs_is_mentioned(a@, b@);
    law_written_numbers_are_read_back(n as nat);
    assert(b@.len() <= a@.len() ==> a@.subrange(0, b@.len() as int) =~= a@.take(b@.len() as int));
}

} // verus!
