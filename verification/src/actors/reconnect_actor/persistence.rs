//! The text form in which the last device is stored.
use vstd::prelude::*;

use crate::text::{chars_of, hex4, push_hex4};

verus! {

/// The storage key of the last device.
pub fn storage_key() -> (r: &'static str)
    ensures
        r@ == "futureterm_last_device"@,
{
    "futureterm_last_device"
}

/// A device's text form: vendor and product in four hexadecimal digits each, with
/// a colon between them.
pub open spec fn device_text(vid: u16, pid: u16) -> Seq<char> {
    hex4(vid as int) + seq![':'] + hex4(pid as int)
}

/// The text form of a device.
pub fn format_device(vid: u16, pid: u16) -> (r: String)
    ensures
        r@ == device_text(vid, pid),
{
    let mut out = String::new();
    push_hex4(&mut out, vid);
    out.append(":");
    push_hex4(&mut out, pid);
    proof {
        reveal_strlit(":");
        assert(":"@ =~= seq![':']);
    }
    assert(out@ =~= device_text(vid, pid));
    out
}

/// The value of one hexadecimal digit, in either case.
pub open spec fn hex_value(c: char) -> Option<int> {
    if '0' <= c <= '9' {
        Some(c as int - '0' as int)
    } else if 'A' <= c <= 'F' {
        Some(c as int - 'A' as int + 10)
    } else if 'a' <= c <= 'f' {
        Some(c as int - 'a' as int + 10)
    } else {
        None
    }
}

/// The number that hexadecimal digits make; `None` if one of the characters is no
/// digit.
pub open spec fn digits_value(s: Seq<char>) -> Option<int>
    decreases s.len(),
{
    if s.len() == 0 {
        Some(0)
    } else {
        match (digits_value(s.drop_last()), hex_value(s.last())) {
            (Some(n), Some(d)) => Some(16 * n + d),
            _ => None,
        }
    }
}

/// The 16-bit number that a text of hexadecimal digits stands for. A plus sign may
/// lead; there must be a digit, and the number must fit.
pub open spec fn hex16(s: Seq<char>) -> Option<u16> {
    let digits = if s.len() > 0 && s[0] == '+' {
        s.skip(1)
    } else {
        s
    };
    match digits_value(digits) {
        Some(n) if digits.len() > 0 && n <= 0xFFFF => Some(n as u16),
        _ => None,
    }
}

/// How many colons there are.
pub open spec fn colons(s: Seq<char>) -> nat
    decreases s.len(),
{
    if s.len() == 0 {
        0
    } else {
        colons(s.drop_last()) + if s.last() == ':' {
            1nat
        } else {
            0nat
        }
    }
}

/// The position of the first colon; the length if there is none.
pub open spec fn colon_position(s: Seq<char>) -> int {
    if exists|i: int| 0 <= i < s.len() && s[i] == ':' {
        choose|i: int|
            0 <= i < s.len() && s[i] == ':' && forall|j: int| 0 <= j < i ==> s[j] != ':'
    } else {
        s.len() as int
    }
}

/// The device that a text names: two 16-bit numbers around a single colon.
pub open spec fn device_of(s: Seq<char>) -> Option<(u16, u16)> {
    let at = colon_position(s);
    if colons(s) != 1 {
        None
    } else {
        match (hex16(s.take(at)), hex16(s.skip(at + 1))) {
            (Some(vid), Some(pid)) => Some((vid, pid)),
            _ => None,
        }
    }
}

fn digit_of(c: char) -> (r: Option<u32>)
    ensures
        match r {
            Some(d) => hex_value(c) == Some(d as int) && d < 16,
            None => hex_value(c) is None,
        },
{
    if '0' <= c && c <= '9' {
        Some(c as u32 - 0x30)
    } else if 'A' <= c && c <= 'F' {
        Some(c as u32 - 0x41 + 10)
    } else if 'a' <= c && c <= 'f' {
        Some(c as u32 - 0x61 + 10)
    } else {
        None
    }
}

proof fn lemma_digits_value_grows(s: Seq<char>, n: int)
    requires
        0 <= n <= s.len(),
    ensures
        digits_value(s) matches Some(v) ==> (digits_value(s.take(n)) matches Some(w) && 0 <= w
            <= v),
        digits_value(s) matches Some(v) ==> 0 <= v,
    decreases s.len() - n, s.len(),
{
    if n == s.len() {
        assert(s.take(n) =~= s);
        if s.len() > 0 {
            lemma_digits_value_grows(s.drop_last(), s.len() - 1);
        }
    } else {
        lemma_digits_value_grows(s.drop_last(), n);
        assert(s.drop_last().take(n) =~= s.take(n));
    }
}

fn parse_hex16(s: &[char]) -> (r: Option<u16>)
    ensures
        r == hex16(s@),
{
    let start: usize = if s.len() > 0 && s[0] == '+' {
        1
    } else {
        0
    };
    let ghost digits = if s@.len() > 0 && s@[0] == '+' {
        s@.skip(1)
    } else {
        s@
    };
    assert(digits =~= s@.skip(start as int));
    if start == s.len() {
        return None;
    }
    let mut n: u32 = 0;
    let mut i: usize = start;
    while i < s.len()
        invariant
            start <= i <= s.len(),
            start <= 1,
            digits == s@.skip(start as int),
            digits == if s@.len() > 0 && s@[0] == '+' {
                s@.skip(1)
            } else {
                s@
            },
            digits.len() > 0,
            digits_value(digits.take(i - start)) == Some(n as int),
            n <= 0xFFFF,
        decreases s.len() - i,
    {
        proof {
            assert(digits.take(i - start + 1).drop_last() =~= digits.take(i - start));
            assert(digits.take(i - start + 1).last() == s@[i as int]);
            lemma_digits_value_grows(digits, i - start + 1);
        }
        match digit_of(s[i]) {
            Some(d) => {
                if 16 * n + d > 0xFFFF {
                    return None;
                }
                n = 16 * n + d;
            },
            None => {
                return None;
            },
        }
        i += 1;
    }
    assert(digits.take(digits.len() as int) =~= digits);
    Some(n as u16)
}

/// The device that a text names.
pub fn parse_device(text: &str) -> (r: Option<(u16, u16)>)
    ensures
        r == device_of(text@),
{
    let chars = chars_of(text);
    let mut count: usize = 0;
    let mut at: usize = chars.len();
    let mut i: usize = 0;
    while i < chars.len()
        invariant
            i <= chars.len(),
            count <= i,
            count == colons(chars@.take(i as int)),
            at <= chars.len(),
            count == 0 ==> at == chars.len() && forall|j: int| 0 <= j < i ==> chars@[j] != ':',
            count > 0 ==> at < i && chars@[at as int] == ':' && forall|j: int|
                0 <= j < at ==> chars@[j] != ':',
        decreases chars.len() - i,
    {
        proof {
            assert(chars@.take(i + 1).drop_last() =~= chars@.take(i as int));
        }
        if chars[i] == ':' {
            if count == 0 {
                at = i;
            }
            count += 1;
        }
        i += 1;
    }
    assert(chars@.take(chars@.len() as int) =~= chars@);
    if count != 1 {
        return None;
    }
    proof {
        let p = colon_position(chars@);
        assert(0 <= p < chars@.len() && chars@[p] == ':' && forall|j: int|
            0 <= j < p ==> chars@[j] != ':');
        assert(p == at) by {
            if p < at {
                assert(chars@[p] != ':');
            }
            if at < p {
                assert(chars@[at as int] != ':');
            }
        }
    }
    let left = vstd::slice::slice_subrange(chars.as_slice(), 0, at);
    let right = vstd::slice::slice_subrange(chars.as_slice(), at + 1, chars.len());
    assert(left@ =~= chars@.take(at as int));
    assert(right@ =~= chars@.skip(at + 1));
    match (parse_hex16(left), parse_hex16(right)) {
        (Some(vid), Some(pid)) => Some((vid, pid)),
        _ => None,
    }
}

/// A device is read back from its own text form.
pub proof fn law_stored_device_is_read_back(vid: u16, pid: u16)
    ensures
        device_of(device_text(vid, pid)) == Some((vid, pid)),
{
    let s = device_text(vid, pid);
    let a = hex4(vid as int);
    let b = hex4(pid as int);
    lemma_hex4(vid);
    lemma_hex4(pid);
    assert(s.len() == 9);
    assert(s[4] == ':');
    assert(forall|i: int| 0 <= i < 4 ==> s[i] == a[i]);
    assert(forall|i: int| 5 <= i < 9 ==> s[i] == b[i - 5]);
    assert(colon_position(s) == 4) by {
        let p = colon_position(s);
        assert(exists|i: int| 0 <= i < s.len() && s[i] == ':');
        assert(forall|j: int| 0 <= j < 4 ==> s[j] != ':');
        assert(0 <= 4 < s.len() && s[4] == ':' && forall|j: int| 0 <= j < 4 ==> s[j] != ':');
        assert(0 <= p < s.len() && s[p] == ':' && forall|j: int| 0 <= j < p ==> s[j] != ':');
    }
    assert(s.take(4) =~= a);
    assert(s.skip(5) =~= b);
    lemma_no_colons(a);
    lemma_no_colons(b);
    lemma_colons_of_both(a + seq![':'], b);
    lemma_colons_of_both(a, seq![':']);
    assert(colons(seq![':']) == 1) by {
        assert(seq![':'].drop_last() =~= Seq::<char>::empty());
        assert(seq![':'].last() == ':');
        assert(colons(Seq::<char>::empty()) == 0);
    }
}

proof fn lemma_hex4(n: u16)
    ensures
        hex16(hex4(n as int)) == Some(n),
        hex4(n as int).len() == 4,
        forall|i: int| 0 <= i < 4 ==> #[trigger] hex4(n as int)[i] != ':',
{
    let s = hex4(n as int);
    let d0 = n as int / 4096 % 16;
    let d1 = n as int / 256 % 16;
    let d2 = n as int / 16 % 16;
    let d3 = n as int % 16;
    assert(s.drop_last() =~= s.take(3));
    assert(s.take(3).drop_last() =~= s.take(2));
    assert(s.take(2).drop_last() =~= s.take(1));
    assert(s.take(1).drop_last() =~= s.take(0));
    assert(digits_value(s.take(0)) == Some(0int));
    assert(digits_value(s.take(1)) == Some(d0));
    assert(digits_value(s.take(2)) == Some(16 * d0 + d1));
    assert(digits_value(s.take(3)) == Some(16 * (16 * d0 + d1) + d2));
    assert(digits_value(s) == Some(16 * (16 * (16 * d0 + d1) + d2) + d3));
    assert(n as int == 4096 * d0 + 256 * d1 + 16 * d2 + d3);
}

proof fn lemma_no_colons(s: Seq<char>)
    requires
        forall|i: int| 0 <= i < s.len() ==> s[i] != ':',
    ensures
        colons(s) == 0,
    decreases s.len(),
{
    if s.len() > 0 {
        lemma_no_colons(s.drop_last());
    }
}

proof fn lemma_colons_of_both(a: Seq<char>, b: Seq<char>)
    ensures
        colons(a + b) == colons(a) + colons(b),
    decreases b.len(),
{
    if b.len() == 0 {
        assert(a + b =~= a);
    } else {
        lemma_colons_of_both(a, b.drop_last());
        assert((a + b).drop_last() =~= a + b.drop_last());
    }
}

/// Hexadecimal digits are worth what they are, in either case, and count sixteenfold for
/// every digit that follows.
pub proof fn law_digits_are_worth_what_they_are(s: Seq<char>, c: char, d: int)
    requires
        0 <= d < 16,
    ensures
        hex_value("0123456789ABCDEF"@[d]) == Some(d),
        hex_value("0123456789abcdef"@[d]) == Some(d),
        !("0123456789ABCDEF"@.contains(c)) && !("0123456789abcdef"@.contains(c)) ==> hex_value(c)
            is None,
        digits_value(Seq::empty()) == Some(0int),
        digits_value(s) is None || hex_value(c) is None ==> digits_value(s.push(c)) is None,
        digits_value(s) is Some && hex_value(c) is Some ==> digits_value(s.push(c)) == Some(
            16 * digits_value(s)->0 + hex_value(c)->0,
        ),
{
    reveal_strlit("0123456789ABCDEF");
    reveal_strlit("0123456789abcdef");
    assert(s.push(c).drop_last() =~= s);
    if hex_value(c) is Some {
        let v = hex_value(c)->0;
        assert("0123456789ABCDEF"@[v] == c || "0123456789abcdef"@[v] == c);
    }
}

/// A text names the device whose vendor stands before its colon and whose product stands
/// behind it; with another colon, or without one, it names none.
pub proof fn law_device_is_named_around_the_colon(a: Seq<char>, b: Seq<char>)
    requires
        forall|i: int| 0 <= i < a.len() ==> #[trigger] a[i] != ':',
    ensures
        device_of(a) is None,
        (forall|i: int| 0 <= i < b.len() ==> #[trigger] b[i] != ':') ==> {
            &&& hex16(a) is Some && hex16(b) is Some ==> device_of(a + seq![':'] + b) == Some(
                (hex16(a)->0, hex16(b)->0),
            )
            &&& hex16(a) is None || hex16(b) is None ==> device_of(a + seq![':'] + b) is None
        },
        (exists|i: int| 0 <= i < b.len() && #[trigger] b[i] == ':') ==> device_of(
            a + seq![':'] + b,
        ) is None,
{
    let s = a + seq![':'] + b;
    let n = a.len() as int;
    lemma_no_colons(a);
    assert(s[n] == ':');
    assert(forall|i: int| 0 <= i < n ==> s[i] == a[i]);
    assert(s.take(n) =~= a);
    assert(s.skip(n + 1) =~= b);
    lemma_colons_of_both(a + seq![':'], b);
    lemma_colons_of_both(a, seq![':']);
    assert(colons(seq![':']) == 1) by {
        assert(seq![':'].drop_last() =~= Seq::<char>::empty());
        assert(seq![':'].last() == ':');
        assert(colons(Seq::<char>::empty()) == 0);
    }
    if forall|i: int| 0 <= i < b.len() ==> #[trigger] b[i] != ':' {
        lemma_no_colons(b);
        assert(colon_position(s) == n) by {
            let p = colon_position(s);
            assert(0 <= n < s.len() && s[n] == ':' && forall|j: int| 0 <= j < n ==> s[j] != ':');
            assert(0 <= p < s.len() && s[p] == ':' && forall|j: int| 0 <= j < p ==> s[j] != ':');
            if p < n {
                assert(s[p] == a[p]);
            }
            if n < p {
                assert(s[n] != ':');
            }
        }
    }
    if exists|i: int| 0 <= i < b.len() && #[trigger] b[i] == ':' {
        lemma_some_colons(b);
    }
}

proof fn lemma_some_colons(s: Seq<char>)
    requires
        exists|i: int| 0 <= i < s.len() && #[trigger] s[i] == ':',
    ensures
        colons(s) > 0,
    decreases s.len(),
{
    let i = choose|i: int| 0 <= i < s.len() && #[trigger] s[i] == ':';
    if i < s.len() - 1 {
        assert(s.drop_last()[i] == ':');
        lemma_some_colons(s.drop_last());
    }
}

/// A number of 16 bits is read from digits, with or without a plus sign before them; one
/// that is larger is not, nor is a text without digits.
pub proof fn law_numbers_of_sixteen_bits(digits: Seq<char>)
    requires
        digits.len() > 0 ==> digits[0] != '+',
    ensures
        hex16(Seq::empty()) is None,
        hex16(seq!['+']) is None,
        digits.len() > 0 ==> hex16(seq!['+'] + digits) == hex16(digits),
        digits.len() > 0 && digits_value(digits) is None ==> hex16(digits) is None,
        digits.len() > 0 && digits_value(digits) is Some ==> (digits_value(digits)->0 <= 0xFFFF
            ==> (hex16(digits) matches Some(n) && n == digits_value(digits)->0)) && (digits_value(
            digits,
        )->0 > 0xFFFF ==> hex16(digits) is None),
{
    assert((seq!['+'] + digits).skip(1) =~= digits);
    assert(seq!['+'].skip(1) =~= Seq::<char>::empty());
    lemma_digits_value_grows(digits, digits.len() as int);
}

/// A device is written and read as the model has it, under its own key.
pub proof fn law_devices_are_stored(
    vid: u16,
    pid: u16,
    written: String,
    text: &str,
    read: Option<(u16, u16)>,
    key: &'static str,
)
    requires
        call_ensures(format_device, (vid, pid), written),
        call_ensures(parse_device, (text,), read),
        call_ensures(storage_key, (), key),
    ensures
        written@ == hex4(vid as int) + seq![':'] + hex4(pid as int),
        read == device_of(text@),
        text@ == written@ ==> read == Some((vid, pid)),
        key@ == "futureterm_last_device"@,
{
    law_stored_device_is_read_back(vid, pid);
}

} // verus!
