//! When a certificate ends.
use vstd::prelude::*;
use vstd::slice::slice_subrange;
use vstd::utf8::{decode_utf8, valid_utf8};

use crate::text::{chars_of, parse_unsigned, text_of, unsigned_value};

verus! {

/// The tag of a time with a year of two digits.
pub const UTC_TIME: u8 = 0x17;

/// The tag of a time with a year of four digits.
pub const GENERALIZED_TIME: u8 = 0x18;

/// How long a certificate must still hold to be used, in seconds: seven days.
pub const MIN_REMAINING_SECS: u64 = 604_800;

/// A date and a time of day.
pub struct Moment {
    pub year: nat,
    pub month: nat,
    pub day: nat,
    pub hour: nat,
    pub minute: nat,
    pub second: nat,
}

/// A year with a 29th of February.
pub open spec fn leap(year: nat) -> bool {
    (year % 4 == 0 && year % 100 != 0) || year % 400 == 0
}

/// Whether a year has a 29th of February.
pub fn is_leap_year(y: u64) -> (r: bool)
    ensures
        r == leap(y as nat),
{
    (y % 4 == 0 && y % 100 != 0) || y % 400 == 0
}

/// The number of days in a year.
pub open spec fn days_in_year(year: nat) -> nat {
    if leap(year) {
        366
    } else {
        365
    }
}

/// The number of days in a month, counted from 1; none for what is no month.
pub open spec fn days_in_month(year: nat, month: nat) -> nat {
    if month == 2 {
        if leap(year) {
            29
        } else {
            28
        }
    } else if month == 4 || month == 6 || month == 9 || month == 11 {
        30
    } else if 1 <= month <= 12 {
        31
    } else {
        0
    }
}

/// The days from the start of 1970 to the start of a year; none for an earlier year.
pub open spec fn days_before_year(year: nat) -> nat
    decreases year,
{
    if year <= 1970 {
        0
    } else {
        days_before_year((year - 1) as nat) + days_in_year((year - 1) as nat)
    }
}

/// The days from the start of a year to the start of a month.
pub open spec fn days_before_month(year: nat, month: nat) -> nat
    decreases month,
{
    if month <= 1 {
        0
    } else {
        days_before_month(year, (month - 1) as nat) + days_in_month(year, (month - 1) as nat)
    }
}

/// The seconds from the start of 1970 to a moment, without leap seconds. A day
/// that is 0 counts as 1.
pub open spec fn unix_seconds(m: Moment) -> nat {
    (days_before_year(m.year) + days_before_month(m.year, m.month) + (if m.day == 0 {
        0
    } else {
        (m.day - 1) as nat
    })) * 86400 + m.hour * 3600 + m.minute * 60 + m.second
}

/// The text without the letters Z at its end.
pub open spec fn without_zone(s: Seq<char>) -> Seq<char>
    decreases s.len(),
{
    if s.len() > 0 && s.last() == 'Z' {
        without_zone(s.drop_last())
    } else {
        s
    }
}

/// The year that a time begins with, and how many characters it takes.
pub open spec fn year_of(tag: u8, s: Seq<char>) -> (int, Option<nat>) {
    if tag == UTC_TIME {
        (
            2,
            match unsigned_value(s.take(2)) {
                Some(yy) => Some(
                    if yy >= 50 {
                        1900 + yy
                    } else {
                        2000 + yy
                    },
                ),
                None => None,
            },
        )
    } else {
        (4, unsigned_value(s.take(4)))
    }
}

/// The moment that a time text stands for: year, then month, day, hour, minute and
/// second in two characters each; what follows them does not count.
pub open spec fn moment_of(tag: u8, s: Seq<char>) -> Option<Moment> {
    let t = without_zone(s);
    let (n, year) = year_of(tag, t);
    if t.len() < n + 10 {
        None
    } else {
        match (
            year,
            unsigned_value(t.subrange(n, n + 2)),
            unsigned_value(t.subrange(n + 2, n + 4)),
            unsigned_value(t.subrange(n + 4, n + 6)),
            unsigned_value(t.subrange(n + 6, n + 8)),
            unsigned_value(t.subrange(n + 8, n + 10)),
        ) {
            (Some(year), Some(month), Some(day), Some(hour), Some(minute), Some(second)) => Some(
                Moment { year, month, day, hour, minute, second },
            ),
            _ => None,
        }
    }
}

/// A short text stands for a small number.
proof fn lemma_short_number(s: Seq<char>, bound: nat)
    requires
        s.len() <= 2 && bound == 99 || s.len() <= 4 && bound == 9999,
    ensures
        unsigned_value(s) matches Some(n) ==> n <= bound,
{
    reveal_with_fuel(crate::text::decimal_value, 6);
}

fn number_at(chars: &Vec<char>, from: usize, to: usize) -> (r: Option<u64>)
    requires
        from <= to <= chars.len(),
        to - from == 2 || to - from == 4,
    ensures
        match unsigned_value(chars@.subrange(from as int, to as int)) {
            Some(n) => r == Some(n as u64) && n <= 9999 && (to - from == 2 ==> n <= 99),
            None => r is None,
        },
{
    let part = slice_subrange(chars.as_slice(), from, to);
    proof {
        lemma_short_number(part@, 9999);
        if to - from == 2 {
            lemma_short_number(part@, 99);
        }
    }
    parse_unsigned(part)
}

fn days_to_year(year: u64) -> (r: u64)
    requires
        year <= 12_000,
    ensures
        r == days_before_year(year as nat),
        r <= 366 * year,
{
    let mut days: u64 = 0;
    let mut y: u64 = 1970;
    while y < year
        invariant
            1970 <= y,
            y <= year || y == 1970,
            year <= 12_000,
            days == days_before_year(y as nat),
            days <= 366 * y,
        decreases year - y,
    {
        days += if is_leap_year(y) {
            366
        } else {
            365
        };
        y += 1;
    }
    days
}

fn days_to_month(year: u64, month: u64) -> (r: u64)
    requires
        month <= 99,
    ensures
        r == days_before_month(year as nat, month as nat),
        r <= 31 * month,
{
    let mut days: u64 = 0;
    let mut m: u64 = 1;
    while m < month
        invariant
            1 <= m,
            m <= month || m == 1,
            month <= 99,
            days == days_before_month(year as nat, m as nat),
            days <= 31 * (m - 1),
        decreases month - m,
    {
        days += if m == 2 {
            if is_leap_year(year) {
                29
            } else {
                28
            }
        } else if m == 4 || m == 6 || m == 9 || m == 11 {
            30
        } else if m <= 12 {
            31
        } else {
            0
        };
        m += 1;
    }
    days
}

/// The seconds since 1970 of a time text: `YYMMDDHHMMSSZ` with the tag of a UTC time,
/// `YYYYMMDDHHMMSSZ` with any other. Years of two digits from 50 on are in the
/// twentieth century.
pub fn parse_asn1_time(tag: u8, s: &str) -> (r: Option<u64>)
    ensures
        match moment_of(tag, s@) {
            Some(m) => r == Some(unix_seconds(m) as u64) && unix_seconds(m) <= u64::MAX,
            None => r is None,
        },
{
    let chars = chars_of(s);
    let mut end: usize = chars.len();
    assert(chars@.take(end as int) =~= chars@);
    while end > 0 && chars[end - 1] == 'Z'
        invariant
            end <= chars.len(),
            without_zone(chars@.take(end as int)) == without_zone(s@),
        decreases end,
    {
        assert(chars@.take(end as int).drop_last() =~= chars@.take(end - 1));
        end -= 1;
    }
    let ghost t = chars@.take(end as int);
    assert(without_zone(s@) == t);
    let n: usize = if tag == UTC_TIME {
        2
    } else {
        4
    };
    if end < n + 10 {
        return None;
    }
    proof {
        assert(t.take(n as int) =~= chars@.subrange(0, n as int));
        assert(t.subrange(n as int, n + 2) =~= chars@.subrange(n as int, n + 2));
        assert(t.subrange(n + 2, n + 4) =~= chars@.subrange(n + 2, n + 4));
        assert(t.subrange(n + 4, n + 6) =~= chars@.subrange(n + 4, n + 6));
        assert(t.subrange(n + 6, n + 8) =~= chars@.subrange(n + 6, n + 8));
        assert(t.subrange(n + 8, n + 10) =~= chars@.subrange(n + 8, n + 10));
    }
    let year: u64 = match number_at(&chars, 0, n) {
        Some(y) => if tag == UTC_TIME {
            if y >= 50 {
                1900 + y
            } else {
                2000 + y
            }
        } else {
            y
        },
        None => return None,
    };
    let month = match number_at(&chars, n, n + 2) {
        Some(v) => v,
        None => return None,
    };
    let day = match number_at(&chars, n + 2, n + 4) {
        Some(v) => v,
        None => return None,
    };
    let hour = match number_at(&chars, n + 4, n + 6) {
        Some(v) => v,
        None => return None,
    };
    let minute = match number_at(&chars, n + 6, n + 8) {
        Some(v) => v,
        None => return None,
    };
    let second = match number_at(&chars, n + 8, n + 10) {
        Some(v) => v,
        None => return None,
    };
    let days: u64 = days_to_year(year) + days_to_month(year, month) + if day == 0 {
        0
    } else {
        day - 1
    };
    Some(days * 86400 + hour * 3600 + minute * 60 + second)
}

/// A length that is told in more than one byte, most significant first.
pub open spec fn big_endian(bytes: Seq<u8>) -> nat
    decreases bytes.len(),
{
    if bytes.len() == 0 {
        0
    } else {
        256 * big_endian(bytes.drop_last()) + bytes.last() as nat
    }
}

/// The length told at a position, and where what it is the length of begins: one
/// byte below 128, or the number of up to four bytes that follow, plus 128.
pub open spec fn asn1_length(der: Seq<u8>, pos: int) -> Option<(nat, int)> {
    if !(0 <= pos < der.len()) {
        None
    } else if der[pos] < 0x80 {
        Some((der[pos] as nat, pos + 1))
    } else {
        let n = der[pos] - 0x80;
        if n == 0 || n > 4 || pos + 1 + n > der.len() {
            None
        } else {
            Some((big_endian(der.subrange(pos + 1, pos + 1 + n)), pos + 1 + n))
        }
    }
}

/// The length told at a position, and where what it is the length of begins.
pub fn read_asn1_length(der: &[u8], pos: usize) -> (r: Option<(usize, usize)>)
    ensures
        match asn1_length(der@, pos as int) {
            Some((len, start)) => r == Some((len as usize, start as usize)) && len <= usize::MAX
                && start <= der@.len(),
            None => r is None,
        },
{
    if pos >= der.len() {
        return None;
    }
    let first = der[pos];
    if first < 0x80 {
        return Some((first as usize, pos + 1));
    }
    let n: usize = (first - 0x80) as usize;
    if n == 0 || n > 4 || n > der.len() - pos - 1 {
        return None;
    }
    let mut len: u64 = 0;
    let mut i: usize = 0;
    let ghost told = der@.subrange(pos + 1, pos + 1 + n);
    assert(told.take(0) =~= Seq::<u8>::empty());
    while i < n
        invariant
            i <= n <= 4,
            pos + 1 + n <= der.len(),
            told == der@.subrange(pos + 1, pos + 1 + n),
            len == big_endian(told.take(i as int)),
            i == 0 ==> len < 1,
            i == 1 ==> len < 0x100,
            i == 2 ==> len < 0x1_0000,
            i == 3 ==> len < 0x100_0000,
            i == 4 ==> len < 0x1_0000_0000,
        decreases n - i,
    {
        assert(told.take(i + 1).drop_last() =~= told.take(i as int));
        len = 256 * len + der[pos + 1 + i] as u64;
        i += 1;
    }
    assert(told.take(n as int) =~= told);
    Some((len as usize, pos + 1 + n))
}

/// The tag of a time.
pub open spec fn is_time(tag: u8) -> bool {
    tag == UTC_TIME || tag == GENERALIZED_TIME
}

/// The time in some bytes, in seconds since 1970.
pub open spec fn time_in(tag: u8, bytes: Seq<u8>) -> Option<nat> {
    if valid_utf8(bytes) {
        match moment_of(tag, decode_utf8(bytes)) {
            Some(m) => Some(unix_seconds(m)),
            None => None,
        }
    } else {
        None
    }
}

/// The second time in nested values from a position on, where `seen` says whether
/// the first one came before it. Each value is a tag, a length and a content; the
/// content of a tag with bit 5 set is values again.
pub open spec fn second_time(der: Seq<u8>, pos: int, seen: bool) -> Option<nat>
    decreases
            if pos <= der.len() {
                der.len() - pos
            } else {
                0
            },
{
    if !(0 <= pos < der.len()) {
        None
    } else {
        let tag = der[pos];
        match asn1_length(der, pos + 1) {
            None => None,
            Some((len, start)) => if is_time(tag) {
                if !seen {
                    second_time(der, start + len, true)
                } else if start + len <= der.len() {
                    time_in(tag, der.subrange(start, start + len))
                } else {
                    None
                }
            } else if tag & 0x20 != 0 {
                second_time(der, start, seen)
            } else {
                second_time(der, start + len, seen)
            },
        }
    }
}

/// When a certificate ends, in seconds since 1970: the second time in it.
pub fn parse_not_after_from_der(der: &[u8]) -> (r: Option<u64>)
    ensures
        match second_time(der@, 0, false) {
            Some(secs) => r == Some(secs as u64) && secs <= u64::MAX,
            None => r is None,
        },
{
    let mut seen = false;
    let mut pos: usize = 0;
    while pos < der.len()
        invariant
            pos <= der.len(),
            second_time(der@, pos as int, seen) == second_time(der@, 0, false),
        decreases der.len() - pos,
    {
        let tag = der[pos];
        match read_asn1_length(der, pos + 1) {
            None => {
                return None;
            },
            Some((len, start)) => {
                let time = tag == UTC_TIME || tag == GENERALIZED_TIME;
                if !time && tag & 0x20 != 0 {
                    pos = start;
                } else if len > der.len() - start {
                    assert(second_time(der@, start + len, true) is None);
                    assert(second_time(der@, start + len, seen) is None);
                    return None;
                } else if time && seen {
                    let content = slice_subrange(der, start, start + len);
                    return match text_of(content) {
                        Some(text) => parse_asn1_time(tag, text),
                        None => None,
                    };
                } else {
                    if time {
                        seen = true;
                    }
                    pos = start + len;
                }
            },
        }
    }
    None
}

/// Whether a certificate may be used: its end must be told, and be more than seven days
/// away.
pub open spec fn holds_long_enough(der: Seq<u8>, now_secs: u64) -> bool {
    match second_time(der, 0, false) {
        Some(end) => end > now_secs + MIN_REMAINING_SECS && now_secs + MIN_REMAINING_SECS
            <= u64::MAX,
        None => false,
    }
}

/// Whether a certificate may be used at the given time.
pub fn is_der_valid(der: &[u8], now_secs: u64) -> (r: bool)
    ensures
        r == holds_long_enough(der@, now_secs),
{
    match parse_not_after_from_der(der) {
        Some(end) => match now_secs.checked_add(MIN_REMAINING_SECS) {
            Some(threshold) => end > threshold,
            None => false,
        },
        None => false,
    }
}

/// A moment that a calendar has, from 1970 on.
pub open spec fn on_calendar(m: Moment) -> bool {
    &&& 1970 <= m.year
    &&& 1 <= m.month <= 12
    &&& 1 <= m.day <= days_in_month(m.year, m.month)
    &&& m.hour < 24
    &&& m.minute < 60
    &&& m.second < 60
}

/// The first moment comes before the second one.
pub open spec fn before(a: Moment, b: Moment) -> bool {
    ||| a.year < b.year
    ||| a.year == b.year && a.month < b.month
    ||| a.year == b.year && a.month == b.month && a.day < b.day
    ||| a.year == b.year && a.month == b.month && a.day == b.day && (a.hour * 60 + a.minute) * 60
        + a.second < (b.hour * 60 + b.minute) * 60 + b.second
}

proof fn lemma_years_add_up(a: nat, b: nat)
    requires
        1970 <= a < b,
    ensures
        days_before_year(a) + days_in_year(a) <= days_before_year(b),
    decreases b,
{
    if a + 1 < b {
        lemma_years_add_up(a, (b - 1) as nat);
    }
}

proof fn lemma_months_add_up(year: nat, a: nat, b: nat)
    requires
        1 <= a < b <= 13,
    ensures
        days_before_month(year, a) + days_in_month(year, a) <= days_before_month(year, b),
    decreases b,
{
    if a + 1 < b {
        lemma_months_add_up(year, a, (b - 1) as nat);
    }
}

proof fn lemma_months_fill_the_year(year: nat)
    ensures
        days_before_month(year, 13) == days_in_year(year),
{
    reveal_with_fuel(days_before_month, 14);
}

/// A later moment has more seconds.
pub proof fn law_later_is_more(a: Moment, b: Moment)
    requires
        on_calendar(a),
        on_calendar(b),
        before(a, b),
    ensures
        unix_seconds(a) < unix_seconds(b),
{
    let day_a = days_before_year(a.year) + days_before_month(a.year, a.month) + (a.day - 1);
    let day_b = days_before_year(b.year) + days_before_month(b.year, b.month) + (b.day - 1);
    if a.year < b.year {
        lemma_years_add_up(a.year, b.year);
        lemma_months_fill_the_year(a.year);
        lemma_months_add_up(a.year, a.month, 13);
        assert(day_a < day_b);
    } else if a.month < b.month {
        lemma_months_add_up(a.year, a.month, b.month);
        assert(day_a < day_b);
    }
}

/// The start of the next day is a whole day later, over the ends of months and years
/// too.
pub proof fn law_days_follow_each_other(m: Moment, next: Moment)
    requires
        on_calendar(m),
        next.hour == m.hour && next.minute == m.minute && next.second == m.second,
        if m.day < days_in_month(m.year, m.month) {
            next.year == m.year && next.month == m.month && next.day == m.day + 1
        } else if m.month < 12 {
            next.year == m.year && next.month == m.month + 1 && next.day == 1
        } else {
            next.year == m.year + 1 && next.month == 1 && next.day == 1
        },
    ensures
        unix_seconds(next) == unix_seconds(m) + 86400,
{
    if m.day == days_in_month(m.year, m.month) && m.month == 12 {
        lemma_months_fill_the_year(m.year);
    }
}

/// A number below 100 in two decimal digits.
pub open spec fn two_digits(n: nat) -> Seq<char> {
    seq![('0' as int + n / 10) as char, ('0' as int + n % 10) as char]
}

/// A date and a time of day from the month on, in two digits each.
pub open spec fn from_month_on(m: Moment) -> Seq<char> {
    two_digits(m.month) + two_digits(m.day) + two_digits(m.hour) + two_digits(m.minute)
        + two_digits(m.second)
}

proof fn lemma_two_digits(n: nat)
    requires
        n < 100,
    ensures
        two_digits(n).len() == 2,
        unsigned_value(two_digits(n)) == Some(n),
        two_digits(n)[1] != 'Z',
{
    let s = two_digits(n);
    reveal_with_fuel(crate::text::decimal_value, 4);
    assert(s[0] != '+');
    assert(s.drop_last().drop_last() =~= Seq::<char>::empty());
    assert(10 * (n / 10) + n % 10 == n);
}

proof fn lemma_parts(y: Seq<char>, m: Moment, z: Seq<char>)
    requires
        m.month < 100,
        m.day < 100,
        m.hour < 100,
        m.minute < 100,
        m.second < 100,
        y.len() == 2 || y.len() == 4,
        z.len() == 0 || z == seq!['Z'],
    ensures
        ({
            let t = y + from_month_on(m);
            let n = y.len() as int;
            &&& without_zone(t + z) == t
            &&& t.len() == n + 10
            &&& t.take(n) == y
            &&& unsigned_value(t.subrange(n, n + 2)) == Some(m.month)
            &&& unsigned_value(t.subrange(n + 2, n + 4)) == Some(m.day)
            &&& unsigned_value(t.subrange(n + 4, n + 6)) == Some(m.hour)
            &&& unsigned_value(t.subrange(n + 6, n + 8)) == Some(m.minute)
            &&& unsigned_value(t.subrange(n + 8, n + 10)) == Some(m.second)
        }),
{
    let t = y + from_month_on(m);
    let n = y.len() as int;
    lemma_two_digits(m.month);
    lemma_two_digits(m.day);
    lemma_two_digits(m.hour);
    lemma_two_digits(m.minute);
    lemma_two_digits(m.second);
    assert(t.take(n) =~= y);
    assert(t.subrange(n, n + 2) =~= two_digits(m.month));
    assert(t.subrange(n + 2, n + 4) =~= two_digits(m.day));
    assert(t.subrange(n + 4, n + 6) =~= two_digits(m.hour));
    assert(t.subrange(n + 6, n + 8) =~= two_digits(m.minute));
    assert(t.subrange(n + 8, n + 10) =~= two_digits(m.second));
    assert(t.last() == two_digits(m.second)[1]);
    reveal_with_fuel(without_zone, 3);
    if z.len() == 0 {
        assert(t + z =~= t);
    } else {
        assert((t + z).drop_last() =~= t);
        assert((t + z).last() == 'Z');
    }
}

/// A time that is written with a year of four digits is read back, with and without the
/// letter Z behind it.
pub proof fn law_written_time_is_read_back(m: Moment, z: Seq<char>)
    requires
        m.year < 10_000,
        m.month < 100,
        m.day < 100,
        m.hour < 100,
        m.minute < 100,
        m.second < 100,
        z.len() == 0 || z == seq!['Z'],
    ensures
        moment_of(
            0x18,
            two_digits(m.year / 100) + two_digits(m.year % 100) + from_month_on(m) + z,
        ) == Some(m),
{
    let y = two_digits(m.year / 100) + two_digits(m.year % 100);
    lemma_two_digits(m.year / 100);
    lemma_two_digits(m.year % 100);
    lemma_parts(y, m, z);
    reveal_with_fuel(crate::text::decimal_value, 6);
    assert(y[0] != '+');
    assert(y.drop_last().drop_last() =~= two_digits(m.year / 100));
    assert(y.drop_last().drop_last().drop_last().drop_last() =~= Seq::<char>::empty());
    assert(unsigned_value(y) == Some(m.year)) by {
        let a = m.year / 100;
        let b = m.year % 100;
        assert(a == 10 * (a / 10) + a % 10);
        assert(b == 10 * (b / 10) + b % 10);
        assert(crate::text::decimal_value(y.drop_last().drop_last()) == Some(a));
    }
    assert(y + from_month_on(m) + z =~= (y + from_month_on(m)) + z);
}

/// A time that is written with the last two digits of its year is read back as a time from
/// 1950 to 2049, with and without the letter Z behind it.
pub proof fn law_short_years_are_read_back(m: Moment, z: Seq<char>)
    requires
        1950 <= m.year < 2050,
        m.month < 100,
        m.day < 100,
        m.hour < 100,
        m.minute < 100,
        m.second < 100,
        z.len() == 0 || z == seq!['Z'],
    ensures
        moment_of(0x17, two_digits(m.year % 100) + from_month_on(m) + z) == Some(m),
{
    let y = two_digits(m.year % 100);
    lemma_two_digits(m.year % 100);
    lemma_parts(y, m, z);
    assert(y + from_month_on(m) + z =~= (y + from_month_on(m)) + z);
}

/// Time is counted from the start of 1970, an hour in 3600 seconds and a minute in 60.
pub proof fn law_time_is_counted_in_seconds(m: Moment)
    ensures
        unix_seconds(
            Moment { year: 1970, month: 1, day: 1, hour: 0, minute: 0, second: 0 },
        ) == 0,
        unix_seconds(m) == unix_seconds(Moment { hour: 0, minute: 0, second: 0, ..m }) + 3600
            * m.hour + 60 * m.minute + m.second,
{
}

/// The months have the days that they have: February has 29 in years that four divides,
/// but of those that a hundred divides only in those that four hundred divides.
pub proof fn law_months_have_their_days(year: nat, month: nat)
    ensures
        month == 1 || month == 3 || month == 5 || month == 7 || month == 8 || month == 10 || month
            == 12 ==> days_in_month(year, month) == 31,
        month == 4 || month == 6 || month == 9 || month == 11 ==> days_in_month(year, month)
            == 30,
        month == 2 && year % 4 != 0 ==> days_in_month(year, month) == 28,
        month == 2 && year % 4 == 0 && year % 100 != 0 ==> days_in_month(year, month) == 29,
        month == 2 && year % 100 == 0 && year % 400 != 0 ==> days_in_month(year, month) == 28,
        month == 2 && year % 400 == 0 ==> days_in_month(year, month) == 29,
        leap(year) <==> days_in_month(year, 2) == 29,
{
}

/// A length below 128 is told in its own byte; a longer one in the one to four bytes that
/// follow, most significant first. Nothing else is a length, nor is one that is cut short.
pub proof fn law_lengths_are_told(der: Seq<u8>, pos: int)
    requires
        0 <= pos,
    ensures
        pos >= der.len() ==> asn1_length(der, pos) is None,
        pos < der.len() && der[pos] < 128 ==> asn1_length(der, pos) == Some(
            (der[pos] as nat, pos + 1),
        ),
        pos < der.len() && (der[pos] == 128 || der[pos] > 132) ==> asn1_length(der, pos) is None,
        pos < der.len() && der[pos] > 128 && pos + 1 + (der[pos] - 128) > der.len()
            ==> asn1_length(der, pos) is None,
        pos + 2 <= der.len() && der[pos] == 129 ==> asn1_length(der, pos) == Some(
            (der[pos + 1] as nat, pos + 2),
        ),
        pos + 3 <= der.len() && der[pos] == 130 ==> asn1_length(der, pos) == Some(
            (256 * der[pos + 1] as nat + der[pos + 2] as nat, pos + 3),
        ),
        pos + 4 <= der.len() && der[pos] == 131 ==> asn1_length(der, pos) == Some(
            (
                0x1_0000 * der[pos + 1] as nat + 256 * der[pos + 2] as nat + der[pos + 3] as nat,
                pos + 4,
            ),
        ),
        pos + 5 <= der.len() && der[pos] == 132 ==> asn1_length(der, pos) == Some(
            (
                0x100_0000 * der[pos + 1] as nat + 0x1_0000 * der[pos + 2] as nat + 256 * der[pos
                    + 3] as nat + der[pos + 4] as nat,
                pos + 5,
            ),
        ),
{
    if pos + 2 <= der.len() {
        lemma_big_endian(der.subrange(pos + 1, pos + 2));
    }
    if pos + 3 <= der.len() {
        lemma_big_endian(der.subrange(pos + 1, pos + 3));
    }
    if pos + 4 <= der.len() {
        lemma_big_endian(der.subrange(pos + 1, pos + 4));
    }
    if pos + 5 <= der.len() {
        lemma_big_endian(der.subrange(pos + 1, pos + 5));
    }
}

proof fn lemma_big_endian(b: Seq<u8>)
    ensures
        b.len() == 1 ==> big_endian(b) == b[0],
        b.len() == 2 ==> big_endian(b) == 256 * b[0] + b[1],
        b.len() == 3 ==> big_endian(b) == 0x1_0000 * b[0] + 256 * b[1] + b[2],
        b.len() == 4 ==> big_endian(b) == 0x100_0000 * b[0] + 0x1_0000 * b[1] + 256 * b[2] + b[3],
{
    reveal_with_fuel(big_endian, 6);
}

/// One step through nested values. A time is tagged 0x17 or 0x18: the first is passed over,
/// the second is the one. Of other values, one with bit 5 in its tag is looked into, and
/// one without it is passed over.
pub proof fn law_values_are_gone_through(der: Seq<u8>, pos: int, len: nat, start: int, seen: bool)
    requires
        0 <= pos < der.len(),
        asn1_length(der, pos + 1) == Some((len, start)),
    ensures
        (der[pos] == 0x17 || der[pos] == 0x18) && !seen ==> second_time(der, pos, seen)
            == second_time(der, start + len, true),
        (der[pos] == 0x17 || der[pos] == 0x18) && seen && start + len <= der.len()
            ==> second_time(der, pos, seen) == time_in(der[pos], der.subrange(start, start + len)),
        (der[pos] == 0x17 || der[pos] == 0x18) && seen && start + len > der.len()
            ==> second_time(der, pos, seen) is None,
        der[pos] != 0x17 && der[pos] != 0x18 && der[pos] & 0x20 != 0 ==> second_time(
            der,
            pos,
            seen,
        ) == second_time(der, start, seen),
        der[pos] != 0x17 && der[pos] != 0x18 && der[pos] & 0x20 == 0 ==> second_time(
            der,
            pos,
            seen,
        ) == second_time(der, start + len, seen),
{
}

/// Of the two times between which a certificate holds, whatever stands behind them, the
/// second is its end.
pub proof fn law_second_time_is_the_end(
    tag: u8,
    from: Seq<u8>,
    other_tag: u8,
    until: Seq<u8>,
    rest: Seq<u8>,
)
    requires
        tag == 0x17 || tag == 0x18,
        other_tag == 0x17 || other_tag == 0x18,
        from.len() < 128,
        until.len() < 128,
        from.len() + until.len() + 4 < 128,
    ensures
        second_time(
            seq![0x30u8, (from.len() + until.len() + 4) as u8, tag, from.len() as u8] + from
                + seq![other_tag, until.len() as u8] + until + rest,
            0,
            false,
        ) == time_in(other_tag, until),
{
    let der = seq![0x30u8, (from.len() + until.len() + 4) as u8, tag, from.len() as u8] + from
        + seq![other_tag, until.len() as u8] + until + rest;
    let second = 4 + from.len() as int;
    assert(0x30u8 & 0x20 != 0) by (bit_vector);
    assert(der[0] == 0x30);
    assert(der[2] == tag && der[3] == from.len() as u8);
    assert(der[second] == other_tag && der[second + 1] == until.len() as u8);
    assert(der.subrange(second + 2, second + 2 + until.len()) =~= until);
    law_values_are_gone_through(der, 0, der[1] as nat, 2, false);
    law_values_are_gone_through(der, 2, from.len(), 4, false);
    law_values_are_gone_through(der, second, until.len(), second + 2, true);
}

/// A certificate may be used exactly if its end is told and comes after 604800 seconds, or
/// seven days, from now.
pub proof fn law_a_week_must_be_left(der: Seq<u8>, now_secs: u64)
    requires
        now_secs + 604_800 <= u64::MAX,
    ensures
        holds_long_enough(der, now_secs) <==> (second_time(der, 0, false) matches Some(end)
            && end > now_secs + 604_800),
{
}

/// Times, lengths and ends are read as the model has them.
pub proof fn law_certificates_are_read_as_modelled(
    tag: u8,
    s: &str,
    time: Option<u64>,
    der: &[u8],
    pos: usize,
    length: Option<(usize, usize)>,
    end: Option<u64>,
    now_secs: u64,
    valid: bool,
    y: u64,
    is_leap: bool,
)
    requires
        call_ensures(parse_asn1_time, (tag, s), time),
        call_ensures(read_asn1_length, (der, pos), length),
        call_ensures(parse_not_after_from_der, (der,), end),
        call_ensures(is_der_valid, (der, now_secs), valid),
        call_ensures(is_leap_year, (y,), is_leap),
    ensures
        time is Some <==> moment_of(tag, s@) is Some,
        moment_of(tag, s@) matches Some(m) ==> (time matches Some(t) && t == unix_seconds(m)),
        length is Some <==> asn1_length(der@, pos as int) is Some,
        asn1_length(der@, pos as int) matches Some((len, start)) ==> (length matches Some((l, at))
            && l == len && at == start),
        end is Some <==> second_time(der@, 0, false) is Some,
        second_time(der@, 0, false) matches Some(secs) ==> (end matches Some(e) && e == secs),
        valid ==> (end matches Some(e) && e > now_secs + 604_800),
        !valid && now_secs + 604_800 <= u64::MAX ==> (end matches Some(e) ==> e <= now_secs
            + 604_800),
        is_leap <==> y % 4 == 0 && (y % 100 != 0 || y % 400 == 0),
{
    assert(der.len() == der@.len());
}

} // verus!
