//! Floating-point values, held by their IEEE 754 bit patterns.
//!
//! The bit patterns of values that are not negative order as the values do, so a
//! comparison of such values is a comparison of their patterns.
use vstd::arithmetic::power2::{lemma_pow2_adds, lemma_pow2_pos, pow2};
use vstd::prelude::*;

verus! {

/// A double-precision value, by its bit pattern.
#[derive(Debug, Clone, Copy, PartialEq, Eq, Structural)]
pub struct Double {
    pub bits: u64,
}

/// The pattern is of a number, not of "not a number".
pub open spec fn is_number(d: Double) -> bool {
    magnitude(d) <= 0x7FF0_0000_0000_0000
}

/// The pattern without its sign.
pub open spec fn magnitude(d: Double) -> int {
    if d.bits < 0x8000_0000_0000_0000 {
        d.bits as int
    } else {
        d.bits - 0x8000_0000_0000_0000
    }
}

/// Where a number stands among all numbers; the two zeros stand in one place.
pub open spec fn rank(d: Double) -> int {
    if d.bits < 0x8000_0000_0000_0000 {
        magnitude(d)
    } else {
        -magnitude(d)
    }
}

/// The value of `a` is greater than that of `b`; nothing is if either is no number.
pub open spec fn exceeds(a: Double, b: Double) -> bool {
    is_number(a) && is_number(b) && rank(a) > rank(b)
}

/// The value of `a` is at least that of `b`; nothing is if either is no number.
pub open spec fn reaches(a: Double, b: Double) -> bool {
    is_number(a) && is_number(b) && rank(a) >= rank(b)
}

impl Double {
    fn is_number(self) -> (r: bool)
        ensures
            r == is_number(self),
    {
        let magnitude: u64 = if self.bits < 0x8000_0000_0000_0000 {
            self.bits
        } else {
            self.bits - 0x8000_0000_0000_0000
        };
        magnitude <= 0x7FF0_0000_0000_0000
    }

    fn rank(self) -> (r: i64)
        ensures
            r == rank(self),
    {
        if self.bits < 0x8000_0000_0000_0000 {
            self.bits as i64
        } else {
            -((self.bits - 0x8000_0000_0000_0000) as i64)
        }
    }

    /// Whether the value is greater than another.
    pub fn exceeds(self, other: Double) -> (r: bool)
        ensures
            r == exceeds(self, other),
    {
        self.is_number() && other.is_number() && self.rank() > other.rank()
    }

    /// Whether the value is at least another.
    pub fn reaches(self, other: Double) -> (r: bool)
        ensures
            r == reaches(self, other),
    {
        self.is_number() && other.is_number() && self.rank() >= other.rank()
    }
}

/// A single-precision value, by its bit pattern.
#[derive(Debug, Clone, Copy, PartialEq, Eq, Structural)]
pub struct Single {
    pub bits: u32,
}

/// The whole number nearest to `num / den`; the even one where two are equally near.
pub open spec fn nearest_even(num: nat, den: nat) -> nat {
    let q = num / den;
    let r = num % den;
    if 2 * r < den || (2 * r == den && q % 2 == 0) {
        q
    } else {
        q + 1
    }
}

/// `num / den` as `n / d * 2^e` with `1 <= n / d < 2`.
pub open spec fn normalized(num: nat, den: nat) -> (nat, nat, int)
    decreases
        (if num < den {
            1int
        } else {
            0int
        }),
        (if num < den {
            den - num
        } else {
            num - den
        }),
{
    if num == 0 || den == 0 {
        (num, den, 0)
    } else if num >= 2 * den {
        let (n, d, e) = normalized(num, 2 * den);
        (n, d, e + 1)
    } else if num < den {
        let (n, d, e) = normalized(2 * num, den);
        (n, d, e - 1)
    } else {
        (num, den, 0)
    }
}

/// The bit pattern of the value nearest to `num / den`, in a format with
/// `fraction` fraction bits and this exponent bias.
pub open spec fn ratio_bits(num: nat, den: nat, fraction: nat, bias: int) -> int {
    if num == 0 {
        0
    } else {
        let (n, d, e) = normalized(num, den);
        (e + bias - 1) * pow2(fraction) + nearest_even(n * pow2(fraction), d)
    }
}

/// The single-precision pattern of a ratio of two whole numbers.
pub open spec fn single_ratio(num: nat, den: nat) -> int {
    ratio_bits(num, den, 23, 127)
}

/// The double-precision pattern of a ratio of two whole numbers.
pub open spec fn double_ratio(num: nat, den: nat) -> int {
    ratio_bits(num, den, 52, 1023)
}

/// The distance between neighbouring single-precision values near `n`, for `n` of
/// 24 bits or more; 1 below that.
pub open spec fn single_unit(n: nat) -> nat
    decreases n,
{
    if n < 0x100_0000 {
        1
    } else {
        2 * single_unit(n / 2)
    }
}

/// The single-precision value nearest to a whole number.
pub open spec fn single_whole(n: nat) -> nat {
    nearest_even(n, single_unit(n)) * single_unit(n)
}

/// The single-precision pattern of one whole number over another, each of them
/// taken to single precision first.
pub open spec fn single_quotient(num: nat, den: nat) -> int {
    single_ratio(single_whole(num), single_whole(den))
}

proof fn lemma_normalized(num: nat, den: nat)
    requires
        0 < num,
        0 < den,
    ensures
        ({
            let (n, d, e) = normalized(num, den);
            &&& 0 < d <= n < 2 * d
            &&& num >= den ==> 0 <= e && n == num && d == den * pow2(e as nat)
            &&& num < den ==> e < 0 && d == den && n == num * pow2((-e) as nat)
        }),
    decreases
            (if num < den {
                1int
            } else {
                0int
            }),
            (if num < den {
                den - num
            } else {
                num - den
            }),
{
    vstd::arithmetic::power2::lemma2_to64();
    let (n, d, e) = normalized(num, den);
    if num >= 2 * den {
        lemma_normalized(num, 2 * den);
        lemma_pow2_adds(1, (e - 1) as nat);
        assert(2 * den * pow2((e - 1) as nat) == den * pow2(e as nat)) by (nonlinear_arith)
            requires
                pow2(e as nat) == 2 * pow2((e - 1) as nat),
        ;
    } else if num < den {
        lemma_normalized(2 * num, den);
        if 2 * num >= den {
            assert(normalized(2 * num, den) == (2 * num, den, 0int));
            assert(num * pow2(1) == 2 * num) by (nonlinear_arith)
                requires
                    pow2(1) == 2,
            ;
        } else {
            lemma_pow2_adds(1, (-e - 1) as nat);
            assert(2 * num * pow2((-e - 1) as nat) == num * pow2((-e) as nat)) by (nonlinear_arith)
                requires
                    pow2((-e) as nat) == 2 * pow2((-e - 1) as nat),
            ;
        }
    } else {
        assert(den * pow2(0) == den) by (nonlinear_arith)
            requires
                pow2(0) == 1,
        ;
    }
}

proof fn lemma_exponent_bounds(num: nat, den: nat)
    requires
        0 < num < 0x2_0000_0000_0000_0000,
        0 < den < 0x2_0000_0000_0000_0000,
    ensures
        -65 <= normalized(num, den).2 <= 65,
{
    lemma_normalized(num, den);
    let (n, d, e) = normalized(num, den);
    vstd::arithmetic::power2::lemma2_to64();
    lemma_pow2_adds(64, 2);
    if e > 65 {
        lemma_pow2_adds(66, (e - 66) as nat);
        lemma_pow2_pos((e - 66) as nat);
        assert(pow2(e as nat) >= pow2(66)) by (nonlinear_arith)
            requires
                pow2(e as nat) == pow2(66) * pow2((e - 66) as nat),
                pow2((e - 66) as nat) >= 1,
        ;
        assert(den * pow2(e as nat) >= pow2(66)) by (nonlinear_arith)
            requires
                den >= 1,
                pow2(e as nat) >= pow2(66),
        ;
        assert(pow2(66) > num);
    }
    if e < -65 {
        lemma_pow2_adds(66, (-e - 66) as nat);
        lemma_pow2_pos((-e - 66) as nat);
        assert(pow2((-e) as nat) >= pow2(66)) by (nonlinear_arith)
            requires
                pow2((-e) as nat) == pow2(66) * pow2((-e - 66) as nat),
                pow2((-e - 66) as nat) >= 1,
        ;
        assert(num * pow2((-e) as nat) >= pow2(66)) by (nonlinear_arith)
            requires
                num >= 1,
                pow2((-e) as nat) >= pow2(66),
        ;
        assert(pow2(66) >= 2 * den);
    }
}

proof fn lemma_nearest_between(n: nat, d: nat, scale: nat)
    requires
        0 < d <= n < 2 * d,
        0 < scale,
    ensures
        scale <= nearest_even(n * scale, d) <= 2 * scale,
{
    let a = n * scale;
    let q = a / d;
    let r = a % d;
    vstd::arithmetic::div_mod::lemma_fundamental_div_mod(a as int, d as int);
    assert(scale <= q) by (nonlinear_arith)
        requires
            a == d * q + r,
            r < d,
            a == n * scale,
            d <= n,
            0 < d,
            0 <= r,
    ;
    assert(q <= 2 * scale - 1) by (nonlinear_arith)
        requires
            a == d * q + r,
            a == n * scale,
            n < 2 * d,
            0 <= r,
            0 < scale,
            0 < d,
    ;
}

fn rounded(num: u128, den: u128) -> (r: u128)
    requires
        0 < den < 0x1000_0000_0000_0000_0000_0000_0000_0000,
        num < 0x1000_0000_0000_0000_0000_0000_0000_0000,
    ensures
        r == nearest_even(num as nat, den as nat),
{
    let q = num / den;
    let r = num % den;
    assert(q <= num) by (nonlinear_arith)
        requires
            q == num as int / den as int,
            den > 0,
    ;
    if 2 * r < den || (2 * r == den && q % 2 == 0) {
        q
    } else {
        q + 1
    }
}

/// The pattern of `num / den` in a format with 23 or 52 fraction bits.
fn bits_of_ratio(num: u128, den: u128, fraction: u32, scale: u128, bias: i32) -> (r: u64)
    requires
        0 < den < 0x2_0000_0000_0000_0000,
        num < 0x2_0000_0000_0000_0000,
        0 < scale <= 0x10_0000_0000_0000,
        scale == pow2(fraction as nat),
        100 <= bias <= 1023,
    ensures
        r == ratio_bits(num as nat, den as nat, fraction as nat, bias as int),
        r <= (bias + 66) * scale,
{
    if num == 0 {
        return 0;
    }
    let mut n: u128 = num;
    let mut d: u128 = den;
    let mut e: i32 = 0;
    let ghost (gn, gd, ge) = normalized(num as nat, den as nat);
    proof {
        lemma_normalized(num as nat, den as nat);
        lemma_exponent_bounds(num as nat, den as nat);
    }
    while n >= 2 * d
        invariant
            0 < d,
            0 < n < 0x2_0000_0000_0000_0000,
            d < 0x2_0000_0000_0000_0000,
            0 <= e <= 65,
            -65 <= ge <= 65,
            e > 0 ==> d <= n,
            normalized(n as nat, d as nat) == (gn, gd, ge - e),
        decreases n - d,
    {
        proof {
            lemma_normalized(n as nat, (2 * d) as nat);
        }
        d = 2 * d;
        e += 1;
    }
    while n < d
        invariant
            0 < d < 0x2_0000_0000_0000_0000,
            0 < n < 2 * d,
            -65 <= e <= 65,
            -65 <= ge <= 65,
            normalized(n as nat, d as nat) == (gn, gd, ge - e),
        decreases (if n < d { d - n } else { 0 }),
    {
        proof {
            lemma_normalized(n as nat, d as nat);
        }
        n = 2 * n;
        e -= 1;
    }
    proof {
        lemma_nearest_between(n as nat, d as nat, scale as nat);
        assert(n * scale < 0x4_0000_0000_0000_0000 * 0x10_0000_0000_0000) by (nonlinear_arith)
            requires
                n < 0x4_0000_0000_0000_0000,
                scale <= 0x10_0000_0000_0000,
                0 < n,
                0 < scale,
        ;
    }
    let m = rounded(n * scale, d);
    let whole: u128 = (e + bias - 1) as u128;
    proof {
        assert(whole * scale <= (bias + 64) * scale) by (nonlinear_arith)
            requires
                whole <= bias + 64,
                0 < scale,
        ;
        assert((bias + 64) * scale + 2 * scale == (bias + 66) * scale) by (nonlinear_arith);
        assert((bias + 66) * scale <= 1089 * 0x10_0000_0000_0000) by (nonlinear_arith)
            requires
                bias <= 1023,
                scale <= 0x10_0000_0000_0000,
                0 < scale,
                0 < bias,
        ;
    }
    (whole * scale + m) as u64
}

proof fn lemma_scales()
    ensures
        pow2(23) == 0x80_0000,
        pow2(52) == 0x10_0000_0000_0000,
{
    vstd::arithmetic::power2::lemma2_to64();
    lemma_pow2_adds(32, 20);
}

proof fn lemma_nearest_of_whole(n: nat)
    ensures
        nearest_even(n, 1) == n,
{
    vstd::arithmetic::div_mod::lemma_div_basics(n as int);
    vstd::arithmetic::div_mod::lemma_mod_self_0(1);
    assert(n % 1 == 0 && n / 1 == n) by (nonlinear_arith);
}

proof fn lemma_single_unit(n: nat)
    ensures
        0 < single_unit(n),
        n < 0x100_0000 ==> single_unit(n) == 1,
        n >= 0x100_0000 ==> single_unit(n) * 0x80_0000 <= n < single_unit(n) * 0x100_0000,
    decreases n,
{
    if n >= 0x100_0000 {
        lemma_single_unit(n / 2);
    }
}

proof fn lemma_single_whole(n: nat)
    ensures
        n < 0x100_0000 ==> single_whole(n) == n,
        single_whole(n) <= 2 * n,
        n > 0 ==> single_whole(n) > 0,
{
    lemma_single_unit(n);
    let u = single_unit(n);
    if n < 0x100_0000 {
        lemma_nearest_of_whole(n);
        assert(single_whole(n) == n) by (nonlinear_arith)
            requires
                single_whole(n) == nearest_even(n, u) * u,
                nearest_even(n, 1) == n,
                u == 1,
        ;
    } else {
        let q = n / u;
        vstd::arithmetic::div_mod::lemma_fundamental_div_mod(n as int, u as int);
        assert(0x80_0000 <= q < 0x100_0000) by (nonlinear_arith)
            requires
                n == u * q + n % u,
                0 <= n % u < u,
                u * 0x80_0000 <= n < u * 0x100_0000,
                u > 0,
        ;
        let m = nearest_even(n, u);
        assert(m * u <= 2 * n && m * u > 0) by (nonlinear_arith)
            requires
                0x80_0000 <= m <= 0x100_0000,
                u * 0x80_0000 <= n,
                u > 0,
        ;
    }
}

fn unit_of(n: u64) -> (r: u64)
    ensures
        r == single_unit(n as nat),
        0 < r <= 0x200_0000_0000,
    decreases n,
{
    proof {
        lemma_single_unit(n as nat);
        lemma_single_unit((n / 2) as nat);
    }
    if n < 0x100_0000 {
        1
    } else {
        2 * unit_of(n / 2)
    }
}

fn whole_of(n: u64) -> (r: u128)
    ensures
        r == single_whole(n as nat),
{
    let u: u128 = unit_of(n) as u128;
    proof {
        lemma_single_whole(n as nat);
    }
    let m = rounded(n as u128, u);
    assert(m * u == single_whole(n as nat));
    m * u
}

impl Single {
    /// `num / den`, as dividing two single-precision numbers gives it.
    pub fn quotient(num: u64, den: u64) -> (r: Single)
        requires
            den > 0,
        ensures
            r.bits == single_quotient(num as nat, den as nat),
    {
        proof {
            lemma_single_whole(num as nat);
            lemma_single_whole(den as nat);
            lemma_scales();
        }
        let n = whole_of(num);
        let d = whole_of(den);
        let bits = bits_of_ratio(n, d, 23, 0x80_0000, 127);
        Single { bits: bits as u32 }
    }

    /// One.
    pub fn one() -> (r: Single)
        ensures
            r.bits == 0x3F80_0000,
    {
        Single { bits: 0x3F80_0000 }
    }

    /// Zero.
    pub fn zero() -> (r: Single)
        ensures
            r.bits == 0,
    {
        Single { bits: 0 }
    }

    /// The same value in double precision. A value that is not a number stays one.
    pub fn widen(self) -> (r: Double)
        ensures
            r.bits == widened(self.bits),
    {
        let sign: u64 = (self.bits / 0x8000_0000) as u64 * 0x8000_0000_0000_0000;
        let exponent: u64 = (self.bits / 0x80_0000 % 0x100) as u64;
        let fraction: u64 = (self.bits % 0x80_0000) as u64;
        proof {
            lemma_scales();
        }
        let magnitude: u64 = if exponent == 0 {
            let small = bits_of_ratio(fraction as u128, 1, 52, 0x10_0000_0000_0000, 874);
            small
        } else if exponent == 0xFF {
            let quiet: u64 = if fraction == 0 {
                0
            } else {
                (fraction % 0x40_0000) * 0x2000_0000 + 0x8_0000_0000_0000
            };
            0x7FF * 0x10_0000_0000_0000 + quiet
        } else {
            (exponent + 896) * 0x10_0000_0000_0000 + fraction * 0x2000_0000
        };
        Double { bits: sign + magnitude }
    }
}

/// The double-precision pattern of a single-precision pattern's value.
pub open spec fn widened(bits: u32) -> int {
    let sign = bits as int / 0x8000_0000;
    let exponent = bits as int / 0x80_0000 % 0x100;
    let fraction = bits as int % 0x80_0000;
    sign * 0x8000_0000_0000_0000 + if exponent == 0 {
        // Counted in steps of 2^-149.
        ratio_bits(fraction as nat, 1, 52, 1023 - 149)
    } else if exponent == 0xFF {
        0x7FF0_0000_0000_0000 + if fraction == 0 {
            0
        } else {
            fraction % 0x40_0000 * 0x2000_0000 + 0x8_0000_0000_0000
        }
    } else {
        (exponent + 896) * 0x10_0000_0000_0000 + fraction * 0x2000_0000
    }
}

/// The double-precision pattern of `num / den`.
pub open spec fn double_quotient(num: int, den: nat) -> int {
    if num < 0 {
        0x8000_0000_0000_0000 + double_ratio((-num) as nat, den)
    } else {
        double_ratio(num as nat, den)
    }
}

impl Double {
    /// `num / den`, as dividing two double-precision numbers gives it.
    pub fn quotient(num: i32, den: u32) -> (r: Double)
        requires
            den > 0,
        ensures
            r.bits == double_quotient(num as int, den as nat),
    {
        proof {
            lemma_scales();
        }
        if num < 0 {
            let magnitude: i64 = -(num as i64);
            let bits = bits_of_ratio(magnitude as u128, den as u128, 52, 0x10_0000_0000_0000, 1023);
            Double { bits: 0x8000_0000_0000_0000 + bits }
        } else {
            let bits = bits_of_ratio(num as u128, den as u128, 52, 0x10_0000_0000_0000, 1023);
            Double { bits }
        }
    }
}

proof fn lemma_nearest_is_monotone(p1: nat, d1: nat, p2: nat, d2: nat)
    requires
        0 < d1,
        0 < d2,
        p1 * d2 <= p2 * d1,
    ensures
        nearest_even(p1, d1) <= nearest_even(p2, d2),
{
    let q1 = p1 / d1;
    let r1 = p1 % d1;
    let q2 = p2 / d2;
    let r2 = p2 % d2;
    vstd::arithmetic::div_mod::lemma_fundamental_div_mod(p1 as int, d1 as int);
    vstd::arithmetic::div_mod::lemma_fundamental_div_mod(p2 as int, d2 as int);
    assert(q1 * d1 * d2 + r1 * d2 <= q2 * d1 * d2 + r2 * d1) by (nonlinear_arith)
        requires
            p1 == d1 * q1 + r1,
            p2 == d2 * q2 + r2,
            p1 * d2 <= p2 * d1,
    ;
    assert(r2 * d1 < d1 * d2) by (nonlinear_arith)
        requires
            r2 < d2,
            0 < d1,
    ;
    assert(0 <= r1 * d2) by (nonlinear_arith)
        requires
            0 <= r1,
            0 < d2,
    ;
    if q1 > q2 {
        assert(q1 * d1 * d2 >= q2 * d1 * d2 + d1 * d2) by (nonlinear_arith)
            requires
                q1 >= q2 + 1,
                0 < d1,
                0 < d2,
        ;
    }
    if q1 == q2 {
        assert(r1 * d2 <= r2 * d1);
        assert(2 * r2 < d2 ==> 2 * r1 < d1) by (nonlinear_arith)
            requires
                r1 * d2 <= r2 * d1,
                0 < d1,
                0 < d2,
        ;
        assert(2 * r2 <= d2 ==> 2 * r1 <= d1) by (nonlinear_arith)
            requires
                r1 * d2 <= r2 * d1,
                0 < d1,
                0 < d2,
        ;
    }
}

/// What `normalized` does to a ratio, with the exponent made positive.
proof fn lemma_normalized_scale(num: nat, den: nat)
    requires
        0 < num < 0x2_0000_0000_0000_0000,
        0 < den < 0x2_0000_0000_0000_0000,
    ensures
        ({
            let (n, d, e) = normalized(num, den);
            num * d * pow2(66) == n * den * pow2((66 + e) as nat)
        }),
{
    lemma_normalized(num, den);
    lemma_exponent_bounds(num, den);
    let (n, d, e) = normalized(num, den);
    if e >= 0 {
        lemma_pow2_adds(66, e as nat);
        assert(num * (den * pow2(e as nat)) * pow2(66) == num * den * (pow2(66) * pow2(e as nat)))
            by (nonlinear_arith);
    } else {
        lemma_pow2_adds((66 + e) as nat, (-e) as nat);
        assert(num * den * (pow2((66 + e) as nat) * pow2((-e) as nat)) == num * pow2((-e) as nat)
            * den * pow2((66 + e) as nat)) by (nonlinear_arith);
    }
}

proof fn lemma_cross(
    a: nat,
    b: nat,
    c: nat,
    d: nat,
    n1: nat,
    d1: nat,
    n2: nat,
    d2: nat,
    p: nat,
    k: nat,
)
    requires
        a * d1 * k == n1 * b * p,
        c * d2 * k == n2 * d * p,
        a * d <= c * b,
        b > 0,
        d > 0,
        p > 0,
    ensures
        n1 * d2 <= n2 * d1,
{
    let w = b * d * p;
    let f = d1 * d2 * k;
    assert(w > 0) by (nonlinear_arith)
        requires
            w == b * d * p,
            b > 0,
            d > 0,
            p > 0,
    ;
    assert((n1 * d2) * w == (n1 * b * p) * (d * d2)) by (nonlinear_arith)
        requires
            w == b * d * p,
    ;
    assert((a * d1 * k) * (d * d2) == (a * d) * f) by (nonlinear_arith)
        requires
            f == d1 * d2 * k,
    ;
    assert((n2 * d1) * w == (n2 * d * p) * (b * d1)) by (nonlinear_arith)
        requires
            w == b * d * p,
    ;
    assert((c * d2 * k) * (b * d1) == (c * b) * f) by (nonlinear_arith)
        requires
            f == d1 * d2 * k,
    ;
    assert((a * d) * f <= (c * b) * f) by (nonlinear_arith)
        requires
            a * d <= c * b,
            f >= 0,
    ;
    let x = n1 * d2;
    let y = n2 * d1;
    assert(x <= y) by (nonlinear_arith)
        requires
            x * w <= y * w,
            w > 0,
    ;
}

/// The patterns of two ratios order as the ratios do.
pub proof fn law_patterns_order_as_ratios(a: nat, b: nat, c: nat, d: nat, fraction: nat, bias: int)
    requires
        a < 0x2_0000_0000_0000_0000,
        c < 0x2_0000_0000_0000_0000,
        0 < b < 0x2_0000_0000_0000_0000,
        0 < d < 0x2_0000_0000_0000_0000,
        a * d <= c * b,
        bias > 65,
    ensures
        0 <= ratio_bits(a, b, fraction, bias) <= ratio_bits(c, d, fraction, bias),
{
    let s = pow2(fraction);
    lemma_pow2_pos(fraction);
    if c > 0 {
        lemma_normalized(c, d);
        lemma_exponent_bounds(c, d);
        let (n2, d2, e2) = normalized(c, d);
        lemma_nearest_between(n2, d2, s);
        assert((e2 + bias - 1) * s >= 0) by (nonlinear_arith)
            requires
                e2 + bias - 1 >= 0,
                s > 0,
        ;
    }
    if a > 0 {
        assert(c > 0) by (nonlinear_arith)
            requires
                a * d <= c * b,
                a > 0,
                d > 0,
        ;
        lemma_normalized(a, b);
        lemma_exponent_bounds(a, b);
        lemma_normalized_scale(a, b);
        lemma_normalized_scale(c, d);
        let (n1, d1, e1) = normalized(a, b);
        let (n2, d2, e2) = normalized(c, d);
        let p1 = pow2((66 + e1) as nat);
        let p2 = pow2((66 + e2) as nat);
        let k = pow2(66);
        lemma_pow2_pos((66 + e1) as nat);
        lemma_pow2_pos((66 + e2) as nat);
        lemma_pow2_pos(66);
        lemma_nearest_between(n1, d1, s);
        assert((e1 + bias - 1) * s >= 0) by (nonlinear_arith)
            requires
                e1 + bias - 1 >= 0,
                s > 0,
        ;
        if e1 > e2 {
            lemma_pow2_adds((66 + e2) as nat, (e1 - e2) as nat);
            lemma_pow2_adds(1, (e1 - e2 - 1) as nat);
            lemma_pow2_pos((e1 - e2 - 1) as nat);
            vstd::arithmetic::power2::lemma2_to64();
            let g = pow2((e1 - e2) as nat);
            assert(g >= 2) by (nonlinear_arith)
                requires
                    g == pow2(1) * pow2((e1 - e2 - 1) as nat),
                    pow2(1) == 2,
                    pow2((e1 - e2 - 1) as nat) >= 1,
            ;
            assert(p1 >= 2 * p2) by (nonlinear_arith)
                requires
                    p1 == p2 * g,
                    g >= 2,
            ;
            // a / b is at least p1 / k, and c / d less than 2 p2 / k.
            assert(a * k >= b * p1) by (nonlinear_arith)
                requires
                    a * d1 * k == n1 * b * p1,
                    n1 >= d1,
                    d1 > 0,
            ;
            assert(c * k < 2 * d * p2) by (nonlinear_arith)
                requires
                    c * d2 * k == n2 * d * p2,
                    n2 < 2 * d2,
                    d2 > 0,
                    d > 0,
                    p2 > 0,
            ;
            assert(a * k * d >= b * p1 * d) by (nonlinear_arith)
                requires
                    a * k >= b * p1,
                    d > 0,
            ;
            assert(c * k * b < d * p1 * b) by (nonlinear_arith)
                requires
                    c * k < 2 * d * p2,
                    p1 >= 2 * p2,
                    b > 0,
                    d > 0,
            ;
            assert(c * b < a * d) by (nonlinear_arith)
                requires
                    a * k * d >= b * p1 * d,
                    c * k * b < d * p1 * b,
                    k > 0,
            ;
        } else if e1 < e2 {
            assert((e1 + bias - 1) * s + 2 * s <= (e2 + bias - 1) * s + s) by (nonlinear_arith)
                requires
                    e1 + 1 <= e2,
                    s > 0,
            ;
        } else {
            lemma_cross(a, b, c, d, n1, d1, n2, d2, p1, k);
            assert((n1 * s) * d2 <= (n2 * s) * d1) by (nonlinear_arith)
                requires
                    n1 * d2 <= n2 * d1,
                    s > 0,
            ;
            lemma_nearest_is_monotone(n1 * s, d1, n2 * s, d2);
        }
    }
}

proof fn lemma_single_unit_grows(m: nat, n: nat)
    requires
        m <= n,
    ensures
        single_unit(m) == single_unit(n) || 2 * single_unit(m) <= single_unit(n),
    decreases n,
{
    lemma_single_unit(m);
    if n >= 0x100_0000 {
        lemma_single_unit(n / 2);
        if m >= 0x100_0000 {
            lemma_single_unit_grows(m / 2, n / 2);
        }
    }
}

proof fn lemma_single_whole_is_monotone(m: nat, n: nat)
    requires
        m <= n,
    ensures
        single_whole(m) <= single_whole(n),
{
    lemma_single_unit_grows(m, n);
    lemma_single_unit(m);
    lemma_single_unit(n);
    let u = single_unit(m);
    let v = single_unit(n);
    if u == v {
        assert(m * v <= n * u) by (nonlinear_arith)
            requires
                m <= n,
                u == v,
        ;
        lemma_nearest_is_monotone(m, u, n, u);
        assert(nearest_even(m, u) * u <= nearest_even(n, u) * u) by (nonlinear_arith)
            requires
                nearest_even(m, u) <= nearest_even(n, u),
        ;
    } else {
        // m rounds to at most 2^24 of its units, n to at least 2^23 of its own.
        let most = 0x100_0000 * u;
        let least = 0x80_0000 * v;
        assert(m * u <= most * u) by (nonlinear_arith)
            requires
                m <= most,
        ;
        assert(least * v <= n * v) by (nonlinear_arith)
            requires
                least <= n,
        ;
        lemma_nearest_is_monotone(m, u, most, u);
        lemma_nearest_of_multiple(0x100_0000, u);
        lemma_nearest_is_monotone(least, v, n, v);
        lemma_nearest_of_multiple(0x80_0000, v);
        let x = nearest_even(m, u);
        let y = nearest_even(n, v);
        assert(x * u <= y * v) by (nonlinear_arith)
            requires
                x <= 0x100_0000,
                0x80_0000 <= y,
                2 * u <= v,
                0 < u,
        ;
    }
}

proof fn lemma_nearest_of_multiple(k: nat, d: nat)
    requires
        0 < d,
    ensures
        nearest_even(k * d, d) == k,
{
    vstd::arithmetic::div_mod::lemma_div_multiples_vanish(k as int, d as int);
    vstd::arithmetic::div_mod::lemma_mod_multiples_basic(k as int, d as int);
    assert(k * d == d * k) by (nonlinear_arith);
}

/// A part of a whole is between zero and one of it.
pub proof fn law_part_is_at_most_one(part: nat, whole: nat)
    requires
        part <= whole,
        0 < whole < 0x1_0000_0000_0000_0000,
    ensures
        0 <= single_quotient(part, whole) <= 0x3F80_0000,
        part == whole ==> single_quotient(part, whole) == 0x3F80_0000,
{
    lemma_single_whole(part);
    lemma_single_whole(whole);
    lemma_single_whole_is_monotone(part, whole);
    let p = single_whole(part);
    let w = single_whole(whole);
    assert(p * w <= w * w) by (nonlinear_arith)
        requires
            p <= w,
    ;
    law_patterns_order_as_ratios(p, w, w, w, 23, 127);
    lemma_scales();
    assert(normalized(w, w) == (w, w, 0int));
    assert(w * pow2(23) == 0x80_0000 * w) by (nonlinear_arith)
        requires
            pow2(23) == 0x80_0000,
    ;
    lemma_nearest_of_multiple(0x80_0000, w);
}

/// Nothing of a whole is zero.
pub proof fn law_nothing_is_zero(whole: nat)
    ensures
        single_quotient(0, whole) == 0,
{
    lemma_single_whole(0);
}

/// The share of a part that is not nothing has a pattern of a normal number.
pub proof fn law_share_is_zero_or_normal(part: nat, whole: nat)
    requires
        0 < part <= whole,
        0 < whole < 0x1_0000_0000_0000_0000,
    ensures
        0x80_0000 <= single_quotient(part, whole) <= 0x3F80_0000,
{
    law_part_is_at_most_one(part, whole);
    lemma_single_whole(part);
    lemma_single_whole(whole);
    lemma_scales();
    let p = single_whole(part);
    let w = single_whole(whole);
    lemma_normalized(p, w);
    lemma_exponent_bounds(p, w);
    let (n, d, e) = normalized(p, w);
    lemma_nearest_between(n, d, pow2(23));
    assert((e + 126) * 0x80_0000 >= 61 * 0x80_0000);
}

/// Widening keeps the order of shares, and the wide patterns are those of numbers.
pub proof fn law_widening_keeps_the_order_of_shares(a: int, b: int)
    requires
        a == 0 || 0x80_0000 <= a <= 0x3F80_0000,
        b == 0 || 0x80_0000 <= b <= 0x3F80_0000,
    ensures
        ({
            let x = Double { bits: widened(a as u32) as u64 };
            let y = Double { bits: widened(b as u32) as u64 };
            &&& exceeds(x, y) == (a > b)
            &&& reaches(x, y) == (a >= b)
            &&& a == 0x3F80_0000 ==> x.bits == 0x3FF0_0000_0000_0000
            &&& a == 0 ==> x.bits == 0
        }),
{
    assert(widened(0) == 0);
    lemma_widened_share(a);
    lemma_widened_share(b);
}

pub proof fn lemma_widened_share(a: int)
    requires
        0x80_0000 <= a <= 0x3F80_0000 || a == 0,
    ensures
        a > 0 ==> widened(a as u32) == a * 0x2000_0000 + 896 * 0x10_0000_0000_0000,
        a == 0 ==> widened(a as u32) == 0,
{
    if a > 0 {
        let e = a / 0x80_0000;
        let f = a % 0x80_0000;
        assert(a == e * 0x80_0000 + f);
        assert(1 <= e <= 127);
    }
}

/// A part that is less than a whole of fewer than 2^24 is less than one of it.
pub proof fn law_lesser_part_is_a_lesser_share(part: nat, whole: nat)
    requires
        part < whole < 0x100_0000,
    ensures
        single_quotient(part, whole) < 0x3F80_0000,
{
    lemma_single_whole(part);
    lemma_single_whole(whole);
    lemma_scales();
    if part > 0 {
        let (n, d, e) = normalized(part, whole);
        lemma_normalized(part, whole);
        assert(e <= -1);
        lemma_nearest_between(n, d, pow2(23));
        let m = nearest_even(n * pow2(23), d);
        if e < -1 {
            assert((e + 126) * 0x80_0000 + 2 * 0x80_0000 <= 126 * 0x80_0000);
        } else {
            // 2 * part / whole is at most 2 - 2 / whole, which rounds to less than 2.
            vstd::arithmetic::power2::lemma2_to64();
            assert(n == 2 * part) by (nonlinear_arith)
                requires
                    n == part * pow2(1),
                    pow2(1) == 2,
            ;
            let a = n * 0x80_0000;
            assert(a + 0x100_0000 <= 0x100_0000 * d) by (nonlinear_arith)
                requires
                    n + 2 <= 2 * d,
                    a == n * 0x80_0000,
            ;
            vstd::arithmetic::div_mod::lemma_fundamental_div_mod(a as int, d as int);
            let q = a / d;
            let r = a % d;
            if m >= 0x100_0000 {
                assert(q >= 0xFF_FFFF);
                assert(a == d * q + r);
                assert(d * q >= d * 0xFF_FFFF) by (nonlinear_arith)
                    requires
                        q >= 0xFF_FFFF,
                ;
                assert(d * 0xFF_FFFF + r + 0x100_0000 <= 0x100_0000 * d);
                assert(d >= r + 0x100_0000);
            }
        }
    }
}

proof fn lemma_nearest_of_sum(x: nat, d: nat)
    requires
        0 < d,
    ensures
        nearest_even(x + 2 * d, d) == nearest_even(x, d) + 2,
{
    let y = (x + 2 * d) as int;
    vstd::arithmetic::div_mod::lemma_fundamental_div_mod(x as int, d as int);
    assert(y == (x / d + 2) * d + x % d) by (nonlinear_arith)
        requires
            x == d * (x / d) + x % d,
            y == x + 2 * d,
    ;
    vstd::arithmetic::div_mod::lemma_fundamental_div_mod_converse(
        y,
        d as int,
        (x / d + 2) as int,
        (x % d) as int,
    );
}

/// The rounded mantissa of a ratio of small numbers is less than two.
proof fn lemma_no_carry(num: nat, den: nat)
    requires
        0 < num <= 0x8000_0000,
        0 < den <= 0x8000_0000,
    ensures
        ({
            let (n, d, e) = normalized(num, den);
            &&& 0 < d <= 0x8000_0000
            &&& 0x10_0000_0000_0000 <= nearest_even(n * pow2(52), d) < 2 * 0x10_0000_0000_0000
        }),
{
    lemma_scales();
    lemma_normalized(num, den);
    let (n, d, e) = normalized(num, den);
    lemma_nearest_between(n, d, pow2(52));
    let a = n * pow2(52);
    vstd::arithmetic::div_mod::lemma_fundamental_div_mod(a as int, d as int);
    let q = a / d;
    let r = a % d;
    assert(a + pow2(52) <= 2 * pow2(52) * d) by (nonlinear_arith)
        requires
            n + 1 <= 2 * d,
            a == n * pow2(52),
    ;
    if nearest_even(a, d) >= 2 * 0x10_0000_0000_0000 {
        assert(q >= 0x1F_FFFF_FFFF_FFFF);
        assert(d * q >= d * 0x1F_FFFF_FFFF_FFFF) by (nonlinear_arith)
            requires
                q >= 0x1F_FFFF_FFFF_FFFF,
        ;
        assert(2 * pow2(52) * d == d * 0x20_0000_0000_0000) by (nonlinear_arith)
            requires
                pow2(52) == 0x10_0000_0000_0000,
        ;
        assert(d >= r + 0x10_0000_0000_0000);
    }
}

/// Of two whole numbers, divided by the same one, the greater gives the greater value.
pub proof fn law_greater_number_has_the_greater_quotient(a: nat, b: nat, den: nat)
    requires
        a < b <= 0x8000_0000,
        0 < den <= 0x8000_0000,
    ensures
        0 <= double_ratio(a, den) < double_ratio(b, den) < 0x8000_0000_0000_0000,
{
    lemma_scales();
    let s: int = 0x10_0000_0000_0000;
    assert(a * den <= b * den) by (nonlinear_arith)
        requires
            a < b,
    ;
    law_patterns_order_as_ratios(a, den, b, den, 52, 1023);
    lemma_normalized(b, den);
    lemma_exponent_bounds(b, den);
    lemma_no_carry(b, den);
    let (n2, d2, e2) = normalized(b, den);
    let m2 = nearest_even(n2 * pow2(52), d2);
    assert(0 <= (e2 + 1022) * s <= 1087 * s) by (nonlinear_arith)
        requires
            -65 <= e2 <= 65,
            s > 0,
    ;
    if a > 0 {
        lemma_normalized(a, den);
        lemma_exponent_bounds(a, den);
        lemma_no_carry(a, den);
        let (n1, d1, e1) = normalized(a, den);
        let m1 = nearest_even(n1 * pow2(52), d1);
        if e1 < e2 {
            assert((e1 + 1022) * s + s <= (e2 + 1022) * s) by (nonlinear_arith)
                requires
                    e1 + 1 <= e2,
                    s > 0,
            ;
        } else if e1 > e2 {
            assert((e2 + 1022) * s + s <= (e1 + 1022) * s) by (nonlinear_arith)
                requires
                    e2 + 1 <= e1,
                    s > 0,
            ;
        } else {
            assert(d1 == d2);
            assert(n1 < n2) by {
                if e1 < 0 {
                    lemma_pow2_pos((-e1) as nat);
                    assert(a * pow2((-e1) as nat) < b * pow2((-e1) as nat)) by (nonlinear_arith)
                        requires
                            a < b,
                            pow2((-e1) as nat) > 0,
                    ;
                }
            }
            let x1 = n1 * pow2(52);
            let x2 = n2 * pow2(52);
            assert(x1 + 2 * d1 <= x2) by (nonlinear_arith)
                requires
                    n1 + 1 <= n2,
                    x1 == n1 * pow2(52),
                    x2 == n2 * pow2(52),
                    2 * d1 <= pow2(52),
            ;
            lemma_nearest_of_sum(x1, d1);
            assert((x1 + 2 * d1) * d1 <= x2 * d1) by (nonlinear_arith)
                requires
                    x1 + 2 * d1 <= x2,
            ;
            lemma_nearest_is_monotone(x1 + 2 * d1, d1, x2, d1);
        }
    }
}

/// Different whole numbers, divided by the same one, give different values.
pub proof fn law_different_numbers_have_different_quotients(a: i32, b: i32, den: nat)
    requires
        a != b,
        0 < den <= 0x8000_0000,
    ensures
        0 <= double_quotient(a as int, den) <= u64::MAX,
        0 <= double_quotient(b as int, den) <= u64::MAX,
        double_quotient(a as int, den) != double_quotient(b as int, den),
{
    let x = if a < 0 {
        (-a) as nat
    } else {
        a as nat
    };
    let y = if b < 0 {
        (-b) as nat
    } else {
        b as nat
    };
    law_greater_number_has_the_greater_quotient(0, 1, den);
    if x < y {
        law_greater_number_has_the_greater_quotient(x, y, den);
    }
    if y < x {
        law_greater_number_has_the_greater_quotient(y, x, den);
    }
    if x == y && x > 0 {
        law_greater_number_has_the_greater_quotient(0, x, den);
    }
}

/// Quotients, widening and comparisons are computed as the model has them.
pub proof fn law_numbers_are_computed(
    a: Double,
    b: Double,
    s: Single,
    n: u64,
    d: u64,
    m: i32,
    k: u32,
    single: Single,
    double: Double,
    yes: bool,
)
    ensures
        call_ensures(Double::exceeds, (a, b), yes) ==> yes == exceeds(a, b),
        call_ensures(Double::reaches, (a, b), yes) ==> yes == reaches(a, b),
        call_ensures(Single::quotient, (n, d), single) ==> single.bits == single_quotient(
            n as nat,
            d as nat,
        ),
        call_ensures(Single::widen, (s,), double) ==> double.bits == widened(s.bits),
        call_ensures(Double::quotient, (m, k), double) ==> double.bits == double_quotient(
            m as int,
            k as nat,
        ),
        call_ensures(Single::one, (), single) ==> single.bits == 0x3F80_0000,
        call_ensures(Single::zero, (), single) ==> single.bits == 0,
{
}

} // verus!
