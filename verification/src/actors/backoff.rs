//! How long to wait between attempts.
use vstd::arithmetic::power2::{lemma_pow2_strictly_increases, pow2};
use vstd::prelude::*;

verus! {

/// The wait before trying again after this many attempts, in milliseconds: 100
/// after the first, twice as long after each further one, up to 31 of them.
pub open spec fn base_delay(attempt: u32) -> nat {
    if attempt == 0 {
        0
    } else if attempt <= 31 {
        100 * pow2((attempt - 1) as nat)
    } else {
        100 * pow2(30)
    }
}

fn power(shift: u32) -> (r: u64)
    requires
        shift <= 30,
    ensures
        r == pow2(shift as nat),
        r <= 0x4000_0000,
{
    let mut r: u64 = 1;
    let mut i: u32 = 0;
    proof {
        vstd::arithmetic::power2::lemma2_to64();
    }
    while i < shift
        invariant
            i <= shift <= 30,
            r == pow2(i as nat),
            r <= 0x4000_0000,
        decreases shift - i,
    {
        proof {
            vstd::arithmetic::power2::lemma2_to64();
            vstd::arithmetic::power2::lemma_pow2_unfold((i + 1) as nat);
            if i + 1 < 30 {
                lemma_pow2_strictly_increases((i + 1) as nat, 30);
            }
        }
        r = 2 * r;
        i += 1;
    }
    r
}

/// The wait after this many attempts, in milliseconds, without jitter.
pub fn calculate_retry_delay(attempt: u32) -> (r: u64)
    ensures
        r == base_delay(attempt),
{
    if attempt == 0 {
        return 0;
    }
    let shift: u32 = if attempt - 1 < 30 {
        attempt - 1
    } else {
        30
    };
    100 * power(shift)
}

/// The wait after this many attempts, in milliseconds, with some jitter added, as
/// far as it can be expressed; no attempt, no wait.
pub open spec fn jittered_delay(attempt: u32, jitter_ms: u64) -> u64 {
    if attempt == 0 {
        0
    } else if base_delay(attempt) + jitter_ms <= u64::MAX {
        (base_delay(attempt) + jitter_ms) as u64
    } else {
        u64::MAX
    }
}

/// The wait after this many attempts, in milliseconds, with some jitter added.
pub fn jittered_retry_delay(attempt: u32, jitter_ms: u64) -> (r: u64)
    ensures
        r == jittered_delay(attempt, jitter_ms),
{
    if attempt == 0 {
        return 0;
    }
    calculate_retry_delay(attempt).saturating_add(jitter_ms)
}

/// The more attempts, the longer the wait, up to where it stays the same.
pub proof fn law_delay_grows_to_a_limit(a: u32, b: u32)
    requires
        a < b,
    ensures
        base_delay(a) <= base_delay(b),
        b <= 31 ==> base_delay(a) < base_delay(b),
        a >= 31 ==> base_delay(a) == base_delay(b),
        0 < a < 31 ==> base_delay((a + 1) as u32) == 2 * base_delay(a),
{
    vstd::arithmetic::power2::lemma2_to64();
    if a > 0 {
        vstd::arithmetic::power2::lemma_pow2_pos((a - 1) as nat);
        if a < 31 {
            vstd::arithmetic::power2::lemma_pow2_unfold(a as nat);
        }
        if b <= 31 {
            lemma_pow2_strictly_increases((a - 1) as nat, (b - 1) as nat);
        } else if a < 31 {
            lemma_pow2_strictly_increases((a - 1) as nat, 30);
        }
    } else if b <= 31 {
        vstd::arithmetic::power2::lemma_pow2_pos((b - 1) as nat);
    }
}

/// After no attempt there is no wait; after the first it is 100 ms, each further attempt
/// doubles it, and the jitter comes on top.
pub proof fn law_waits_double_from_a_tenth_of_a_second(attempt: u32, jitter_ms: u64)
    ensures
        base_delay(0) == 0,
        base_delay(1) == 100,
        0 < attempt < 31 ==> base_delay((attempt + 1) as u32) == base_delay(attempt) + base_delay(
            attempt,
        ),
        jittered_delay(0, jitter_ms) == 0,
        0 < attempt <= 31 && jitter_ms <= 1000 ==> jittered_delay(attempt, jitter_ms) == base_delay(
            attempt,
        ) + jitter_ms,
        attempt > 0 && jitter_ms == 0 ==> jittered_delay(attempt, 0) == base_delay(attempt),
{
    vstd::arithmetic::power2::lemma2_to64();
    if 0 < attempt < 31 {
        law_delay_grows_to_a_limit(attempt, (attempt + 1) as u32);
    }
    if 0 < attempt < 31 {
        law_delay_grows_to_a_limit(attempt, 31);
    }
    if attempt > 31 {
        law_delay_grows_to_a_limit(31, attempt);
    }
}

/// Delays are computed as the model has them.
pub proof fn law_delays_are_computed(attempt: u32, jitter_ms: u64, r: u64)
    ensures
        call_ensures(calculate_retry_delay, (attempt,), r) ==> r == base_delay(attempt),
        call_ensures(jittered_retry_delay, (attempt, jitter_ms), r) ==> r == jittered_delay(
            attempt,
            jitter_ms,
        ),
{
}

} // verus!
