//! How long to wait before the next upload attempt.

use vstd::prelude::*;
use vstd::arithmetic::power2::{pow2, lemma_pow2_adds, lemma2_to64};

verus! {

/// The exponent from which the doubled delay already exceeds the cap (2^9 > 300).
pub const CAP_EXPONENT: u32 = 9;

/// The upper bound of any delay, five minutes.
pub const MAX_DELAY_SECS: u64 = 300;

/// The delay in seconds before retry number `retry_count`: `2^retry_count`, capped at
/// five minutes.
pub open spec fn delay_secs(retry_count: nat) -> nat {
    if pow2(retry_count) < 300 {
        pow2(retry_count)
    } else {
        300
    }
}

/// What `Duration::from_secs` returns for `secs`.
pub uninterp spec fn duration_from_secs(secs: u64) -> std::time::Duration;

/// `Duration::from_secs`, a duration of `secs` whole seconds.
#[verifier::external_body]
fn seconds(secs: u64) -> (d: std::time::Duration)
    ensures
        d == duration_from_secs(secs),
{
    std::time::Duration::from_secs(secs)
}

/// The backoff in whole seconds before retry number `retry_count`.
pub fn retry_delay_secs(retry_count: u32) -> (secs: u64)
    ensures
        secs == delay_secs(retry_count as nat),
{
    // From exponent 9 on the doubled delay is above the cap, so stop doubling there.
    let e: u32 = if retry_count < CAP_EXPONENT { retry_count } else { CAP_EXPONENT };
    let mut v: u64 = 1;
    let mut i: u32 = 0;
    proof {
        lemma2_to64();
    }
    while i < e
        invariant
            i <= e <= 9,
            v == pow2(i as nat),
        decreases e - i,
    {
        proof {
            lemma_pow2_adds(i as nat, 1);
            lemma2_to64();
            if i < 9 {
                vstd::arithmetic::power2::lemma_pow2_strictly_increases(i as nat, 9);
            }
        }
        v = v * 2;
        i = i + 1;
    }
    proof {
        lemma2_to64();
        if retry_count > 9 {
            vstd::arithmetic::power2::lemma_pow2_strictly_increases(9, retry_count as nat);
        }
    }
    if v < MAX_DELAY_SECS { v } else { MAX_DELAY_SECS }
}

/// Calculate retry delay using exponential backoff.
///
/// retry_count=0 -> 1s
/// retry_count=1 -> 2s
/// retry_count=2 -> 4s
/// capped at 5 minutes.
pub fn retry_delay(retry_count: u32) -> (d: std::time::Duration)
    ensures
        d == duration_from_secs(delay_secs(retry_count as nat) as u64),
{
    let secs = retry_delay_secs(retry_count);
    seconds(secs)
}

/// Every delay is at most five minutes.
pub proof fn lemma_delay_capped(n: nat)
    ensures
        delay_secs(n) <= 300,
{
}

/// Each retry waits `2^n` seconds until that passes five minutes, so the first three
/// wait 1, 2 and 4 seconds and each of the first nine doubles the one before.
pub proof fn lemma_delay_doubles(n: nat)
    requires
        n <= 8,
    ensures
        delay_secs(n) == pow2(n),
        n < 8 ==> delay_secs(n + 1) == 2 * delay_secs(n),
{
    lemma2_to64();
    if n < 8 {
        vstd::arithmetic::power2::lemma_pow2_strictly_increases(n, 8);
        lemma_pow2_adds(n, 1);
        if n + 1 < 8 {
            vstd::arithmetic::power2::lemma_pow2_strictly_increases(n + 1, 8);
        }
    }
}

/// From the ninth retry on the delay is the full five minutes.
pub proof fn lemma_delay_reaches_cap(n: nat)
    requires
        n >= 9,
    ensures
        delay_secs(n) == 300,
{
    lemma2_to64();
    if n > 9 {
        vstd::arithmetic::power2::lemma_pow2_strictly_increases(9, n);
    }
}

/// The delay never shrinks as the retry count grows.
pub proof fn lemma_delay_monotonic(m: nat, n: nat)
    requires
        m <= n,
    ensures
        delay_secs(m) <= delay_secs(n),
{
    if m < n {
        vstd::arithmetic::power2::lemma_pow2_strictly_increases(m, n);
    }
}

} // verus!
