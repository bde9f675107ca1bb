//! Fee-capped, retrying transaction submission.
//!
//! [`JetTpuClient::send_transaction`] computes the capped priority fee,
//! re-checks the cap (defense in depth), and retries up to the policy's
//! attempt budget.  The retry envelope itself — which attempt's outcome
//! is returned and how much backoff delay accrues — is captured by
//! [`send_plan`], a verified replay of the loop over any sequence of
//! attempt outcomes; a live driver performs one real send per outcome
//! and sleeps the same delays.

use vstd::prelude::*;
use vstd::math::min;
use crate::errors::HydraError;
use crate::fee::{FeeCalculator, MAX_PRIORITY_FEE_MICRO_LAMPORTS};
use crate::retry::RetryPolicy;

verus! {

/// Whether attempt `i` is the first of the first `n` outcomes to
/// succeed.
pub open spec fn is_first_success(
    outcomes: Seq<Result<String, HydraError>>,
    n: int,
    i: int,
) -> bool {
    &&& 0 <= i < n
    &&& outcomes[i] is Ok
    &&& forall|j: int| 0 <= j < i ==> outcomes[j] is Err
}

/// The backoff delay accrued before attempt `k` runs: the sum of the
/// delays slept after each of the first `k` failed attempts.
pub open spec fn total_backoff(policy: RetryPolicy, k: int) -> int
    decreases k,
{
    if k <= 0 {
        0
    } else {
        total_backoff(policy, k - 1) + policy.spec_next_delay((k - 1) as u32)
    }
}

/// What a run of the retry loop did: the surfaced result, how many
/// attempts ran, and how much backoff delay accrued.
pub struct SendPlan {
    pub result: Result<String, HydraError>,
    pub attempts_used: usize,
    pub total_delay_ms: u128,
}

/// A copy of an attempt outcome, equal to the original.
fn duplicate_outcome(o: &Result<String, HydraError>) -> (r: Result<String, HydraError>)
    ensures
        r == *o,
{
    match o {
        Ok(s) => Ok(s.clone()),
        Err(e) => Err(e.duplicate()),
    }
}

/// Replay the retry loop over a given sequence of attempt outcomes:
/// the first success within the attempt budget is returned with the
/// backoff accrued before it; if every attempt fails, the last error is
/// surfaced after the full budget.
pub fn send_plan(policy: &RetryPolicy, outcomes: &Vec<Result<String, HydraError>>) -> (r: SendPlan)
    requires
        outcomes@.len() >= policy.max_attempts,
    ensures
        policy.max_attempts == 0 ==> r.result is Err && r.attempts_used == 0 && r.total_delay_ms
            == 0,
        forall|i: int|
            is_first_success(outcomes@, policy.max_attempts as int, i) ==> r.result
                == outcomes@[i] && r.attempts_used == i + 1 && r.total_delay_ms == total_backoff(
                *policy,
                i,
            ),
        (policy.max_attempts > 0 && (forall|j: int|
            0 <= j < policy.max_attempts ==> outcomes@[j] is Err)) ==> r.result
            == outcomes@[policy.max_attempts - 1] && r.attempts_used == policy.max_attempts
            && r.total_delay_ms == total_backoff(*policy, policy.max_attempts as int - 1),
{
    let n_u32 = policy.max_attempts;
    let n: usize = n_u32 as usize;
    if n == 0 {
        return SendPlan {
            result: Err(HydraError::Execution("no attempts made".to_owned())),
            attempts_used: 0,
            total_delay_ms: 0,
        };
    }
    let mut total: u128 = 0;
    let mut attempt: usize = 0;
    while attempt < n
        invariant
            0 <= attempt <= n,
            n == policy.max_attempts,
            n >= 1,
            outcomes@.len() >= n,
            forall|j: int| 0 <= j < attempt ==> outcomes@[j] is Err,
            total == total_backoff(*policy, min(attempt as int, n as int - 1)),
            total <= (attempt as int) * (policy.max_delay_ms as int),
        decreases n - attempt,
    {
        let is_ok = match &outcomes[attempt] {
            Ok(_) => true,
            Err(_) => false,
        };
        if is_ok {
            let out = duplicate_outcome(&outcomes[attempt]);
            proof {
                assert forall|i: int|
                    is_first_success(outcomes@, n as int, i) implies i == attempt as int by {
                    if i < attempt as int {
                        assert(outcomes@[i] is Err);
                    } else if i > attempt as int {
                        assert(outcomes@[attempt as int] is Err);
                    }
                }
            }
            return SendPlan { result: out, attempts_used: attempt + 1, total_delay_ms: total };
        }
        if attempt + 1 < n {
            let delay = policy.next_delay(attempt as u32);
            proof {
                assert(delay <= policy.max_delay_ms);
                assert(total as int + delay as int <= (attempt as int + 1) * (
                policy.max_delay_ms as int)) by (nonlinear_arith)
                    requires
                        total as int <= (attempt as int) * (policy.max_delay_ms as int),
                        delay as int <= policy.max_delay_ms as int,
                        0 <= attempt as int,
                        0 <= policy.max_delay_ms as int,
                ;
                assert((attempt as int + 1) * (policy.max_delay_ms as int) <= 0x1_0000_0000int
                    * 0xFFFF_FFFF_FFFF_FFFFint) by (nonlinear_arith)
                    requires
                        0 <= attempt as int + 1 <= 0x1_0000_0000int,
                        0 <= policy.max_delay_ms as int <= 0xFFFF_FFFF_FFFF_FFFFint,
                ;
            }
            total = total + delay as u128;
        } else {
            proof {
                assert(total as int <= (attempt as int + 1) * (policy.max_delay_ms as int))
                    by (nonlinear_arith)
                    requires
                        total as int <= (attempt as int) * (policy.max_delay_ms as int),
                        0 <= policy.max_delay_ms as int,
                        0 <= attempt as int,
                ;
            }
        }
        attempt = attempt + 1;
    }
    let out = duplicate_outcome(&outcomes[n - 1]);
    SendPlan { result: out, attempts_used: n, total_delay_ms: total }
}

/// Stubbed QUIC transaction client with fee enforcement and a retry
/// budget.
pub struct JetTpuClient {
    pub endpoint: String,
    pub fee_calculator: FeeCalculator,
    pub retry_policy: RetryPolicy,
}

impl JetTpuClient {
    pub fn new(endpoint: String, fee_calculator: FeeCalculator, retry_policy: RetryPolicy) -> (c:
        Self)
        ensures
            c.endpoint == endpoint,
            c.fee_calculator == fee_calculator,
            c.retry_policy == retry_policy,
    {
        JetTpuClient { endpoint, fee_calculator, retry_policy }
    }

    /// One submission attempt.  The transport is stubbed: it accepts
    /// the payload and returns a placeholder signature.
    fn try_send(&self, tx_data: &Vec<u8>, priority_fee: u64) -> (r: Result<String, HydraError>)
        ensures
            r matches Ok(s) && s@ == "stub_signature_placeholder"@,
    {
        Ok("stub_signature_placeholder".to_owned())
    }

    /// Send a transaction under the fee cap with the retry budget: the
    /// computed fee can never exceed the cap, and with at least one
    /// attempt allowed the stubbed transport succeeds.
    pub fn send_transaction(&self, tx_data: &Vec<u8>) -> (r: Result<String, HydraError>)
        ensures
            self.retry_policy.max_attempts == 0 ==> r is Err,
            self.retry_policy.max_attempts >= 1 ==> (r matches Ok(s) && s@
                == "stub_signature_placeholder"@),
    {
        let priority_fee = match self.fee_calculator.compute_fee() {
            Ok(f) => f,
            Err(e) => {
                return Err(e);
            },
        };
        if priority_fee > MAX_PRIORITY_FEE_MICRO_LAMPORTS {
            return Err(HydraError::Execution("priority fee exceeds the maximum".to_owned()));
        }
        let mut last_err = HydraError::Execution("no attempts made".to_owned());
        let mut attempt: u32 = 0;
        while attempt < self.retry_policy.max_attempts
            invariant
                self.retry_policy.max_attempts >= 1 ==> attempt == 0,
            decreases self.retry_policy.max_attempts - attempt,
        {
            match self.try_send(tx_data, priority_fee) {
                Ok(sig) => {
                    return Ok(sig);
                },
                Err(e) => {
                    last_err = e;
                },
            }
            attempt = attempt + 1;
        }
        Err(last_err)
    }
}

} // verus!
