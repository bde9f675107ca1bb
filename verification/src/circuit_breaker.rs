//! Three-state circuit breaker over failure counters.
//!
//! The state is never stored: it is recomputed from the failure counter
//! and the time of the last failure, so it survives a process restart
//! with only the counter values.  The time-dependent rules are verified
//! against an explicit clock reading (`*_at` methods); the plain methods
//! sample the real clock and state what holds of every reading.

use vstd::prelude::*;
use crate::clock::now_secs;
use crate::errors::HydraError;

verus! {

/// Derived admission state of the breaker.
#[derive(Debug, Clone, Copy, PartialEq, Eq, Structural)]
pub enum CircuitState {
    /// Failures are below the threshold; operations proceed.
    Closed,
    /// Failures reached the threshold and the recovery window has not
    /// elapsed; operations are blocked.
    Open,
    /// Failures reached the threshold but the recovery window elapsed;
    /// a probe is allowed.
    HalfOpen,
}

/// Failure-counting admission gate with time-based recovery.
pub struct CircuitBreaker {
    pub failure_count: u32,
    pub success_count: u32,
    pub last_failure_time: u64,
    pub failure_threshold: u32,
    pub recovery_secs: u64,
}

impl CircuitBreaker {
    /// Seconds since the last recorded failure, at clock reading `now`.
    /// A clock that moved backwards reads as no elapsed time.
    pub open spec fn spec_elapsed(self, now: u64) -> u64 {
        if now >= self.last_failure_time {
            (now - self.last_failure_time) as u64
        } else {
            0
        }
    }

    /// The admission state at clock reading `now`.
    pub open spec fn spec_state(self, now: u64) -> CircuitState {
        if self.failure_count < self.failure_threshold {
            CircuitState::Closed
        } else if self.spec_elapsed(now) >= self.recovery_secs {
            CircuitState::HalfOpen
        } else {
            CircuitState::Open
        }
    }

    pub fn new(failure_threshold: u32, recovery_secs: u64) -> (cb: Self)
        ensures
            cb.failure_count == 0,
            cb.success_count == 0,
            cb.last_failure_time == 0,
            cb.failure_threshold == failure_threshold,
            cb.recovery_secs == recovery_secs,
    {
        Self {
            failure_count: 0,
            success_count: 0,
            last_failure_time: 0,
            failure_threshold,
            recovery_secs,
        }
    }

    /// The admission state at an explicit clock reading.
    pub fn state_at(&self, now: u64) -> (r: CircuitState)
        ensures
            r == self.spec_state(now),
    {
        if self.failure_count < self.failure_threshold {
            return CircuitState::Closed;
        }
        let elapsed: u64 = if now >= self.last_failure_time {
            now - self.last_failure_time
        } else {
            0
        };
        if elapsed >= self.recovery_secs {
            CircuitState::HalfOpen
        } else {
            CircuitState::Open
        }
    }

    /// The admission state at the current clock reading.  The clock is
    /// sampled once; the clauses hold of every possible reading.
    pub fn state(&self) -> (r: CircuitState)
        ensures
            self.failure_count < self.failure_threshold ==> r == CircuitState::Closed,
            self.failure_count >= self.failure_threshold ==> r != CircuitState::Closed,
            self.failure_count >= self.failure_threshold && self.recovery_secs == 0
                ==> r == CircuitState::HalfOpen,
    {
        let now = now_secs();
        self.state_at(now)
    }

    /// Admission check at an explicit clock reading: blocked exactly in
    /// the Open state; Closed and Half-Open both permit an attempt.
    pub fn check_at(&self, now: u64) -> (r: Result<(), HydraError>)
        ensures
            r is Ok <==> self.spec_state(now) != CircuitState::Open,
            r matches Err(e) ==> e is CircuitBreaker,
    {
        match self.state_at(now) {
            CircuitState::Closed | CircuitState::HalfOpen => Ok(()),
            CircuitState::Open => Err(
                HydraError::CircuitBreaker("too many failures, circuit is open".to_owned()),
            ),
        }
    }

    /// Admission check at the current clock reading.
    pub fn check(&self) -> (r: Result<(), HydraError>)
        ensures
            self.failure_count < self.failure_threshold ==> r is Ok,
            self.failure_count >= self.failure_threshold && self.recovery_secs == 0 ==> r is Ok,
            r matches Err(e) ==> e is CircuitBreaker,
            r is Err ==> self.failure_count >= self.failure_threshold,
    {
        let now = now_secs();
        self.check_at(now)
    }

    /// Record a successful operation at an explicit clock reading: the
    /// failure counter is reset to zero only when the breaker is
    /// currently Half-Open (a successful probe); a success while Closed
    /// is informational only.
    pub fn record_success_at(&mut self, now: u64)
        ensures
            final(self).success_count == if old(self).success_count < u32::MAX {
                (old(self).success_count + 1) as u32
            } else {
                u32::MAX
            },
            final(self).failure_count == if old(self).spec_state(now) == CircuitState::HalfOpen {
                0u32
            } else {
                old(self).failure_count
            },
            final(self).last_failure_time == old(self).last_failure_time,
            final(self).failure_threshold == old(self).failure_threshold,
            final(self).recovery_secs == old(self).recovery_secs,
    {
        self.success_count = if self.success_count < u32::MAX {
            self.success_count + 1
        } else {
            u32::MAX
        };
        if self.state_at(now) == CircuitState::HalfOpen {
            self.failure_count = 0;
        }
    }

    /// Record a successful operation at the current clock reading.
    pub fn record_success(&mut self)
        ensures
            final(self).failure_count == old(self).failure_count
                || final(self).failure_count == 0,
            old(self).failure_count < old(self).failure_threshold
                ==> final(self).failure_count == old(self).failure_count,
            old(self).failure_count >= old(self).failure_threshold
                && old(self).recovery_secs == 0 ==> final(self).failure_count == 0,
            final(self).last_failure_time == old(self).last_failure_time,
            final(self).failure_threshold == old(self).failure_threshold,
            final(self).recovery_secs == old(self).recovery_secs,
    {
        let now = now_secs();
        self.record_success_at(now);
    }

    /// Record a failed operation at an explicit clock reading: the
    /// failure counter grows by one (saturating) and the failure time is
    /// stamped with `now`.
    pub fn record_failure_at(&mut self, now: u64)
        ensures
            *final(self) == spec_record_failure(*old(self), now),
            final(self).failure_count == if old(self).failure_count < u32::MAX {
                (old(self).failure_count + 1) as u32
            } else {
                u32::MAX
            },
            final(self).last_failure_time == now,
            final(self).success_count == old(self).success_count,
            final(self).failure_threshold == old(self).failure_threshold,
            final(self).recovery_secs == old(self).recovery_secs,
    {
        self.failure_count = if self.failure_count < u32::MAX {
            self.failure_count + 1
        } else {
            u32::MAX
        };
        self.last_failure_time = now;
    }

    /// Record a failed operation at the current clock reading.
    pub fn record_failure(&mut self)
        ensures
            final(self).failure_count == if old(self).failure_count < u32::MAX {
                (old(self).failure_count + 1) as u32
            } else {
                u32::MAX
            },
            final(self).success_count == old(self).success_count,
            final(self).failure_threshold == old(self).failure_threshold,
            final(self).recovery_secs == old(self).recovery_secs,
    {
        let now = now_secs();
        self.record_failure_at(now);
    }

    /// The current failure counter.
    pub fn failure_count(&self) -> (r: u32)
        ensures
            r == self.failure_count,
    {
        self.failure_count
    }
}

/// The state transition of one recorded failure: the counter grows by
/// one (saturating) and the failure time is stamped.
pub open spec fn spec_record_failure(cb: CircuitBreaker, now: u64) -> CircuitBreaker {
    CircuitBreaker {
        failure_count: if cb.failure_count < u32::MAX {
            (cb.failure_count + 1) as u32
        } else {
            u32::MAX
        },
        last_failure_time: now,
        ..cb
    }
}

/// The breaker after a sequence of recorded failures, one at each
/// clock reading of `times`, in order.
pub open spec fn after_failures(cb: CircuitBreaker, times: Seq<u64>) -> CircuitBreaker
    decreases times.len(),
{
    if times.len() == 0 {
        cb
    } else {
        spec_record_failure(after_failures(cb, times.drop_last()), times.last())
    }
}

/// For every sequence of recorded failures starting from a clean
/// breaker: the failure counter counts them, the last failure time is
/// the last recording, and the breaker stops admitting traffic
/// unconditionally exactly when their number reaches the threshold.
pub proof fn lemma_failure_sequence_trips(cb: CircuitBreaker, times: Seq<u64>, now: u64)
    requires
        cb.failure_count == 0,
        times.len() < u32::MAX,
    ensures
        after_failures(cb, times).failure_count == times.len(),
        after_failures(cb, times).failure_threshold == cb.failure_threshold,
        after_failures(cb, times).recovery_secs == cb.recovery_secs,
        times.len() > 0 ==> after_failures(cb, times).last_failure_time == times.last(),
        after_failures(cb, times).spec_state(now) == CircuitState::Closed <==> times.len()
            < cb.failure_threshold,
    decreases times.len(),
{
    if times.len() > 0 {
        lemma_failure_sequence_trips(cb, times.drop_last(), now);
    }
}

/// The breaker blocks traffic exactly when the failure counter has
/// reached the threshold and the recovery window has not yet elapsed
/// since the last failure; once it has elapsed, the breaker is Half-Open
/// and admits a probe.
pub proof fn lemma_breaker_admission(cb: CircuitBreaker, now: u64)
    ensures
        cb.spec_state(now) == CircuitState::Closed <==> cb.failure_count < cb.failure_threshold,
        cb.spec_state(now) == CircuitState::Open <==> cb.failure_count >= cb.failure_threshold
            && cb.spec_elapsed(now) < cb.recovery_secs,
        cb.spec_state(now) == CircuitState::HalfOpen <==> cb.failure_count
            >= cb.failure_threshold && cb.spec_elapsed(now) >= cb.recovery_secs,
{
}

} // verus!
