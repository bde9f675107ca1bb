//! One admission contract over two interchangeable breaker policies.
//!
//! The time-based [`CircuitBreaker`](crate::circuit_breaker::CircuitBreaker)
//! recovers on its own after a window; the [`ConsecutiveLossBreaker`]
//! trips permanently once consecutive losses reach its threshold and
//! only an explicit `reset` clears it.  Both answer the same question —
//! is trading blocked right now? — behind the [`AdmissionGate`] trait,
//! so callers depend only on that contract.

use vstd::prelude::*;
use crate::circuit_breaker::{CircuitBreaker, CircuitState};
use crate::errors::HydraRiskError;

verus! {

/// The common admission contract of the breaker policies: `blocked`
/// says, for a clock reading, whether trading is halted, and the check
/// fails exactly then.
pub trait AdmissionGate {
    spec fn blocked(&self, now: u64) -> bool;

    fn check_admission(&self, now: u64) -> (r: Result<(), HydraRiskError>)
        ensures
            r is Ok <==> !self.blocked(now),
    ;
}

impl AdmissionGate for CircuitBreaker {
    /// The time-based breaker blocks exactly in the Open state.
    open spec fn blocked(&self, now: u64) -> bool {
        self.spec_state(now) == CircuitState::Open
    }

    fn check_admission(&self, now: u64) -> (r: Result<(), HydraRiskError>)
        ensures
            r is Ok <==> !self.blocked(now),
    {
        match self.state_at(now) {
            CircuitState::Closed | CircuitState::HalfOpen => Ok(()),
            CircuitState::Open => Err(
                HydraRiskError::CircuitBreakerTripped {
                    consecutive_losses: self.failure_count,
                },
            ),
        }
    }
}

/// The simpler breaker policy: it counts consecutive losses, has no
/// time-based recovery, and once tripped stays tripped until an
/// explicit [`reset`](Self::reset).
pub struct ConsecutiveLossBreaker {
    pub consecutive_losses: u32,
    pub max_consecutive_losses: u32,
}

impl ConsecutiveLossBreaker {
    /// Whether the breaker has tripped: consecutive losses reached the
    /// threshold.
    pub open spec fn spec_tripped(self) -> bool {
        self.consecutive_losses >= self.max_consecutive_losses
    }

    pub fn new(max_consecutive_losses: u32) -> (b: Self)
        ensures
            b.consecutive_losses == 0,
            b.max_consecutive_losses == max_consecutive_losses,
    {
        ConsecutiveLossBreaker { consecutive_losses: 0, max_consecutive_losses }
    }

    /// Count a loss (saturating).
    pub fn record_loss(&mut self)
        ensures
            final(self).consecutive_losses == if old(self).consecutive_losses < u32::MAX {
                (old(self).consecutive_losses + 1) as u32
            } else {
                u32::MAX
            },
            final(self).max_consecutive_losses == old(self).max_consecutive_losses,
    {
        self.consecutive_losses = if self.consecutive_losses < u32::MAX {
            self.consecutive_losses + 1
        } else {
            u32::MAX
        };
    }

    /// A win interrupts the loss streak — but only while the breaker
    /// has not tripped; a tripped breaker stays tripped until `reset`.
    pub fn record_win(&mut self)
        ensures
            final(self).consecutive_losses == if old(self).spec_tripped() {
                old(self).consecutive_losses
            } else {
                0u32
            },
            final(self).max_consecutive_losses == old(self).max_consecutive_losses,
    {
        if self.consecutive_losses < self.max_consecutive_losses {
            self.consecutive_losses = 0;
        }
    }

    /// Explicitly clear the breaker.
    pub fn reset(&mut self)
        ensures
            final(self).consecutive_losses == 0,
            final(self).max_consecutive_losses == old(self).max_consecutive_losses,
    {
        self.consecutive_losses = 0;
    }

    /// Whether the breaker has tripped.
    pub fn is_tripped(&self) -> (r: bool)
        ensures
            r == self.spec_tripped(),
    {
        self.consecutive_losses >= self.max_consecutive_losses
    }
}

impl AdmissionGate for ConsecutiveLossBreaker {
    /// The consecutive-loss breaker ignores the clock: it blocks
    /// exactly while tripped.
    open spec fn blocked(&self, now: u64) -> bool {
        self.spec_tripped()
    }

    fn check_admission(&self, now: u64) -> (r: Result<(), HydraRiskError>)
        ensures
            r is Ok <==> !self.blocked(now),
    {
        if self.consecutive_losses >= self.max_consecutive_losses {
            Err(HydraRiskError::CircuitBreakerTripped {
                consecutive_losses: self.consecutive_losses,
            })
        } else {
            Ok(())
        }
    }
}

} // verus!
