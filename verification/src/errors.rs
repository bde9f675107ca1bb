//! Error taxonomy of the control plane.
//!
//! Admission denials and capacity errors are expected and non-fatal;
//! execution failures are surfaced to the caller; phase violations are
//! hard errors.  Every variant carries the values that explain it as
//! plain fields, so contracts can say exactly which error comes back on
//! which input.

use vstd::prelude::*;

verus! {

/// General error of the trading core.
#[derive(Debug, Clone)]
pub enum HydraError {
    /// A configuration value was rejected.
    Config(String),
    /// A network-facing collaborator failed.
    Network(String),
    /// The external analyzer failed or timed out.
    AiService(String),
    /// Order execution failed after the retry budget was spent.
    Execution(String),
    /// Admission was denied by a risk rule.
    RiskThreshold(String),
    /// Admission was denied because the circuit breaker is open.
    CircuitBreaker(String),
    /// A trade-lifecycle phase transition was invalid.
    Phase(String),
}

impl HydraError {
    /// The message the error carries.
    pub open spec fn spec_message(self) -> Seq<char> {
        match self {
            HydraError::Config(s) => s@,
            HydraError::Network(s) => s@,
            HydraError::AiService(s) => s@,
            HydraError::Execution(s) => s@,
            HydraError::RiskThreshold(s) => s@,
            HydraError::CircuitBreaker(s) => s@,
            HydraError::Phase(s) => s@,
        }
    }

    /// A copy of the carried message; stands in for display of the
    /// error.
    pub fn message(&self) -> (r: String)
        ensures
            r@ == self.spec_message(),
    {
        match self {
            HydraError::Config(s) => s.clone(),
            HydraError::Network(s) => s.clone(),
            HydraError::AiService(s) => s.clone(),
            HydraError::Execution(s) => s.clone(),
            HydraError::RiskThreshold(s) => s.clone(),
            HydraError::CircuitBreaker(s) => s.clone(),
            HydraError::Phase(s) => s.clone(),
        }
    }

    /// A copy equal to the original.
    pub fn duplicate(&self) -> (r: HydraError)
        ensures
            r == *self,
    {
        match self {
            HydraError::Config(s) => HydraError::Config(s.clone()),
            HydraError::Network(s) => HydraError::Network(s.clone()),
            HydraError::AiService(s) => HydraError::AiService(s.clone()),
            HydraError::Execution(s) => HydraError::Execution(s.clone()),
            HydraError::RiskThreshold(s) => HydraError::RiskThreshold(s.clone()),
            HydraError::CircuitBreaker(s) => HydraError::CircuitBreaker(s.clone()),
            HydraError::Phase(s) => HydraError::Phase(s.clone()),
        }
    }
}

/// Error of the risk components (breaker, daily ledger, registry).
#[derive(Debug, Clone)]
pub enum HydraRiskError {
    /// The consecutive-loss breaker has tripped.
    CircuitBreakerTripped { consecutive_losses: u32 },
    /// The daily realized loss reached the configured ceiling.
    DailyLossLimitReached { loss_lamports: i64, max_lamports: i64 },
    /// The registry already holds the configured maximum of open positions.
    MaxPositionsReached { max: usize },
    /// No position with the given identity is tracked.
    PositionNotFound { id: String },
}

/// Denial handed to callers of the outward risk-engine capability.
#[derive(Debug, Clone)]
pub struct RiskDenied {
    pub reason: String,
}

} // verus!
