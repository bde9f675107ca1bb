//! Admission control for incoming signals.
//!
//! `check_signal` is the single choke point: a signal is rejected when
//! the daily loss ceiling is breached or its confidence is below the
//! configured threshold.  The position-capacity check is deliberately
//! *not* made here — it happens at the point of opening a position, so
//! the two limits are enforced at two different points of the pipeline.

use vstd::prelude::*;
use crate::config::RiskConfig;
use crate::errors::HydraError;
use crate::types::Signal;

verus! {

/// Signal-admission guard: confidence threshold plus a running
/// daily-loss counter in lamports.
pub struct RiskGuard {
    pub config: RiskConfig,
    pub daily_loss_lamports: u64,
}

impl RiskGuard {
    /// Whether the guard admits a signal with the given confidence.
    pub open spec fn spec_admits(self, confidence_ppm: u64) -> bool {
        self.daily_loss_lamports < self.config.max_daily_loss_lamports
            && confidence_ppm >= self.config.confidence_threshold_ppm
    }

    pub fn new(config: RiskConfig) -> (g: Self)
        ensures
            g.config == config,
            g.daily_loss_lamports == 0,
    {
        RiskGuard { config, daily_loss_lamports: 0 }
    }

    /// Admit or reject a signal: rejected exactly when the accumulated
    /// daily loss has reached the ceiling or the signal's confidence is
    /// below the threshold.
    pub fn check_signal(&self, signal: &Signal) -> (r: Result<(), HydraError>)
        ensures
            r is Ok <==> self.spec_admits(signal.confidence_ppm),
            r matches Err(e) ==> e is RiskThreshold,
    {
        if self.daily_loss_lamports >= self.config.max_daily_loss_lamports {
            return Err(HydraError::RiskThreshold("daily loss limit reached".to_owned()));
        }
        if signal.confidence_ppm < self.config.confidence_threshold_ppm {
            return Err(HydraError::RiskThreshold(
                "signal confidence below threshold".to_owned(),
            ));
        }
        Ok(())
    }

    /// Add a realized loss to the running daily counter (saturating).
    pub fn record_loss(&mut self, loss_lamports: u64)
        ensures
            final(self).daily_loss_lamports == if old(self).daily_loss_lamports
                + loss_lamports <= u64::MAX {
                (old(self).daily_loss_lamports + loss_lamports) as u64
            } else {
                u64::MAX
            },
            final(self).config == old(self).config,
    {
        self.daily_loss_lamports = self.daily_loss_lamports.saturating_add(loss_lamports);
    }

    /// The accumulated daily loss.
    pub fn daily_loss_lamports(&self) -> (r: u64)
        ensures
            r == self.daily_loss_lamports,
    {
        self.daily_loss_lamports
    }
}

} // verus!
