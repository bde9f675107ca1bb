//! Rolling-day realized-PnL ledger with a loss ceiling.
//!
//! PnL is carried in lamports.  The ledger remembers the calendar day
//! (as a UTC epoch-day number) it applies to; crossing a day boundary
//! resets the accumulator before any other work, so the ledger is
//! robust to a process restart in the middle of a day.

use vstd::prelude::*;
use crate::clock::{now_secs, epoch_day, spec_epoch_day};
use crate::errors::HydraRiskError;

verus! {

/// Daily realized-PnL accumulator with a loss ceiling in lamports.
pub struct DailyLimits {
    pub max_daily_loss_lamports: i64,
    pub realized_pnl_lamports: i64,
    pub day: u64,
}

impl DailyLimits {
    /// The accumulator value after the day-rollover check at clock
    /// reading `now`: zero if `now` falls in another calendar day than
    /// the stored one, otherwise unchanged.
    pub open spec fn spec_rolled_pnl(self, now: u64) -> i64 {
        if spec_epoch_day(now) != self.day {
            0i64
        } else {
            self.realized_pnl_lamports
        }
    }

    /// Whether the ledger, after rollover at `now`, is at or past the
    /// loss ceiling: the accumulated loss (negated PnL) has reached
    /// `max_daily_loss_lamports`.
    pub open spec fn spec_limit_reached(self, now: u64) -> bool {
        -(self.spec_rolled_pnl(now) as int) >= self.max_daily_loss_lamports as int
    }

    /// A fresh ledger for the day of an explicit clock reading.
    pub fn new_at(max_daily_loss_lamports: i64, now: u64) -> (dl: Self)
        ensures
            dl.max_daily_loss_lamports == max_daily_loss_lamports,
            dl.realized_pnl_lamports == 0,
            dl.day == spec_epoch_day(now),
    {
        Self {
            max_daily_loss_lamports,
            realized_pnl_lamports: 0,
            day: epoch_day(now),
        }
    }

    /// A fresh ledger for today.
    pub fn new(max_daily_loss_lamports: i64) -> (dl: Self)
        ensures
            dl.max_daily_loss_lamports == max_daily_loss_lamports,
            dl.realized_pnl_lamports == 0,
    {
        let now = now_secs();
        Self::new_at(max_daily_loss_lamports, now)
    }

    /// Zero the accumulator if `now` falls in a new calendar day.
    fn maybe_reset(&mut self, now: u64)
        ensures
            final(self).realized_pnl_lamports == old(self).spec_rolled_pnl(now),
            final(self).day == spec_epoch_day(now),
            final(self).max_daily_loss_lamports == old(self).max_daily_loss_lamports,
    {
        let today = epoch_day(now);
        if today != self.day {
            self.realized_pnl_lamports = 0;
            self.day = today;
        }
    }

    /// Add a signed PnL delta to the accumulator after the day-rollover
    /// check, saturating at the `i64` range.
    pub fn record_trade_pnl_at(&mut self, pnl_lamports: i64, now: u64)
        ensures
            final(self).realized_pnl_lamports == crate::daily_limits::sat_add_i64(
                old(self).spec_rolled_pnl(now) as int,
                pnl_lamports as int,
            ),
            final(self).day == spec_epoch_day(now),
            final(self).max_daily_loss_lamports == old(self).max_daily_loss_lamports,
    {
        self.maybe_reset(now);
        self.realized_pnl_lamports = match self.realized_pnl_lamports.checked_add(pnl_lamports) {
            Some(v) => v,
            None => if pnl_lamports > 0 {
                i64::MAX
            } else {
                i64::MIN
            },
        };
    }

    /// Add a signed PnL delta at the current clock reading.  The delta
    /// lands either on the previous accumulator value or, after a day
    /// rollover, on a zeroed one.
    pub fn record_trade_pnl(&mut self, pnl_lamports: i64)
        ensures
            final(self).realized_pnl_lamports == crate::daily_limits::sat_add_i64(
                old(self).realized_pnl_lamports as int,
                pnl_lamports as int,
            ) || final(self).realized_pnl_lamports == crate::daily_limits::sat_add_i64(
                0,
                pnl_lamports as int,
            ),
            final(self).max_daily_loss_lamports == old(self).max_daily_loss_lamports,
    {
        let now = now_secs();
        self.record_trade_pnl_at(pnl_lamports, now);
    }

    /// Loss-ceiling check at an explicit clock reading: after the
    /// day-rollover check, fails if and only if the accumulated loss
    /// `-realized_pnl` has reached the ceiling.
    pub fn check_at(&mut self, now: u64) -> (r: Result<(), HydraRiskError>)
        ensures
            final(self).realized_pnl_lamports == old(self).spec_rolled_pnl(now),
            final(self).day == spec_epoch_day(now),
            final(self).max_daily_loss_lamports == old(self).max_daily_loss_lamports,
            r is Ok <==> !old(self).spec_limit_reached(now),
            r matches Err(e) ==> e matches HydraRiskError::DailyLossLimitReached {
                loss_lamports,
                max_lamports,
            } && loss_lamports == crate::daily_limits::neg_clamped_i64(
                final(self).realized_pnl_lamports,
            ) && max_lamports == old(self).max_daily_loss_lamports,
    {
        self.maybe_reset(now);
        let pnl = self.realized_pnl_lamports;
        let limit_reached = -(pnl as i128) >= self.max_daily_loss_lamports as i128;
        if limit_reached {
            let loss: i64 = if pnl == i64::MIN {
                i64::MAX
            } else {
                -pnl
            };
            return Err(HydraRiskError::DailyLossLimitReached {
                loss_lamports: loss,
                max_lamports: self.max_daily_loss_lamports,
            });
        }
        Ok(())
    }

    /// Loss-ceiling check at the current clock reading.
    pub fn check(&mut self) -> (r: Result<(), HydraRiskError>)
        ensures
            final(self).max_daily_loss_lamports == old(self).max_daily_loss_lamports,
            final(self).realized_pnl_lamports == old(self).realized_pnl_lamports
                || final(self).realized_pnl_lamports == 0,
            r is Ok <==> -(final(self).realized_pnl_lamports as int)
                < old(self).max_daily_loss_lamports as int,
            r matches Err(e) ==> e is DailyLossLimitReached,
    {
        let now = now_secs();
        self.check_at(now)
    }

    /// The accumulated PnL for today, after the day-rollover check at an
    /// explicit clock reading.
    pub fn daily_pnl_lamports_at(&mut self, now: u64) -> (r: i64)
        ensures
            r == old(self).spec_rolled_pnl(now),
            final(self).realized_pnl_lamports == r,
            final(self).day == spec_epoch_day(now),
            final(self).max_daily_loss_lamports == old(self).max_daily_loss_lamports,
    {
        self.maybe_reset(now);
        self.realized_pnl_lamports
    }

    /// The accumulated PnL for today at the current clock reading.
    pub fn daily_pnl_lamports(&mut self) -> (r: i64)
        ensures
            r == old(self).realized_pnl_lamports || r == 0,
            final(self).realized_pnl_lamports == r,
            final(self).max_daily_loss_lamports == old(self).max_daily_loss_lamports,
    {
        let now = now_secs();
        self.daily_pnl_lamports_at(now)
    }
}

/// Mathematical addition clamped to the `i64` range.
pub open spec fn sat_add_i64(a: int, b: int) -> i64 {
    if a + b > i64::MAX {
        i64::MAX
    } else if a + b < i64::MIN {
        i64::MIN
    } else {
        (a + b) as i64
    }
}

/// Mathematical negation clamped to the `i64` range.
pub open spec fn neg_clamped_i64(a: i64) -> i64 {
    if a == i64::MIN {
        i64::MAX
    } else {
        (-a) as i64
    }
}

/// The ledger fails its check exactly when the accumulated loss after
/// day rollover has reached the ceiling, and a rollover (a clock reading
/// in another calendar day than the stored one) discards the previous
/// accumulator value entirely.
pub proof fn lemma_daily_limit_rollover(dl: DailyLimits, now: u64)
    ensures
        spec_epoch_day(now) != dl.day ==> dl.spec_rolled_pnl(now) == 0,
        spec_epoch_day(now) == dl.day ==> dl.spec_rolled_pnl(now) == dl.realized_pnl_lamports,
        dl.spec_limit_reached(now) <==> -(dl.spec_rolled_pnl(now) as int)
            >= dl.max_daily_loss_lamports as int,
{
}

} // verus!
