//! Take-profit / stop-loss levels from analyzer confidence.
//!
//! Higher confidence widens the take-profit and tightens the stop
//! loss: `tp = default_tp * (1 + c)` and `sl = default_sl * (1 - c/2)`
//! for a confidence `c` clamped to [0, 1].

use vstd::prelude::*;

verus! {

/// A pair of take-profit and stop-loss levels, in ppm of entry price.
#[derive(Debug, Clone, Copy, PartialEq, Eq, Structural)]
pub struct TpSlLevels {
    pub take_profit_ppm: u64,
    pub stop_loss_ppm: u64,
}

/// Derives TP/SL levels from a confidence score.
pub struct TpSlCalculator {
    pub default_tp_ppm: u64,
    pub default_sl_ppm: u64,
}

impl TpSlCalculator {
    /// The confidence clamped to [0, 1] (in ppm).
    pub open spec fn spec_clamped(ai_confidence_ppm: u64) -> int {
        if ai_confidence_ppm > 1_000_000 {
            1_000_000
        } else {
            ai_confidence_ppm as int
        }
    }

    /// The take-profit level: `default_tp * (1 + c)`, saturating at
    /// the `u64` range.
    pub open spec fn spec_take_profit(self, ai_confidence_ppm: u64) -> int {
        let raw = (self.default_tp_ppm * (1_000_000 + Self::spec_clamped(ai_confidence_ppm)))
            / 1_000_000;
        if raw > u64::MAX {
            u64::MAX as int
        } else {
            raw
        }
    }

    /// The stop-loss level: `default_sl * (1 - c/2)`.
    pub open spec fn spec_stop_loss(self, ai_confidence_ppm: u64) -> int {
        (self.default_sl_ppm * (1_000_000 - Self::spec_clamped(ai_confidence_ppm) / 2))
            / 1_000_000
    }

    pub fn new(default_tp_ppm: u64, default_sl_ppm: u64) -> (c: Self)
        ensures
            c.default_tp_ppm == default_tp_ppm,
            c.default_sl_ppm == default_sl_ppm,
    {
        TpSlCalculator { default_tp_ppm, default_sl_ppm }
    }

    /// The TP/SL levels for a confidence score: higher confidence,
    /// wider take-profit and tighter stop loss.
    pub fn calculate(&self, ai_confidence_ppm: u64) -> (r: TpSlLevels)
        ensures
            r.take_profit_ppm == self.spec_take_profit(ai_confidence_ppm),
            r.stop_loss_ppm == self.spec_stop_loss(ai_confidence_ppm),
    {
        let c: u64 = if ai_confidence_ppm > 1_000_000 {
            1_000_000
        } else {
            ai_confidence_ppm
        };
        proof {
            assert((self.default_tp_ppm as int) * (1_000_000 + c as int) <= (u64::MAX as int)
                * 2_000_000) by (nonlinear_arith)
                requires
                    0 <= self.default_tp_ppm as int <= u64::MAX as int,
                    0 <= c as int <= 1_000_000,
            ;
            assert((self.default_sl_ppm as int) * (1_000_000 - c as int / 2) <= (u64::MAX as int)
                * 1_000_000) by (nonlinear_arith)
                requires
                    0 <= self.default_sl_ppm as int <= u64::MAX as int,
                    0 <= c as int <= 1_000_000,
            ;
            assert(((self.default_sl_ppm as int) * (1_000_000 - c as int / 2)) / 1_000_000
                <= self.default_sl_ppm as int) by (nonlinear_arith)
                requires
                    0 <= self.default_sl_ppm as int,
                    0 <= c as int <= 1_000_000,
            ;
        }
        let tp_raw: u128 = ((self.default_tp_ppm as u128) * (1_000_000 + c as u128)) / 1_000_000;
        let tp: u64 = if tp_raw > u64::MAX as u128 {
            u64::MAX
        } else {
            tp_raw as u64
        };
        let sl: u64 = (((self.default_sl_ppm as u128) * (1_000_000 - (c as u128) / 2)) / 1_000_000)
            as u64;
        TpSlLevels { take_profit_ppm: tp, stop_loss_ppm: sl }
    }
}

impl Default for TpSlCalculator {
    /// The stock levels: 50 % take-profit, 10 % stop-loss.
    fn default() -> (c: Self)
        ensures
            c.default_tp_ppm == 500_000,
            c.default_sl_ppm == 100_000,
    {
        TpSlCalculator::new(500_000, 100_000)
    }
}

} // verus!
