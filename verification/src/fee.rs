//! Priority-fee computation with a hard cap.
//!
//! The fee is a base fee scaled by a volatility multiplier (in
//! hundredths), clamped to [`MAX_PRIORITY_FEE_MICRO_LAMPORTS`] so that
//! no composition of engine parts can bid more than the cap.

use vstd::prelude::*;
use crate::errors::HydraError;

verus! {

/// Hard ceiling on the priority fee, in micro-lamports.
pub const MAX_PRIORITY_FEE_MICRO_LAMPORTS: u64 = 1_000_000;

/// Computes the capped priority fee.
pub struct FeeCalculator {
    pub base_fee: u64,
    pub p75_multiplier_centi: u64,
}

impl FeeCalculator {
    /// The uncapped fee: the base fee scaled by the multiplier (which
    /// is in hundredths), rounded down.
    pub open spec fn spec_raw_fee(self) -> int {
        (self.base_fee * self.p75_multiplier_centi) / 100
    }

    /// The fee actually bid: the raw fee clamped to the cap.
    pub open spec fn spec_fee(self) -> int {
        if self.spec_raw_fee() > MAX_PRIORITY_FEE_MICRO_LAMPORTS as int {
            MAX_PRIORITY_FEE_MICRO_LAMPORTS as int
        } else {
            self.spec_raw_fee()
        }
    }

    pub fn new(base_fee: u64, p75_multiplier_centi: u64) -> (f: Self)
        ensures
            f.base_fee == base_fee,
            f.p75_multiplier_centi == p75_multiplier_centi,
    {
        FeeCalculator { base_fee, p75_multiplier_centi }
    }

    /// Compute the priority fee, capped at
    /// [`MAX_PRIORITY_FEE_MICRO_LAMPORTS`]; never fails.
    pub fn compute_fee(&self) -> (r: Result<u64, HydraError>)
        ensures
            r matches Ok(fee) && fee == self.spec_fee(),
            self.spec_fee() <= MAX_PRIORITY_FEE_MICRO_LAMPORTS,
    {
        proof {
            assert((self.base_fee as int) * (self.p75_multiplier_centi as int) <= (u64::MAX
                as int) * (u64::MAX as int)) by (nonlinear_arith)
                requires
                    0 <= self.base_fee as int <= u64::MAX as int,
                    0 <= self.p75_multiplier_centi as int <= u64::MAX as int,
            ;
        }
        let raw: u128 = (self.base_fee as u128) * (self.p75_multiplier_centi as u128) / 100;
        let capped: u64 = if raw > MAX_PRIORITY_FEE_MICRO_LAMPORTS as u128 {
            MAX_PRIORITY_FEE_MICRO_LAMPORTS
        } else {
            raw as u64
        };
        Ok(capped)
    }
}

impl Default for FeeCalculator {
    /// The stock calculator: 1000 micro-lamports base, 1.75 multiplier.
    fn default() -> (f: Self)
        ensures
            f.base_fee == 1000,
            f.p75_multiplier_centi == 175,
    {
        FeeCalculator::new(1000, 175)
    }
}

} // verus!
