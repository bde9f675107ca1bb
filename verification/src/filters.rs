//! Rule-based filters over raw mint signals.
//!
//! Market-cap band, volume z-score, and rug-pull heuristics.  All
//! comparisons are exact integer comparisons; the z-score test is the
//! exact rational comparison `(value - mean) / std_dev >= threshold`,
//! written without division.

use vstd::prelude::*;
use crate::errors::HydraError;
use crate::types::MintSignal;

verus! {

/// Accepts signals whose market cap lies in a closed band.
pub struct McapFilter {
    pub min_usd: u64,
    pub max_usd: u64,
}

impl McapFilter {
    pub fn new(min_usd: u64, max_usd: u64) -> (f: Self)
        ensures
            f.min_usd == min_usd,
            f.max_usd == max_usd,
    {
        McapFilter { min_usd, max_usd }
    }

    /// Accepts exactly the signals with
    /// `min_usd <= market_cap_usd <= max_usd`.
    pub fn passes(&self, signal: &MintSignal) -> (r: bool)
        ensures
            r == (self.min_usd <= signal.market_cap_usd <= self.max_usd),
    {
        signal.market_cap_usd >= self.min_usd && signal.market_cap_usd <= self.max_usd
    }
}

/// Accepts signals whose 24-hour volume is at least `threshold_ppm`
/// standard deviations above the mean.
pub struct ZScoreFilter {
    pub mean: u64,
    pub std_dev: u64,
    pub threshold_ppm: i64,
}

impl ZScoreFilter {
    /// The z-score of a value in ppm, rounded toward zero; zero when
    /// the deviation is zero.
    pub open spec fn spec_z_score_ppm(self, value: u64) -> int {
        if self.std_dev == 0 {
            0
        } else if value >= self.mean {
            ((value - self.mean) * 1_000_000) / (self.std_dev as int)
        } else {
            -(((self.mean - value) * 1_000_000) / (self.std_dev as int))
        }
    }

    /// Whether the value passes: the exact rational comparison
    /// `(value - mean) * 1_000_000 >= threshold_ppm * std_dev`, with a
    /// zero deviation read as a zero z-score.
    pub open spec fn spec_passes(self, value: u64) -> bool {
        if self.std_dev == 0 {
            0 >= self.threshold_ppm
        } else {
            (value - self.mean) * 1_000_000 >= self.threshold_ppm * self.std_dev
        }
    }

    pub fn new(mean: u64, std_dev: u64, threshold_ppm: i64) -> (f: Self)
        ensures
            f.mean == mean,
            f.std_dev == std_dev,
            f.threshold_ppm == threshold_ppm,
    {
        ZScoreFilter { mean, std_dev, threshold_ppm }
    }

    /// The z-score of a value, in ppm.
    pub fn z_score_ppm(&self, value: u64) -> (r: i128)
        ensures
            r == self.spec_z_score_ppm(value),
    {
        if self.std_dev == 0 {
            return 0;
        }
        if value >= self.mean {
            let diff: u128 = (value - self.mean) as u128;
            ((diff * 1_000_000) / (self.std_dev as u128)) as i128
        } else {
            let diff: u128 = (self.mean - value) as u128;
            -(((diff * 1_000_000) / (self.std_dev as u128)) as i128)
        }
    }

    /// Accepts exactly the signals whose volume z-score reaches the
    /// threshold.
    pub fn passes(&self, signal: &MintSignal) -> (r: bool)
        ensures
            r == self.spec_passes(signal.volume_24h_usd),
    {
        if self.std_dev == 0 {
            return 0 >= self.threshold_ppm;
        }
        let value = signal.volume_24h_usd;
        let lhs: i128 = (value as i128 - self.mean as i128) * 1_000_000;
        proof {
            assert((self.threshold_ppm as int) * (self.std_dev as int) <= (i64::MAX as int) * (
            u64::MAX as int)) by (nonlinear_arith)
                requires
                    self.threshold_ppm as int <= i64::MAX as int,
                    0 <= self.std_dev as int <= u64::MAX as int,
            ;
            assert((self.threshold_ppm as int) * (self.std_dev as int) >= (i64::MIN as int) * (
            u64::MAX as int)) by (nonlinear_arith)
                requires
                    self.threshold_ppm as int >= i64::MIN as int,
                    0 <= self.std_dev as int <= u64::MAX as int,
            ;
        }
        let rhs: i128 = (self.threshold_ppm as i128) * (self.std_dev as i128);
        lhs >= rhs
    }
}

/// Rug-pull heuristics: liquidity floor, top-holder concentration
/// ceiling, holder-count floor.
pub struct RugCheckFilter {
    pub min_liquidity_usd: u64,
    pub max_top_holder_ppm: u64,
    pub min_holder_count: u64,
}

impl RugCheckFilter {
    /// Whether a signal passes all three heuristics.
    pub open spec fn spec_passes(self, s: MintSignal) -> bool {
        &&& s.liquidity_usd >= self.min_liquidity_usd
        &&& s.top_holder_ppm <= self.max_top_holder_ppm
        &&& s.holder_count >= self.min_holder_count
    }

    pub fn new(min_liquidity_usd: u64, max_top_holder_ppm: u64, min_holder_count: u64) -> (f: Self)
        ensures
            f.min_liquidity_usd == min_liquidity_usd,
            f.max_top_holder_ppm == max_top_holder_ppm,
            f.min_holder_count == min_holder_count,
    {
        RugCheckFilter { min_liquidity_usd, max_top_holder_ppm, min_holder_count }
    }

    /// Accepts exactly the signals with enough liquidity, low enough
    /// top-holder concentration, and enough holders; never fails.
    pub fn passes(&self, signal: &MintSignal) -> (r: Result<bool, HydraError>)
        ensures
            r matches Ok(b) && b == self.spec_passes(*signal),
    {
        if signal.liquidity_usd < self.min_liquidity_usd {
            return Ok(false);
        }
        if signal.top_holder_ppm > self.max_top_holder_ppm {
            return Ok(false);
        }
        if signal.holder_count < self.min_holder_count {
            return Ok(false);
        }
        Ok(true)
    }
}

} // verus!
