//! Turning raw token facts into signals.
//!
//! The pipeline's rules: a token below the liquidity floor yields no
//! signal; otherwise a confidence score is computed from liquidity and
//! volume, and its level picks Buy, Sell or Hold.  Fetching tokens
//! from a live source is I/O and lives outside the verified core.

use vstd::prelude::*;
use crate::types::{Signal, SignalType, TokenInfo};

verus! {

/// Signal-generation rules, parameterized by the liquidity floor.
pub struct SignalPipeline {
    pub min_liquidity_usd: u64,
}

impl SignalPipeline {
    /// The confidence in ppm: the mean of a liquidity score (full
    /// marks at 1 000 000 USD) and a volume score (volume relative to
    /// liquidity, capped at 1).
    pub open spec fn spec_confidence(token: TokenInfo) -> int {
        let liquidity_score = if token.liquidity_usd > 1_000_000 {
            1_000_000
        } else {
            token.liquidity_usd as int
        };
        let volume_score = if token.liquidity_usd == 0 {
            0
        } else {
            let ratio = (token.volume_24h_usd * 1_000_000) / (token.liquidity_usd as int);
            if ratio > 1_000_000 {
                1_000_000
            } else {
                ratio
            }
        };
        (liquidity_score + volume_score) / 2
    }

    /// The signal type for a confidence level: Buy above 0.7, Sell
    /// below 0.3, Hold in between.
    pub open spec fn spec_signal_type(confidence_ppm: int) -> SignalType {
        if confidence_ppm > 700_000 {
            SignalType::Buy
        } else if confidence_ppm < 300_000 {
            SignalType::Sell
        } else {
            SignalType::Hold
        }
    }

    pub fn new(min_liquidity_usd: u64) -> (p: Self)
        ensures
            p.min_liquidity_usd == min_liquidity_usd,
    {
        SignalPipeline { min_liquidity_usd }
    }

    /// The confidence score of a token, in ppm.
    pub fn calculate_confidence(&self, token: &TokenInfo) -> (r: u64)
        ensures
            r == Self::spec_confidence(*token),
            r <= 1_000_000,
    {
        let liquidity_score: u128 = if token.liquidity_usd > 1_000_000 {
            1_000_000
        } else {
            token.liquidity_usd as u128
        };
        let volume_score: u128 = if token.liquidity_usd == 0 {
            0
        } else {
            proof {
                assert((token.volume_24h_usd as int) * 1_000_000 <= (u64::MAX as int) * 1_000_000)
                    by (nonlinear_arith)
                    requires
                        0 <= token.volume_24h_usd as int <= u64::MAX as int,
                ;
            }
            let ratio: u128 = ((token.volume_24h_usd as u128) * 1_000_000) / (token.liquidity_usd
                as u128);
            if ratio > 1_000_000 {
                1_000_000
            } else {
                ratio
            }
        };
        ((liquidity_score + volume_score) / 2) as u64
    }

    /// Evaluate one token: below the liquidity floor, no signal;
    /// otherwise a signal whose confidence and type follow the rules.
    pub fn evaluate_token(&self, token: TokenInfo) -> (r: Option<Signal>)
        ensures
            r is Some <==> token.liquidity_usd >= self.min_liquidity_usd,
            r matches Some(s) ==> {
                &&& s.token == token.address
                &&& s.confidence_ppm == Self::spec_confidence(token)
                &&& s.signal_type == Self::spec_signal_type(Self::spec_confidence(token))
            },
    {
        if token.liquidity_usd < self.min_liquidity_usd {
            return None;
        }
        let confidence = self.calculate_confidence(&token);
        let signal_type = if confidence > 700_000 {
            SignalType::Buy
        } else if confidence < 300_000 {
            SignalType::Sell
        } else {
            SignalType::Hold
        };
        Some(Signal::new(token.address, signal_type, confidence))
    }
}

} // verus!
