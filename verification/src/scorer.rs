//! Composite risk scoring of a signal against market facts.
//!
//! The rule-based score blends signal confidence (50 %), a liquidity
//! score (30 %) and a market-cap score (20 %).  When the AI analyzer
//! answered, its score is blended in at 40 %; when it did not (a
//! timeout or error), the rule score alone decides, and a buy is
//! recommended above [`RULE_BUY_THRESHOLD_PPM`].

use vstd::prelude::*;
use crate::analyzer::AiAnalysis;
use crate::types::{Signal, TokenInfo};

verus! {

/// Composite score above which a buy is recommended, in ppm.
pub const RULE_BUY_THRESHOLD_PPM: u64 = 600_000;

/// Blends rule-based and AI scores for one signal.
pub struct RiskScorer {
    pub max_market_cap_usd: u64,
}

impl RiskScorer {
    /// The liquidity score in ppm: full marks at 1 000 000 USD.
    pub open spec fn spec_liquidity_score(token: TokenInfo) -> int {
        if token.liquidity_usd > 1_000_000 {
            1_000_000
        } else {
            token.liquidity_usd as int
        }
    }

    /// The market-cap score in ppm: the smaller the cap relative to
    /// the configured maximum, the higher the score; a zero cap scores
    /// the neutral 0.5, and a zero configured maximum scores 0.
    pub open spec fn spec_market_cap_score(self, token: TokenInfo) -> int {
        if token.market_cap_usd == 0 {
            500_000
        } else if self.max_market_cap_usd == 0 {
            0
        } else {
            let ratio_ppm = (token.market_cap_usd * 1_000_000) / (self.max_market_cap_usd as int);
            if ratio_ppm > 1_000_000 {
                0
            } else {
                1_000_000 - ratio_ppm
            }
        }
    }

    /// The rule-based score in ppm: confidence 50 %, liquidity 30 %,
    /// market cap 20 %, clamped to [0, 1_000_000].
    pub open spec fn spec_rule_score(self, signal: Signal, token: TokenInfo) -> int {
        let blended = (signal.confidence_ppm * 5 + Self::spec_liquidity_score(token) * 3
            + self.spec_market_cap_score(token) * 2) / 10;
        if blended > 1_000_000 {
            1_000_000
        } else {
            blended
        }
    }

    /// The composite score in ppm: with an AI analysis, 60 % rule and
    /// 40 % AI, clamped to [0, 1_000_000]; without one, the rule score
    /// alone.
    pub open spec fn spec_score(self, signal: Signal, token: TokenInfo, ai: Option<
        AiAnalysis,
    >) -> int {
        match ai {
            Some(a) => {
                let blended = (self.spec_rule_score(signal, token) * 6 + a.score_ppm * 4) / 10;
                if blended > 1_000_000 {
                    1_000_000
                } else {
                    blended
                }
            },
            None => self.spec_rule_score(signal, token),
        }
    }

    pub fn new(max_market_cap_usd: u64) -> (s: Self)
        ensures
            s.max_market_cap_usd == max_market_cap_usd,
    {
        RiskScorer { max_market_cap_usd }
    }

    /// The rule-based score of a signal, in ppm.
    pub fn rule_score(&self, signal: &Signal, token_info: &TokenInfo) -> (r: u64)
        ensures
            r == self.spec_rule_score(*signal, *token_info),
            r <= 1_000_000,
    {
        let confidence: u128 = signal.confidence_ppm as u128;
        let liquidity: u128 = if token_info.liquidity_usd > 1_000_000 {
            1_000_000
        } else {
            token_info.liquidity_usd as u128
        };
        let mcap_score: u128 = if token_info.market_cap_usd == 0 {
            500_000
        } else if self.max_market_cap_usd == 0 {
            0
        } else {
            proof {
                assert((token_info.market_cap_usd as int) * 1_000_000 <= (u64::MAX as int)
                    * 1_000_000) by (nonlinear_arith)
                    requires
                        0 <= token_info.market_cap_usd as int <= u64::MAX as int,
                ;
            }
            let ratio_ppm: u128 = ((token_info.market_cap_usd as u128) * 1_000_000) / (
            self.max_market_cap_usd as u128);
            if ratio_ppm > 1_000_000 {
                0
            } else {
                1_000_000 - ratio_ppm
            }
        };
        let blended: u128 = (confidence * 5 + liquidity * 3 + mcap_score * 2) / 10;
        if blended > 1_000_000 {
            1_000_000
        } else {
            blended as u64
        }
    }

    /// The composite score of a signal, in ppm.
    pub fn score(&self, signal: &Signal, token_info: &TokenInfo, ai_analysis: Option<
        &AiAnalysis,
    >) -> (r: u64)
        ensures
            r == self.spec_score(
                *signal,
                *token_info,
                match ai_analysis {
                    Some(a) => Some(*a),
                    None => None,
                },
            ),
            r <= 1_000_000,
    {
        let rule = self.rule_score(signal, token_info);
        match ai_analysis {
            Some(ai) => {
                let blended: u128 = ((rule as u128) * 6 + (ai.score_ppm as u128) * 4) / 10;
                if blended > 1_000_000 {
                    1_000_000
                } else {
                    blended as u64
                }
            },
            None => rule,
        }
    }

    /// Whether the composite score recommends a buy: strictly above
    /// [`RULE_BUY_THRESHOLD_PPM`].
    pub fn should_buy(&self, signal: &Signal, token_info: &TokenInfo, ai_analysis: Option<
        &AiAnalysis,
    >) -> (r: bool)
        ensures
            r == (self.spec_score(
                *signal,
                *token_info,
                match ai_analysis {
                    Some(a) => Some(*a),
                    None => None,
                },
            ) > RULE_BUY_THRESHOLD_PPM),
    {
        let composite = self.score(signal, token_info, ai_analysis);
        composite > RULE_BUY_THRESHOLD_PPM
    }
}

} // verus!
