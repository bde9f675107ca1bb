use hydra::analyzer::AiAnalysis;
use hydra::filter::SignalFilter;
use hydra::filters::{McapFilter, RugCheckFilter, ZScoreFilter};
use hydra::scorer::RiskScorer;
use hydra::tpsl::TpSlCalculator;
use hydra::types::{MintSignal, Signal, SignalType, TokenAddress, TokenInfo};

#[test]
fn test_filter_by_confidence() {
    let token = TokenAddress::new("TestToken11111111111111111111111111111111111");
    let signals = vec![
        Signal::new(token.clone(), SignalType::Buy, 900_000),
        Signal::new(token.clone(), SignalType::Buy, 400_000),
        Signal::new(token.clone(), SignalType::Buy, 750_000),
    ];
    let filter = SignalFilter::new(700_000, vec![SignalType::Buy]);
    let result = filter.apply(signals);
    assert_eq!(result.len(), 2);
    for s in &result {
        assert!(s.confidence_ppm >= 700_000);
    }
}

#[test]
fn test_filter_by_type() {
    let token = TokenAddress::new("TestToken11111111111111111111111111111111111");
    let signals = vec![
        Signal::new(token.clone(), SignalType::Buy, 900_000),
        Signal::new(token.clone(), SignalType::Sell, 900_000),
        Signal::new(token.clone(), SignalType::Hold, 900_000),
    ];
    let filter = SignalFilter::new(0, vec![SignalType::Buy]);
    let result = filter.apply(signals);
    assert_eq!(result.len(), 1);
    assert_eq!(result[0].signal_type, SignalType::Buy);
}

#[test]
fn test_filter_empty_allowed_types_drops_all() {
    let token = TokenAddress::new("T");
    let signals = vec![Signal::new(token, SignalType::Buy, 900_000)];
    let filter = SignalFilter::new(0, vec![]);
    assert!(filter.apply(signals).is_empty());
}

fn make_signal(
    mcap: u64,
    volume: u64,
    liquidity: u64,
    top_holder_ppm: u64,
    holders: u64,
) -> MintSignal {
    MintSignal::new(
        "test_mint".to_string(),
        mcap,
        volume,
        1000,
        holders,
        liquidity,
        top_holder_ppm,
    )
}

#[test]
fn test_mcap_filter_passes() {
    let f = McapFilter::new(1_000, 100_000);
    assert!(f.passes(&make_signal(50_000, 0, 0, 0, 0)));
}

#[test]
fn test_mcap_filter_rejects_below() {
    let f = McapFilter::new(1_000, 100_000);
    assert!(!f.passes(&make_signal(500, 0, 0, 0, 0)));
}

#[test]
fn test_mcap_filter_rejects_above() {
    let f = McapFilter::new(1_000, 100_000);
    assert!(!f.passes(&make_signal(200_000, 0, 0, 0, 0)));
}

#[test]
fn test_zscore_filter_passes() {
    // mean=1000, std=500, threshold=1.0 → z=(1600-1000)/500=1.2 ≥ 1.0
    let f = ZScoreFilter::new(1_000, 500, 1_000_000);
    assert!(f.passes(&make_signal(0, 1_600, 0, 0, 0)));
}

#[test]
fn test_zscore_filter_rejects() {
    // mean=1000, std=500, threshold=2.0 → z=(1200-1000)/500=0.4 < 2.0
    let f = ZScoreFilter::new(1_000, 500, 2_000_000);
    assert!(!f.passes(&make_signal(0, 1_200, 0, 0, 0)));
}

#[test]
fn test_zscore_zero_std_dev() {
    let f = ZScoreFilter::new(1_000, 0, 0);
    assert_eq!(f.z_score_ppm(9_999), 0);
}

#[test]
fn test_zscore_value_below_mean() {
    // z = (500 - 1000) / 500 = -1.0
    let f = ZScoreFilter::new(1_000, 500, 0);
    assert_eq!(f.z_score_ppm(500), -1_000_000);
    assert!(!f.passes(&make_signal(0, 500, 0, 0, 0)));
}

#[test]
fn test_rug_check_passes() {
    let f = RugCheckFilter::new(5_000, 300_000, 100);
    let s = make_signal(0, 0, 10_000, 200_000, 200);
    assert!(f.passes(&s).unwrap());
}

#[test]
fn test_rug_check_low_liquidity() {
    let f = RugCheckFilter::new(5_000, 300_000, 100);
    let s = make_signal(0, 0, 100, 100_000, 200);
    assert!(!f.passes(&s).unwrap());
}

#[test]
fn test_rug_check_high_top_holder() {
    let f = RugCheckFilter::new(1_000, 300_000, 100);
    let s = make_signal(0, 0, 5_000, 900_000, 200);
    assert!(!f.passes(&s).unwrap());
}

#[test]
fn test_rug_check_too_few_holders() {
    let f = RugCheckFilter::new(1_000, 500_000, 100);
    let s = make_signal(0, 0, 5_000, 200_000, 10);
    assert!(!f.passes(&s).unwrap());
}

fn make_token(addr: &str) -> TokenInfo {
    TokenInfo {
        address: TokenAddress::new(addr),
        symbol: "TEST".to_string(),
        name: "Test Token".to_string(),
        decimals: 9,
        liquidity_usd: 500_000,
        price_usd_micro: 1000,
        volume_24h_usd: 100_000,
        market_cap_usd: 1_000_000,
    }
}

#[test]
fn test_risk_scorer_with_ai() {
    let addr = TokenAddress::new("TestToken11111111111111111111111111111111111");
    let signal = Signal::new(addr.clone(), SignalType::Buy, 800_000);
    let token_info = make_token("TestToken11111111111111111111111111111111111");
    let ai = AiAnalysis {
        score_ppm: 900_000,
        action: "BUY".to_string(),
        reasoning: "Strong signal".to_string(),
    };
    let scorer = RiskScorer::new(10_000_000);
    let score = scorer.score(&signal, &token_info, Some(&ai));
    assert!(score > 0 && score <= 1_000_000);
}

#[test]
fn test_risk_scorer_no_ai_uses_rule_score() {
    let addr = TokenAddress::new("TestToken11111111111111111111111111111111111");
    let signal = Signal::new(addr.clone(), SignalType::Buy, 800_000);
    let token_info = make_token("TestToken11111111111111111111111111111111111");
    let scorer = RiskScorer::new(10_000_000);

    let score_no_ai = scorer.score(&signal, &token_info, None);
    let rule = scorer.rule_score(&signal, &token_info);
    // Without AI the composite equals the rule score exactly.
    assert_eq!(score_no_ai, rule);
}

#[test]
fn test_rule_score_exact_value() {
    // confidence 0.9, liquidity 500k → 0.5, mcap 1M/10M → score 0.9:
    // rule = 0.9*0.5 + 0.5*0.3 + 0.9*0.2 = 0.78
    let addr = TokenAddress::new("T");
    let signal = Signal::new(addr, SignalType::Buy, 900_000);
    let token_info = make_token("T");
    let scorer = RiskScorer::new(10_000_000);
    assert_eq!(scorer.rule_score(&signal, &token_info), 780_000);
}

#[test]
fn test_should_buy_above_threshold_no_ai() {
    let addr = TokenAddress::new("TestToken11111111111111111111111111111111111");
    // High confidence + good liquidity → rule_score > 0.6
    let signal = Signal::new(addr.clone(), SignalType::Buy, 900_000);
    let token_info = make_token("TestToken11111111111111111111111111111111111");
    let scorer = RiskScorer::new(10_000_000);
    assert!(scorer.should_buy(&signal, &token_info, None));
}

#[test]
fn test_should_not_buy_below_threshold_no_ai() {
    let addr = TokenAddress::new("TestToken11111111111111111111111111111111111");
    // Very low confidence → rule_score ≤ 0.6
    let signal = Signal::new(addr.clone(), SignalType::Buy, 100_000);
    let token_info = TokenInfo {
        address: addr,
        symbol: "WEAK".to_string(),
        name: "Weak Token".to_string(),
        decimals: 9,
        liquidity_usd: 1_000,
        price_usd_micro: 100,
        volume_24h_usd: 100,
        market_cap_usd: 9_000_000,
    };
    let scorer = RiskScorer::new(10_000_000);
    assert!(!scorer.should_buy(&signal, &token_info, None));
}

#[test]
fn test_tpsl_zero_confidence() {
    let calc = TpSlCalculator::new(300_000, 200_000);
    let levels = calc.calculate(0);
    assert_eq!(levels.take_profit_ppm, 300_000);
    assert_eq!(levels.stop_loss_ppm, 200_000);
}

#[test]
fn test_tpsl_full_confidence() {
    let calc = TpSlCalculator::new(300_000, 200_000);
    let levels = calc.calculate(1_000_000);
    // tp = 0.30 * (1.0 + 1.0) = 0.60
    assert_eq!(levels.take_profit_ppm, 600_000);
    // sl = 0.20 * (1.0 - 0.5) = 0.10
    assert_eq!(levels.stop_loss_ppm, 100_000);
}

#[test]
fn test_tpsl_clamped_above_one() {
    let calc = TpSlCalculator::new(300_000, 200_000);
    let levels_clamped = calc.calculate(2_000_000);
    let levels_one = calc.calculate(1_000_000);
    assert_eq!(levels_clamped.take_profit_ppm, levels_one.take_profit_ppm);
}

#[test]
fn test_tpsl_default_params() {
    let calc = TpSlCalculator::default();
    let levels = calc.calculate(500_000);
    // tp = 0.5 * 1.5 = 0.75
    assert_eq!(levels.take_profit_ppm, 750_000);
    // sl = 0.1 * 0.75 = 0.075
    assert_eq!(levels.stop_loss_ppm, 75_000);
}
