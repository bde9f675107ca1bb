use hydra::analyzer::{json_object_span, AiScore};
use hydra::cache::ScoreCache;
use hydra::errors::HydraError;
use hydra::parser::PumpfunParser;
use hydra::pipeline::SignalPipeline;
use hydra::reconnect::StreamReconnect;
use hydra::types::{SignalType, TokenAddress, TokenInfo};

fn make_token(liquidity: u64, volume: u64) -> TokenInfo {
    TokenInfo {
        address: TokenAddress::new("TestToken11111111111111111111111111111111111"),
        symbol: "TEST".to_string(),
        name: "Test Token".to_string(),
        decimals: 9,
        liquidity_usd: liquidity,
        price_usd_micro: 1000,
        volume_24h_usd: volume,
        market_cap_usd: liquidity * 2,
    }
}

#[test]
fn test_pipeline_filters_low_liquidity() {
    let pipeline = SignalPipeline::new(50_000);
    let token = make_token(10_000, 5_000);
    assert!(pipeline.evaluate_token(token).is_none());
}

#[test]
fn test_pipeline_generates_signal() {
    let pipeline = SignalPipeline::new(50_000);
    let token = make_token(1_000_000, 900_000);
    let signal = pipeline.evaluate_token(token).unwrap();
    // liquidity score 1.0, volume score 0.9 → confidence 0.95 → Buy
    assert_eq!(signal.confidence_ppm, 950_000);
    assert_eq!(signal.signal_type, SignalType::Buy);
}

#[test]
fn test_pipeline_hold_and_sell_bands() {
    let pipeline = SignalPipeline::new(0);
    // liquidity 500k → 0.5, volume 0 → 0: confidence 0.25 → Sell
    let sell = pipeline.evaluate_token(make_token(500_000, 0)).unwrap();
    assert_eq!(sell.signal_type, SignalType::Sell);
    // liquidity 1M → 1.0, volume 0 → 0: confidence 0.5 → Hold
    let hold = pipeline.evaluate_token(make_token(1_000_000, 0)).unwrap();
    assert_eq!(hold.signal_type, SignalType::Hold);
}

#[test]
fn test_reconnect_backoff_and_reset() {
    let mut r = StreamReconnect::new(1000, 60_000);
    assert_eq!(r.next_backoff(), 1000);
    assert_eq!(r.next_backoff(), 2000);
    assert_eq!(r.next_backoff(), 4000);
    // ten doublings pass the 60 s ceiling
    for _ in 0..10 {
        r.next_backoff();
    }
    assert_eq!(r.next_backoff(), 60_000);
    r.reset();
    assert_eq!(r.next_backoff(), 1000);
}

#[test]
fn test_parser_from_fields_complete_event() {
    let parser = PumpfunParser::new();
    let signal = parser
        .from_fields(
            Some("Mint1111111111111111111111111111111111111111".to_string()),
            Some(250_000),
            Some(40_000),
            Some(1500),
            Some(320),
            Some(80_000),
            Some(120_000),
        )
        .unwrap();
    assert_eq!(signal.mint_address, "Mint1111111111111111111111111111111111111111");
    assert_eq!(signal.market_cap_usd, 250_000);
    assert_eq!(signal.volume_24h_usd, 40_000);
    assert_eq!(signal.price_usd_micro, 1500);
    assert_eq!(signal.holder_count, 320);
    assert_eq!(signal.liquidity_usd, 80_000);
    assert_eq!(signal.top_holder_ppm, 120_000);
}

#[test]
fn test_parser_missing_mint_rejected() {
    let parser = PumpfunParser::new();
    let result = parser.from_fields(None, Some(1), Some(2), Some(3), Some(4), Some(5), Some(6));
    assert!(matches!(result, Err(HydraError::Config(_))));
}

#[test]
fn test_parser_missing_numerics_default_to_zero() {
    let parser = PumpfunParser::new();
    let signal = parser
        .from_fields(Some("m".to_string()), None, None, None, None, None, None)
        .unwrap();
    assert_eq!(signal.market_cap_usd, 0);
    assert_eq!(signal.volume_24h_usd, 0);
    assert_eq!(signal.holder_count, 0);
}

#[test]
fn test_json_object_span_extracts_braced_region() {
    let text = "noise before {\"confidence\": 0.8} noise after";
    let bytes = text.as_bytes();
    let (start, end) = json_object_span(bytes).unwrap();
    assert_eq!(&text[start..end], "{\"confidence\": 0.8}");
}

#[test]
fn test_json_object_span_none_without_braces() {
    assert!(json_object_span(b"no json here").is_none());
    assert!(json_object_span(b"only open {").is_none());
    assert!(json_object_span(b"only close }").is_none());
    assert!(json_object_span(b"{}").is_some());
}

fn make_score(confidence_ppm: u64) -> AiScore {
    AiScore {
        confidence_ppm,
        reasoning: "looks strong".to_string(),
        should_buy: true,
    }
}

#[test]
fn test_cache_hit_within_ttl() {
    let mut cache = ScoreCache::new(300);
    cache.insert_at("mint_a".to_string(), make_score(820_000), 1000);
    let hit = cache.get_at("mint_a", 1200).unwrap();
    assert_eq!(hit.confidence_ppm, 820_000);
    assert!(hit.should_buy);
}

#[test]
fn test_cache_expires_after_ttl() {
    let mut cache = ScoreCache::new(300);
    cache.insert_at("mint_b".to_string(), make_score(700_000), 1000);
    // 301 s later the entry is stale, evicted on access
    assert!(cache.get_at("mint_b", 1301).is_none());
    // and stays absent even within a fresh window
    assert!(cache.get_at("mint_b", 1302).is_none());
}

#[test]
fn test_cache_insert_overwrites() {
    let mut cache = ScoreCache::new(300);
    cache.insert_at("mint_c".to_string(), make_score(100_000), 1000);
    cache.insert_at("mint_c".to_string(), make_score(900_000), 1010);
    let hit = cache.get_at("mint_c", 1020).unwrap();
    assert_eq!(hit.confidence_ppm, 900_000);
}

#[test]
fn test_cache_remove() {
    let mut cache = ScoreCache::default();
    cache.insert("mint_d".to_string(), make_score(500_000));
    cache.remove("mint_d");
    assert!(cache.get("mint_d").is_none());
}
