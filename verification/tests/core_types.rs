use hydra::config::HydraConfig;
use hydra::errors::HydraError;
use hydra::types::{Signal, SignalType, TokenAddress, TradeOrder, OrderType};

#[test]
fn test_signal_creation() {
    let token = TokenAddress::new("So11111111111111111111111111111111111111112");
    let signal = Signal::new(token.clone(), SignalType::Buy, 850_000);
    assert_eq!(signal.token, token);
    assert_eq!(signal.signal_type, SignalType::Buy);
    assert_eq!(signal.confidence_ppm, 850_000);
}

#[test]
fn test_token_address_display() {
    let addr = "So11111111111111111111111111111111111111112";
    let token = TokenAddress::new(addr);
    assert_eq!(token.as_str(), addr);
}

#[test]
fn test_order_references_signal() {
    let token = TokenAddress::new("Mint1111111111111111111111111111111111111111");
    let signal = Signal::new(token, SignalType::Sell, 500_000);
    let order = TradeOrder::new(&signal, OrderType::Sell, 250_000_000, 100);
    assert_eq!(order.signal_id, signal.id);
    assert_eq!(order.token, signal.token);
    assert_eq!(order.order_type, OrderType::Sell);
    assert_eq!(order.amount_lamports, 250_000_000);
    assert_eq!(order.slippage_bps, 100);
}

#[test]
fn test_default_config_values() {
    let c = HydraConfig::default();
    assert_eq!(c.risk.max_position_size_lamports, 1_000_000_000);
    assert_eq!(c.risk.max_daily_loss_lamports, 5_000_000_000);
    assert_eq!(c.risk.confidence_threshold_ppm, 150_000);
    assert_eq!(c.risk.min_liquidity_usd, 50_000);
    assert_eq!(c.monitoring.prometheus_port, 9090);
    assert!(c.monitoring.alert_webhook_url.is_none());
    assert_eq!(c.network.commitment, "confirmed");
}

#[test]
fn test_error_message_carried() {
    let e = HydraError::Execution(String::from("boom"));
    assert_eq!(e.message(), "boom");
}
