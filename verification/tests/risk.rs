use hydra::admission::ConsecutiveLossBreaker;
use hydra::circuit_breaker::{CircuitBreaker, CircuitState};
use hydra::config::RiskConfig;
use hydra::daily_limits::DailyLimits;
use hydra::errors::{HydraError, HydraRiskError};
use hydra::guard::RiskGuard;
use hydra::position_manager::PositionManager;
use hydra::types::{Position, Signal, SignalType, TokenAddress};

#[test]
fn test_circuit_starts_closed() {
    let cb = CircuitBreaker::new(3, 60);
    assert_eq!(cb.state(), CircuitState::Closed);
    assert!(cb.check().is_ok());
}

#[test]
fn test_circuit_opens_after_failures() {
    let mut cb = CircuitBreaker::new(3, 60);
    cb.record_failure();
    cb.record_failure();
    cb.record_failure();
    assert_eq!(cb.state(), CircuitState::Open);
    assert!(cb.check().is_err());
}

#[test]
fn test_success_resets_half_open() {
    let mut cb = CircuitBreaker::new(1, 0);
    cb.record_failure();
    // With recovery_secs=0, should be HalfOpen immediately
    assert_eq!(cb.state(), CircuitState::HalfOpen);
    cb.record_success();
    assert_eq!(cb.state(), CircuitState::Closed);
}

#[test]
fn test_circuit_recovery_window() {
    // threshold 3, recovery 60 s, against an explicit clock
    let mut cb = CircuitBreaker::new(3, 60);
    cb.record_failure_at(1000);
    cb.record_failure_at(1001);
    cb.record_failure_at(1002);
    assert!(cb.check_at(1002).is_err());
    assert_eq!(cb.state_at(1030), CircuitState::Open);
    // 61 s after the last failure: half-open, probe allowed
    assert_eq!(cb.state_at(1063), CircuitState::HalfOpen);
    assert!(cb.check_at(1063).is_ok());
    // a successful probe resets the failure counter
    cb.record_success_at(1063);
    assert_eq!(cb.failure_count(), 0);
    assert_eq!(cb.state_at(1064), CircuitState::Closed);
}

#[test]
fn test_circuit_error_variant() {
    let mut cb = CircuitBreaker::new(1, 1000);
    cb.record_failure_at(500);
    assert!(matches!(cb.check_at(501), Err(HydraError::CircuitBreaker(_))));
}

#[test]
fn test_consecutive_loss_breaker_trips_permanently() {
    let mut b = ConsecutiveLossBreaker::new(2);
    assert!(!b.is_tripped());
    b.record_loss();
    b.record_win();
    assert_eq!(b.consecutive_losses, 0);
    b.record_loss();
    b.record_loss();
    assert!(b.is_tripped());
    // a win no longer clears a tripped breaker
    b.record_win();
    assert!(b.is_tripped());
    b.reset();
    assert!(!b.is_tripped());
}

#[test]
fn test_daily_limits_within_limit() {
    let mut dl = DailyLimits::new(5_000_000_000);
    dl.record_trade_pnl(-2_000_000_000);
    assert!(dl.check().is_ok());
    assert_eq!(dl.daily_pnl_lamports(), -2_000_000_000);
}

#[test]
fn test_daily_limits_exceeded() {
    let mut dl = DailyLimits::new(3_000_000_000);
    dl.record_trade_pnl(-4_000_000_000);
    assert!(matches!(
        dl.check(),
        Err(HydraRiskError::DailyLossLimitReached { .. })
    ));
}

#[test]
fn test_daily_limits_profit_does_not_trip() {
    let mut dl = DailyLimits::new(1_000_000_000);
    dl.record_trade_pnl(10_000_000_000);
    assert!(dl.check().is_ok());
}

#[test]
fn test_daily_limits_day_rollover_resets() {
    // a rollover resets the accumulator regardless of prior value
    let mut dl = DailyLimits::new_at(1_000_000_000, 0);
    dl.record_trade_pnl_at(-50_000_000_000, 10);
    assert!(dl.check_at(20).is_err());
    // next calendar day: the loss is forgotten
    assert!(dl.check_at(86_400 + 20).is_ok());
    assert_eq!(dl.daily_pnl_lamports_at(86_400 + 30), 0);
}

#[test]
fn test_daily_limits_exact_boundary() {
    // fails exactly when -pnl >= max
    let mut dl = DailyLimits::new_at(2_000_000_000, 0);
    dl.record_trade_pnl_at(-1_999_999_999, 5);
    assert!(dl.check_at(5).is_ok());
    dl.record_trade_pnl_at(-1, 6);
    assert!(dl.check_at(6).is_err());
}

fn default_config() -> RiskConfig {
    RiskConfig {
        max_position_size_lamports: 1_000_000_000,
        max_daily_loss_lamports: 5_000_000_000,
        confidence_threshold_ppm: 150_000,
        min_liquidity_usd: 50_000,
    }
}

#[test]
fn test_risk_guard_passes_good_signal() {
    let guard = RiskGuard::new(default_config());
    let token = TokenAddress::new("TestToken11111111111111111111111111111111111");
    let signal = Signal::new(token, SignalType::Buy, 900_000);
    assert!(guard.check_signal(&signal).is_ok());
}

#[test]
fn test_risk_guard_blocks_low_confidence() {
    let guard = RiskGuard::new(default_config());
    let token = TokenAddress::new("TestToken11111111111111111111111111111111111");
    let signal = Signal::new(token, SignalType::Buy, 100_000);
    assert!(guard.check_signal(&signal).is_err());
}

#[test]
fn test_risk_guard_blocks_after_daily_loss() {
    let mut guard = RiskGuard::new(default_config());
    guard.record_loss(5_000_000_000);
    let token = TokenAddress::new("TestToken11111111111111111111111111111111111");
    let signal = Signal::new(token, SignalType::Buy, 900_000);
    assert!(guard.check_signal(&signal).is_err());
}

#[test]
fn test_risk_guard_threshold_is_inclusive() {
    // confidence exactly at the threshold is admitted
    let guard = RiskGuard::new(default_config());
    let token = TokenAddress::new("T");
    let signal = Signal::new(token, SignalType::Buy, 150_000);
    assert!(guard.check_signal(&signal).is_ok());
    assert!(matches!(
        guard.check_signal(&Signal::new(TokenAddress::new("T"), SignalType::Buy, 149_999)),
        Err(HydraError::RiskThreshold(_))
    ));
}

fn make_position(id: &str, mint: &str) -> Position {
    Position::new(
        id.to_string(),
        mint.to_string(),
        1000,
        1_000_000_000,
        300_000,
        200_000,
    )
}

#[test]
fn test_open_and_close_position() {
    let mut pm = PositionManager::new(5);
    let pos = make_position("pos1", "mint_abc");
    assert!(pm.open(pos).is_ok());
    assert_eq!(pm.open_count(), 1);
    let closed = pm.close("pos1");
    assert!(closed.is_ok());
    assert_eq!(pm.open_count(), 0);
}

#[test]
fn test_max_positions_reached() {
    let mut pm = PositionManager::new(2);
    pm.open(make_position("p1", "m1")).unwrap();
    pm.open(make_position("p2", "m2")).unwrap();
    let result = pm.open(make_position("p3", "m3"));
    assert!(matches!(
        result,
        Err(HydraRiskError::MaxPositionsReached { max: 2 })
    ));
}

#[test]
fn test_close_nonexistent_position() {
    let mut pm = PositionManager::new(5);
    let result = pm.close("nonexistent");
    assert!(matches!(
        result,
        Err(HydraRiskError::PositionNotFound { .. })
    ));
}

#[test]
fn test_get_position() {
    let mut pm = PositionManager::new(5);
    pm.open(make_position("pos_x", "mint_x")).unwrap();
    assert!(pm.get("pos_x").is_some());
    assert!(pm.get("missing").is_none());
}

#[test]
fn test_position_count_tracks_opens() {
    // opening k <= N positions yields a count of exactly k, and the
    // count can never pass N
    let mut pm = PositionManager::new(3);
    for k in 1..=3u32 {
        let id = format!("p{}", k);
        assert!(pm.open(make_position(&id, "m")).is_ok());
        assert_eq!(pm.open_count(), k as usize);
    }
    assert!(pm.open(make_position("p4", "m")).is_err());
    assert_eq!(pm.open_count(), 3);
    assert_eq!(pm.all().len(), 3);
}

#[test]
fn test_position_get_returns_stored_fields() {
    let mut pm = PositionManager::new(2);
    pm.open(make_position("idA", "mintA")).unwrap();
    let got = pm.get("idA").unwrap();
    assert_eq!(got.mint_address, "mintA");
    assert_eq!(got.size_lamports, 1_000_000_000);
    let closed = pm.close("idA").unwrap();
    assert_eq!(closed.id, "idA");
}
