use hydra::errors::HydraError;
use hydra::executor::{MockBackend, TradeExecutor};
use hydra::fee::{FeeCalculator, MAX_PRIORITY_FEE_MICRO_LAMPORTS};
use hydra::retry::RetryPolicy;
use hydra::shield::Shield;
use hydra::tpu::{send_plan, JetTpuClient};
use hydra::transaction::TransactionManager;
use hydra::types::{OrderType, Signal, SignalType, TokenAddress, TradeOrder, TradeStatus};

#[test]
fn test_transaction_lifecycle() {
    let mut manager = TransactionManager::new();
    let token = TokenAddress::new("TestToken11111111111111111111111111111111111");
    let signal = Signal::new(token, SignalType::Buy, 900_000);
    let order = TradeOrder::new(&signal, OrderType::Buy, 500_000_000, 100);
    let id = order.id.clone();

    manager.submit(order);
    assert_eq!(manager.pending_count(), 1);

    manager.complete(&id, Some("sig123".to_string()), None);
    assert_eq!(manager.pending_count(), 0);
    let results = manager.completed_results();
    assert_eq!(results.len(), 1);
    assert_eq!(results[0].status, TradeStatus::Executed);
}

#[test]
fn test_transaction_single_completed_result() {
    // submit then complete yields exactly one Executed result carrying
    // the signature, and pending returns to zero
    let mut manager = TransactionManager::new();
    let token = TokenAddress::new("A");
    let signal = Signal::new(token, SignalType::Buy, 900_000);
    let order = TradeOrder::new(&signal, OrderType::Buy, 100, 50);
    let id = manager.submit(order);
    manager.complete(&id, Some("sig1".to_string()), None);
    let results = manager.completed_results();
    assert_eq!(results.len(), 1);
    assert_eq!(results[0].status, TradeStatus::Executed);
    assert_eq!(results[0].tx_signature.as_deref(), Some("sig1"));
    assert_eq!(results[0].order_id, id);
    assert_eq!(manager.pending_count(), 0);
}

#[test]
fn test_complete_unknown_id_is_noop() {
    let mut manager = TransactionManager::new();
    manager.complete("unknown", Some("sig".to_string()), None);
    assert_eq!(manager.pending_count(), 0);
    assert!(manager.completed_results().is_empty());
}

#[test]
fn test_complete_with_error_marks_failed() {
    let mut manager = TransactionManager::new();
    let token = TokenAddress::new("B");
    let signal = Signal::new(token, SignalType::Sell, 900_000);
    let order = TradeOrder::new(&signal, OrderType::Sell, 100, 50);
    let id = manager.submit(order);
    manager.complete(&id, None, Some("backend down".to_string()));
    let results = manager.completed_results();
    assert_eq!(results.len(), 1);
    assert_eq!(results[0].status, TradeStatus::Failed);
    assert_eq!(results[0].error.as_deref(), Some("backend down"));
}

#[test]
fn test_execute_buy_signal() {
    let mut executor = TradeExecutor::new(TransactionManager::new(), MockBackend, 500_000_000);
    let token = TokenAddress::new("TestToken11111111111111111111111111111111111");
    let signal = Signal::new(token, SignalType::Buy, 900_000);
    executor.execute_signal(&signal).unwrap();
    let results = executor.manager().completed_results();
    assert_eq!(results.len(), 1);
}

#[test]
fn test_skip_hold_signal() {
    let mut executor = TradeExecutor::new(TransactionManager::new(), MockBackend, 500_000_000);
    let token = TokenAddress::new("TestToken11111111111111111111111111111111111");
    let signal = Signal::new(token, SignalType::Hold, 500_000);
    executor.execute_signal(&signal).unwrap();
    assert_eq!(executor.manager().pending_count(), 0);
    assert!(executor.manager().completed_results().is_empty());
}

#[test]
fn test_mock_backend_signature_prefix() {
    let mut executor = TradeExecutor::new(TransactionManager::new(), MockBackend, 1_000);
    let token = TokenAddress::new("T");
    let signal = Signal::new(token, SignalType::Buy, 900_000);
    executor.execute_signal(&signal).unwrap();
    let results = executor.manager().completed_results();
    let sig = results[0].tx_signature.clone().unwrap();
    assert!(sig.starts_with("mock_tx_"));
}

#[test]
fn test_fee_computed_and_capped() {
    let fee = FeeCalculator::new(1000, 175).compute_fee().unwrap();
    assert_eq!(fee, 1750);
    // a huge base fee is clamped to the cap
    let capped = FeeCalculator::new(u64::MAX, 200).compute_fee().unwrap();
    assert_eq!(capped, MAX_PRIORITY_FEE_MICRO_LAMPORTS);
}

#[test]
fn test_retry_delays_double_up_to_ceiling() {
    let p = RetryPolicy::new(5, 100, 5000);
    assert_eq!(p.next_delay(0), 100);
    assert_eq!(p.next_delay(1), 200);
    assert_eq!(p.next_delay(2), 400);
    assert_eq!(p.next_delay(3), 800);
    assert_eq!(p.next_delay(10), 5000);
    assert_eq!(p.next_delay(63), 5000);
}

#[test]
fn test_shield_rejects_empty_signature() {
    let shield = Shield::new();
    assert!(shield.verify_signature("deadbeef").is_ok());
    assert!(matches!(
        shield.verify_signature(""),
        Err(HydraError::Execution(_))
    ));
}

#[test]
fn test_send_transaction_stub_succeeds() {
    let client = JetTpuClient::new(
        "127.0.0.1:8000".to_string(),
        FeeCalculator::new(1000, 175),
        RetryPolicy::new(3, 100, 5000),
    );
    let sig = client.send_transaction(&vec![1u8, 2, 3]).unwrap();
    assert_eq!(sig, "stub_signature_placeholder");
}

#[test]
fn test_send_transaction_no_attempts_fails() {
    let client = JetTpuClient::new(
        "127.0.0.1:8000".to_string(),
        FeeCalculator::new(1000, 175),
        RetryPolicy::new(0, 100, 5000),
    );
    assert!(client.send_transaction(&vec![0u8]).is_err());
}

#[test]
fn test_send_plan_third_attempt_succeeds() {
    // max_attempts=3, base_delay=100ms; two failures then a success:
    // the result is the third attempt's value and the accrued delay is
    // 100 + 200 = 300 ms
    let policy = RetryPolicy::new(3, 100, 5000);
    let outcomes: Vec<Result<String, HydraError>> = vec![
        Err(HydraError::Execution("attempt one failed".to_string())),
        Err(HydraError::Execution("attempt two failed".to_string())),
        Ok("third_time_lucky".to_string()),
    ];
    let plan = send_plan(&policy, &outcomes);
    assert_eq!(plan.result.unwrap(), "third_time_lucky");
    assert_eq!(plan.attempts_used, 3);
    assert_eq!(plan.total_delay_ms, 300);
}

#[test]
fn test_send_plan_budget_exhausted_surfaces_last_error() {
    let policy = RetryPolicy::new(2, 100, 5000);
    let outcomes: Vec<Result<String, HydraError>> = vec![
        Err(HydraError::Execution("first".to_string())),
        Err(HydraError::Network("second".to_string())),
    ];
    let plan = send_plan(&policy, &outcomes);
    assert!(matches!(plan.result, Err(HydraError::Network(_))));
    assert_eq!(plan.attempts_used, 2);
    assert_eq!(plan.total_delay_ms, 100);
}

#[test]
fn test_send_plan_first_attempt_succeeds_no_delay() {
    let policy = RetryPolicy::new(3, 100, 5000);
    let outcomes: Vec<Result<String, HydraError>> = vec![
        Ok("immediate".to_string()),
        Err(HydraError::Execution("unused".to_string())),
        Err(HydraError::Execution("unused".to_string())),
    ];
    let plan = send_plan(&policy, &outcomes);
    assert_eq!(plan.result.unwrap(), "immediate");
    assert_eq!(plan.attempts_used, 1);
    assert_eq!(plan.total_delay_ms, 0);
}
