use hydra::errors::HydraError;
use hydra::manager::PhaseManager;
use hydra::phase::{Phase, PhaseConfig, PhaseState};
use hydra::tracker::{PhaseTracker, TradePhase};

fn make_config(name: &str) -> PhaseConfig {
    PhaseConfig {
        name: name.to_string(),
        description: "Test".to_string(),
        max_trades: 5,
        max_position_lamports: 1_000_000_000,
        min_confidence_ppm: 700_000,
        duration_hours: None,
    }
}

#[test]
fn test_phase_manager() {
    let mut manager = PhaseManager::new();
    manager.add_phase(make_config("Phase 1"));
    manager.add_phase(make_config("Phase 2"));
    assert_eq!(manager.phase_count(), 2);

    let name = manager.start_next_phase().unwrap();
    assert_eq!(name, "Phase 1");
    assert_eq!(manager.current_phase_state(), Some(PhaseState::Active));

    let name2 = manager.start_next_phase().unwrap();
    // Phase 1 still active, so same phase returned
    assert_eq!(name2, "Phase 1");
}

#[test]
fn test_phase_manager_advances_after_completion() {
    let mut manager = PhaseManager::new();
    let mut quick = make_config("Phase 1");
    quick.max_trades = 1;
    manager.add_phase(quick);
    manager.add_phase(make_config("Phase 2"));
    assert_eq!(manager.start_next_phase().unwrap(), "Phase 1");
    // exhaust the quota: the phase completes itself
    // (reach in through the public fields to drive the phase directly)
    {
        let phase = &mut manager.phases[0];
        phase.record_trade(10_000_000);
        assert_eq!(phase.state, PhaseState::Completed);
    }
    assert_eq!(manager.start_next_phase().unwrap(), "Phase 2");
    assert_eq!(manager.current_phase_name().as_deref(), Some("Phase 2"));
}

#[test]
fn test_phase_manager_runs_out_of_phases() {
    let mut manager = PhaseManager::new();
    assert!(matches!(
        manager.start_next_phase(),
        Err(HydraError::Phase(_))
    ));
}

fn default_phase_config() -> PhaseConfig {
    PhaseConfig {
        name: "Test Phase".to_string(),
        description: "A test phase".to_string(),
        max_trades: 10,
        max_position_lamports: 1_000_000_000,
        min_confidence_ppm: 700_000,
        duration_hours: None,
    }
}

#[test]
fn test_phase_lifecycle() {
    let mut phase = Phase::new(default_phase_config());
    assert_eq!(phase.state, PhaseState::Inactive);
    assert!(!phase.is_active());

    phase.activate();
    assert_eq!(phase.state, PhaseState::Active);
    assert!(phase.is_active());
    assert!(phase.can_trade());

    phase.pause();
    assert_eq!(phase.state, PhaseState::Paused);
    assert!(!phase.is_active());
}

#[test]
fn test_phase_completes_after_max_trades() {
    let mut phase = Phase::new(default_phase_config());
    phase.activate();
    for i in 0..10 {
        assert!(phase.can_trade(), "Should be able to trade on iteration {}", i);
        phase.record_trade(10_000_000);
    }
    assert_eq!(phase.state, PhaseState::Completed);
    assert!(!phase.can_trade());
}

#[test]
fn test_phase_state_labels() {
    assert_eq!(PhaseState::Inactive.label(), "Inactive");
    assert_eq!(PhaseState::Active.label(), "Active");
    assert_eq!(PhaseState::Paused.label(), "Paused");
    assert_eq!(PhaseState::Completed.label(), "Completed");
    assert_eq!(PhaseState::Failed.label(), "Failed");
}

#[test]
fn test_tracker_visits_all_phases_in_order() {
    // seven advances visit all eight phases in fixed order; the eighth
    // advance fails with a terminal-phase error
    let mut t = PhaseTracker::new("trade-1".to_string());
    assert_eq!(t.current_phase(), TradePhase::SignalReceived);
    let expected = [
        TradePhase::AiScoring,
        TradePhase::StrategyFiltering,
        TradePhase::RiskCheck,
        TradePhase::OrderSubmitted,
        TradePhase::PositionOpen,
        TradePhase::Monitoring,
        TradePhase::TradeClosed,
    ];
    for (i, want) in expected.iter().enumerate() {
        let got = t.advance().unwrap();
        assert_eq!(got, *want);
        assert_eq!(got.number() as usize, i + 2);
    }
    assert!(t.is_complete());
    assert_eq!(t.history().len(), 8);
    assert!(matches!(t.advance(), Err(HydraError::Phase(_))));
}

#[test]
fn test_tracker_history_records_entry_times() {
    let mut t = PhaseTracker::new_at("trade-2".to_string(), 1000);
    t.advance_at(1005).unwrap();
    t.advance_at(1010).unwrap();
    let h = t.history();
    assert_eq!(h.len(), 3);
    assert_eq!(h[0].entered_at, 1000);
    assert_eq!(h[0].phase, TradePhase::SignalReceived);
    assert_eq!(h[1].entered_at, 1005);
    assert_eq!(h[1].phase, TradePhase::AiScoring);
    assert_eq!(h[2].entered_at, 1010);
    assert_eq!(h[2].phase, TradePhase::StrategyFiltering);
}
