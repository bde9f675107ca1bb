//! Per-campaign phases: named trading stages with quotas.
//!
//! Each configured phase moves through Inactive → Active →
//! {Paused, Completed, Failed}; a phase completes itself when its
//! trade quota is reached.

use vstd::prelude::*;
use crate::clock::now_secs;
use crate::daily_limits::sat_add_i64;

verus! {

/// Lifecycle state of a campaign phase.
#[derive(Debug, Clone, Copy, PartialEq, Eq, Structural)]
pub enum PhaseState {
    Inactive,
    Active,
    Paused,
    Completed,
    Failed,
}

impl PhaseState {
    /// The state's name; stands in for display of the state.
    pub fn label(&self) -> (r: &'static str)
        ensures
            self is Inactive ==> r@ == "Inactive"@,
            self is Active ==> r@ == "Active"@,
            self is Paused ==> r@ == "Paused"@,
            self is Completed ==> r@ == "Completed"@,
            self is Failed ==> r@ == "Failed"@,
    {
        match self {
            PhaseState::Inactive => "Inactive",
            PhaseState::Active => "Active",
            PhaseState::Paused => "Paused",
            PhaseState::Completed => "Completed",
            PhaseState::Failed => "Failed",
        }
    }
}

/// Static configuration of one campaign phase.
#[derive(Debug, Clone)]
pub struct PhaseConfig {
    pub name: String,
    pub description: String,
    pub max_trades: u32,
    pub max_position_lamports: u64,
    pub min_confidence_ppm: u64,
    pub duration_hours: Option<u64>,
}

/// A campaign phase: its configuration plus its running state.
#[derive(Debug, Clone)]
pub struct Phase {
    pub config: PhaseConfig,
    pub state: PhaseState,
    pub trades_executed: u32,
    pub total_pnl_lamports: i64,
    pub started_at: Option<u64>,
    pub ended_at: Option<u64>,
}

impl Phase {
    pub fn new(config: PhaseConfig) -> (p: Self)
        ensures
            p.config == config,
            p.state == PhaseState::Inactive,
            p.trades_executed == 0,
            p.total_pnl_lamports == 0,
            p.started_at is None,
            p.ended_at is None,
    {
        Phase {
            config,
            state: PhaseState::Inactive,
            trades_executed: 0,
            total_pnl_lamports: 0,
            started_at: None,
            ended_at: None,
        }
    }

    /// Start the phase at an explicit clock reading.
    pub fn activate_at(&mut self, now: u64)
        ensures
            final(self).state == PhaseState::Active,
            final(self).started_at == Some(now),
            final(self).config == old(self).config,
            final(self).trades_executed == old(self).trades_executed,
            final(self).total_pnl_lamports == old(self).total_pnl_lamports,
            final(self).ended_at == old(self).ended_at,
    {
        self.state = PhaseState::Active;
        self.started_at = Some(now);
    }

    /// Start the phase at the current clock reading.
    pub fn activate(&mut self)
        ensures
            final(self).state == PhaseState::Active,
            final(self).started_at is Some,
            final(self).config == old(self).config,
            final(self).trades_executed == old(self).trades_executed,
            final(self).total_pnl_lamports == old(self).total_pnl_lamports,
            final(self).ended_at == old(self).ended_at,
    {
        let now = now_secs();
        self.activate_at(now);
    }

    /// Pause the phase — only an Active phase can pause; any other
    /// state is left as it is.
    pub fn pause(&mut self)
        ensures
            old(self).state == PhaseState::Active ==> final(self).state == PhaseState::Paused,
            old(self).state != PhaseState::Active ==> final(self).state == old(self).state,
            final(self).config == old(self).config,
            final(self).trades_executed == old(self).trades_executed,
            final(self).total_pnl_lamports == old(self).total_pnl_lamports,
            final(self).started_at == old(self).started_at,
            final(self).ended_at == old(self).ended_at,
    {
        if self.is_active() {
            self.state = PhaseState::Paused;
        }
    }

    /// Finish the phase successfully at an explicit clock reading.
    pub fn complete_at(&mut self, now: u64)
        ensures
            final(self).state == PhaseState::Completed,
            final(self).ended_at == Some(now),
            final(self).config == old(self).config,
            final(self).trades_executed == old(self).trades_executed,
            final(self).total_pnl_lamports == old(self).total_pnl_lamports,
            final(self).started_at == old(self).started_at,
    {
        self.state = PhaseState::Completed;
        self.ended_at = Some(now);
    }

    /// Finish the phase successfully at the current clock reading.
    pub fn complete(&mut self)
        ensures
            final(self).state == PhaseState::Completed,
            final(self).ended_at is Some,
            final(self).config == old(self).config,
            final(self).trades_executed == old(self).trades_executed,
            final(self).total_pnl_lamports == old(self).total_pnl_lamports,
            final(self).started_at == old(self).started_at,
    {
        let now = now_secs();
        self.complete_at(now);
    }

    /// Mark the phase failed at the current clock reading.
    pub fn fail(&mut self, reason: &str)
        ensures
            final(self).state == PhaseState::Failed,
            final(self).ended_at is Some,
            final(self).config == old(self).config,
            final(self).trades_executed == old(self).trades_executed,
            final(self).total_pnl_lamports == old(self).total_pnl_lamports,
            final(self).started_at == old(self).started_at,
    {
        let now = now_secs();
        self.state = PhaseState::Failed;
        self.ended_at = Some(now);
    }

    /// Whether the phase is running.
    pub fn is_active(&self) -> (r: bool)
        ensures
            r == (self.state == PhaseState::Active),
    {
        match self.state {
            PhaseState::Active => true,
            _ => false,
        }
    }

    /// Whether the phase admits another trade: it is running and its
    /// trade quota is not yet reached.
    pub fn can_trade(&self) -> (r: bool)
        ensures
            r == (self.state == PhaseState::Active && self.trades_executed
                < self.config.max_trades),
    {
        self.is_active() && self.trades_executed < self.config.max_trades
    }

    /// Count an executed trade at an explicit clock reading; the phase
    /// completes itself when the quota is reached.
    pub fn record_trade_at(&mut self, pnl_lamports: i64, now: u64)
        ensures
            final(self).trades_executed == if old(self).trades_executed < u32::MAX {
                (old(self).trades_executed + 1) as u32
            } else {
                u32::MAX
            },
            final(self).total_pnl_lamports == sat_add_i64(
                old(self).total_pnl_lamports as int,
                pnl_lamports as int,
            ),
            final(self).trades_executed >= old(self).config.max_trades ==> final(self).state
                == PhaseState::Completed && final(self).ended_at == Some(now),
            final(self).trades_executed < old(self).config.max_trades ==> final(self).state
                == old(self).state && final(self).ended_at == old(self).ended_at,
            final(self).config == old(self).config,
            final(self).started_at == old(self).started_at,
    {
        self.trades_executed = if self.trades_executed < u32::MAX {
            self.trades_executed + 1
        } else {
            u32::MAX
        };
        self.total_pnl_lamports = match self.total_pnl_lamports.checked_add(pnl_lamports) {
            Some(v) => v,
            None => if pnl_lamports > 0 {
                i64::MAX
            } else {
                i64::MIN
            },
        };
        if self.trades_executed >= self.config.max_trades {
            self.complete_at(now);
        }
    }

    /// Count an executed trade at the current clock reading.
    pub fn record_trade(&mut self, pnl_lamports: i64)
        ensures
            final(self).trades_executed == if old(self).trades_executed < u32::MAX {
                (old(self).trades_executed + 1) as u32
            } else {
                u32::MAX
            },
            final(self).total_pnl_lamports == sat_add_i64(
                old(self).total_pnl_lamports as int,
                pnl_lamports as int,
            ),
            final(self).trades_executed >= old(self).config.max_trades ==> final(self).state
                == PhaseState::Completed,
            final(self).trades_executed < old(self).config.max_trades ==> final(self).state
                == old(self).state && final(self).ended_at == old(self).ended_at,
            final(self).config == old(self).config,
            final(self).started_at == old(self).started_at,
    {
        let now = now_secs();
        self.record_trade_at(pnl_lamports, now);
    }
}

} // verus!
