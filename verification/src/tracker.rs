//! Per-trade lifecycle: a fixed 8-step phase sequence.
//!
//! A trade moves strictly forward through the sequence — no skipping,
//! no rollback, no re-entry — and advancing past the terminal phase is
//! a hard error.  The tracker keeps an append-only history of entered
//! phases.

use vstd::prelude::*;
use crate::clock::now_secs;
use crate::errors::HydraError;

verus! {

/// One step of the fixed trade lifecycle, in order.
#[derive(Debug, Clone, Copy, PartialEq, Eq, Structural)]
pub enum TradePhase {
    SignalReceived,
    AiScoring,
    StrategyFiltering,
    RiskCheck,
    OrderSubmitted,
    PositionOpen,
    Monitoring,
    TradeClosed,
}

impl TradePhase {
    /// The position of a phase in the sequence, starting at 1.
    pub open spec fn spec_number(self) -> int {
        match self {
            TradePhase::SignalReceived => 1,
            TradePhase::AiScoring => 2,
            TradePhase::StrategyFiltering => 3,
            TradePhase::RiskCheck => 4,
            TradePhase::OrderSubmitted => 5,
            TradePhase::PositionOpen => 6,
            TradePhase::Monitoring => 7,
            TradePhase::TradeClosed => 8,
        }
    }

    /// The phase that follows this one, if any.
    pub open spec fn spec_next(self) -> Option<TradePhase> {
        match self {
            TradePhase::SignalReceived => Some(TradePhase::AiScoring),
            TradePhase::AiScoring => Some(TradePhase::StrategyFiltering),
            TradePhase::StrategyFiltering => Some(TradePhase::RiskCheck),
            TradePhase::RiskCheck => Some(TradePhase::OrderSubmitted),
            TradePhase::OrderSubmitted => Some(TradePhase::PositionOpen),
            TradePhase::PositionOpen => Some(TradePhase::Monitoring),
            TradePhase::Monitoring => Some(TradePhase::TradeClosed),
            TradePhase::TradeClosed => None,
        }
    }

    /// The position of this phase in the sequence, starting at 1.
    pub fn number(&self) -> (n: u8)
        ensures
            n == self.spec_number(),
    {
        match self {
            TradePhase::SignalReceived => 1,
            TradePhase::AiScoring => 2,
            TradePhase::StrategyFiltering => 3,
            TradePhase::RiskCheck => 4,
            TradePhase::OrderSubmitted => 5,
            TradePhase::PositionOpen => 6,
            TradePhase::Monitoring => 7,
            TradePhase::TradeClosed => 8,
        }
    }

    /// The phase that follows this one, or `None` at the terminal
    /// phase.
    pub fn next(&self) -> (r: Option<TradePhase>)
        ensures
            r == self.spec_next(),
    {
        match self {
            TradePhase::SignalReceived => Some(TradePhase::AiScoring),
            TradePhase::AiScoring => Some(TradePhase::StrategyFiltering),
            TradePhase::StrategyFiltering => Some(TradePhase::RiskCheck),
            TradePhase::RiskCheck => Some(TradePhase::OrderSubmitted),
            TradePhase::OrderSubmitted => Some(TradePhase::PositionOpen),
            TradePhase::PositionOpen => Some(TradePhase::Monitoring),
            TradePhase::Monitoring => Some(TradePhase::TradeClosed),
            TradePhase::TradeClosed => None,
        }
    }
}

/// A phase entry in a trade's history, with its entry time.
#[derive(Debug, Clone)]
pub struct PhaseEvent {
    pub phase: TradePhase,
    pub entered_at: u64,
}

/// Tracks one trade through the fixed phase sequence.
pub struct PhaseTracker {
    pub trade_id: String,
    pub current_phase: TradePhase,
    pub history: Vec<PhaseEvent>,
}

impl PhaseTracker {
    /// A fresh tracker at an explicit clock reading, seeded with the
    /// initial phase.
    pub fn new_at(trade_id: String, now: u64) -> (t: Self)
        ensures
            t.trade_id == trade_id,
            t.current_phase == TradePhase::SignalReceived,
            t.history@.len() == 1,
            t.history@[0].phase == TradePhase::SignalReceived,
            t.history@[0].entered_at == now,
    {
        let mut history: Vec<PhaseEvent> = Vec::new();
        history.push(PhaseEvent { phase: TradePhase::SignalReceived, entered_at: now });
        PhaseTracker { trade_id, current_phase: TradePhase::SignalReceived, history }
    }

    /// A fresh tracker at the current clock reading.
    pub fn new(trade_id: String) -> (t: Self)
        ensures
            t.trade_id == trade_id,
            t.current_phase == TradePhase::SignalReceived,
            t.history@.len() == 1,
            t.history@[0].phase == TradePhase::SignalReceived,
    {
        let now = now_secs();
        Self::new_at(trade_id, now)
    }

    /// The phase the trade is in.
    pub fn current_phase(&self) -> (r: TradePhase)
        ensures
            r == self.current_phase,
    {
        self.current_phase
    }

    /// Advance to the next phase at an explicit clock reading, or fail
    /// if the trade is already in the terminal phase.
    pub fn advance_at(&mut self, now: u64) -> (r: Result<TradePhase, HydraError>)
        ensures
            old(self).current_phase == TradePhase::TradeClosed ==> r is Err && *final(self)
                == *old(self),
            r matches Err(e) ==> e is Phase,
            old(self).current_phase != TradePhase::TradeClosed ==> {
                let next = old(self).current_phase.spec_next()->0;
                &&& r matches Ok(p) && p == next
                &&& final(self).current_phase == next
                &&& final(self).history@ == old(self).history@.push(
                    PhaseEvent { phase: next, entered_at: now },
                )
                &&& final(self).trade_id == old(self).trade_id
            },
    {
        match self.current_phase.next() {
            Some(next) => {
                self.current_phase = next;
                self.history.push(PhaseEvent { phase: next, entered_at: now });
                Ok(next)
            },
            None => Err(
                HydraError::Phase("trade is already in the final phase".to_owned()),
            ),
        }
    }

    /// Advance to the next phase at the current clock reading.
    pub fn advance(&mut self) -> (r: Result<TradePhase, HydraError>)
        ensures
            old(self).current_phase == TradePhase::TradeClosed ==> r is Err && *final(self)
                == *old(self),
            r matches Err(e) ==> e is Phase,
            old(self).current_phase != TradePhase::TradeClosed ==> {
                let next = old(self).current_phase.spec_next()->0;
                &&& r matches Ok(p) && p == next
                &&& final(self).current_phase == next
                &&& final(self).history@.len() == old(self).history@.len() + 1
                &&& final(self).history@.drop_last() == old(self).history@
                &&& final(self).history@.last().phase == next
                &&& final(self).trade_id == old(self).trade_id
            },
    {
        let now = now_secs();
        let r = self.advance_at(now);
        proof {
            if old(self).current_phase != TradePhase::TradeClosed {
                assert(final(self).history@.drop_last() =~= old(self).history@);
            }
        }
        r
    }

    /// The history of entered phases, oldest first.
    pub fn history(&self) -> (r: &Vec<PhaseEvent>)
        ensures
            r == &self.history,
    {
        &self.history
    }

    /// Whether the trade has reached the terminal phase.
    pub fn is_complete(&self) -> (r: bool)
        ensures
            r == (self.current_phase == TradePhase::TradeClosed),
    {
        match self.current_phase {
            TradePhase::TradeClosed => true,
            _ => false,
        }
    }
}

/// The phase reached after `k` advances from the start of the
/// sequence.
pub open spec fn phase_after(k: int) -> TradePhase
    decreases k,
{
    if k <= 0 {
        TradePhase::SignalReceived
    } else {
        match phase_after(k - 1).spec_next() {
            Some(p) => p,
            None => TradePhase::TradeClosed,
        }
    }
}

/// Seven advances from the initial phase visit all eight phases in
/// fixed order — the phase after `k` advances is the `k+1`-th of the
/// sequence — and the terminal phase has no successor, so an eighth
/// advance must fail.
pub proof fn lemma_phase_sequence()
    ensures
        forall|k: int| 0 <= k <= 7 ==> #[trigger] phase_after(k).spec_number() == k + 1,
        phase_after(0) == TradePhase::SignalReceived,
        phase_after(7) == TradePhase::TradeClosed,
        forall|p: TradePhase|
            p != TradePhase::TradeClosed ==> (#[trigger] p.spec_next()) is Some
                && p.spec_next()->0.spec_number() == p.spec_number() + 1,
        TradePhase::TradeClosed.spec_next() is None,
{
    assert forall|k: int| 0 <= k <= 7 implies #[trigger] phase_after(k).spec_number() == k
        + 1 by {
        assert(phase_after(0).spec_number() == 1);
        assert(phase_after(1).spec_number() == 2);
        assert(phase_after(2).spec_number() == 3);
        assert(phase_after(3).spec_number() == 4);
        assert(phase_after(4).spec_number() == 5);
        assert(phase_after(5).spec_number() == 6);
        assert(phase_after(6).spec_number() == 7);
        assert(phase_after(7).spec_number() == 8);
    }
    assert(phase_after(7) == TradePhase::TradeClosed);
}

} // verus!
