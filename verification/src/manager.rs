//! Campaign-level phase sequencing.
//!
//! The manager holds an ordered list of configured phases and a cursor.
//! `start_next_phase` is idempotent while the current phase is still
//! Active — it returns that phase's name without advancing — and only
//! moves to the next configured phase once the current one has left the
//! Active state.

use vstd::prelude::*;
use crate::clock::now_secs;
use crate::errors::HydraError;
use crate::phase::{Phase, PhaseConfig, PhaseState};

verus! {

/// Ordered campaign phases with a cursor at the running phase.
pub struct PhaseManager {
    pub phases: Vec<Phase>,
    pub current_index: Option<usize>,
}

impl PhaseManager {
    /// Validity: the cursor, when set, points into the phase list.
    pub open spec fn wf(self) -> bool {
        self.current_index matches Some(i) ==> i < self.phases@.len()
    }

    /// The phase list position that `start_next_phase` would start:
    /// one past the cursor, or the first phase when none started yet.
    pub open spec fn spec_next_index(self) -> int {
        match self.current_index {
            Some(i) => i + 1,
            None => 0,
        }
    }

    /// Whether the phase under the cursor is still Active.
    pub open spec fn spec_current_active(self) -> bool {
        self.current_index matches Some(i) && self.phases@[i as int].state == PhaseState::Active
    }

    pub fn new() -> (m: Self)
        ensures
            m.wf(),
            m.phases@.len() == 0,
            m.current_index is None,
    {
        PhaseManager { phases: Vec::new(), current_index: None }
    }

    /// Append a configured phase, Inactive, at the end of the list.
    pub fn add_phase(&mut self, config: PhaseConfig)
        requires
            old(self).wf(),
        ensures
            final(self).wf(),
            final(self).current_index == old(self).current_index,
            final(self).phases@.len() == old(self).phases@.len() + 1,
            final(self).phases@.drop_last() == old(self).phases@,
            final(self).phases@.last().config == config,
            final(self).phases@.last().state == PhaseState::Inactive,
            final(self).phases@.last().trades_executed == 0,
    {
        self.phases.push(Phase::new(config));
        proof {
            assert(final(self).phases@.drop_last() =~= old(self).phases@);
        }
    }

    /// Start the next phase at an explicit clock reading.  While the
    /// current phase is still Active, nothing advances and its name is
    /// returned; otherwise the next configured phase is activated, or
    /// an error returned when none is left.
    pub fn start_next_phase_at(&mut self, now: u64) -> (r: Result<String, HydraError>)
        requires
            old(self).wf(),
        ensures
            final(self).wf(),
            old(self).spec_current_active() ==> *final(self) == *old(self) && (r matches Ok(name)
                && name@ == old(self).phases@[old(self).current_index->0 as int].config.name@),
            !old(self).spec_current_active() && old(self).spec_next_index() >= old(
                self,
            ).phases@.len() ==> *final(self) == *old(self) && r is Err,
            r matches Err(e) ==> e is Phase,
            !old(self).spec_current_active() && old(self).spec_next_index() < old(
                self,
            ).phases@.len() ==> {
                let next = old(self).spec_next_index();
                &&& r matches Ok(name) && name@ == old(self).phases@[next].config.name@
                &&& final(self).current_index == Some(next as usize)
                &&& final(self).phases@.len() == old(self).phases@.len()
                &&& final(self).phases@[next].state == PhaseState::Active
                &&& final(self).phases@[next].started_at == Some(now)
                &&& final(self).phases@[next].config == old(self).phases@[next].config
                &&& forall|j: int|
                    0 <= j < old(self).phases@.len() && j != next ==> final(self).phases@[j]
                        == old(self).phases@[j]
            },
    {
        match self.current_index {
            Some(idx) => {
                if self.phases[idx].is_active() {
                    return Ok(self.phases[idx].config.name.clone());
                }
            },
            None => {},
        }
        let next_idx: usize = match self.current_index {
            Some(i) => {
                let n = self.phases.len();
                proof {
                    assert(i < n);
                }
                i + 1
            },
            None => 0,
        };
        if next_idx >= self.phases.len() {
            return Err(HydraError::Phase("no more phases available".to_owned()));
        }
        let mut phase = self.phases.remove(next_idx);
        phase.activate_at(now);
        let name = phase.config.name.clone();
        self.phases.insert(next_idx, phase);
        self.current_index = Some(next_idx);
        proof {
            assert forall|j: int|
                0 <= j < old(self).phases@.len() && j != old(self).spec_next_index()
                implies final(self).phases@[j] == old(self).phases@[j] by {
                let next = old(self).spec_next_index();
                let removed = old(self).phases@.remove(next);
                old(self).phases@.remove_ensures(next);
                if j < next {
                    assert(final(self).phases@[j] == removed.insert(next, final(self).phases@[next])[j]);
                } else {
                    assert(final(self).phases@[j] == old(self).phases@[j]);
                }
            }
        }
        Ok(name)
    }

    /// Start the next phase at the current clock reading.
    pub fn start_next_phase(&mut self) -> (r: Result<String, HydraError>)
        requires
            old(self).wf(),
        ensures
            final(self).wf(),
            old(self).spec_current_active() ==> *final(self) == *old(self) && (r matches Ok(name)
                && name@ == old(self).phases@[old(self).current_index->0 as int].config.name@),
            !old(self).spec_current_active() && old(self).spec_next_index() >= old(
                self,
            ).phases@.len() ==> *final(self) == *old(self) && r is Err,
            r matches Err(e) ==> e is Phase,
            !old(self).spec_current_active() && old(self).spec_next_index() < old(
                self,
            ).phases@.len() ==> {
                let next = old(self).spec_next_index();
                &&& r matches Ok(name) && name@ == old(self).phases@[next].config.name@
                &&& final(self).current_index == Some(next as usize)
                &&& final(self).phases@.len() == old(self).phases@.len()
                &&& final(self).phases@[next].state == PhaseState::Active
                &&& final(self).phases@[next].config == old(self).phases@[next].config
            },
    {
        let now = now_secs();
        self.start_next_phase_at(now)
    }

    /// The name of the phase under the cursor, if any.
    pub fn current_phase_name(&self) -> (r: Option<String>)
        ensures
            self.current_index matches Some(i) ==> (i < self.phases@.len() ==> (r matches Some(
            name) && name@ == self.phases@[i as int].config.name@)),
            self.current_index is None ==> r is None,
    {
        match self.current_index {
            Some(i) => {
                if i < self.phases.len() {
                    Some(self.phases[i].config.name.clone())
                } else {
                    None
                }
            },
            None => None,
        }
    }

    /// How many phases are configured.
    pub fn phase_count(&self) -> (r: usize)
        ensures
            r == self.phases@.len(),
    {
        self.phases.len()
    }

    /// The state of the phase under the cursor, if any.
    pub fn current_phase_state(&self) -> (r: Option<PhaseState>)
        ensures
            self.current_index matches Some(i) ==> (i < self.phases@.len() ==> r == Some(
                self.phases@[i as int].state,
            )),
            self.current_index is None ==> r is None,
    {
        match self.current_index {
            Some(i) => {
                if i < self.phases.len() {
                    Some(self.phases[i].state)
                } else {
                    None
                }
            },
            None => None,
        }
    }
}

impl Default for PhaseManager {
    fn default() -> (m: Self)
        ensures
            m.wf(),
            m.phases@.len() == 0,
            m.current_index is None,
    {
        PhaseManager::new()
    }
}

} // verus!
