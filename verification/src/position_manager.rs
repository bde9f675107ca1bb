//! Bounded registry of open positions.
//!
//! The registry is a concurrent map keyed by position identity with a
//! hard ceiling on how many positions it tracks at once: `open` refuses
//! when the ceiling is reached, `close` removes and returns, `get` is a
//! non-removing lookup.

use vstd::prelude::*;
use dashmap::DashMap;
use crate::concmap::{
    position_entries, position_map_get, position_map_insert, position_map_len, position_map_new,
    position_map_remove, position_map_items,
};
use crate::errors::HydraRiskError;
use crate::types::Position;

verus! {

/// Registry of currently open positions with a capacity ceiling.
pub struct PositionManager {
    pub positions: DashMap<String, Position>,
    pub max_open: usize,
}

impl PositionManager {
    /// The tracked positions, keyed by identity.
    pub open spec fn open_positions(self) -> Map<Seq<char>, Position> {
        position_entries(self.positions)
    }

    /// The number of tracked positions.
    pub open spec fn spec_count(self) -> nat {
        self.open_positions().dom().len()
    }

    /// Validity: the key set is finite (it always is for a real map;
    /// the model needs it stated), and every entry is keyed by its
    /// position's identity.
    pub open spec fn wf(self) -> bool {
        &&& self.open_positions().dom().finite()
        &&& forall|k: Seq<char>| #[trigger]
            self.open_positions().dom().contains(k) ==> self.open_positions()[k].id@ == k
    }

    pub fn new(max_open: usize) -> (pm: Self)
        ensures
            pm.wf(),
            pm.open_positions() == crate::concmap::empty_positions(),
            pm.spec_count() == 0,
            pm.max_open == max_open,
    {
        PositionManager { positions: position_map_new(), max_open }
    }

    /// Track a new position: fails with a capacity error when the
    /// registry is full, otherwise stores the position under its
    /// identity.  A successful open never pushes the count past the
    /// ceiling.
    pub fn open(&mut self, position: Position) -> (r: Result<(), HydraRiskError>)
        requires
            old(self).wf(),
        ensures
            final(self).wf(),
            final(self).max_open == old(self).max_open,
            r is Ok <==> old(self).spec_count() < old(self).max_open,
            r is Ok ==> final(self).open_positions() == old(self).open_positions().insert(
                position.id@,
                position,
            ),
            r is Ok ==> final(self).spec_count() <= old(self).max_open,
            r is Ok && !old(self).open_positions().dom().contains(position.id@)
                ==> final(self).spec_count() == old(self).spec_count() + 1,
            r is Err ==> final(self).open_positions() == old(self).open_positions(),
            r matches Err(e) ==> e matches HydraRiskError::MaxPositionsReached { max } && max
                == old(self).max_open,
    {
        let count = position_map_len(&self.positions);
        if count >= self.max_open {
            return Err(HydraRiskError::MaxPositionsReached { max: self.max_open });
        }
        let id = position.id.clone();
        position_map_insert(&mut self.positions, id, position);
        Ok(())
    }

    /// Remove and return the position with the given identity, or fail
    /// with a not-found error.
    pub fn close(&mut self, position_id: &str) -> (r: Result<Position, HydraRiskError>)
        requires
            old(self).wf(),
        ensures
            final(self).wf(),
            final(self).max_open == old(self).max_open,
            r is Ok <==> old(self).open_positions().dom().contains(position_id@),
            r matches Ok(p) ==> (p == old(self).open_positions()[position_id@]
                && final(self).open_positions() == old(self).open_positions().remove(position_id@)),
            r is Ok ==> final(self).spec_count() == old(self).spec_count() - 1,
            r is Err ==> final(self).open_positions() == old(self).open_positions(),
            r matches Err(e) ==> e matches HydraRiskError::PositionNotFound { id } && id@
                == position_id@,
    {
        match position_map_remove(&mut self.positions, position_id) {
            Some(p) => Ok(p),
            None => Err(HydraRiskError::PositionNotFound { id: position_id.to_owned() }),
        }
    }

    /// A non-removing lookup by identity.
    pub fn get(&self, position_id: &str) -> (r: Option<Position>)
        ensures
            r is Some <==> self.open_positions().dom().contains(position_id@),
            r matches Some(p) ==> p == self.open_positions()[position_id@],
    {
        position_map_get(&self.positions, position_id)
    }

    /// The number of currently tracked positions.
    pub fn open_count(&self) -> (r: usize)
        requires
            self.wf(),
        ensures
            r == self.spec_count(),
    {
        position_map_len(&self.positions)
    }

    /// One copy of every tracked position, in an unspecified order:
    /// each returned position is tracked under its own identity, and
    /// there are as many as the registry holds.
    pub fn all(&self) -> (r: Vec<Position>)
        requires
            self.wf(),
        ensures
            r@.len() == self.spec_count(),
            forall|i: int| #![trigger r@[i]]
                0 <= i < r@.len() ==> self.open_positions().dom().contains(r@[i].id@)
                    && self.open_positions()[r@[i].id@] == r@[i],
    {
        let items = position_map_items(&self.positions);
        let mut out: Vec<Position> = Vec::new();
        let mut idx: usize = 0;
        while idx < items.len()
            invariant
                0 <= idx <= items@.len(),
                out@.len() == idx,
                forall|i: int| #![trigger out@[i]] 0 <= i < idx ==> out@[i] == items@[i].1,
                items@.len() == position_entries(self.positions).dom().len(),
                forall|i: int| #![trigger items@[i]]
                    0 <= i < items@.len() ==> position_entries(self.positions).dom().contains(
                        items@[i].0@,
                    ) && position_entries(self.positions)[items@[i].0@] == items@[i].1,
            decreases items@.len() - idx,
        {
            out.push(items[idx].1.duplicate());
            idx = idx + 1;
        }
        proof {
            assert forall|i: int| #![trigger out@[i]]
                0 <= i < out@.len() implies self.open_positions().dom().contains(out@[i].id@)
                    && self.open_positions()[out@[i].id@] == out@[i] by {
                assert(self.open_positions().dom().contains(items@[i].0@));
                assert(self.open_positions()[items@[i].0@] == items@[i].1);
                assert(out@[i].id@ == items@[i].0@);
            }
        }
        out
    }
}

impl Default for PositionManager {
    /// A registry with room for ten concurrent positions.
    fn default() -> (pm: Self)
        ensures
            pm.wf(),
            pm.spec_count() == 0,
            pm.max_open == 10,
    {
        PositionManager::new(10)
    }
}

/// The contents of a registry after opening a sequence of positions
/// into an empty one, each insert keyed by the position's identity.
pub open spec fn after_opens(ps: Seq<Position>) -> Map<Seq<char>, Position>
    decreases ps.len(),
{
    if ps.len() == 0 {
        crate::concmap::empty_positions()
    } else {
        after_opens(ps.drop_last()).insert(ps.last().id@, ps.last())
    }
}

/// The identities a registry holds after the opens are exactly the
/// identities of the opened positions.
pub proof fn lemma_after_opens_domain(ps: Seq<Position>)
    ensures
        after_opens(ps).dom().finite(),
        forall|k: Seq<char>|
            #[trigger] after_opens(ps).dom().contains(k) <==> exists|i: int|
                0 <= i < ps.len() && ps[i].id@ == k,
    decreases ps.len(),
{
    if ps.len() == 0 {
    } else {
        lemma_after_opens_domain(ps.drop_last());
        assert forall|k: Seq<char>| #[trigger]
            after_opens(ps).dom().contains(k) implies exists|i: int|
            0 <= i < ps.len() && ps[i].id@ == k by {
            if k == ps.last().id@ {
                assert(ps[ps.len() - 1].id@ == k);
            } else {
                assert(after_opens(ps.drop_last()).dom().contains(k));
                let i = choose|i: int| 0 <= i < ps.drop_last().len() && ps.drop_last()[i].id@ == k;
                assert(ps[i].id@ == k);
            }
        }
        assert forall|k: Seq<char>| (exists|i: int|
            0 <= i < ps.len() && ps[i].id@ == k) implies #[trigger] after_opens(
            ps,
        ).dom().contains(k) by {
            let i = choose|i: int| 0 <= i < ps.len() && ps[i].id@ == k;
            if i == ps.len() - 1 {
            } else {
                assert(ps.drop_last()[i].id@ == k);
            }
        }
    }
}

/// Opening `k` positions with pairwise-distinct identities into an
/// empty registry leaves exactly `k` positions tracked: no open is
/// lost and none is counted twice.
pub proof fn lemma_open_count_exact(ps: Seq<Position>)
    requires
        forall|i: int, j: int| 0 <= i < j < ps.len() ==> ps[i].id@ != ps[j].id@,
    ensures
        after_opens(ps).dom().len() == ps.len(),
    decreases ps.len(),
{
    lemma_after_opens_domain(ps);
    if ps.len() == 0 {
        assert(after_opens(ps).dom() =~= Set::<Seq<char>>::empty());
    } else {
        lemma_open_count_exact(ps.drop_last());
        lemma_after_opens_domain(ps.drop_last());
        let prev = after_opens(ps.drop_last());
        assert(!prev.dom().contains(ps.last().id@));
    }
}

} // verus!
