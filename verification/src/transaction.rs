//! Pending → completed ledger for submitted orders.
//!
//! `submit` stores an order under its identity; `complete` moves it out
//! of the pending ledger and appends exactly one immutable
//! [`TradeResult`], with the status derived from the presence of an
//! error.  Completing an unknown identity is a benign no-op, so a
//! duplicate completion callback cannot crash the ledger or duplicate a
//! result.

use vstd::prelude::*;
use crate::clock::now_secs;
use crate::types::{TradeOrder, TradeResult, TradeStatus};

verus! {

/// The ledger of pending orders and completed results.
pub struct TransactionManager {
    pub pending: Vec<TradeOrder>,
    pub completed: Vec<TradeResult>,
}

/// The position of the order with the given identity in a pending
/// ledger; meaningful only when such an order is present.
pub open spec fn pending_index_of(s: Seq<TradeOrder>, id: Seq<char>) -> int {
    choose|i: int| 0 <= i < s.len() && s[i].id@ == id
}

impl TransactionManager {
    /// Whether an order with the given identity is pending.
    pub open spec fn spec_has_pending(self, id: Seq<char>) -> bool {
        exists|i: int| 0 <= i < self.pending@.len() && #[trigger] self.pending@[i].id@ == id
    }

    /// Validity: pending identities are pairwise distinct, as in a map
    /// keyed by identity.
    pub open spec fn wf(self) -> bool {
        forall|i: int, j: int|
            0 <= i < j < self.pending@.len() ==> #[trigger] self.pending@[i].id@ != #[trigger] self.pending@[j].id@
    }

    pub fn new() -> (m: Self)
        ensures
            m.wf(),
            m.pending@.len() == 0,
            m.completed@.len() == 0,
    {
        TransactionManager { pending: Vec::new(), completed: Vec::new() }
    }

    /// The index of the pending order with the given identity, if any.
    fn find_pending(&self, order_id: &str) -> (r: Option<usize>)
        ensures
            r is Some <==> self.spec_has_pending(order_id@),
            r matches Some(i) ==> 0 <= i < self.pending@.len() && self.pending@[i as int].id@
                == order_id@,
    {
        let needle: String = order_id.to_owned();
        let n = self.pending.len();
        let mut idx: usize = 0;
        while idx < n
            invariant
                0 <= idx <= n,
                n == self.pending@.len(),
                needle@ == order_id@,
                forall|i: int| 0 <= i < idx ==> #[trigger] self.pending@[i].id@ != order_id@,
            decreases n - idx,
        {
            if self.pending[idx].id == needle {
                return Some(idx);
            }
            idx = idx + 1;
        }
        None
    }

    /// Insert an order into the pending ledger under its identity and
    /// return that identity.  An order with the same identity is
    /// replaced, as in a map insert.
    pub fn submit(&mut self, order: TradeOrder) -> (id: String)
        requires
            old(self).wf(),
        ensures
            final(self).wf(),
            id@ == order.id@,
            final(self).completed == old(self).completed,
            final(self).spec_has_pending(order.id@),
            final(self).pending@.len() >= 1 && final(self).pending@.last() == order,
            !old(self).spec_has_pending(order.id@) ==> final(self).pending@ == old(
                self,
            ).pending@.push(order),
            old(self).spec_has_pending(order.id@) ==> final(self).pending@.len() == old(
                self,
            ).pending@.len(),
    {
        let id = order.id.clone();
        match self.find_pending(id.as_str()) {
            Some(i) => {
                self.pending.remove(i);
                proof {
                    assert forall|a: int, b: int|
                        0 <= a < b < self.pending@.len() implies #[trigger] self.pending@[a].id@
                        != #[trigger] self.pending@[b].id@ by {
                        let s = old(self).pending@;
                        if a < i {
                            if b < i as int {
                                assert(self.pending@[a] == s[a] && self.pending@[b] == s[b]);
                            } else {
                                assert(self.pending@[a] == s[a] && self.pending@[b] == s[b + 1]);
                            }
                        } else {
                            assert(self.pending@[a] == s[a + 1] && self.pending@[b] == s[b + 1]);
                        }
                    }
                }
                self.pending.push(order);
            },
            None => {
                self.pending.push(order);
            },
        }
        proof {
            assert(final(self).pending@.last().id@ == order.id@);
        }
        id
    }

    /// Complete a pending order at an explicit clock reading: derive
    /// the status from the presence of an error, append exactly one
    /// result, and drop the order from the pending ledger.  An unknown
    /// identity changes nothing.
    pub fn complete_at(
        &mut self,
        order_id: &str,
        tx_signature: Option<String>,
        error: Option<String>,
        now: u64,
    )
        requires
            old(self).wf(),
        ensures
            final(self).wf(),
            !old(self).spec_has_pending(order_id@) ==> final(self).pending == old(self).pending
                && final(self).completed == old(self).completed,
            old(self).spec_has_pending(order_id@) ==> final(self).pending@ == old(
                self,
            ).pending@.remove(pending_index_of(old(self).pending@, order_id@)),
            old(self).spec_has_pending(order_id@) ==> final(self).completed@.len() == old(
                self,
            ).completed@.len() + 1 && final(self).completed@.drop_last() == old(self).completed@,
            old(self).spec_has_pending(order_id@) ==> {
                let res = final(self).completed@.last();
                &&& res.order_id@ == order_id@
                &&& res.status == (if error is Some {
                    TradeStatus::Failed
                } else {
                    TradeStatus::Executed
                })
                &&& res.tx_signature == tx_signature
                &&& res.error == error
                &&& res.executed_at == now
                &&& res.actual_amount_lamports == Some(
                    old(self).pending@[pending_index_of(old(self).pending@, order_id@)].amount_lamports,
                )
            },
    {
        match self.find_pending(order_id) {
            None => {},
            Some(i) => {
                proof {
                    let idx = pending_index_of(old(self).pending@, order_id@);
                    assert(0 <= idx < old(self).pending@.len() && old(self).pending@[idx].id@
                        == order_id@);
                    assert(idx == i as int);
                }
                let order = self.pending.remove(i);
                let status = if error.is_some() {
                    TradeStatus::Failed
                } else {
                    TradeStatus::Executed
                };
                let result = TradeResult {
                    order_id: order_id.to_owned(),
                    status,
                    tx_signature,
                    actual_amount_lamports: Some(order.amount_lamports),
                    executed_at: now,
                    error,
                };
                self.completed.push(result);
                proof {
                    let s = old(self).pending@;
                    assert forall|a: int, b: int|
                        0 <= a < b < self.pending@.len() implies #[trigger] self.pending@[a].id@
                        != #[trigger] self.pending@[b].id@ by {
                        if a < i {
                            if b < i as int {
                                assert(self.pending@[a] == s[a] && self.pending@[b] == s[b]);
                            } else {
                                assert(self.pending@[a] == s[a] && self.pending@[b] == s[b + 1]);
                            }
                        } else {
                            assert(self.pending@[a] == s[a + 1] && self.pending@[b] == s[b + 1]);
                        }
                    }
                    assert(final(self).completed@.drop_last() =~= old(self).completed@);
                }
            },
        }
    }

    /// Complete a pending order at the current clock reading.
    pub fn complete(&mut self, order_id: &str, tx_signature: Option<String>, error: Option<String>)
        requires
            old(self).wf(),
        ensures
            final(self).wf(),
            !old(self).spec_has_pending(order_id@) ==> final(self).pending == old(self).pending
                && final(self).completed == old(self).completed,
            old(self).spec_has_pending(order_id@) ==> final(self).pending@ == old(
                self,
            ).pending@.remove(pending_index_of(old(self).pending@, order_id@)),
            old(self).spec_has_pending(order_id@) ==> final(self).completed@.len() == old(
                self,
            ).completed@.len() + 1 && final(self).completed@.drop_last() == old(self).completed@,
            old(self).spec_has_pending(order_id@) ==> {
                let res = final(self).completed@.last();
                &&& res.order_id@ == order_id@
                &&& res.status == (if error is Some {
                    TradeStatus::Failed
                } else {
                    TradeStatus::Executed
                })
                &&& res.tx_signature == tx_signature
                &&& res.error == error
                &&& res.actual_amount_lamports == Some(
                    old(self).pending@[pending_index_of(old(self).pending@, order_id@)].amount_lamports,
                )
            },
    {
        let now = now_secs();
        self.complete_at(order_id, tx_signature, error, now);
    }

    /// The number of pending orders.
    pub fn pending_count(&self) -> (r: usize)
        ensures
            r == self.pending@.len(),
    {
        self.pending.len()
    }

    /// A copy of the completed results, in completion order.
    pub fn completed_results(&self) -> (r: Vec<TradeResult>)
        ensures
            r@ == self.completed@,
    {
        let n = self.completed.len();
        let mut out: Vec<TradeResult> = Vec::new();
        let mut idx: usize = 0;
        while idx < n
            invariant
                0 <= idx <= n,
                n == self.completed@.len(),
                out@ == self.completed@.subrange(0, idx as int),
            decreases n - idx,
        {
            out.push(self.completed[idx].duplicate());
            proof {
                assert(out@ =~= self.completed@.subrange(0, idx + 1));
            }
            idx = idx + 1;
        }
        proof {
            assert(out@ =~= self.completed@);
        }
        out
    }
}

impl Default for TransactionManager {
    fn default() -> (m: Self)
        ensures
            m.wf(),
            m.pending@.len() == 0,
            m.completed@.len() == 0,
    {
        TransactionManager::new()
    }
}

} // verus!
