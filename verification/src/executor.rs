//! Signal execution against a pluggable backend.
//!
//! The executor turns an approved signal into an order, records it in
//! the transaction ledger, hands it to the execution backend, and
//! completes the ledger entry with the backend's outcome.  The backend
//! is a trait the embedder implements (a live client, or a test
//! double); whatever it returns, the ledger gains exactly one result
//! whose status reflects the outcome.

use vstd::prelude::*;
use vstd::string::StringExecFns;
use crate::errors::HydraError;
use crate::transaction::TransactionManager;
use crate::types::{OrderType, Signal, SignalType, TradeOrder, TradeStatus};

verus! {

/// Executes one order and returns an execution reference, or an error.
/// Implemented by the embedder; the core treats a failure as one failed
/// attempt, never as fatal.
pub trait ExecutionBackend {
    fn execute_order(&self, order: &TradeOrder) -> Result<String, HydraError>;
}

/// Test double that accepts every order.
pub struct MockBackend;

impl ExecutionBackend for MockBackend {
    fn execute_order(&self, order: &TradeOrder) -> Result<String, HydraError> {
        let mut sig = "mock_tx_".to_owned();
        sig.append(order.id.as_str());
        Ok(sig)
    }
}

/// Drives a signal through order creation, submission and completion.
pub struct TradeExecutor<B: ExecutionBackend> {
    pub manager: TransactionManager,
    pub backend: B,
    pub position_size_lamports: u64,
}

impl<B: ExecutionBackend> TradeExecutor<B> {
    pub fn new(manager: TransactionManager, backend: B, position_size_lamports: u64) -> (e: Self)
        ensures
            e.manager == manager,
            e.position_size_lamports == position_size_lamports,
    {
        TradeExecutor { manager, backend, position_size_lamports }
    }

    /// The transaction ledger, for inspection.
    pub fn manager(&self) -> (r: &TransactionManager)
        ensures
            r == &self.manager,
    {
        &self.manager
    }

    /// Execute one signal.  A Hold signal is skipped and changes
    /// nothing.  A Buy or Sell signal produces exactly one new ledger
    /// result: Executed with a signature when the backend accepted the
    /// order, Failed with the error text when it did not — in which
    /// case the backend's error is also returned.
    pub fn execute_signal(&mut self, signal: &Signal) -> (r: Result<(), HydraError>)
        requires
            old(self).manager.wf(),
        ensures
            final(self).manager.wf(),
            final(self).position_size_lamports == old(self).position_size_lamports,
            signal.signal_type is Hold ==> r is Ok && final(self).manager == old(self).manager,
            signal.signal_type != SignalType::Hold ==> {
                let results = final(self).manager.completed@;
                &&& results.len() == old(self).manager.completed@.len() + 1
                &&& results.drop_last() == old(self).manager.completed@
                &&& (r is Ok <==> results.last().status == TradeStatus::Executed)
                &&& (r is Err ==> results.last().status == TradeStatus::Failed
                    && results.last().error is Some)
                &&& (r is Ok ==> results.last().tx_signature is Some)
                &&& results.last().actual_amount_lamports == Some(
                    old(self).position_size_lamports,
                )
            },
    {
        let order_type = match signal.signal_type {
            SignalType::Buy => OrderType::Buy,
            SignalType::Sell => OrderType::Sell,
            SignalType::Hold => {
                return Ok(());
            },
        };
        let order = TradeOrder::new(signal, order_type, self.position_size_lamports, 100);
        let id = self.manager.submit(order.duplicate());
        proof {
            let p = self.manager.pending@;
            let idx = crate::transaction::pending_index_of(p, order.id@);
            assert(self.manager.spec_has_pending(order.id@));
            assert(0 <= idx < p.len() && p[idx].id@ == order.id@);
            if idx != p.len() - 1 {
                assert(p[idx].id@ != p[p.len() - 1].id@);
            }
            assert(p[idx] == order);
        }
        match self.backend.execute_order(&order) {
            Ok(sig) => {
                self.manager.complete(id.as_str(), Some(sig), None);
                Ok(())
            },
            Err(e) => {
                let msg = e.message();
                self.manager.complete(id.as_str(), None, Some(msg));
                Err(e)
            },
        }
    }
}

} // verus!
