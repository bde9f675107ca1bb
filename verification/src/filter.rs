//! Confidence and type filtering of scored signals.

use vstd::prelude::*;
use crate::types::{Signal, SignalType};

verus! {

/// Keeps the signals with enough confidence and an allowed type.
pub struct SignalFilter {
    pub min_confidence_ppm: u64,
    pub allowed_types: Vec<SignalType>,
}

impl SignalFilter {
    /// Whether the filter keeps a signal.
    pub open spec fn spec_keeps(self, s: Signal) -> bool {
        s.confidence_ppm >= self.min_confidence_ppm && self.allowed_types@.contains(s.signal_type)
    }

    pub fn new(min_confidence_ppm: u64, allowed_types: Vec<SignalType>) -> (f: Self)
        ensures
            f.min_confidence_ppm == min_confidence_ppm,
            f.allowed_types == allowed_types,
    {
        SignalFilter { min_confidence_ppm, allowed_types }
    }

    /// Whether a signal's type is among the allowed ones.
    fn type_allowed(&self, t: SignalType) -> (r: bool)
        ensures
            r == self.allowed_types@.contains(t),
    {
        let n = self.allowed_types.len();
        let mut idx: usize = 0;
        while idx < n
            invariant
                0 <= idx <= n,
                n == self.allowed_types@.len(),
                forall|i: int| 0 <= i < idx ==> self.allowed_types@[i] != t,
            decreases n - idx,
        {
            if self.allowed_types[idx] == t {
                return true;
            }
            idx = idx + 1;
        }
        proof {
            assert(!self.allowed_types@.contains(t));
        }
        false
    }

    /// Keep exactly the signals with confidence at or above the
    /// threshold and an allowed type, in their original order.
    pub fn apply(&self, signals: Vec<Signal>) -> (r: Vec<Signal>)
        ensures
            r@ == signals@.filter(|s: Signal| self.spec_keeps(s)),
    {
        let ghost pred = |s: Signal| self.spec_keeps(s);
        let n = signals.len();
        let mut out: Vec<Signal> = Vec::new();
        let mut idx: usize = 0;
        while idx < n
            invariant
                0 <= idx <= n,
                n == signals@.len(),
                pred == (|s: Signal| self.spec_keeps(s)),
                out@ == signals@.subrange(0, idx as int).filter(pred),
            decreases n - idx,
        {
            let keep = signals[idx].confidence_ppm >= self.min_confidence_ppm && self.type_allowed(
                signals[idx].signal_type,
            );
            proof {
                let t = signals@.subrange(0, idx + 1);
                assert(t.drop_last() =~= signals@.subrange(0, idx as int));
                assert(t.last() == signals@[idx as int]);
                reveal(Seq::filter);
            }
            if keep {
                out.push(signals[idx].duplicate());
            }
            idx = idx + 1;
        }
        proof {
            assert(signals@.subrange(0, n as int) =~= signals@);
        }
        out
    }
}

} // verus!
