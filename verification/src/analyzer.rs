//! Data model of the external AI analyzer, and the verified part of
//! parsing its replies.
//!
//! The network call itself lives outside the verified core; the core
//! owns the reply's shape: locating the JSON object inside the reply
//! text, and the scores the analyzer hands back.

use vstd::prelude::*;

verus! {

/// The analyzer's verdict on one mint signal.
#[derive(Debug, Clone)]
pub struct AiScore {
    pub confidence_ppm: u64,
    pub reasoning: String,
    pub should_buy: bool,
}

/// The analyzer's reply to an [`AnalysisPrompt`].
#[derive(Debug, Clone)]
pub struct AiAnalysis {
    pub score_ppm: u64,
    pub action: String,
    pub reasoning: String,
}

/// A two-part prompt for the analyzer.
#[derive(Debug, Clone)]
pub struct AnalysisPrompt {
    pub system: String,
    pub user: String,
}

impl AnalysisPrompt {
    pub fn new(system: String, user: String) -> (p: Self)
        ensures
            p.system == system,
            p.user == user,
    {
        AnalysisPrompt { system, user }
    }
}

/// The opening brace of a JSON object, as a byte.
pub const BRACE_OPEN: u8 = 123;

/// The closing brace of a JSON object, as a byte.
pub const BRACE_CLOSE: u8 = 125;

/// Locate the JSON object embedded in an analyzer reply: the span from
/// the first `{` to just past the last `}`.  `None` when the reply
/// holds no `{` or no `}` at all.
pub fn json_object_span(bytes: &[u8]) -> (r: Option<(usize, usize)>)
    ensures
        r is Some <==> (exists|i: int| 0 <= i < bytes@.len() && bytes@[i] == BRACE_OPEN)
            && (exists|j: int| 0 <= j < bytes@.len() && bytes@[j] == BRACE_CLOSE),
        r matches Some((s, e)) ==> {
            &&& 0 <= s < bytes@.len()
            &&& 1 <= e <= bytes@.len()
            &&& bytes@[s as int] == BRACE_OPEN
            &&& bytes@[e - 1] == BRACE_CLOSE
            &&& forall|i: int| 0 <= i < s ==> bytes@[i] != BRACE_OPEN
            &&& forall|j: int| e <= j < bytes@.len() ==> bytes@[j] != BRACE_CLOSE
        },
{
    let n = bytes.len();
    let mut start: usize = 0;
    let mut found_start = false;
    while start < n && !found_start
        invariant
            0 <= start <= n,
            n == bytes@.len(),
            forall|i: int| 0 <= i < start ==> bytes@[i] != BRACE_OPEN,
            found_start ==> start < n && bytes@[start as int] == BRACE_OPEN,
        decreases n - start + (if found_start { 0int } else { 1int }),
    {
        if bytes[start] == BRACE_OPEN {
            found_start = true;
        } else {
            start = start + 1;
        }
    }
    if !found_start {
        return None;
    }
    let mut last: usize = n;
    while last > 0
        invariant
            0 <= last <= n,
            n == bytes@.len(),
            found_start,
            start < n,
            bytes@[start as int] == BRACE_OPEN,
            forall|i: int| 0 <= i < start ==> bytes@[i] != BRACE_OPEN,
            forall|j: int| last <= j < n ==> bytes@[j] != BRACE_CLOSE,
        decreases last,
    {
        if bytes[last - 1] == BRACE_CLOSE {
            return Some((start, last));
        }
        last = last - 1;
    }
    None
}

} // verus!
