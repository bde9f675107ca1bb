//! Generation of fresh identifiers for signals, orders and positions.

use vstd::prelude::*;

verus! {

/// Relies on `uuid::Uuid::new_v4`: a fresh random version-4 UUID,
/// rendered in the canonical hyphenated text form.  The value is random,
/// so nothing is promised of it.
#[verifier::external_body]
pub fn fresh_id() -> String {
    uuid::Uuid::new_v4().to_string()
}

} // verus!
