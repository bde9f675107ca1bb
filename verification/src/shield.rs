//! Signature sanity check in front of the submission client.

use vstd::prelude::*;
use crate::errors::HydraError;

verus! {

/// Gate that refuses empty transaction signatures.
pub struct Shield;

impl Shield {
    pub fn new() -> Self {
        Shield
    }

    /// Accepts exactly the non-empty signatures.
    pub fn verify_signature(&self, signature: &str) -> (r: Result<(), HydraError>)
        ensures
            r is Ok <==> signature@.len() != 0,
            r matches Err(e) ==> e is Execution,
    {
        if signature.is_empty() {
            Err(HydraError::Execution("empty signature is invalid".to_owned()))
        } else {
            Ok(())
        }
    }
}

impl Default for Shield {
    fn default() -> Self {
        Shield::new()
    }
}

} // verus!
