//! Reconnect backoff for the market-data stream.
//!
//! The same exponential-backoff formula as the submission engine, with
//! an attempt counter that an explicit `reset` clears after a
//! successful reconnection.  The actual waiting is I/O and lives
//! outside the verified core.

use vstd::prelude::*;
use crate::retry::{backoff_ms, spec_backoff};

verus! {

/// Backoff state of the stream reconnector.
pub struct StreamReconnect {
    pub base_delay_ms: u64,
    pub max_delay_ms: u64,
    pub attempt: u32,
}

impl StreamReconnect {
    pub fn new(base_delay_ms: u64, max_delay_ms: u64) -> (s: Self)
        ensures
            s.base_delay_ms == base_delay_ms,
            s.max_delay_ms == max_delay_ms,
            s.attempt == 0,
    {
        StreamReconnect { base_delay_ms, max_delay_ms, attempt: 0 }
    }

    /// The delay for the current attempt; the attempt counter grows by
    /// one (saturating).
    pub fn next_backoff(&mut self) -> (d: u64)
        ensures
            d == spec_backoff(
                old(self).base_delay_ms,
                old(self).max_delay_ms,
                old(self).attempt,
            ),
            final(self).attempt == if old(self).attempt < u32::MAX {
                (old(self).attempt + 1) as u32
            } else {
                u32::MAX
            },
            final(self).base_delay_ms == old(self).base_delay_ms,
            final(self).max_delay_ms == old(self).max_delay_ms,
    {
        let d = backoff_ms(self.base_delay_ms, self.max_delay_ms, self.attempt);
        self.attempt = if self.attempt < u32::MAX {
            self.attempt + 1
        } else {
            u32::MAX
        };
        d
    }

    /// Clear the attempt counter after a successful reconnection.
    pub fn reset(&mut self)
        ensures
            final(self).attempt == 0,
            final(self).base_delay_ms == old(self).base_delay_ms,
            final(self).max_delay_ms == old(self).max_delay_ms,
    {
        self.attempt = 0;
    }
}

impl Default for StreamReconnect {
    /// The stock reconnector: 1 s base delay, 60 s ceiling.
    fn default() -> (s: Self)
        ensures
            s.base_delay_ms == 1000,
            s.max_delay_ms == 60_000,
            s.attempt == 0,
    {
        StreamReconnect::new(1000, 60_000)
    }
}

} // verus!
