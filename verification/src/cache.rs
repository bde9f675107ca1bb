//! Time-bounded memoization of analyzer results, keyed by mint address.
//!
//! An entry older than the configured time-to-live is treated as absent
//! and evicted lazily on access.  Insertion overwrites unconditionally.

use vstd::prelude::*;
use dashmap::DashMap;
use crate::analyzer::AiScore;
use crate::clock::now_secs;
use crate::concmap::{cache_entries, cache_map_get, cache_map_insert, cache_map_new, cache_map_remove};

verus! {

/// A cached analyzer result with its insertion time.
#[derive(Debug, Clone)]
pub struct CacheEntry {
    pub score: AiScore,
    pub inserted_at: u64,
}

/// The cache: a concurrent map of mint address to scored entry, plus
/// the time-to-live in seconds.
pub struct ScoreCache {
    pub inner: DashMap<String, CacheEntry>,
    pub ttl_secs: u64,
}

impl ScoreCache {
    /// The entries the cache holds.
    pub open spec fn entries(self) -> Map<Seq<char>, CacheEntry> {
        cache_entries(self.inner)
    }

    /// Whether the entry under `key` is present and still young enough
    /// at clock reading `now`.  An entry stamped in the future counts
    /// as stale.
    pub open spec fn spec_fresh(self, key: Seq<char>, now: u64) -> bool {
        &&& self.entries().dom().contains(key)
        &&& self.entries()[key].inserted_at <= now
        &&& now - self.entries()[key].inserted_at <= self.ttl_secs
    }

    pub fn new(ttl_secs: u64) -> (c: Self)
        ensures
            c.entries() == Map::<Seq<char>, CacheEntry>::empty(),
            c.ttl_secs == ttl_secs,
    {
        ScoreCache { inner: cache_map_new(), ttl_secs }
    }

    /// Look up a mint at an explicit clock reading: a fresh entry is
    /// returned; a stale one is evicted and reads as absent.
    pub fn get_at(&mut self, mint: &str, now: u64) -> (r: Option<AiScore>)
        ensures
            final(self).ttl_secs == old(self).ttl_secs,
            old(self).spec_fresh(mint@, now) ==> (r matches Some(s)
                && s == old(self).entries()[mint@].score
                && final(self).entries() == old(self).entries()),
            !old(self).spec_fresh(mint@, now) ==> r is None,
            !old(self).spec_fresh(mint@, now) && old(self).entries().dom().contains(mint@)
                ==> final(self).entries() == old(self).entries().remove(mint@),
            !old(self).entries().dom().contains(mint@) ==> final(self).entries() == old(
                self,
            ).entries(),
    {
        match cache_map_get(&self.inner, mint) {
            None => None,
            Some(entry) => {
                let stale = entry.inserted_at > now || now - entry.inserted_at > self.ttl_secs;
                if stale {
                    cache_map_remove(&mut self.inner, mint);
                    None
                } else {
                    Some(
                        AiScore {
                            confidence_ppm: entry.score.confidence_ppm,
                            reasoning: entry.score.reasoning.clone(),
                            should_buy: entry.score.should_buy,
                        },
                    )
                }
            },
        }
    }

    /// Look up a mint at the current clock reading.
    pub fn get(&mut self, mint: &str) -> (r: Option<AiScore>)
        ensures
            final(self).ttl_secs == old(self).ttl_secs,
            r matches Some(s) ==> (old(self).entries().dom().contains(mint@)
                && s == old(self).entries()[mint@].score),
            r is Some ==> final(self).entries() == old(self).entries(),
            r is None ==> final(self).entries() == old(self).entries() || final(self).entries()
                == old(self).entries().remove(mint@),
            !old(self).entries().dom().contains(mint@) ==> r is None,
    {
        let now = now_secs();
        self.get_at(mint, now)
    }

    /// Store a score under a mint at an explicit clock reading,
    /// overwriting any previous entry.
    pub fn insert_at(&mut self, mint: String, score: AiScore, now: u64)
        ensures
            final(self).ttl_secs == old(self).ttl_secs,
            final(self).entries() == old(self).entries().insert(
                mint@,
                CacheEntry { score, inserted_at: now },
            ),
    {
        cache_map_insert(&mut self.inner, mint, CacheEntry { score, inserted_at: now });
    }

    /// Store a score under a mint at the current clock reading.
    pub fn insert(&mut self, mint: String, score: AiScore)
        ensures
            final(self).ttl_secs == old(self).ttl_secs,
            final(self).entries().dom() == old(self).entries().dom().insert(mint@),
            final(self).entries()[mint@].score == score,
            forall|k: Seq<char>|
                old(self).entries().dom().contains(k) && k != mint@ ==> final(self).entries()[k]
                    == old(self).entries()[k],
    {
        let now = now_secs();
        self.insert_at(mint, score, now);
    }

    /// Drop the entry under a mint, if any.
    pub fn remove(&mut self, mint: &str)
        ensures
            final(self).ttl_secs == old(self).ttl_secs,
            final(self).entries() == old(self).entries().remove(mint@),
    {
        cache_map_remove(&mut self.inner, mint);
    }
}

impl Default for ScoreCache {
    /// A cache with a five-minute time-to-live.
    fn default() -> (c: Self)
        ensures
            c.entries() == Map::<Seq<char>, CacheEntry>::empty(),
            c.ttl_secs == 300,
    {
        ScoreCache::new(300)
    }
}

} // verus!
