//! The concurrent map that backs the position registry and the score
//! cache.
//!
//! `dashmap::DashMap` is a sharded concurrent hash map; Verus cannot
//! look inside it, so the type is declared opaque and each method the
//! core calls goes through a trusted wrapper.  What a map holds is
//! named by an uninterpreted contents function per instantiation, and
//! every wrapper's contract says over that name what the crate's source
//! shows the method does.

use vstd::prelude::*;
use dashmap::DashMap;
use crate::types::Position;
use crate::cache::CacheEntry;

verus! {

#[verifier::external_type_specification]
#[verifier::external_body]
#[verifier::reject_recursive_types(K)]
#[verifier::reject_recursive_types(V)]
#[verifier::reject_recursive_types(S)]
pub struct ExDashMap<K, V, S>(DashMap<K, V, S>);

/// The entries a position map holds, keyed by the position identity.
pub uninterp spec fn position_entries(m: DashMap<String, Position>) -> Map<Seq<char>, Position>;

/// The contents of a position map that holds nothing.
pub open spec fn empty_positions() -> Map<Seq<char>, Position> {
    Map::empty()
}

/// Relies on `dashmap::DashMap::new`: a fresh map holds nothing.
#[verifier::external_body]
pub(crate) fn position_map_new() -> (m: DashMap<String, Position>)
    ensures
        position_entries(m) == empty_positions(),
{
    DashMap::new()
}

/// Relies on `dashmap::DashMap::insert`: afterwards the key maps to the
/// given value; no other entry changes.
#[verifier::external_body]
pub(crate) fn position_map_insert(m: &mut DashMap<String, Position>, key: String, value: Position)
    ensures
        position_entries(*final(m)) == position_entries(*old(m)).insert(key@, value),
{
    m.insert(key, value);
}

/// Relies on `dashmap::DashMap::remove`: returns the value stored under
/// the key, if any, and afterwards the map no longer holds the key.
#[verifier::external_body]
pub(crate) fn position_map_remove(m: &mut DashMap<String, Position>, key: &str) -> (r: Option<Position>)
    ensures
        r is Some <==> position_entries(*old(m)).dom().contains(key@),
        r matches Some(p) ==> p == position_entries(*old(m))[key@],
        position_entries(*final(m)) == position_entries(*old(m)).remove(key@),
{
    m.remove(key).map(|kv: (String, Position)| kv.1)
}

/// Relies on `dashmap::DashMap::get`: returns a copy of the value
/// stored under the key, if any; the map is unchanged.
#[verifier::external_body]
pub(crate) fn position_map_get(m: &DashMap<String, Position>, key: &str) -> (r: Option<Position>)
    ensures
        r is Some <==> position_entries(*m).dom().contains(key@),
        r matches Some(p) ==> p == position_entries(*m)[key@],
{
    m.get(key).map(|entry| entry.value().clone())
}

/// Relies on `dashmap::DashMap::len`: the number of entries the map
/// holds.
#[verifier::external_body]
pub(crate) fn position_map_len(m: &DashMap<String, Position>) -> (r: usize)
    requires
        position_entries(*m).dom().finite(),
    ensures
        r == position_entries(*m).dom().len(),
{
    m.len()
}

/// Relies on `dashmap::DashMap::iter`: one copy of every stored entry,
/// in an unspecified order.
#[verifier::external_body]
pub(crate) fn position_map_items(m: &DashMap<String, Position>) -> (r: Vec<(String, Position)>)
    requires
        position_entries(*m).dom().finite(),
    ensures
        r@.len() == position_entries(*m).dom().len(),
        forall|i: int| #![trigger r@[i]]
            0 <= i < r@.len() ==> position_entries(*m).dom().contains(r@[i].0@)
                && position_entries(*m)[r@[i].0@] == r@[i].1,
{
    m.iter().map(|entry| (entry.key().clone(), entry.value().clone())).collect()
}

/// The entries a score-cache map holds, keyed by the mint address.
pub uninterp spec fn cache_entries(m: DashMap<String, CacheEntry>) -> Map<Seq<char>, CacheEntry>;

/// The contents of a score-cache map that holds nothing.
pub open spec fn empty_cache() -> Map<Seq<char>, CacheEntry> {
    Map::empty()
}

/// Relies on `dashmap::DashMap::new`: a fresh map holds nothing.
#[verifier::external_body]
pub(crate) fn cache_map_new() -> (m: DashMap<String, CacheEntry>)
    ensures
        cache_entries(m) == empty_cache(),
{
    DashMap::new()
}

/// Relies on `dashmap::DashMap::insert`: afterwards the key maps to the
/// given value; no other entry changes.
#[verifier::external_body]
pub(crate) fn cache_map_insert(m: &mut DashMap<String, CacheEntry>, key: String, value: CacheEntry)
    ensures
        cache_entries(*final(m)) == cache_entries(*old(m)).insert(key@, value),
{
    m.insert(key, value);
}

/// Relies on `dashmap::DashMap::get`: returns a copy of the value
/// stored under the key, if any; the map is unchanged.
#[verifier::external_body]
pub(crate) fn cache_map_get(m: &DashMap<String, CacheEntry>, key: &str) -> (r: Option<CacheEntry>)
    ensures
        r is Some <==> cache_entries(*m).dom().contains(key@),
        r matches Some(e) ==> e == cache_entries(*m)[key@],
{
    m.get(key).map(|entry| entry.value().clone())
}

/// Relies on `dashmap::DashMap::remove`: afterwards the map no longer
/// holds the key.
#[verifier::external_body]
pub(crate) fn cache_map_remove(m: &mut DashMap<String, CacheEntry>, key: &str)
    ensures
        cache_entries(*final(m)) == cache_entries(*old(m)).remove(key@),
{
    m.remove(key);
}

} // verus!
