//! The reference backend: records kept in this process, in a `DashMap`.

use vstd::prelude::*;
use dashmap::DashMap;
use crate::limiter::{RateLimitError, Records, StorageBackend, TokenState};

verus! {

/// `dashmap::DashMap`, a sharded hash map. Nothing inside it is visible to
/// the verifier; what it holds is spoken of through `entries`.
#[verifier::external_type_specification]
#[verifier::external_body]
#[verifier::reject_recursive_types(K)]
#[verifier::reject_recursive_types(V)]
#[verifier::reject_recursive_types(S)]
pub struct ExDashMap<K, V, S>(DashMap<K, V, S>);

/// The entries of a `DashMap` of bucket states, each key by its characters.
pub uninterp spec fn entries(map: DashMap<String, TokenState>) -> Map<Seq<char>, TokenState>;

/// Makes a map with `DashMap::new`. It is claimed to have no entries.
#[verifier::external_body]
fn dashmap_new() -> (fresh: DashMap<String, TokenState>)
    ensures
        entries(fresh) == Records::empty(),
{
    DashMap::new()
}

/// Looks `key` up with `DashMap::get` and copies the state out of the guard
/// that it hands back. The result is claimed to be the state stored under
/// `key`, and `None` where the map has no such key. The guard is dropped
/// before the function returns, so no lock on the map outlives the call.
#[verifier::external_body]
fn dashmap_get(map: &DashMap<String, TokenState>, key: &str) -> (found: Option<TokenState>)
    ensures
        found == entries(*map).get(key@),
{
    map.get(key).map(|entry| *entry.value())
}

/// Stores `state` under `key` with `DashMap::insert`. It is claimed to add
/// the entry, or to replace the state of the entry that has this key, and to
/// leave every other entry as it was.
#[verifier::external_body]
fn dashmap_insert(map: &mut DashMap<String, TokenState>, key: String, state: TokenState)
    ensures
        entries(*final(map)) == entries(*old(map)).insert(key@, state),
{
    map.insert(key, state);
}

/// A backend that keeps its records in memory, for as long as it lives.
/// Reading and writing it never fails.
#[derive(Debug)]
pub struct InMemoryStore {
    map: DashMap<String, TokenState>,
}

impl InMemoryStore {
    /// A backend without records.
    pub fn new() -> (store: Self)
        ensures
            store.records() == Records::empty(),
            store.reliable(),
    {
        InMemoryStore { map: dashmap_new() }
    }
}

impl Default for InMemoryStore {
    /// A backend without records.
    fn default() -> (store: Self)
        ensures
            store.records() == Records::empty(),
            store.reliable(),
    {
        InMemoryStore::new()
    }
}

impl StorageBackend for InMemoryStore {
    closed spec fn records(&self) -> Records {
        entries(self.map)
    }

    /// Memory does not fail.
    open spec fn reliable(&self) -> bool {
        true
    }

    fn get(&self, key: &str) -> (r: Result<Option<TokenState>, RateLimitError>) {
        Ok(dashmap_get(&self.map, key))
    }

    fn set(&mut self, key: &str, state: &TokenState) -> (r: Result<(), RateLimitError>) {
        dashmap_insert(&mut self.map, key.to_owned(), *state);
        Ok(())
    }
}

} // verus!
