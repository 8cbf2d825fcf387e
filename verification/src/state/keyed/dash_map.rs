//! A keyed state store in a sharded concurrent map.

use core::hash::{BuildHasher, Hash};
use vstd::prelude::*;
use crate::clock::Clock;
use crate::middleware::NoOpMiddleware;
use crate::nanos::Nanos;
use crate::quota::Quota;
use crate::state::in_memory::InMemoryState;
use crate::state::keyed::ShrinkableKeyedStateStore;
use crate::state::{RateLimiter, StateStore};

verus! {

/// `dashmap::DashMap`, a concurrent map of many shards, each under a lock
/// of its own. What it holds can change under a shared reference.
#[verifier::external_type_specification]
#[verifier::external_body]
#[verifier::reject_recursive_types(K)]
#[verifier::reject_recursive_types(V)]
#[verifier::reject_recursive_types(S)]
pub struct ExDashMap<K, V, S>(dashmap::DashMap<K, V, S>);

/// `dashmap::mapref::one::Ref`, a shared reference to one entry that keeps
/// the entry's shard locked for reading.
#[verifier::external_type_specification]
#[verifier::external_body]
#[verifier::reject_recursive_types(K)]
#[verifier::reject_recursive_types(V)]
pub struct ExRef<'a, K, V>(dashmap::mapref::one::Ref<'a, K, V>);

/// `dashmap::mapref::one::RefMut`, a reference to one entry that keeps the
/// entry's shard locked for writing.
#[verifier::external_type_specification]
#[verifier::external_body]
#[verifier::reject_recursive_types(K)]
#[verifier::reject_recursive_types(V)]
pub struct ExRefMut<'a, K, V>(dashmap::mapref::one::RefMut<'a, K, V>);

/// A keyed state store in a concurrent map.
pub type DashMapStateStore<K, S = std::hash::RandomState> = dashmap::DashMap<K, InMemoryState, S>;

/// `DashMap::get`: the entry at a key, if the map has one now. The entry
/// keeps its part of the map locked until it is dropped, and a thread that
/// asks again for a part it holds waits for ever: so no function of this
/// module asks while it holds an entry, and a decision must not use the
/// store that asks it.
#[verifier::external_body]
fn get<'a, K: Hash + Eq, S: BuildHasher + Clone>(
    map: &'a dashmap::DashMap<K, InMemoryState, S>,
    key: &K,
) -> Option<dashmap::mapref::one::Ref<'a, K, InMemoryState>> {
    map.get(key)
}

/// `Ref::value`: the state of an entry that was found.
#[verifier::external_body]
fn found<'a, K: Hash + Eq>(entry: &'a dashmap::mapref::one::Ref<'_, K, InMemoryState>) -> &'a InMemoryState {
    entry.value()
}

/// `DashMap::entry` and `Entry::or_default`: the entry at a key, which is
/// made with a state never used if the map has none.
#[verifier::external_body]
fn entry_or_default<'a, K: Hash + Eq, S: BuildHasher + Clone>(
    map: &'a dashmap::DashMap<K, InMemoryState, S>,
    key: K,
) -> dashmap::mapref::one::RefMut<'a, K, InMemoryState> {
    map.entry(key).or_default()
}

/// `RefMut::value`: the state of an entry that was found or made.
#[verifier::external_body]
fn entered<'a, K: Hash + Eq>(entry: &'a dashmap::mapref::one::RefMut<'_, K, InMemoryState>) -> &'a InMemoryState {
    entry.value()
}

/// `DashMap::retain`, keeping the entries whose state is newer than
/// `drop_below`.
#[verifier::external_body]
fn retain_newer<K: Hash + Eq, S: BuildHasher + Clone>(map: &dashmap::DashMap<K, InMemoryState, S>, drop_below: Nanos) {
    map.retain(|_, v| v.is_newer_than(drop_below));
}

/// `DashMap::shrink_to_fit`.
#[verifier::external_body]
fn shrink<K: Hash + Eq, S: BuildHasher + Clone>(map: &dashmap::DashMap<K, InMemoryState, S>) {
    map.shrink_to_fit();
}

/// `DashMap::len`: the number of entries, summed over the shards one
/// after the other.
#[verifier::external_body]
fn count<K: Hash + Eq, S: BuildHasher + Clone>(map: &dashmap::DashMap<K, InMemoryState, S>) -> usize {
    map.len()
}

/// `DashMap::is_empty`.
#[verifier::external_body]
fn none_left<K: Hash + Eq, S: BuildHasher + Clone>(map: &dashmap::DashMap<K, InMemoryState, S>) -> bool {
    map.is_empty()
}

/// `DashMap::with_hasher`: an empty map.
#[verifier::external_body]
fn empty_map<K: Hash + Eq, S: BuildHasher + Clone>(hasher: S) -> dashmap::DashMap<K, InMemoryState, S> {
    dashmap::DashMap::with_hasher(hasher)
}

impl<K: Hash + Eq + Clone, S: BuildHasher + Clone> StateStore for dashmap::DashMap<K, InMemoryState, S> {
    type Key = K;

    fn measure_and_replace<T, F, E>(&self, key: &K, f: F) -> (r: Result<T, E>) where
        F: Fn(Option<Nanos>) -> Result<(T, Nanos), E>,
     {
        match get(self, key) {
            Some(entry) => {
                return found(&entry).measure_and_replace_one(f);
            },
            None => {},
        }
        let entry = entry_or_default(self, key.clone());
        entered(&entry).measure_and_replace_one(f)
    }

    fn measure_and_peek<T, F, E>(&self, key: &K, f: F) -> (r: Result<T, E>) where
        F: Fn(Option<Nanos>) -> Result<(T, Nanos), E>,
     {
        match get(self, key) {
            Some(entry) => found(&entry).measure_and_peek_one(f),
            None => InMemoryState::default().measure_and_peek_one(f),
        }
    }

    fn reset(&self, key: &K) {
        match get(self, key) {
            Some(entry) => found(&entry).clear(),
            None => {},
        }
    }
}

impl<K: Hash + Eq + Clone, S: BuildHasher + Clone> ShrinkableKeyedStateStore<K> for dashmap::DashMap<K, InMemoryState, S> {
    fn retain_recent(&self, drop_below: Nanos) {
        retain_newer(self, drop_below);
    }

    fn shrink_to_fit(&self) {
        shrink(self);
    }

    fn len(&self) -> usize {
        count(self)
    }

    fn is_empty(&self) -> bool {
        none_left(self)
    }
}

impl<K, C> RateLimiter<K, DashMapStateStore<K>, C, NoOpMiddleware> where K: Hash + Eq + Clone, C: Clock {
    /// A keyed rate limiter for `quota` that reads `clock` and keeps its
    /// states in a concurrent map with the default hasher.
    pub fn dashmap_with_clock(quota: Quota, clock: C) -> (r: Self)
        requires
            quota.wf(),
        ensures
            r.enforces(quota),
    {
        let state: DashMapStateStore<K> = empty_map(std::hash::RandomState::new());
        RateLimiter::new(quota, state, clock)
    }
}

impl<K, S, C> RateLimiter<K, DashMapStateStore<K, S>, C, NoOpMiddleware> where
    K: Hash + Eq + Clone,
    S: BuildHasher + Clone,
    C: Clock,
 {
    /// A keyed rate limiter for `quota` that reads `clock` and keeps its
    /// states in a concurrent map with the given hasher.
    pub fn dashmap_with_clock_and_hasher(quota: Quota, clock: C, hasher: S) -> (r: Self)
        requires
            quota.wf(),
        ensures
            r.enforces(quota),
    {
        let state: DashMapStateStore<K, S> = empty_map(hasher);
        RateLimiter::new(quota, state, clock)
    }
}

} // verus!
