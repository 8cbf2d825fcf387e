//! A keyed state store in a hash map under one lock.

use core::hash::{BuildHasher, Hash};
use std::collections::HashMap;
use vstd::prelude::*;
use crate::clock::Clock;
use crate::middleware::NoOpMiddleware;
use crate::nanos::Nanos;
use crate::quota::Quota;
use crate::state::in_memory::InMemoryState;
use crate::state::keyed::{DefaultHasher, ShrinkableKeyedStateStore};
use crate::state::{RateLimiter, StateStore};

verus! {

/// `parking_lot::RawMutex`, the lock inside a `parking_lot::Mutex`.
#[verifier::external_type_specification]
#[verifier::external_body]
pub struct ExRawMutex(parking_lot::RawMutex);

/// `lock_api::Mutex`, which `parking_lot::Mutex` is made of: a value behind
/// a lock. What it holds can change under a shared reference.
#[verifier::external_type_specification]
#[verifier::external_body]
#[verifier::reject_recursive_types(R)]
#[verifier::reject_recursive_types(T)]
pub struct ExMutex<R, T: ?Sized>(parking_lot::lock_api::Mutex<R, T>);

/// The locked map: a `parking_lot::MutexGuard`, the access to the map that
/// one thread has while it holds the lock. The lock is given back when this
/// value is dropped. Nothing is stated of what the guard holds: the map
/// behind it changes between one locking and the next.
#[verifier::external_body]
#[verifier::reject_recursive_types(K)]
#[verifier::reject_recursive_types(S)]
struct LockedMap<'a, K, S> {
    guard: parking_lot::MutexGuard<'a, HashMap<K, InMemoryState, S>>,
}

/// A keyed state store in a hash map under one lock: safe between threads,
/// and slow where many of them use it at once.
pub type HashMapStateStore<K, S = DefaultHasher> = parking_lot::Mutex<HashMap<K, InMemoryState, S>>;

/// `Mutex::lock`: waits for the lock and hands out the map. A thread that
/// holds the lock already waits for ever, so no function of this module
/// locks while it holds a `LockedMap`, and a decision must not use the
/// store that asks it.
#[verifier::external_body]
fn lock<'a, K, S>(store: &'a parking_lot::Mutex<HashMap<K, InMemoryState, S>>) -> LockedMap<'a, K, S> {
    LockedMap { guard: store.lock() }
}

/// `HashMap::get` on the locked map: the state at a key, if there is one.
#[verifier::external_body]
fn looked_up<'a, K: Hash + Eq, S: BuildHasher>(
    map: &'a LockedMap<'_, K, S>,
    key: &K,
) -> Option<&'a InMemoryState> {
    map.guard.get(key)
}

/// `HashMap::entry` and `Entry::or_default` on the locked map: the state
/// at a key, which is made as one never used if there is none.
#[verifier::external_body]
fn inserted<'a, K: Hash + Eq, S: BuildHasher>(
    map: &'a mut LockedMap<'_, K, S>,
    key: K,
) -> &'a InMemoryState {
    map.guard.entry(key).or_default()
}

/// `HashMap::retain` on the locked map, keeping the entries whose state is
/// newer than `drop_below`.
#[verifier::external_body]
fn retain_newer<K: Hash + Eq, S: BuildHasher>(
    map: &mut LockedMap<'_, K, S>,
    drop_below: Nanos,
) {
    map.guard.retain(|_, v| v.is_newer_than(drop_below));
}

/// `HashMap::shrink_to_fit` on the locked map.
#[verifier::external_body]
fn shrink<K: Hash + Eq, S: BuildHasher>(map: &mut LockedMap<'_, K, S>) {
    map.guard.shrink_to_fit();
}

/// `HashMap::len` on the locked map.
#[verifier::external_body]
fn count<K, S>(map: &LockedMap<'_, K, S>) -> usize {
    map.guard.len()
}

/// `HashMap::is_empty` on the locked map.
#[verifier::external_body]
fn none_left<K, S>(map: &LockedMap<'_, K, S>) -> bool {
    map.guard.is_empty()
}

/// `HashMap::with_hasher` and `Mutex::new`: an empty map behind a lock that
/// nobody holds.
#[verifier::external_body]
fn empty_map<K, S>(hasher: S) -> parking_lot::Mutex<HashMap<K, InMemoryState, S>> {
    parking_lot::Mutex::new(HashMap::with_hasher(hasher))
}

impl<K: Hash + Eq + Clone, S: BuildHasher> StateStore for parking_lot::Mutex<HashMap<K, InMemoryState, S>> {
    type Key = K;

    fn measure_and_replace<T, F, E>(&self, key: &K, f: F) -> (r: Result<T, E>) where
        F: Fn(Option<Nanos>) -> Result<(T, Nanos), E>,
     {
        let mut map = lock(self);
        match looked_up(&map, key) {
            Some(state) => {
                return state.measure_and_replace_one(f);
            },
            None => {},
        }
        let state = inserted(&mut map, key.clone());
        state.measure_and_replace_one(f)
    }

    fn measure_and_peek<T, F, E>(&self, key: &K, f: F) -> (r: Result<T, E>) where
        F: Fn(Option<Nanos>) -> Result<(T, Nanos), E>,
     {
        let map = lock(self);
        match looked_up(&map, key) {
            Some(state) => state.measure_and_peek_one(f),
            None => InMemoryState::default().measure_and_peek_one(f),
        }
    }

    fn reset(&self, key: &K) {
        let map = lock(self);
        match looked_up(&map, key) {
            Some(state) => state.clear(),
            None => {},
        }
    }
}

impl<K: Hash + Eq + Clone, S: BuildHasher> ShrinkableKeyedStateStore<K> for parking_lot::Mutex<
    HashMap<K, InMemoryState, S>,
> {
    fn retain_recent(&self, drop_below: Nanos) {
        let mut map = lock(self);
        retain_newer(&mut map, drop_below);
    }

    fn shrink_to_fit(&self) {
        let mut map = lock(self);
        shrink(&mut map);
    }

    fn len(&self) -> usize {
        let map = lock(self);
        count(&map)
    }

    fn is_empty(&self) -> bool {
        let map = lock(self);
        none_left(&map)
    }
}

impl<K, C> RateLimiter<K, HashMapStateStore<K>, C, NoOpMiddleware> where K: Hash + Eq + Clone, C: Clock {
    /// A keyed rate limiter for `quota` that reads `clock` and keeps its
    /// states in a hash map with the default hasher.
    pub fn hashmap_with_clock(quota: Quota, clock: C) -> (r: Self)
        requires
            quota.wf(),
        ensures
            r.enforces(quota),
    {
        let state: HashMapStateStore<K> = empty_map(std::hash::RandomState::new());
        RateLimiter::new(quota, state, clock)
    }
}

impl<K, S, C> RateLimiter<K, HashMapStateStore<K, S>, C, NoOpMiddleware> where
    K: Hash + Eq + Clone,
    S: BuildHasher,
    C: Clock,
 {
    /// A keyed rate limiter for `quota` that reads `clock` and keeps its
    /// states in a hash map with the given hasher.
    pub fn hashmap_with_clock_and_hasher(quota: Quota, clock: C, hasher: S) -> (r: Self)
        requires
            quota.wf(),
        ensures
            r.enforces(quota),
    {
        let state: HashMapStateStore<K, S> = empty_map(hasher);
        RateLimiter::new(quota, state, clock)
    }
}

} // verus!
