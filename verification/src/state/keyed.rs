//! Keyed rate limiters: those that hold one state for each key.
//!
//! A keyed limiter has one quota and applies it to each key by itself, as
//! for a rate limit that each user of a service has for their own.

pub mod dash_map;
pub mod hashmap;

pub use dash_map::DashMapStateStore;
pub use hashmap::HashMapStateStore;

use core::hash::Hash;
use vstd::prelude::*;
use crate::clock::{Clock, DefaultClock, Reference};
use crate::errors::InsufficientCapacity;
use crate::middleware::RateLimitingMiddleware;
use crate::nanos::{sat_sub, Nanos};
use crate::quota::Quota;
use crate::state::{RateLimiter, StateStore};

verus! {

/// `RandomState::new`: a hasher with keys that the process draws at random,
/// so that nothing is known of it.
pub assume_specification[ std::hash::RandomState::new ]() -> std::hash::RandomState;

/// The hasher of a keyed state store, where none is named.
pub type DefaultHasher = std::hash::RandomState;

/// A state store with one rate-limiting state for each key.
pub trait KeyedStateStore<K: Hash>: StateStore<Key = K> {

}

impl<T, K: Hash> KeyedStateStore<K> for T where T: StateStore<Key = K>, K: Eq + Clone + Hash {

}

/// A keyed state store that can be cleaned up.
///
/// Such a store drops on request the keys whose state no decision can tell
/// from that of a key never used.
pub trait ShrinkableKeyedStateStore<K: Hash>: KeyedStateStore<K> {
    /// Removes the keys whose state holds an arrival time no later than
    /// `drop_below`.
    fn retain_recent(&self, drop_below: Nanos);

    /// Gives back the memory that the store does not need, if it can.
    fn shrink_to_fit(&self);

    /// The number of keys in the store. Where other threads use the store,
    /// this may be out of date when it returns.
    fn len(&self) -> usize;

    /// The store holds no key. Where other threads use the store, this may
    /// be out of date when it returns.
    fn is_empty(&self) -> bool;
}

/// The state store of a keyed limiter that is made without one.
pub type DefaultKeyedStateStore<K, S = DefaultHasher> = DashMapStateStore<K, S>;

impl<K> RateLimiter<K, DefaultKeyedStateStore<K>, DefaultClock> where K: Clone + Hash + Eq {
    /// A keyed rate limiter for `quota` that reads the default clock and
    /// keeps its states in the default store.
    pub fn keyed(quota: Quota) -> (r: Self)
        requires
            quota.wf(),
        ensures
            r.enforces(quota),
    {
        RateLimiter::dashmap_with_clock(quota, DefaultClock::default())
    }

    /// A keyed rate limiter for `quota` that reads the default clock and
    /// keeps its states in a concurrent map.
    pub fn dashmap(quota: Quota) -> (r: Self)
        requires
            quota.wf(),
        ensures
            r.enforces(quota),
    {
        RateLimiter::dashmap_with_clock(quota, DefaultClock::default())
    }
}

impl<K, S> RateLimiter<K, DashMapStateStore<K, S>, DefaultClock> where
    K: Clone + Hash + Eq,
    S: core::hash::BuildHasher + Clone,
 {
    /// A keyed rate limiter for `quota` that reads the default clock and
    /// keeps its states in a concurrent map with the given hasher.
    pub fn dashmap_with_hasher(quota: Quota, hasher: S) -> (r: Self)
        requires
            quota.wf(),
        ensures
            r.enforces(quota),
    {
        RateLimiter::dashmap_with_clock_and_hasher(quota, DefaultClock::default(), hasher)
    }
}

impl<K> RateLimiter<K, HashMapStateStore<K>, DefaultClock> where K: Clone + Hash + Eq {
    /// A keyed rate limiter for `quota` that reads the default clock and
    /// keeps its states in a hash map under one lock.
    pub fn hashmap(quota: Quota) -> (r: Self)
        requires
            quota.wf(),
        ensures
            r.enforces(quota),
    {
        RateLimiter::hashmap_with_clock(quota, DefaultClock::default())
    }
}

impl<K, S> RateLimiter<K, HashMapStateStore<K, S>, DefaultClock> where
    K: Clone + Hash + Eq,
    S: core::hash::BuildHasher,
 {
    /// A keyed rate limiter for `quota` that reads the default clock and
    /// keeps its states in a hash map with the given hasher.
    pub fn hashmap_with_hasher(quota: Quota, hasher: S) -> (r: Self)
        requires
            quota.wf(),
        ensures
            r.enforces(quota),
    {
        RateLimiter::hashmap_with_clock_and_hasher(quota, DefaultClock::default(), hasher)
    }
}

/// The arrival time at or below which a state is as good as none, for a
/// limiter with cell weight `t` at `now` after its start: one weight before
/// now.
pub open spec fn spec_drop_below(now: Nanos, t: Nanos) -> Nanos {
    Nanos(sat_sub(now@, t@) as u64)
}

impl<K, S, C, MW> RateLimiter<K, S, C, MW> where
    S: KeyedStateStore<K>,
    K: Hash,
    C: Clock,
    MW: RateLimitingMiddleware<K, C::Instant>,
 {
    /// Allows a single cell through the rate limiter for the given key.
    ///
    /// Where the limit is reached, the error tells the earliest time at
    /// which a cell may be let through again under that key.
    pub fn check_key(&self, key: &K) -> (r: Result<MW::PositiveOutcome, MW::NegativeOutcome>)
        ensures
            self.decided(key, 1, r),
            self.gcra().wf(),
    {
        let now = self.clock().now();
        self.parameters().test_and_update::<K, C::Instant, S, MW>(self.started(), key, self.store(), now)
    }

    /// Tells whether a single cell would be let through now for the given
    /// key, and lets none through.
    pub fn peek_key(&self, key: &K) -> (r: Result<MW::PositiveOutcome, MW::NegativeOutcome>)
        ensures
            self.decided(key, 1, r),
            self.gcra().wf(),
    {
        let now = self.clock().now();
        self.parameters().test_and_peek::<K, C::Instant, S, MW>(self.started(), key, self.store(), now)
    }

    /// Allows all `n` cells through the rate limiter for the given key, or
    /// none.
    ///
    /// The call ends in one of three ways: the cells conform; they do not
    /// conform now, and the inner error tells when they might; or the
    /// quota's burst size is less than `n`, so that they never can, and the
    /// outer error tells the burst size.
    pub fn check_key_n(&self, key: &K, n: u32) -> (r: Result<
        Result<MW::PositiveOutcome, MW::NegativeOutcome>,
        InsufficientCapacity,
    >)
        requires
            n >= 1,
        ensures
            n > self.gcra().burst_capacity() ==> r == Err::<
                Result<MW::PositiveOutcome, MW::NegativeOutcome>,
                InsufficientCapacity,
            >(InsufficientCapacity(self.gcra().burst_capacity() as u32)),
            n <= self.gcra().burst_capacity() ==> r is Ok && self.decided(key, n as int, r->Ok_0),
            self.gcra().wf(),
    {
        let now = self.clock().now();
        self.parameters().test_n_all_and_update::<K, C::Instant, S, MW>(
            self.started(),
            key,
            n,
            self.store(),
            now,
        )
    }

    /// Tells whether all `n` cells would be let through now for the given
    /// key, and lets none through.
    pub fn peek_key_n(&self, key: &K, n: u32) -> (r: Result<
        Result<MW::PositiveOutcome, MW::NegativeOutcome>,
        InsufficientCapacity,
    >)
        requires
            n >= 1,
        ensures
            n > self.gcra().burst_capacity() ==> r == Err::<
                Result<MW::PositiveOutcome, MW::NegativeOutcome>,
                InsufficientCapacity,
            >(InsufficientCapacity(self.gcra().burst_capacity() as u32)),
            n <= self.gcra().burst_capacity() ==> r is Ok && self.decided(key, n as int, r->Ok_0),
            self.gcra().wf(),
    {
        let now = self.clock().now();
        self.parameters().test_n_all_and_peek::<K, C::Instant, S, MW>(
            self.started(),
            key,
            n,
            self.store(),
            now,
        )
    }

    /// Allows up to `n` cells through the rate limiter for the given key:
    /// as many as conform now.
    pub fn check_key_any_n(&self, key: &K, n: u32) -> (r: (u32, MW::PositiveOutcome))
        requires
            n >= 1,
        ensures
            self.decided_any(key, n as int, r),
            r.0 <= n,
            r.0 <= self.gcra().burst_capacity(),
            self.gcra().wf(),
    {
        let now = self.clock().now();
        self.parameters().test_any_n_and_update::<K, C::Instant, S, MW>(
            self.started(),
            key,
            n,
            self.store(),
            now,
        )
    }

    /// Forgets the state of the given key: its next cell is decided as
    /// that of a key never used.
    pub fn reset_key(&self, key: &K) {
        self.store().reset(key);
    }
}

impl<K, S, C, MW> RateLimiter<K, S, C, MW> where
    S: ShrinkableKeyedStateStore<K>,
    K: Hash,
    C: Clock,
    MW: RateLimitingMiddleware<K, C::Instant>,
 {
    /// The arrival time at or below which this limiter drops a state, at
    /// the reading `now` of its clock.
    pub fn drop_below(&self, now: C::Instant) -> (r: Nanos)
        ensures
            r == spec_drop_below(now.spec_duration_since(self.start()), self.gcra().t),
    {
        now.duration_since(self.started()).saturating_sub(self.parameters().t())
    }

    /// Keeps the keys that were used recently enough, and drops the
    /// others: those whose state no decision, now or later, can tell from
    /// that of a key never used.
    pub fn retain_recent(&self) {
        let now = self.clock().now();
        let drop_below = self.drop_below(now);
        self.store().retain_recent(drop_below);
    }

    /// Gives back the memory that the state store does not need, if it
    /// can.
    pub fn shrink_to_fit(&self) {
        self.store().shrink_to_fit();
    }

    /// The number of keys in the state store, which may be out of date
    /// where other threads use the limiter.
    pub fn len(&self) -> (r: usize)
        ensures
            call_ensures(S::len, (&self.spec_store(),), r),
    {
        self.store().len()
    }

    /// The state store holds no key, which may be out of date where other
    /// threads use the limiter.
    pub fn is_empty(&self) -> (r: bool)
        ensures
            call_ensures(S::is_empty, (&self.spec_store(),), r),
    {
        self.store().is_empty()
    }
}

} // verus!
