//! Direct rate limiters: those that hold one state.

use vstd::prelude::*;
use crate::clock::{Clock, DefaultClock};
use crate::errors::InsufficientCapacity;
use crate::middleware::{NoOpMiddleware, RateLimitingMiddleware};
use crate::nanos::Nanos;
use crate::quota::Quota;
use crate::state::in_memory::InMemoryState;
use crate::state::{RateLimiter, StateStore};

verus! {

/// The key of a state store that has no keys.
///
/// It has no `Hash`, which tells it apart from the keys of a keyed store.
#[derive(PartialEq, Eq, Debug)]
pub enum NotKeyed {
    /// The one value, given to the methods of a state store.
    NonKey,
}

/// A state store that keeps one rate-limiting state.
pub trait DirectStateStore: StateStore<Key = NotKeyed> {

}

impl<T> DirectStateStore for T where T: StateStore<Key = NotKeyed> {

}

/// The state in memory is the direct state store.
impl StateStore for InMemoryState {
    type Key = NotKeyed;

    fn measure_and_replace<T, F, E>(&self, _key: &NotKeyed, f: F) -> (r: Result<T, E>) where
        F: Fn(Option<Nanos>) -> Result<(T, Nanos), E>,
     {
        self.measure_and_replace_one(f)
    }

    fn measure_and_peek<T, F, E>(&self, _key: &NotKeyed, f: F) -> (r: Result<T, E>) where
        F: Fn(Option<Nanos>) -> Result<(T, Nanos), E>,
     {
        self.measure_and_peek_one(f)
    }

    fn reset(&self, _key: &NotKeyed) {
        self.clear();
    }
}

impl RateLimiter<NotKeyed, InMemoryState, DefaultClock, NoOpMiddleware> {
    /// A direct rate limiter for `quota` that reads the default clock.
    pub fn direct(quota: Quota) -> (r: Self)
        requires
            quota.wf(),
        ensures
            r.enforces(quota),
    {
        let clock = DefaultClock::default();
        RateLimiter::direct_with_clock(quota, clock)
    }
}

impl<C: Clock> RateLimiter<NotKeyed, InMemoryState, C, NoOpMiddleware> {
    /// A direct rate limiter for `quota` that reads `clock`.
    pub fn direct_with_clock(quota: Quota, clock: C) -> (r: Self)
        requires
            quota.wf(),
        ensures
            r.enforces(quota),
    {
        let state: InMemoryState = InMemoryState::default();
        RateLimiter::new(quota, state, clock)
    }
}

impl<S, C, MW> RateLimiter<NotKeyed, S, C, MW> where
    S: DirectStateStore,
    C: Clock,
    MW: RateLimitingMiddleware<NotKeyed, C::Instant>,
 {
    /// Allows a single cell through the rate limiter.
    ///
    /// Where the limit is reached, the error tells the earliest time at
    /// which a cell may be let through again.
    pub fn check(&self) -> (r: Result<MW::PositiveOutcome, MW::NegativeOutcome>)
        ensures
            self.decided(&NotKeyed::NonKey, 1, r),
            self.gcra().wf(),
    {
        let now = self.clock().now();
        self.parameters().test_and_update::<NotKeyed, C::Instant, S, MW>(self.started(), &NotKeyed::NonKey, self.store(), now)
    }

    /// Tells whether a single cell would be let through now, and lets none
    /// through.
    pub fn check_only(&self) -> (r: Result<MW::PositiveOutcome, MW::NegativeOutcome>)
        ensures
            self.decided(&NotKeyed::NonKey, 1, r),
            self.gcra().wf(),
    {
        let now = self.clock().now();
        self.parameters().test_and_peek::<NotKeyed, C::Instant, S, MW>(self.started(), &NotKeyed::NonKey, self.store(), now)
    }

    /// Allows all `n` cells through the rate limiter, or none.
    ///
    /// The call ends in one of three ways: the cells conform; they do not
    /// conform now, and the inner error tells when they might; or the
    /// quota's burst size is less than `n`, so that they never can, and the
    /// outer error tells the burst size.
    pub fn check_n(&self, n: u32) -> (r: Result<
        Result<MW::PositiveOutcome, MW::NegativeOutcome>,
        InsufficientCapacity,
    >)
        requires
            n >= 1,
        ensures
            n > self.gcra().burst_capacity() ==> r == Err::<
                Result<MW::PositiveOutcome, MW::NegativeOutcome>,
                InsufficientCapacity,
            >(InsufficientCapacity(self.gcra().burst_capacity() as u32)),
            n <= self.gcra().burst_capacity() ==> r is Ok && self.decided(&NotKeyed::NonKey, n as int, r->Ok_0),
            self.gcra().wf(),
    {
        let now = self.clock().now();
        self.parameters().test_n_all_and_update::<NotKeyed, C::Instant, S, MW>(
            self.started(),
            &NotKeyed::NonKey,
            n,
            self.store(),
            now,
        )
    }

    /// Tells whether all `n` cells would be let through now, and lets none
    /// through.
    pub fn check_n_only(&self, n: u32) -> (r: Result<
        Result<MW::PositiveOutcome, MW::NegativeOutcome>,
        InsufficientCapacity,
    >)
        requires
            n >= 1,
        ensures
            n > self.gcra().burst_capacity() ==> r == Err::<
                Result<MW::PositiveOutcome, MW::NegativeOutcome>,
                InsufficientCapacity,
            >(InsufficientCapacity(self.gcra().burst_capacity() as u32)),
            n <= self.gcra().burst_capacity() ==> r is Ok && self.decided(&NotKeyed::NonKey, n as int, r->Ok_0),
            self.gcra().wf(),
    {
        let now = self.clock().now();
        self.parameters().test_n_all_and_peek::<NotKeyed, C::Instant, S, MW>(
            self.started(),
            &NotKeyed::NonKey,
            n,
            self.store(),
            now,
        )
    }

    /// Allows up to `n` cells through the rate limiter: as many as conform
    /// now.
    ///
    /// This never fails. The first part of the result is the number of
    /// cells let through, which is zero where the limit is reached.
    pub fn check_any_n(&self, n: u32) -> (r: (u32, MW::PositiveOutcome))
        requires
            n >= 1,
        ensures
            self.decided_any(&NotKeyed::NonKey, n as int, r),
            r.0 <= n,
            r.0 <= self.gcra().burst_capacity(),
            self.gcra().wf(),
    {
        let now = self.clock().now();
        self.parameters().test_any_n_and_update::<NotKeyed, C::Instant, S, MW>(
            self.started(),
            &NotKeyed::NonKey,
            n,
            self.store(),
            now,
        )
    }
}

} // verus!
