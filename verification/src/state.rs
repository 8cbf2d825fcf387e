//! State stores for rate limiters.

pub mod direct;
pub mod in_memory;
pub mod keyed;

pub use direct::{DirectStateStore, NotKeyed};
pub use in_memory::InMemoryState;

use core::marker::PhantomData;
use vstd::prelude::*;
use crate::clock::{Clock, Reference};
use crate::gcra::Gcra;
use crate::middleware::{NoOpMiddleware, RateLimitingMiddleware};
use crate::nanos::Nanos;
use crate::quota::Quota;

verus! {

/// What a measurement hands back of a decision: the decision's output
/// without the new state, or its error.
pub open spec fn outcome_of<T, E>(decision: Result<(T, Nanos), E>) -> Result<T, E> {
    match decision {
        Ok(pair) => Ok(pair.0),
        Err(e) => Err(e),
    }
}

/// The count that a decision asks to have stored, if it asks for any.
pub open spec fn spec_proposed<T, E>(decision: Result<(T, Nanos), E>) -> Option<u64> {
    match decision {
        Ok(pair) => Some(pair.1.0),
        Err(_) => None,
    }
}

/// The stored count as a decision sees it: zero stands for a state never
/// used.
pub open spec fn stored(raw: u64) -> Option<Nanos> {
    if raw == 0 {
        None
    } else {
        Some(Nanos(raw))
    }
}

/// A way for rate limiters to keep state.
///
/// A direct state store has one state; a keyed one has one for each key. A
/// store is shared between threads, so nobody can say what it holds when a
/// measurement begins: a measurement promises that its result is the
/// decision's on some stored state.
pub trait StateStore {
    /// The type of key that the store can represent.
    type Key;

    /// Updates the state at a key by a decision.
    ///
    /// The decision takes the theoretical arrival time stored at the key,
    /// or `None` where the key was never used. It returns either an error,
    /// and the state stays as it is, or an output and the new arrival time,
    /// which is stored only if the state has not changed since the decision
    /// read it. Otherwise the decision is made again on the new state.
    ///
    /// A store may ask the decision more than once for one measurement:
    /// again after each attempt that another thread got ahead of, and, in
    /// the stores of this library, once more for the output after the
    /// state is stored. So the decision has to give the same answer
    /// whenever it is asked the same, and what it does besides, such as a
    /// middleware that counts or reports, happens as often as it is asked.
    ///
    /// The decision must not use the store that measures it: a keyed store
    /// may hold a lock on the map or on a part of it while it asks, and a
    /// thread that asks for a lock it holds waits for ever.
    fn measure_and_replace<T, F, E>(&self, key: &Self::Key, f: F) -> (r: Result<T, E>) where
        F: Fn(Option<Nanos>) -> Result<(T, Nanos), E>,

        requires
            forall|raw: u64| call_requires(f, (#[trigger] stored(raw),)),
        ensures
            exists|raw: u64, decision: Result<(T, Nanos), E>|
                call_ensures(f, (stored(raw),), decision) && r == outcome_of(decision),
    ;

    /// Makes the decision on the state at a key as `measure_and_replace`
    /// does, and then puts back the state that was there when the
    /// measurement began. As the two steps are not one, other threads may
    /// see the new state for a moment.
    fn measure_and_peek<T, F, E>(&self, key: &Self::Key, f: F) -> (r: Result<T, E>) where
        F: Fn(Option<Nanos>) -> Result<(T, Nanos), E>,

        requires
            forall|raw: u64| call_requires(f, (#[trigger] stored(raw),)),
        ensures
            exists|raw: u64, decision: Result<(T, Nanos), E>|
                call_ensures(f, (stored(raw),), decision) && r == outcome_of(decision),
    ;

    /// Forgets the state at a key: the key is then as one never used.
    fn reset(&self, key: &Self::Key);
}

/// A rate limiter.
///
/// A limiter is a quota, turned into the parameters of the algorithm, a
/// clock with the reading that was taken when the limiter was made, and a
/// state store. None of them changes afterwards but what the store holds:
/// the limiter is shared between threads as it is.
#[verifier::reject_recursive_types(K)]
#[verifier::reject_recursive_types(S)]
#[verifier::reject_recursive_types(C)]
#[verifier::reject_recursive_types(MW)]
#[derive(Debug)]
pub struct RateLimiter<K, S, C, MW = NoOpMiddleware> where
    S: StateStore<Key = K>,
    C: Clock,
    MW: RateLimitingMiddleware<K, C::Instant>,
 {
    state: S,
    gcra: Gcra,
    clock: C,
    start: C::Instant,
    middleware: PhantomData<MW>,
}

impl<K, S, C, MW> RateLimiter<K, S, C, MW> where
    S: StateStore<Key = K>,
    C: Clock,
    MW: RateLimitingMiddleware<K, C::Instant>,
 {
    /// The parameters of a limiter are always those of a quota.
    #[verifier::type_invariant]
    spec fn inv(self) -> bool {
        self.gcra.wf()
    }

    /// The parameters that the limiter decides by.
    pub closed spec fn gcra(&self) -> Gcra {
        self.gcra
    }

    /// The reading of the clock that the limiter counts from.
    pub closed spec fn start(&self) -> C::Instant {
        self.start
    }

    /// The state store that the limiter keeps its states in.
    pub closed spec fn spec_store(&self) -> S {
        self.state
    }

    /// The clock that the limiter reads.
    pub closed spec fn spec_clock(&self) -> C {
        self.clock
    }

    /// The limiter decides by the parameters of `quota`: a full bucket
    /// holds the quota's burst size.
    pub open spec fn enforces(&self, quota: Quota) -> bool {
        &&& self.gcra() == Gcra::spec_new(quota)
        &&& self.gcra().wf()
        &&& self.gcra().burst_capacity() == quota.max_burst
    }

    /// `r` is what the limiter returns for a batch of `n` cells at `key`:
    /// the outcome of the decision at a reading of its clock, on a count
    /// that the state held.
    pub open spec fn decided(
        &self,
        key: &K,
        n: int,
        r: Result<MW::PositiveOutcome, MW::NegativeOutcome>,
    ) -> bool {
        exists|now: C::Instant, raw: u64|
            call_ensures(C::now, (&self.spec_clock(),), now) && #[trigger] self.gcra().tested::<K, C::Instant, MW>(
                self.start(),
                key,
                n,
                now.spec_duration_since(self.start()),
                stored(raw),
                r,
            )
    }

    /// `r` is what the limiter returns for a batch of up to `n` cells at
    /// `key`: the outcome of the decision at a reading of its clock, on a
    /// count that the state held.
    pub open spec fn decided_any(&self, key: &K, n: int, r: (u32, MW::PositiveOutcome)) -> bool {
        exists|now: C::Instant, raw: u64|
            call_ensures(C::now, (&self.spec_clock(),), now) && #[trigger] self.gcra().tested_any::<
                K,
                C::Instant,
                MW,
            >(key, n, now.spec_duration_since(self.start()), stored(raw), r)
    }

    /// The same limiter, state and all, with another middleware.
    pub fn with_middleware<Outer: RateLimitingMiddleware<K, C::Instant>>(self) -> (r: RateLimiter<
        K,
        S,
        C,
        Outer,
    >)
        ensures
            r.gcra() == self.gcra(),
            r.start() == self.start(),
            r.spec_store() == self.spec_store(),
            r.spec_clock() == self.spec_clock(),
    {
        proof {
            use_type_invariant(&self);
        }
        RateLimiter {
            state: self.state,
            gcra: self.gcra,
            clock: self.clock,
            start: self.start,
            middleware: PhantomData,
        }
    }

    /// The parameters that the limiter decides by.
    pub(crate) fn parameters(&self) -> (r: &Gcra)
        ensures
            *r == self.gcra(),
            r.wf(),
    {
        proof {
            use_type_invariant(self);
        }
        &self.gcra
    }

    /// The reading of the clock that the limiter counts from.
    pub(crate) fn started(&self) -> (r: C::Instant)
        ensures
            r == self.start(),
    {
        self.start
    }

    /// The state store of the limiter.
    pub(crate) fn store(&self) -> (r: &S)
        ensures
            *r == self.spec_store(),
    {
        &self.state
    }

    /// Takes the limiter apart and hands out its state store.
    pub fn into_state_store(self) -> (r: S)
        ensures
            r == self.spec_store(),
    {
        self.state
    }

    /// The clock that the limiter reads.
    pub fn clock(&self) -> (r: &C)
        ensures
            *r == self.spec_clock(),
    {
        &self.clock
    }
}

impl<K, S, C> RateLimiter<K, S, C, NoOpMiddleware> where S: StateStore<Key = K>, C: Clock {
    /// A limiter for `quota` that keeps its state in `state` and counts
    /// from the present reading of `clock`.
    pub fn new(quota: Quota, state: S, clock: C) -> (r: Self)
        requires
            quota.wf(),
        ensures
            r.enforces(quota),
            r.spec_store() == state,
            r.spec_clock() == clock,
    {
        let gcra = Gcra::new(quota);
        let start = clock.now();
        RateLimiter { state, gcra, clock, start, middleware: PhantomData }
    }
}

} // verus!
