//! The state of one rate limit, in one atomic integer.

use std::sync::atomic::AtomicU64;
use std::sync::atomic::Ordering;
use vstd::prelude::*;
use crate::atomic::fetch_update;
use crate::nanos::Nanos;
use crate::state::{outcome_of, spec_proposed, stored};

verus! {

/// The state of one rate limit in memory.
///
/// The number kept is the theoretical arrival time in nanoseconds since the
/// limiter was made; zero stands for a state never used.
#[derive(Debug)]
pub struct InMemoryState(pub AtomicU64);

/// The stored count as a decision takes it.
pub fn as_stored(raw: u64) -> (r: Option<Nanos>)
    ensures
        r == stored(raw),
{
    if raw == 0 {
        None
    } else {
        Some(Nanos(raw))
    }
}

/// A stored count is an arrival time no later than `nanos`. A state never
/// used, which holds zero, is no later than any.
pub open spec fn spec_no_later_than(raw: u64, nanos: Nanos) -> bool {
    raw <= nanos.0
}

/// Tells whether a stored count is an arrival time no later than `nanos`.
pub fn no_later_than(raw: u64, nanos: Nanos) -> (r: bool)
    ensures
        r == spec_no_later_than(raw, nanos),
{
    raw <= nanos.0
}

impl InMemoryState {
    /// Updates the state by a decision, which is made again whenever
    /// another thread has changed the state in the meantime, and stops at
    /// the first error. The result is that of the decision on the last
    /// state that it was made on.
    ///
    /// The update hands back the count that the last attempt was made on,
    /// not the decision's output, so the decision is asked once more on
    /// that count for the output: `f` runs at least twice for each
    /// measurement, and has to give the same answer both times.
    pub fn measure_and_replace_one<T, F, E>(&self, f: F) -> (r: Result<T, E>) where
        F: Fn(Option<Nanos>) -> Result<(T, Nanos), E>,

        requires
            forall|raw: u64| call_requires(f, (#[trigger] stored(raw),)),
        ensures
            exists|raw: u64, decision: Result<(T, Nanos), E>|
                call_ensures(f, (stored(raw),), decision) && r == outcome_of(decision),
    {
        let decide = &f;
        let propose = |raw: u64| -> (next: Option<u64>)
            ensures
                exists|decision: Result<(T, Nanos), E>|
                    call_ensures(decide, (stored(raw),), decision) && next == spec_proposed(decision),
            {
                let decision = decide(as_stored(raw));
                let ghost made = decision;
                let next = match decision {
                    Ok(pair) => Some(pair.1.0),
                    Err(_) => None,
                };
                assert(call_ensures(decide, (stored(raw),), made) && next == spec_proposed(made));
                next
            };
        let seen = match fetch_update(&self.0, propose) {
            Ok(raw) => raw,
            Err(raw) => raw,
        };
        match f(as_stored(seen)) {
            Ok(pair) => Ok(pair.0),
            Err(e) => Err(e),
        }
    }

    /// Makes a decision as `measure_and_replace_one` does, then stores
    /// again what the state held when the measurement began.
    pub fn measure_and_peek_one<T, F, E>(&self, f: F) -> (r: Result<T, E>) where
        F: Fn(Option<Nanos>) -> Result<(T, Nanos), E>,

        requires
            forall|raw: u64| call_requires(f, (#[trigger] stored(raw),)),
        ensures
            exists|raw: u64, decision: Result<(T, Nanos), E>|
                call_ensures(f, (stored(raw),), decision) && r == outcome_of(decision),
    {
        let before = self.0.load(Ordering::Acquire);
        let decide = &f;
        let propose = |raw: u64| -> (next: Option<u64>)
            ensures
                exists|decision: Result<(T, Nanos), E>|
                    call_ensures(decide, (stored(raw),), decision) && next == spec_proposed(decision),
            {
                let decision = decide(as_stored(raw));
                let ghost made = decision;
                let next = match decision {
                    Ok(pair) => Some(pair.1.0),
                    Err(_) => None,
                };
                assert(call_ensures(decide, (stored(raw),), made) && next == spec_proposed(made));
                next
            };
        let seen = match fetch_update(&self.0, propose) {
            Ok(raw) => {
                self.0.store(before, Ordering::Release);
                raw
            },
            Err(raw) => raw,
        };
        match f(as_stored(seen)) {
            Ok(pair) => Ok(pair.0),
            Err(e) => Err(e),
        }
    }

    /// Makes the state that of a limit never used.
    pub fn clear(&self) {
        self.0.store(0, Ordering::Release);
    }

    /// The state holds an arrival time no later than `nanos`: the answer
    /// is that for the count which the state held when it was read.
    pub fn is_older_than(&self, nanos: Nanos) -> (r: bool)
        ensures
            exists|raw: u64| r == #[trigger] spec_no_later_than(raw, nanos),
    {
        let raw = self.0.load(Ordering::Relaxed);
        no_later_than(raw, nanos)
    }

    /// The state holds an arrival time later than `nanos`: the answer is
    /// that for the count which the state held when it was read.
    pub fn is_newer_than(&self, nanos: Nanos) -> (r: bool)
        ensures
            exists|raw: u64| r == !#[trigger] spec_no_later_than(raw, nanos),
    {
        !self.is_older_than(nanos)
    }
}

impl Default for InMemoryState {
    fn default() -> (r: InMemoryState) {
        InMemoryState(AtomicU64::new(0))
    }
}

} // verus!
