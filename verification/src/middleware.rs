//! What a rate limiter hands back with its decisions.
//!
//! A middleware does not take part in a decision: the limiter alone says
//! whether a cell conforms. The middleware chooses the value that is
//! returned with a positive and with a negative decision, so that a caller
//! who wants no more than the verdict pays for no more.

pub use crate::gcra::StateSnapshot;

use vstd::prelude::*;
use crate::clock::Reference;
use crate::errors::InsufficientCapacity;
use crate::gcra::{Gcra, NotUntil};

verus! {

/// The values that a rate limiter returns with its decisions.
pub trait RateLimitingMiddleware<K, P: Reference> {
    /// What the limiter returns when a cell is allowed.
    type PositiveOutcome;

    /// What the limiter returns when a cell is not allowed.
    type NegativeOutcome;

    /// What is known of the value that `allow` returns. A middleware that
    /// says nothing of it leaves this as it is.
    open spec fn allowed(key: &K, state: StateSnapshot, r: Self::PositiveOutcome) -> bool {
        true
    }

    /// What is known of the value that `disallow` returns. A middleware
    /// that says nothing of it leaves this as it is.
    open spec fn disallowed(key: &K, state: StateSnapshot, start_time: P, r: Self::NegativeOutcome) -> bool {
        true
    }

    /// Called when a positive decision was made, with the state as it is
    /// after the decision. What it returns is what the limiter returns.
    fn allow(key: &K, state: StateSnapshot) -> (r: Self::PositiveOutcome)
        ensures
            Self::allowed(key, state, r),
    ;

    /// Called when a negative decision was made. What it returns is what
    /// the limiter returns.
    fn disallow(key: &K, state: StateSnapshot, start_time: P) -> (r: Self::NegativeOutcome)
        ensures
            Self::disallowed(key, state, start_time, r),
    ;

    /// The middleware keeps parameters of its own for some keys, by which
    /// `check_quota` and `check_quota_n` decide. The middlewares of this
    /// library keep none.
    open spec fn keeps_quotas() -> bool {
        false
    }

    /// A decision by parameters that the middleware keeps for the key
    /// itself, where it keeps any: `f` makes the decision by the parameters
    /// that it is given. A middleware that keeps none returns `None`.
    fn check_quota<F>(&self, key: &K, _f: &F) -> (r: Option<
        Result<Self::PositiveOutcome, Self::NegativeOutcome>,
    >) where F: Fn(&Gcra) -> Result<Self::PositiveOutcome, Self::NegativeOutcome>
        ensures
            !Self::keeps_quotas() ==> r is None,
    {
        None
    }

    /// A decision on a batch by parameters that the middleware keeps for
    /// the key itself, where it keeps any. A middleware that keeps none
    /// returns `None`.
    fn check_quota_n<F>(&self, key: &K, _f: &F) -> (r: Option<
        Result<Result<Self::PositiveOutcome, Self::NegativeOutcome>, InsufficientCapacity>,
    >) where
        F: Fn(&Gcra) -> Result<Result<Self::PositiveOutcome, Self::NegativeOutcome>, InsufficientCapacity>,

        ensures
            !Self::keeps_quotas() ==> r is None,
    {
        None
    }
}

/// A middleware that returns nothing with a positive decision, and the time
/// to wait with a negative one.
#[derive(Clone, Copy, Debug, Default, PartialEq, Eq)]
pub struct NoOpMiddleware;

impl<K, P: Reference> RateLimitingMiddleware<K, P> for NoOpMiddleware {
    type PositiveOutcome = ();

    type NegativeOutcome = NotUntil<P>;

    open spec fn allowed(key: &K, state: StateSnapshot, r: ()) -> bool {
        r == ()
    }

    open spec fn disallowed(key: &K, state: StateSnapshot, start_time: P, r: NotUntil<P>) -> bool {
        r == (NotUntil { state, start: start_time })
    }

    fn allow(_key: &K, _state: StateSnapshot) -> (r: ()) {
    }

    fn disallow(_key: &K, state: StateSnapshot, start_time: P) -> (r: NotUntil<P>) {
        NotUntil::new(state, start_time)
    }
}

/// A middleware that returns the state of the limiter with a positive
/// decision.
#[derive(Clone, Copy, Debug, Default, PartialEq, Eq)]
pub struct StateInformationMiddleware;

impl<K, P: Reference> RateLimitingMiddleware<K, P> for StateInformationMiddleware {
    type PositiveOutcome = StateSnapshot;

    type NegativeOutcome = NotUntil<P>;

    open spec fn allowed(key: &K, state: StateSnapshot, r: StateSnapshot) -> bool {
        r == state
    }

    open spec fn disallowed(key: &K, state: StateSnapshot, start_time: P, r: NotUntil<P>) -> bool {
        r == (NotUntil { state, start: start_time })
    }

    fn allow(_key: &K, state: StateSnapshot) -> (r: StateSnapshot) {
        state
    }

    fn disallow(_key: &K, state: StateSnapshot, start_time: P) -> (r: NotUntil<P>) {
        NotUntil::new(state, start_time)
    }
}

} // verus!
