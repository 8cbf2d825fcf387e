//! A rate limiter built on the generic cell rate algorithm.
//!
//! A limiter answers one question at each call: may this cell, or this
//! batch of cells, pass now under the quota? It keeps one number for each
//! limit, the theoretical arrival time of the next cell, in an atomic
//! integer, and decides by arithmetic on that number and the reading of a
//! clock. The arithmetic is verified; so is what each decision returns for
//! every state that it can find.

pub mod admission;
mod atomic;
pub mod clock;
pub mod errors;
pub mod gcra;
pub mod middleware;
pub mod nanos;
pub mod pacing;
pub mod parse;
pub mod quota;
pub mod state;

pub use errors::InsufficientCapacity;
pub use gcra::NotUntil;
pub use quota::Quota;
pub use state::RateLimiter;

use vstd::prelude::*;

verus! {

/// A rate limiter with a single state in memory, on the default clock.
pub type DefaultDirectRateLimiter<MW = middleware::NoOpMiddleware> = RateLimiter<
    state::direct::NotKeyed,
    state::in_memory::InMemoryState,
    clock::DefaultClock,
    MW,
>;

/// A rate limiter with one state for each key, on the default clock.
pub type DefaultKeyedRateLimiter<K, MW = middleware::NoOpMiddleware, S = state::keyed::DefaultHasher> =
    RateLimiter<K, state::keyed::DefaultKeyedStateStore<K, S>, clock::DefaultClock, MW>;

} // verus!
