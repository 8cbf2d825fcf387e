//! Time sources for rate limiters.
//!
//! A limiter reads the time from a clock and only ever asks how far one
//! reading lies behind another, so a clock that a program advances by hand
//! serves as well as the machine's own.

pub mod with_quanta;
pub mod with_std;

pub use with_quanta::{QuantaClock, QuantaInstant, QuantaUpkeepClock};
pub use with_std::{MonotonicClock, ReasonablyRealtime, SystemClock};

use core::time::Duration;
use std::sync::atomic::AtomicU64;
use std::sync::atomic::Ordering;
use std::sync::Arc;
use vstd::prelude::*;
use crate::atomic::fetch_update;
use crate::nanos::{
    clamped, duration_checked_add, duration_checked_sub, duration_from_nanos, duration_nanos, sat_add, sat_sub,
    spec_clamped, Nanos,
};

verus! {

/// A reading of a clock.
pub trait Reference: Sized + Copy {
    /// The reading that lies `duration` after this one.
    spec fn spec_add(self, duration: Nanos) -> Self;

    /// The time from `earlier` to this reading, and zero where `earlier` is
    /// the later of the two.
    spec fn spec_duration_since(self, earlier: Self) -> Nanos;

    /// The reading that lies `duration` before this one, as far as the
    /// clock can express it.
    spec fn spec_saturating_sub(self, duration: Nanos) -> Self;

    /// The reading that lies `duration` after this one.
    fn add_nanos(self, duration: Nanos) -> (r: Self)
        ensures
            r == self.spec_add(duration),
    ;

    /// The time that separates two readings of a clock. Where `earlier` is
    /// in fact the later one, the result is zero.
    fn duration_since(&self, earlier: Self) -> (r: Nanos)
        ensures
            r == self.spec_duration_since(earlier),
    ;

    /// A reading that lies at most `duration` before this one.
    fn saturating_sub(&self, duration: Nanos) -> (r: Self)
        ensures
            r == self.spec_saturating_sub(duration),
    ;
}

/// A time source used by rate limiters.
pub trait Clock: Clone {
    /// A reading of this clock.
    type Instant: Reference;

    /// Reads the clock.
    fn now(&self) -> Self::Instant;
}

/// A shared reference to a clock reads that clock.
impl<'a, C: Clock> Clock for &'a C {
    type Instant = C::Instant;

    fn now(&self) -> (r: C::Instant)
        ensures
            call_ensures(C::now, (*self,), r),
    {
        (**self).now()
    }
}

impl Reference for Nanos {
    open spec fn spec_add(self, duration: Nanos) -> Nanos {
        Nanos(sat_add(self@, duration@) as u64)
    }

    open spec fn spec_duration_since(self, earlier: Nanos) -> Nanos {
        Nanos(sat_sub(self@, earlier@) as u64)
    }

    open spec fn spec_saturating_sub(self, duration: Nanos) -> Nanos {
        Nanos(sat_sub(self@, duration@) as u64)
    }

    fn add_nanos(self, duration: Nanos) -> (r: Nanos) {
        self.saturating_add(duration)
    }

    fn duration_since(&self, earlier: Nanos) -> (r: Nanos) {
        Nanos::saturating_sub(*self, earlier)
    }

    fn saturating_sub(&self, duration: Nanos) -> (r: Nanos) {
        Nanos::saturating_sub(*self, duration)
    }
}

/// A duration is a reading of a clock that counts from a start of its own.
impl Reference for Duration {
    open spec fn spec_add(self, duration: Nanos) -> Duration {
        match duration_checked_add(self, duration_from_nanos(duration.0)) {
            Some(later) => later,
            None => self,
        }
    }

    open spec fn spec_duration_since(self, earlier: Duration) -> Nanos {
        match duration_checked_sub(self, earlier) {
            Some(between) => spec_clamped(between),
            None => Nanos(0),
        }
    }

    open spec fn spec_saturating_sub(self, duration: Nanos) -> Duration {
        match duration_checked_sub(self, duration_from_nanos(duration.0)) {
            Some(earlier) => earlier,
            None => self,
        }
    }

    fn add_nanos(self, duration: Nanos) -> (r: Duration)
        ensures
            duration_nanos(self) + duration@ <= u64::MAX ==> duration_nanos(r) == duration_nanos(self)
                + duration@,
    {
        match self.checked_add(duration.to_duration()) {
            Some(later) => later,
            None => self,
        }
    }

    fn duration_since(&self, earlier: Duration) -> (r: Nanos)
        ensures
            r@ == (if duration_nanos(*self) < duration_nanos(earlier) {
                0
            } else if duration_nanos(*self) - duration_nanos(earlier) <= u64::MAX {
                duration_nanos(*self) - duration_nanos(earlier)
            } else {
                u64::MAX as int
            }),
    {
        match self.checked_sub(earlier) {
            Some(between) => clamped(between),
            None => Nanos(0),
        }
    }

    fn saturating_sub(&self, duration: Nanos) -> (r: Duration)
        ensures
            duration_nanos(r) == (if duration_nanos(*self) >= duration@ {
                duration_nanos(*self) - duration@
            } else {
                duration_nanos(*self) as int
            }),
    {
        match self.checked_sub(duration.to_duration()) {
            Some(earlier) => earlier,
            None => *self,
        }
    }
}

/// The clock of a limiter that is made without one.
pub type DefaultClock = with_quanta::QuantaClock;

/// A clock that stands still until the program advances it.
///
/// The time is a count of nanoseconds in an atomic integer behind an `Arc`:
/// clones of the clock share it, so all of them show the same time.
#[derive(Clone, Debug)]
pub struct FakeRelativeClock {
    now: Arc<AtomicU64>,
}

impl FakeRelativeClock {
    /// The count that an advance by `by` stores in place of `prev`: their
    /// sum, which stops at the largest count.
    pub open spec fn spec_advanced(prev: u64, by: Nanos) -> u64 {
        sat_add(prev as int, by@) as u64
    }

    /// The count that an advance by `by` stores in place of `prev`.
    pub fn advanced(prev: u64, by: Nanos) -> (r: u64)
        ensures
            r == FakeRelativeClock::spec_advanced(prev, by),
    {
        Nanos(prev).saturating_add(by).0
    }

    /// Advances the clock by the given amount, for all of its clones at
    /// once.
    pub fn advance(&self, by: Duration)
        requires
            duration_nanos(by) <= u64::MAX,
    {
        let by_nanos = Nanos::from_duration(by).unwrap();
        let step = |prev: u64| -> (next: Option<u64>)
            ensures
                next == Some(Self::spec_advanced(prev, by_nanos)),
            {
                Some(Self::advanced(prev, by_nanos))
            };
        let _ = fetch_update(&self.now, step);
    }
}

impl Default for FakeRelativeClock {
    fn default() -> (r: FakeRelativeClock) {
        FakeRelativeClock { now: Arc::new(AtomicU64::new(0)) }
    }
}

impl Clock for FakeRelativeClock {
    type Instant = Nanos;

    fn now(&self) -> Nanos {
        Nanos(self.now.load(Ordering::Relaxed))
    }
}

} // verus!
