//! Clocks that read the time of the standard library.

use core::time::Duration;
use std::time::{Instant, SystemTime};
use vstd::prelude::*;
use crate::clock::{Clock, Reference};
use crate::nanos::{clamped, duration_from_nanos, spec_clamped, Nanos};

verus! {

/// `std::time::Instant`, a reading of the monotonic clock.
#[verifier::external_type_specification]
#[verifier::external_body]
pub struct ExInstant(std::time::Instant);

/// `std::time::SystemTime`, a reading of the wall clock.
#[verifier::external_type_specification]
#[verifier::external_body]
pub struct ExSystemTime(std::time::SystemTime);

/// What `Instant::checked_add` returns.
pub uninterp spec fn instant_checked_add(instant: Instant, duration: Duration) -> Option<Instant>;

/// What `Instant::checked_sub` returns.
pub uninterp spec fn instant_checked_sub(instant: Instant, duration: Duration) -> Option<Instant>;

/// What `Instant::saturating_duration_since` returns.
pub uninterp spec fn instant_saturating_duration_since(later: Instant, earlier: Instant) -> Duration;

/// What `SystemTime::checked_add` returns.
pub uninterp spec fn system_time_checked_add(time: SystemTime, duration: Duration) -> Option<SystemTime>;

/// What `SystemTime::checked_sub` returns.
pub uninterp spec fn system_time_checked_sub(time: SystemTime, duration: Duration) -> Option<SystemTime>;

/// What `SystemTime::duration_since` returns, with `None` for its error.
pub uninterp spec fn system_time_duration_since(later: SystemTime, earlier: SystemTime) -> Option<Duration>;

/// `Instant::now`: the reading depends on when it is taken.
#[verifier::external_body]
pub(crate) fn monotonic_reading() -> Instant {
    Instant::now()
}

/// `Instant::checked_add`: the instant that lies `duration` later, if the
/// platform can express it. The result depends on the two values alone.
pub assume_specification[ std::time::Instant::checked_add ](
    instant: &std::time::Instant,
    duration: Duration,
) -> (r: Option<std::time::Instant>)
    ensures
        r == instant_checked_add(*instant, duration),
;

/// `Instant::checked_sub`: the instant that lies `duration` earlier, if the
/// platform can express it. The result depends on the two values alone.
pub assume_specification[ std::time::Instant::checked_sub ](
    instant: &std::time::Instant,
    duration: Duration,
) -> (r: Option<std::time::Instant>)
    ensures
        r == instant_checked_sub(*instant, duration),
;

/// `Instant::saturating_duration_since`: the time from `earlier` to this
/// instant, or zero where `earlier` is the later one. The result depends on
/// the two values alone.
pub assume_specification[ std::time::Instant::saturating_duration_since ](
    later: &std::time::Instant,
    earlier: std::time::Instant,
) -> (r: Duration)
    ensures
        r == instant_saturating_duration_since(*later, earlier),
;

/// `SystemTime::now`: the reading depends on when it is taken.
#[verifier::external_body]
fn wall_reading() -> SystemTime {
    SystemTime::now()
}

/// `SystemTime::checked_add`: the time that lies `duration` later, if the
/// platform can express it. The result depends on the two values alone.
pub assume_specification[ std::time::SystemTime::checked_add ](
    time: &std::time::SystemTime,
    duration: Duration,
) -> (r: Option<std::time::SystemTime>)
    ensures
        r == system_time_checked_add(*time, duration),
;

/// `SystemTime::checked_sub`: the time that lies `duration` earlier, if the
/// platform can express it. The result depends on the two values alone.
pub assume_specification[ std::time::SystemTime::checked_sub ](
    time: &std::time::SystemTime,
    duration: Duration,
) -> (r: Option<std::time::SystemTime>)
    ensures
        r == system_time_checked_sub(*time, duration),
;

/// `SystemTime::duration_since`: the time from `earlier` to `later`, and an
/// error, which becomes `None` here, where `earlier` is the later one.
#[verifier::external_body]
fn duration_between(later: &SystemTime, earlier: SystemTime) -> (r: Option<Duration>)
    ensures
        r == system_time_duration_since(*later, earlier),
{
    later.duration_since(earlier).ok()
}

impl Reference for Instant {
    open spec fn spec_add(self, duration: Nanos) -> Instant {
        match instant_checked_add(self, duration_from_nanos(duration.0)) {
            Some(later) => later,
            None => self,
        }
    }

    open spec fn spec_duration_since(self, earlier: Instant) -> Nanos {
        spec_clamped(instant_saturating_duration_since(self, earlier))
    }

    open spec fn spec_saturating_sub(self, duration: Nanos) -> Instant {
        match instant_checked_sub(self, duration_from_nanos(duration.0)) {
            Some(earlier) => earlier,
            None => self,
        }
    }

    fn add_nanos(self, duration: Nanos) -> (r: Instant) {
        match self.checked_add(duration.to_duration()) {
            Some(later) => later,
            None => self,
        }
    }

    fn duration_since(&self, earlier: Instant) -> (r: Nanos) {
        clamped(self.saturating_duration_since(earlier))
    }

    fn saturating_sub(&self, duration: Nanos) -> (r: Instant) {
        match self.checked_sub(duration.to_duration()) {
            Some(earlier) => earlier,
            None => *self,
        }
    }
}

impl Reference for SystemTime {
    open spec fn spec_add(self, duration: Nanos) -> SystemTime {
        match system_time_checked_add(self, duration_from_nanos(duration.0)) {
            Some(later) => later,
            None => self,
        }
    }

    open spec fn spec_duration_since(self, earlier: SystemTime) -> Nanos {
        match system_time_duration_since(self, earlier) {
            Some(duration) => spec_clamped(duration),
            None => Nanos(0),
        }
    }

    open spec fn spec_saturating_sub(self, duration: Nanos) -> SystemTime {
        match system_time_checked_sub(self, duration_from_nanos(duration.0)) {
            Some(earlier) => earlier,
            None => self,
        }
    }

    fn add_nanos(self, duration: Nanos) -> (r: SystemTime) {
        match self.checked_add(duration.to_duration()) {
            Some(later) => later,
            None => self,
        }
    }

    fn duration_since(&self, earlier: SystemTime) -> (r: Nanos) {
        match duration_between(self, earlier) {
            Some(duration) => clamped(duration),
            None => Nanos(0),
        }
    }

    fn saturating_sub(&self, duration: Nanos) -> (r: SystemTime) {
        match self.checked_sub(duration.to_duration()) {
            Some(earlier) => earlier,
            None => *self,
        }
    }
}

/// The monotonic clock of the standard library.
#[derive(Clone, Copy, Debug, Default)]
pub struct MonotonicClock();

impl Clock for MonotonicClock {
    type Instant = Instant;

    fn now(&self) -> Instant {
        monotonic_reading()
    }
}

/// The wall clock of the standard library, which can be set back.
#[derive(Clone, Copy, Debug, Default)]
pub struct SystemClock();

impl Clock for SystemClock {
    type Instant = SystemTime;

    fn now(&self) -> SystemTime {
        wall_reading()
    }
}

/// A clock that runs as the monotonic clock of the machine does, so that a
/// program can wait for one of its readings to come.
pub trait ReasonablyRealtime: Clock {
    /// The instant of the monotonic clock that stands for `reading`, given
    /// a pair of readings that both clocks gave at one time.
    spec fn spec_convert_from_reference(reference: (Self::Instant, Instant), reading: Self::Instant) -> Instant;

    /// A reading of this clock and one of the monotonic clock, taken
    /// together.
    fn reference_point(&self) -> (Self::Instant, Instant);

    /// Turns a reading of this clock into an instant of the monotonic
    /// clock, by a pair of readings that both clocks gave at one time.
    fn convert_from_reference(reference: (Self::Instant, Instant), reading: Self::Instant) -> (r: Instant)
        ensures
            r == Self::spec_convert_from_reference(reference, reading),
    ;
}

impl ReasonablyRealtime for MonotonicClock {
    open spec fn spec_convert_from_reference(reference: (Instant, Instant), reading: Instant) -> Instant {
        reading
    }

    fn reference_point(&self) -> (Instant, Instant) {
        (self.now(), monotonic_reading())
    }

    fn convert_from_reference(_reference: (Instant, Instant), reading: Instant) -> (r: Instant) {
        reading
    }
}

impl ReasonablyRealtime for SystemClock {
    open spec fn spec_convert_from_reference(reference: (SystemTime, Instant), reading: SystemTime) -> Instant {
        reference.1.spec_add(reading.spec_duration_since(reference.0))
    }

    fn reference_point(&self) -> (SystemTime, Instant) {
        (self.now(), monotonic_reading())
    }

    fn convert_from_reference(reference: (SystemTime, Instant), reading: SystemTime) -> (r: Instant) {
        let diff = Reference::duration_since(&reading, reference.0);
        reference.1.add_nanos(diff)
    }
}

} // verus!
