//! Clocks that read the processor's time-stamp counter, where it has one.

use core::time::Duration;
use std::sync::Arc;
use vstd::prelude::*;
use crate::clock::with_std::{monotonic_reading, ReasonablyRealtime};
use crate::clock::{Clock, Reference};
use crate::nanos::{duration_nanos, sat_add, sat_sub, Nanos};

verus! {

/// The time source of the quanta crate: its clock type, a handle on the
/// fastest time source of the machine, with the calibration that turns the
/// source's readings into nanoseconds. Nothing is stated of what it holds:
/// its readings depend on the machine and on the time.
#[verifier::external_body]
struct TimeSource {
    inner: quanta::Clock,
}

/// `quanta::Instant`, a reading of a `quanta::Clock` in nanoseconds.
#[verifier::external_type_specification]
#[verifier::external_body]
pub struct ExQuantaInstant(quanta::Instant);

/// `quanta::Upkeep`, the plan of a thread that keeps the recent time up to
/// date.
#[verifier::external_type_specification]
#[verifier::external_body]
pub struct ExQuantaUpkeep(quanta::Upkeep);

/// `quanta::Handle`, which keeps the upkeep thread running until it is
/// dropped.
#[verifier::external_type_specification]
#[verifier::external_body]
pub struct ExQuantaHandle(quanta::Handle);

/// Why an upkeep thread did not start.
#[derive(Clone, Copy, Debug, PartialEq, Eq)]
pub enum UpkeepError {
    /// This process runs an upkeep thread already.
    UpkeepRunning,
    /// The system did not spawn the thread.
    FailedToSpawnUpkeepThread,
}

/// `quanta::Clock::new`: calibrates, once in a process, and hands out a
/// clock.
#[verifier::external_body]
fn new_clock() -> TimeSource {
    TimeSource { inner: quanta::Clock::new() }
}

/// `quanta::Clock::clone`.
#[verifier::external_body]
fn same_clock(clock: &TimeSource) -> TimeSource {
    TimeSource { inner: clock.inner.clone() }
}

/// `quanta::Clock::raw`: the time source as it is, in units of its own.
#[verifier::external_body]
fn raw(clock: &TimeSource) -> u64 {
    clock.inner.raw()
}

/// `quanta::Clock::delta_as_nanos`: the nanoseconds between two raw
/// readings, by the calibration of the clock on this machine.
#[verifier::external_body]
fn delta_as_nanos(clock: &TimeSource, start: u64, end: u64) -> u64 {
    clock.inner.delta_as_nanos(start, end)
}

/// `quanta::Clock::recent`: the time that the upkeep thread stored last.
#[verifier::external_body]
fn recent(clock: &TimeSource) -> quanta::Instant {
    clock.inner.recent()
}

/// `quanta::Instant::saturating_duration_since`: the time from `earlier` to
/// `later`, which is zero where `earlier` is the later one. Both readings
/// are 64-bit nanosecond counts, and so is their distance.
#[verifier::external_body]
fn saturating_duration_since(later: &quanta::Instant, earlier: &quanta::Instant) -> (r: Duration)
    ensures
        duration_nanos(r) <= u64::MAX,
{
    later.saturating_duration_since(*earlier)
}

/// `quanta::Upkeep::new`: the plan of an upkeep thread that wakes up once
/// in `interval`.
#[verifier::external_body]
fn upkeep(interval: Duration) -> quanta::Upkeep {
    quanta::Upkeep::new(interval)
}

/// `quanta::Upkeep::start`: spawns the upkeep thread, unless the process
/// has one or the system refuses.
#[verifier::external_body]
fn start(builder: quanta::Upkeep) -> Result<quanta::Handle, UpkeepError> {
    match builder.start() {
        Ok(handle) => Ok(handle),
        Err(quanta::Error::UpkeepRunning) => Err(UpkeepError::UpkeepRunning),
        Err(quanta::Error::FailedToSpawnUpkeepThread(_)) => Err(UpkeepError::FailedToSpawnUpkeepThread),
    }
}

/// A clock that reads the time source at each call.
pub struct QuantaClock {
    clock: TimeSource,
}

impl Default for QuantaClock {
    fn default() -> (r: QuantaClock) {
        QuantaClock { clock: new_clock() }
    }
}

impl Clone for QuantaClock {
    fn clone(&self) -> (r: QuantaClock) {
        QuantaClock { clock: same_clock(&self.clock) }
    }
}

impl Clock for QuantaClock {
    type Instant = QuantaInstant;

    fn now(&self) -> QuantaInstant {
        let nowish = raw(&self.clock);
        QuantaInstant(Nanos::new(delta_as_nanos(&self.clock, 0, nowish)))
    }
}

impl ReasonablyRealtime for QuantaClock {
    open spec fn spec_convert_from_reference(
        reference: (QuantaInstant, std::time::Instant),
        reading: QuantaInstant,
    ) -> std::time::Instant {
        reference.1.spec_add(reading.spec_duration_since(reference.0))
    }

    fn reference_point(&self) -> (QuantaInstant, std::time::Instant) {
        (self.now(), monotonic_reading())
    }

    fn convert_from_reference(reference: (QuantaInstant, std::time::Instant), reading: QuantaInstant) -> (r:
        std::time::Instant) {
        let diff = reading.duration_since(reference.0);
        reference.1.add_nanos(diff)
    }
}

/// A reading of a quanta clock, in nanoseconds of reference time.
#[derive(Clone, Copy, Debug, PartialEq, Eq, Structural, PartialOrd, Ord)]
pub struct QuantaInstant(pub Nanos);

impl Reference for QuantaInstant {
    open spec fn spec_add(self, duration: Nanos) -> QuantaInstant {
        QuantaInstant(Nanos(sat_add(self.0@, duration@) as u64))
    }

    open spec fn spec_duration_since(self, earlier: QuantaInstant) -> Nanos {
        Nanos(sat_sub(self.0@, earlier.0@) as u64)
    }

    open spec fn spec_saturating_sub(self, duration: Nanos) -> QuantaInstant {
        QuantaInstant(Nanos(sat_sub(self.0@, duration@) as u64))
    }

    fn add_nanos(self, duration: Nanos) -> (r: QuantaInstant) {
        QuantaInstant(self.0.saturating_add(duration))
    }

    fn duration_since(&self, earlier: QuantaInstant) -> (r: Nanos) {
        self.0.saturating_sub(earlier.0)
    }

    fn saturating_sub(&self, duration: Nanos) -> (r: QuantaInstant) {
        QuantaInstant(self.0.saturating_sub(duration))
    }
}

impl core::ops::Add<Nanos> for QuantaInstant {
    type Output = QuantaInstant;

    fn add(self, other: Nanos) -> (r: QuantaInstant) {
        QuantaInstant(Nanos(self.0.0 + other.0))
    }
}

impl vstd::std_specs::ops::AddSpecImpl<Nanos> for QuantaInstant {
    open spec fn obeys_add_spec() -> bool {
        true
    }

    open spec fn add_req(self, other: Nanos) -> bool {
        self.0@ + other@ <= u64::MAX
    }

    open spec fn add_spec(self, other: Nanos) -> QuantaInstant {
        QuantaInstant(Nanos((self.0@ + other@) as u64))
    }
}

/// A clock that reads the time which a thread in the background stores at
/// regular intervals.
///
/// A reading costs one atomic load and is behind by the interval at most.
/// The thread stops when the last clone of the clock is dropped.
pub struct QuantaUpkeepClock {
    clock: TimeSource,
    handle: Arc<quanta::Handle>,
    reference: quanta::Instant,
}

impl QuantaUpkeepClock {
    /// A clock whose upkeep thread wakes up once in `interval`.
    pub fn from_interval(interval: Duration) -> (r: Result<QuantaUpkeepClock, UpkeepError>) {
        let builder = upkeep(interval);
        QuantaUpkeepClock::from_builder(builder)
    }

    /// A clock whose upkeep thread is the one that `builder` describes.
    /// Whether the thread starts is for the process and the system to say.
    pub fn from_builder(builder: quanta::Upkeep) -> (r: Result<QuantaUpkeepClock, UpkeepError>) {
        QuantaUpkeepClock::from_started(start(builder))
    }

    /// A clock on the upkeep thread whose start gave `started`: the clock
    /// that keeps the thread's handle where the thread runs, and the error
    /// of the start where it does not.
    pub fn from_started(started: Result<quanta::Handle, UpkeepError>) -> (r: Result<
        QuantaUpkeepClock,
        UpkeepError,
    >)
        ensures
            match started {
                Ok(handle) => r is Ok && *r->Ok_0.spec_handle() == handle,
                Err(e) => r is Err && r->Err_0 == e,
            },
    {
        match started {
            Err(e) => Err(e),
            Ok(handle) => {
                let clock = new_clock();
                let reference = recent(&clock);
                Ok(QuantaUpkeepClock { clock, handle: Arc::new(handle), reference })
            },
        }
    }

    /// The handle that keeps the upkeep thread of this clock running.
    pub closed spec fn spec_handle(&self) -> Arc<quanta::Handle> {
        self.handle
    }
}

impl Clone for QuantaUpkeepClock {
    fn clone(&self) -> (r: QuantaUpkeepClock) {
        QuantaUpkeepClock {
            clock: same_clock(&self.clock),
            handle: self.handle.clone(),
            reference: self.reference,
        }
    }
}

impl Clock for QuantaUpkeepClock {
    type Instant = QuantaInstant;

    fn now(&self) -> QuantaInstant {
        let latest = recent(&self.clock);
        let since = saturating_duration_since(&latest, &self.reference);
        QuantaInstant(Nanos::from_duration(since).unwrap())
    }
}

} // verus!
