//! Rate-limiting quotas: how many cells fit in one burst, and how long one
//! cell takes to come back.

use core::time::Duration;
use vstd::prelude::*;
use crate::nanos::{duration_from_nanos, duration_nanos, Nanos};

verus! {

/// Nanoseconds in one second.
pub const NANOS_PER_SECOND: u64 = 1_000_000_000;

/// Nanoseconds in one minute.
pub const NANOS_PER_MINUTE: u64 = 60_000_000_000;

/// Nanoseconds in one hour.
pub const NANOS_PER_HOUR: u64 = 3_600_000_000_000;

/// A rate-limiting quota.
///
/// A quota is a burst size (the number of cells that the limiter lets
/// through before it has to replenish) and the time in which one cell is
/// replenished. Neither is zero, and replenishing a whole burst takes no
/// longer than a nanosecond count can express.
#[derive(Clone, Copy, Debug, PartialEq, Eq, Structural)]
pub struct Quota {
    pub max_burst: u32,
    pub replenish_1_per: Nanos,
}

/// The replenish interval of a quota that spreads `max_burst` cells over
/// `period` nanoseconds: the period's share per cell, and never less than a
/// nanosecond.
pub open spec fn interval_for(period: int, max_burst: int) -> int {
    if period / max_burst >= 1 {
        period / max_burst
    } else {
        1
    }
}

impl Quota {
    /// Both parts are positive, and a full burst's replenish time fits in
    /// 64 bits.
    pub open spec fn wf(&self) -> bool {
        &&& self.max_burst >= 1
        &&& self.replenish_1_per@ >= 1
        &&& self.replenish_1_per@ * self.max_burst <= u64::MAX
    }

    /// The quota that spreads `max_burst` cells over `period` nanoseconds.
    pub open spec fn over_period(period: int, max_burst: u32) -> Quota {
        Quota { max_burst, replenish_1_per: Nanos(interval_for(period, max_burst as int) as u64) }
    }

    /// Spreads `max_burst` cells over a period that a burst of any size
    /// fits into.
    fn spread(period: u64, max_burst: u32) -> (r: Quota)
        requires
            max_burst >= 1,
            period >= 1,
        ensures
            r == Quota::over_period(period as int, max_burst),
            r.replenish_1_per@ * max_burst <= (if period >= max_burst { period } else { max_burst as u64 }),
            r.replenish_1_per@ >= 1,
    {
        let burst: u64 = max_burst.into();
        let share: u64 = period / burst;
        let interval: u64 = if share >= 1 { share } else { 1 };
        proof {
            assert((period as int / burst as int) * burst as int <= period) by (nonlinear_arith)
                requires
                    burst >= 1,
                    period >= 0,
            ;
        }
        Quota { max_burst, replenish_1_per: Nanos(interval) }
    }

    /// A quota of `max_burst` cells per second, which is also the burst
    /// size.
    pub fn per_second(max_burst: u32) -> (r: Quota)
        requires
            max_burst >= 1,
        ensures
            r.wf(),
            r == Quota::over_period(NANOS_PER_SECOND as int, max_burst),
    {
        Quota::spread(NANOS_PER_SECOND, max_burst)
    }

    /// A quota of `max_burst` cells per minute, which is also the burst
    /// size.
    pub fn per_minute(max_burst: u32) -> (r: Quota)
        requires
            max_burst >= 1,
        ensures
            r.wf(),
            r == Quota::over_period(NANOS_PER_MINUTE as int, max_burst),
    {
        Quota::spread(NANOS_PER_MINUTE, max_burst)
    }

    /// A quota of `max_burst` cells per hour, which is also the burst size.
    pub fn per_hour(max_burst: u32) -> (r: Quota)
        requires
            max_burst >= 1,
        ensures
            r.wf(),
            r == Quota::over_period(NANOS_PER_HOUR as int, max_burst),
    {
        Quota::spread(NANOS_PER_HOUR, max_burst)
    }

    /// A quota that replenishes one cell in the given time, with a burst
    /// size of one. A time of zero gives no quota.
    pub fn with_period(replenish_1_per: Duration) -> (r: Option<Quota>)
        requires
            duration_nanos(replenish_1_per) <= u64::MAX,
        ensures
            r == (if duration_nanos(replenish_1_per) == 0 {
                None
            } else {
                Some(Quota { max_burst: 1, replenish_1_per: Nanos(duration_nanos(replenish_1_per) as u64) })
            }),
            r is Some ==> r->Some_0.wf(),
    {
        let interval = Nanos::from_duration(replenish_1_per).unwrap();
        if interval.0 == 0 {
            None
        } else {
            Some(Quota { max_burst: 1, replenish_1_per: interval })
        }
    }

    /// A quota of the given burst size that replenishes the whole burst in
    /// the given time. A time of zero gives no quota.
    pub fn new(max_burst: u32, replenish_all_per: Duration) -> (r: Option<Quota>)
        requires
            max_burst >= 1,
            duration_nanos(replenish_all_per) <= u64::MAX,
        ensures
            r == (if duration_nanos(replenish_all_per) == 0 {
                None
            } else {
                Some(Quota::over_period(duration_nanos(replenish_all_per) as int, max_burst))
            }),
            r is Some ==> r->Some_0.wf(),
    {
        let period = Nanos::from_duration(replenish_all_per).unwrap();
        if period.0 == 0 {
            None
        } else {
            Some(Quota::spread(period.0, max_burst))
        }
    }

    /// The same replenish interval with another burst size.
    pub fn allow_burst(self, max_burst: u32) -> (r: Quota)
        requires
            self.wf(),
            max_burst >= 1,
            self.replenish_1_per@ * max_burst <= u64::MAX,
        ensures
            r.wf(),
            r.max_burst == max_burst,
            r.replenish_1_per == self.replenish_1_per,
    {
        Quota { max_burst, replenish_1_per: self.replenish_1_per }
    }

    /// The largest number of cells that one burst lets through.
    pub fn burst_size(&self) -> (r: u32)
        ensures
            r == self.max_burst,
    {
        self.max_burst
    }

    /// The time in which a limiter that has used up its burst replenishes
    /// one cell.
    pub fn replenish_interval(&self) -> (r: Duration)
        ensures
            r == duration_from_nanos(self.replenish_1_per.0),
            duration_nanos(r) == self.replenish_1_per@,
    {
        self.replenish_1_per.to_duration()
    }

    /// The time in which the whole burst size is replenished.
    pub fn burst_size_replenished_in(&self) -> (r: Duration)
        requires
            self.wf(),
        ensures
            duration_nanos(r) == self.replenish_1_per@ * self.max_burst,
    {
        let burst: u64 = self.max_burst.into();
        Nanos(self.replenish_1_per.0 * burst).to_duration()
    }

    /// The quota that a limiter with cell weight `t` and tolerance `tau`
    /// enforces.
    pub open spec fn spec_from_gcra_parameters(t: Nanos, tau: Nanos) -> Quota {
        Quota { max_burst: (1 + tau@ / t@) as u32, replenish_1_per: t }
    }

    /// Rebuilds the quota from the two parameters of a limiter in use.
    pub fn from_gcra_parameters(t: Nanos, tau: Nanos) -> (r: Quota)
        requires
            t@ >= 1,
            1 + tau@ / t@ <= u32::MAX,
        ensures
            r == Quota::spec_from_gcra_parameters(t, tau),
            r.max_burst == 1 + tau@ / t@,
    {
        let cells: u64 = tau.0 / t.0;
        let more: u32 = cells.try_into().unwrap();
        Quota { max_burst: 1 + more, replenish_1_per: t }
    }
}

} // verus!
