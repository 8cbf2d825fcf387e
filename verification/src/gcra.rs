//! The generic cell rate algorithm: parameters, the snapshot that a decision
//! leaves behind, and the decisions themselves as functions of the time of
//! arrival and the stored theoretical arrival time.

use core::time::Duration;
use vstd::prelude::*;
use crate::clock::Reference;
use crate::errors::InsufficientCapacity;
use crate::middleware::RateLimitingMiddleware;
use crate::nanos::{duration_from_nanos, duration_nanos, sat_add, sat_mul, sat_sub, Nanos};
use crate::quota::Quota;
use crate::state::{outcome_of, spec_proposed, stored, StateStore};

verus! {

/// A negative rate-limiting outcome: the cell does not conform before the
/// time that the snapshot names.
#[derive(Clone, Copy, Debug, PartialEq, Eq)]
pub struct NotUntil<P: Reference> {
    /// The state that the refusal was made on. Its arrival time is the
    /// earliest time at which the cell conforms, counted from `start`.
    pub state: StateSnapshot,
    /// The reading of the clock that the limiter counts from.
    pub start: P,
}

impl<P: Reference> NotUntil<P> {
    /// A refusal on `state`, by a limiter that counts from `start`.
    pub fn new(state: StateSnapshot, start: P) -> (r: NotUntil<P>)
        ensures
            r == (NotUntil { state, start }),
    {
        NotUntil { state, start }
    }

    /// The earliest time at which a decision could be positive, as long as
    /// no other cell is let through in the meantime.
    pub fn earliest_possible(&self) -> (r: P)
        ensures
            r == self.start.spec_add(self.state.tat),
    {
        self.start.add_nanos(self.state.tat)
    }

    /// The time that has to pass from `from` until a decision can be
    /// positive. It is zero where that time has come.
    pub fn wait_time_from(&self, from: P) -> (r: Duration)
        ensures
            r == duration_from_nanos(self.start.spec_add(self.state.tat).spec_duration_since(from).0),
            duration_nanos(r) == self.start.spec_add(self.state.tat).spec_duration_since(from)@,
    {
        let earliest = self.earliest_possible();
        earliest.duration_since(from).to_duration()
    }

    /// The quota that the decision was made under.
    pub fn quota(&self) -> (r: Quota)
        requires
            self.state.wf(),
        ensures
            r == Quota::spec_from_gcra_parameters(self.state.t, self.state.tau),
    {
        self.state.quota()
    }

    /// The earliest time at which a decision could be positive, put off by
    /// `jitter`.
    pub fn earliest_possible_with_offset(&self, jitter: Nanos) -> (r: P)
        ensures
            r == self.start.spec_add(Nanos(sat_add(jitter@, self.state.tat@) as u64)),
    {
        let tat = jitter.saturating_add(self.state.tat);
        self.start.add_nanos(tat)
    }

    /// The time that has to pass from `from` until a decision, put off by
    /// `jitter`, can be positive.
    pub fn wait_time_with_offset(&self, from: P, jitter: Nanos) -> (r: Duration)
        ensures
            r == duration_from_nanos(
                self.start.spec_add(Nanos(sat_add(jitter@, self.state.tat@) as u64)).spec_duration_since(
                    from,
                ).0,
            ),
            duration_nanos(r) == self.start.spec_add(
                Nanos(sat_add(jitter@, self.state.tat@) as u64),
            ).spec_duration_since(from)@,
    {
        let earliest = self.earliest_possible_with_offset(jitter);
        earliest.duration_since(from).to_duration()
    }
}

/// The text of a refusal until `earliest`, made by `format!` of the
/// reading's own text: nothing is proved of it.
#[verifier::external_body]
fn rate_limited_until<P: core::fmt::Debug>(earliest: &P) -> String {
    format!("rate-limited until {:?}", earliest)
}

impl<P: Reference + core::fmt::Debug> NotUntil<P> {
    /// The refusal in words: that the rate is limited, and until when.
    pub fn to_string(&self) -> String {
        let earliest = self.earliest_possible();
        rate_limited_until(&earliest)
    }
}

/// The rate-limiting state that a decision was made on.
#[derive(Clone, Copy, Debug, PartialEq, Eq, Structural)]
pub struct StateSnapshot {
    /// The weight of one cell, in time.
    pub t: Nanos,
    /// The tolerance of the bucket, in time.
    pub tau: Nanos,
    /// When the decision was made, counted from the limiter's start.
    pub time_of_measurement: Nanos,
    /// The theoretical arrival time of the next cell.
    pub tat: Nanos,
}

impl StateSnapshot {
    /// The parameters are those of a bucket whose burst size fits in 32
    /// bits.
    pub open spec fn wf(&self) -> bool {
        &&& self.t@ >= 1
        &&& 1 + self.tau@ / self.t@ <= u32::MAX
    }

    /// Puts a snapshot together.
    pub fn new(t: Nanos, tau: Nanos, time_of_measurement: Nanos, tat: Nanos) -> (r: StateSnapshot)
        ensures
            r == (StateSnapshot { t, tau, time_of_measurement, tat }),
    {
        StateSnapshot { t, tau, time_of_measurement, tat }
    }

    /// The quota that the decision was made under.
    pub fn quota(&self) -> (r: Quota)
        requires
            self.wf(),
        ensures
            r == Quota::spec_from_gcra_parameters(self.t, self.tau),
    {
        Quota::from_gcra_parameters(self.t, self.tau)
    }

    /// The cells that the bucket can still let through at the time of
    /// measurement: the time left until the bucket is full, capped at the
    /// whole bucket, in cell weights.
    pub open spec fn spec_remaining_burst_capacity(&self) -> int {
        let horizon = sat_add(sat_add(self.time_of_measurement@, self.t@), self.tau@);
        let left = sat_sub(horizon, self.tat@);
        let whole = sat_add(self.tau@, self.t@);
        (if left <= whole { left } else { whole }) / self.t@
    }

    /// The number of cells that can be let through in addition to the one
    /// that this snapshot was taken for.
    pub fn remaining_burst_capacity(&self) -> (r: u32)
        requires
            self.wf(),
        ensures
            r == self.spec_remaining_burst_capacity(),
            r <= 1 + self.tau@ / self.t@,
    {
        let horizon = self.time_of_measurement.saturating_add(self.t).saturating_add(self.tau);
        let left = horizon.saturating_sub(self.tat);
        let whole = self.tau.saturating_add(self.t);
        let least = left.min(whole);
        let cells: u64 = least.div(self.t);
        proof {
            let t = self.t@;
            let tau = self.tau@;
            assert(whole@ <= tau + t);
            assert((tau + t) / t == tau / t + 1) by (nonlinear_arith)
                requires
                    t >= 1,
                    tau >= 0,
            ;
            assert(cells as int <= (tau + t) / t) by (nonlinear_arith)
                requires
                    t >= 1,
                    cells as int == least@ / t,
                    least@ <= tau + t,
                    least@ >= 0,
            ;
        }
        cells.try_into().unwrap()
    }
}

/// The parameters of the algorithm.
#[derive(Clone, Copy, Debug, PartialEq, Eq, Structural)]
pub struct Gcra {
    /// The weight of one cell, in time.
    pub t: Nanos,
    /// The tolerance of the bucket, in time: a full bucket holds `t + tau`.
    pub tau: Nanos,
}

/// The outcome of a decision on one or on all of several cells: the snapshot
/// and the new theoretical arrival time where the cells conform, the
/// snapshot of the refusal where they do not.
pub type Decision = Result<(StateSnapshot, Nanos), StateSnapshot>;

impl Gcra {
    /// The weight is positive, the tolerance is a whole number of weights
    /// that fits in 32 bits, and a full bucket fits in 64.
    pub open spec fn wf(&self) -> bool {
        &&& self.t@ >= 1
        &&& self.tau@ % self.t@ == 0
        &&& 1 + self.tau@ / self.t@ <= u32::MAX
        &&& self.t@ + self.tau@ <= u64::MAX
    }

    /// The parameters that enforce a quota: one replenish interval per
    /// cell, and a tolerance of one interval for each cell of the burst but
    /// the first.
    pub open spec fn spec_new(quota: Quota) -> Gcra {
        Gcra {
            t: quota.replenish_1_per,
            tau: Nanos((quota.replenish_1_per@ * (quota.max_burst - 1)) as u64),
        }
    }

    /// The parameters that enforce `quota`.
    pub fn new(quota: Quota) -> (r: Gcra)
        requires
            quota.wf(),
        ensures
            r == Gcra::spec_new(quota),
            r.wf(),
            r.burst_capacity() == quota.max_burst,
    {
        let t = quota.replenish_1_per;
        let more: u64 = (quota.max_burst - 1).into();
        proof {
            let ti = t@;
            let m = more as int;
            assert(ti * m <= ti * (m + 1)) by (nonlinear_arith)
                requires
                    ti >= 0,
            ;
            assert(ti * m + ti == ti * (m + 1)) by (nonlinear_arith);
            assert((ti * m) % ti == 0 && (ti * m) / ti == m) by (nonlinear_arith)
                requires
                    ti >= 1,
                    m >= 0,
            ;
        }
        let tau = Nanos(t.0 * more);
        Gcra { t, tau }
    }

    /// The weight of one cell.
    pub fn t(&self) -> (r: Nanos)
        ensures
            r == self.t,
    {
        self.t
    }

    /// The largest batch that a full bucket lets through.
    pub open spec fn burst_capacity(&self) -> int {
        1 + self.tau@ / self.t@
    }

    /// The largest batch that a full bucket lets through.
    pub fn max_batch(&self) -> (r: u32)
        requires
            self.wf(),
        ensures
            r == self.burst_capacity(),
            r >= 1,
    {
        let cells: u64 = self.tau.div(self.t);
        let more: u32 = cells.try_into().unwrap();
        1 + more
    }

    /// The theoretical arrival time that a decision starts from: the stored
    /// one, or the time of arrival itself for a state never used.
    pub open spec fn arrival(t0: Nanos, prev: Option<Nanos>) -> int {
        match prev {
            Some(tat) => tat@,
            None => t0@,
        }
    }

    /// The weight of the cells of a batch of `n` beyond the first.
    pub open spec fn additional_weight(&self, n: int) -> int {
        sat_mul(self.t@, n - 1)
    }

    /// A full bucket holds a batch of `n`.
    pub open spec fn fits(&self, n: int) -> bool {
        self.t@ * (n - 1) <= self.tau@
    }

    /// The earliest time of arrival at which a batch of `n` conforms.
    pub open spec fn earliest_time(&self, t0: Nanos, prev: Option<Nanos>, n: int) -> int {
        sat_sub(sat_add(Gcra::arrival(t0, prev), self.additional_weight(n)), self.tau@)
    }

    /// A batch of `n` that arrives at `t0` conforms.
    pub open spec fn conforms(&self, t0: Nanos, prev: Option<Nanos>, n: int) -> bool {
        t0@ >= self.earliest_time(t0, prev, n)
    }

    /// The theoretical arrival time after a batch of `n` was let through at
    /// `t0`.
    pub open spec fn next_arrival(&self, t0: Nanos, prev: Option<Nanos>, n: int) -> int {
        let tat = Gcra::arrival(t0, prev);
        let from = if tat >= t0@ { tat } else { t0@ };
        sat_add(sat_add(from, self.t@), self.additional_weight(n))
    }

    /// The decision on a batch of `n` cells that arrives at `t0` and has to
    /// conform as a whole.
    pub open spec fn spec_decide(&self, t0: Nanos, prev: Option<Nanos>, n: int) -> Decision {
        if self.conforms(t0, prev, n) {
            let next = Nanos(self.next_arrival(t0, prev, n) as u64);
            Ok((StateSnapshot { t: self.t, tau: self.tau, time_of_measurement: t0, tat: next }, next))
        } else {
            let earliest = Nanos(self.earliest_time(t0, prev, n) as u64);
            Err(StateSnapshot { t: self.t, tau: self.tau, time_of_measurement: earliest, tat: earliest })
        }
    }

    /// Decides on a batch of `n` cells that arrives at `t0`, given the
    /// stored theoretical arrival time.
    pub fn decide(&self, t0: Nanos, prev: Option<Nanos>, n: u32) -> (r: Decision)
        requires
            n >= 1,
        ensures
            r == self.spec_decide(t0, prev, n as int),
    {
        let tat = match prev {
            Some(tat) => tat,
            None => t0,
        };
        let additional_weight = self.t.saturating_mul((n - 1).into());
        let earliest_time = tat.saturating_add(additional_weight).saturating_sub(self.tau);
        if t0.0 < earliest_time.0 {
            Err(StateSnapshot::new(self.t, self.tau, earliest_time, earliest_time))
        } else {
            let next = tat.max(t0).saturating_add(self.t).saturating_add(additional_weight);
            Ok((StateSnapshot::new(self.t, self.tau, t0, next), next))
        }
    }

    /// The number of cells that the bucket has room for at `t0`.
    pub open spec fn available(&self, t0: Nanos, prev: Option<Nanos>) -> int {
        let tat = Gcra::arrival(t0, prev);
        let horizon = sat_add(t0@, self.tau@);
        if tat > horizon {
            0
        } else {
            (horizon - tat) / self.t@ + 1
        }
    }

    /// The number of cells of a batch of `n` that are let through at `t0`:
    /// as many as were asked for, as the bucket has room for, and as a full
    /// bucket holds.
    pub open spec fn admitted(&self, t0: Nanos, prev: Option<Nanos>, n: int) -> int {
        let room = self.available(t0, prev);
        let cap = self.burst_capacity();
        let least = if room <= cap { room } else { cap };
        if n <= least { n } else { least }
    }

    /// The decision on a batch of up to `n` cells that arrives at `t0`: how
    /// many are let through, the snapshot, and the new theoretical arrival
    /// time, which is the old one where none is.
    pub open spec fn spec_decide_any(&self, t0: Nanos, prev: Option<Nanos>, n: int) -> (u32, StateSnapshot, Nanos) {
        let k = self.admitted(t0, prev, n);
        let next = Nanos((if k > 0 { self.next_arrival(t0, prev, k) } else { Gcra::arrival(t0, prev) }) as u64);
        (k as u32, StateSnapshot { t: self.t, tau: self.tau, time_of_measurement: t0, tat: next }, next)
    }

    /// Decides how many of `n` cells that arrive at `t0` are let through.
    pub fn decide_any(&self, t0: Nanos, prev: Option<Nanos>, n: u32) -> (r: (u32, StateSnapshot, Nanos))
        requires
            self.wf(),
            n >= 1,
        ensures
            r == self.spec_decide_any(t0, prev, n as int),
            r.0 <= n,
            r.0 <= self.burst_capacity(),
            r.0 <= self.available(t0, prev),
    {
        let tat = match prev {
            Some(tat) => tat,
            None => t0,
        };
        let horizon = t0.saturating_add(self.tau);
        let cap = self.max_batch();
        let wanted = if n <= cap { n } else { cap };
        let k: u32 = if tat.0 > horizon.0 {
            0
        } else {
            let room_less_one: u64 = horizon.saturating_sub(tat).div(self.t);
            let wanted_less_one: u64 = (wanted - 1).into();
            if room_less_one < wanted_less_one {
                let r: u32 = room_less_one.try_into().unwrap();
                r + 1
            } else {
                wanted
            }
        };
        let next = if k > 0 {
            let additional_weight = self.t.saturating_mul((k - 1).into());
            tat.max(t0).saturating_add(self.t).saturating_add(additional_weight)
        } else {
            tat
        };
        (k, StateSnapshot::new(self.t, self.tau, t0, next), next)
    }
}

/// `r` is what a limiter returns for a decision: what the middleware's
/// `allow` makes of the snapshot of a batch that conforms, in `Ok`, or what
/// its `disallow` makes of the snapshot of one that does not, in `Err`.
pub open spec fn outcome_matches<K, P: Reference, MW: RateLimitingMiddleware<K, P>>(
    key: &K,
    start: P,
    decision: Decision,
    r: Result<MW::PositiveOutcome, MW::NegativeOutcome>,
) -> bool {
    match decision {
        Ok(pair) => r is Ok && MW::allowed(key, pair.0, r->Ok_0),
        Err(state) => r is Err && MW::disallowed(key, state, start, r->Err_0),
    }
}

impl Gcra {
    /// `r` is what a limiter that counts from `start` returns for a batch
    /// of `n` that arrives `t0` after it, where the state holds `prev`.
    pub open spec fn tested<K, P: Reference, MW: RateLimitingMiddleware<K, P>>(
        &self,
        start: P,
        key: &K,
        n: int,
        t0: Nanos,
        prev: Option<Nanos>,
        r: Result<MW::PositiveOutcome, MW::NegativeOutcome>,
    ) -> bool {
        outcome_matches::<K, P, MW>(key, start, self.spec_decide(t0, prev, n), r)
    }

    /// `r` is what a limiter returns for a batch of up to `n` that arrives
    /// `t0` after its start, where the state holds `prev`: how many cells
    /// it let through, and what the middleware's `allow` makes of the state
    /// after them.
    pub open spec fn tested_any<K, P: Reference, MW: RateLimitingMiddleware<K, P>>(
        &self,
        key: &K,
        n: int,
        t0: Nanos,
        prev: Option<Nanos>,
        r: (u32, MW::PositiveOutcome),
    ) -> bool {
        let d = self.spec_decide_any(t0, prev, n);
        r.0 == d.0 && MW::allowed(key, d.1, r.1)
    }

    /// The decision on a batch of `n` that arrives `t0` after the start,
    /// where the state holds `prev`, as a state store takes it: what the
    /// middleware makes of a batch that conforms, with the new arrival time
    /// to store, or what it makes of a refusal, which stores nothing.
    pub fn decision_for<K, P: Reference, MW: RateLimitingMiddleware<K, P>>(
        &self,
        start: P,
        key: &K,
        n: u32,
        t0: Nanos,
        prev: Option<Nanos>,
    ) -> (d: Result<(MW::PositiveOutcome, Nanos), MW::NegativeOutcome>)
        requires
            n >= 1,
        ensures
            self.tested::<K, P, MW>(start, key, n as int, t0, prev, outcome_of(d)),
            spec_proposed(d) == spec_proposed(self.spec_decide(t0, prev, n as int)),
    {
        match self.decide(t0, prev, n) {
            Ok(pair) => Ok((MW::allow(key, pair.0), pair.1)),
            Err(snapshot) => Err(MW::disallow(key, snapshot, start)),
        }
    }

    /// The decision on a batch of up to `n` that arrives `t0` after the
    /// start, where the state holds `prev`, as a state store takes it: how
    /// many cells pass and what the middleware makes of the state after
    /// them, with the arrival time to store. It is never an error.
    pub fn decision_for_any<K, P: Reference, MW: RateLimitingMiddleware<K, P>>(
        &self,
        key: &K,
        n: u32,
        t0: Nanos,
        prev: Option<Nanos>,
    ) -> (d: Result<((u32, MW::PositiveOutcome), Nanos), ()>)
        requires
            self.wf(),
            n >= 1,
        ensures
            d is Ok,
            self.tested_any::<K, P, MW>(key, n as int, t0, prev, d->Ok_0.0),
            d->Ok_0.1 == self.spec_decide_any(t0, prev, n as int).2,
            d->Ok_0.0.0 <= n,
            d->Ok_0.0.0 <= self.burst_capacity(),
    {
        let vended = self.decide_any(t0, prev, n);
        Ok(((vended.0, MW::allow(key, vended.1)), vended.2))
    }

    /// Decides on a batch of `n` against the state at `key`, and either
    /// stores the new state or, for a peek, leaves the state as it was.
    fn measure<K, P: Reference, S: StateStore<Key = K>, MW: RateLimitingMiddleware<K, P>>(
        &self,
        start: P,
        key: &K,
        n: u32,
        state: &S,
        t0: Nanos,
        peek: bool,
    ) -> (r: Result<MW::PositiveOutcome, MW::NegativeOutcome>)
        requires
            n >= 1,
        ensures
            exists|raw: u64| #[trigger] self.tested::<K, P, MW>(start, key, n as int, t0, stored(raw), r),
    {
        let decide = |tat: Option<Nanos>| -> (d: Result<(MW::PositiveOutcome, Nanos), MW::NegativeOutcome>)
            ensures
                self.tested::<K, P, MW>(start, key, n as int, t0, tat, outcome_of(d)),
                spec_proposed(d) == spec_proposed(self.spec_decide(t0, tat, n as int)),
            {
                self.decision_for::<K, P, MW>(start, key, n, t0, tat)
            };
        if peek {
            state.measure_and_peek(key, decide)
        } else {
            state.measure_and_replace(key, decide)
        }
    }

    /// Tests a single cell against the state at `key` and updates the
    /// state if the cell conforms.
    ///
    /// The cell arrives at `t0`; the limiter counts from `start`. The
    /// result is the decision on what the state held when it was made, and
    /// what is handed to the store is that of `decision_for`.
    pub fn test_and_update<K, P: Reference, S: StateStore<Key = K>, MW: RateLimitingMiddleware<K, P>>(
        &self,
        start: P,
        key: &K,
        state: &S,
        t0: P,
    ) -> (r: Result<MW::PositiveOutcome, MW::NegativeOutcome>)
        ensures
            exists|raw: u64| #[trigger]
                self.tested::<K, P, MW>(start, key, 1, t0.spec_duration_since(start), stored(raw), r),
    {
        let t0 = t0.duration_since(start);
        self.measure::<K, P, S, MW>(start, key, 1, state, t0, false)
    }

    /// Tests a single cell against the state at `key` and leaves the state
    /// as it is.
    pub fn test_and_peek<K, P: Reference, S: StateStore<Key = K>, MW: RateLimitingMiddleware<K, P>>(
        &self,
        start: P,
        key: &K,
        state: &S,
        t0: P,
    ) -> (r: Result<MW::PositiveOutcome, MW::NegativeOutcome>)
        ensures
            exists|raw: u64| #[trigger]
                self.tested::<K, P, MW>(start, key, 1, t0.spec_duration_since(start), stored(raw), r),
    {
        let t0 = t0.duration_since(start);
        self.measure::<K, P, S, MW>(start, key, 1, state, t0, true)
    }

    /// The largest batch that can ever conform, as the error for a batch of
    /// `n` that a full bucket does not hold.
    pub fn check_capacity(&self, n: u32) -> (r: Result<(), InsufficientCapacity>)
        requires
            self.wf(),
            n >= 1,
        ensures
            r == (if self.fits(n as int) {
                Ok::<(), InsufficientCapacity>(())
            } else {
                Err::<(), InsufficientCapacity>(InsufficientCapacity(self.burst_capacity() as u32))
            }),
            self.fits(n as int) <==> n <= self.burst_capacity(),
    {
        let additional_weight = self.t.saturating_mul((n - 1).into());
        proof {
            let t = self.t@;
            let tau = self.tau@;
            let m = (n - 1) as int;
            assert(t * m <= tau <==> m <= tau / t) by (nonlinear_arith)
                requires
                    t >= 1,
                    tau >= 0,
                    tau % t == 0,
                    m >= 0,
            ;
        }
        if additional_weight.0 > self.tau.0 {
            Err(InsufficientCapacity(self.max_batch()))
        } else {
            Ok(())
        }
    }

    /// Tests whether all `n` cells conform against the state at `key`:
    /// refuses for good a batch that a full bucket does not hold, and else
    /// decides, and stores the new state unless it is a peek.
    fn measure_all<K, P: Reference, S: StateStore<Key = K>, MW: RateLimitingMiddleware<K, P>>(
        &self,
        start: P,
        key: &K,
        n: u32,
        state: &S,
        t0: Nanos,
        peek: bool,
    ) -> (r: Result<Result<MW::PositiveOutcome, MW::NegativeOutcome>, InsufficientCapacity>)
        requires
            self.wf(),
            n >= 1,
        ensures
            n > self.burst_capacity() ==> r == Err::<
                Result<MW::PositiveOutcome, MW::NegativeOutcome>,
                InsufficientCapacity,
            >(InsufficientCapacity(self.burst_capacity() as u32)),
            n <= self.burst_capacity() ==> r is Ok && exists|raw: u64| #[trigger]
                self.tested::<K, P, MW>(start, key, n as int, t0, stored(raw), r->Ok_0),
    {
        match self.check_capacity(n) {
            Err(e) => Err(e),
            Ok(_) => {
                let inner = self.measure::<K, P, S, MW>(start, key, n, state, t0, peek);
                let ghost seen = choose|raw: u64| #[trigger]
                    self.tested::<K, P, MW>(start, key, n as int, t0, stored(raw), inner);
                let r = Ok(inner);
                assert(self.tested::<K, P, MW>(start, key, n as int, t0, stored(seen), r->Ok_0));
                r
            },
        }
    }

    /// Tests whether all `n` cells conform against the state at `key`, and
    /// updates the state if they do.
    ///
    /// A batch that a full bucket does not hold is refused for good, with
    /// the largest batch that can conform.
    pub fn test_n_all_and_update<
        K,
        P: Reference,
        S: StateStore<Key = K>,
        MW: RateLimitingMiddleware<K, P>,
    >(&self, start: P, key: &K, n: u32, state: &S, t0: P) -> (r: Result<
        Result<MW::PositiveOutcome, MW::NegativeOutcome>,
        InsufficientCapacity,
    >)
        requires
            self.wf(),
            n >= 1,
        ensures
            n > self.burst_capacity() ==> r == Err::<
                Result<MW::PositiveOutcome, MW::NegativeOutcome>,
                InsufficientCapacity,
            >(InsufficientCapacity(self.burst_capacity() as u32)),
            n <= self.burst_capacity() ==> r is Ok && exists|raw: u64| #[trigger]
                self.tested::<K, P, MW>(
                    start,
                    key,
                    n as int,
                    t0.spec_duration_since(start),
                    stored(raw),
                    r->Ok_0,
                ),
    {
        let t0 = t0.duration_since(start);
        self.measure_all::<K, P, S, MW>(start, key, n, state, t0, false)
    }

    /// Tests whether all `n` cells conform against the state at `key`, and
    /// leaves the state as it is.
    pub fn test_n_all_and_peek<
        K,
        P: Reference,
        S: StateStore<Key = K>,
        MW: RateLimitingMiddleware<K, P>,
    >(&self, start: P, key: &K, n: u32, state: &S, t0: P) -> (r: Result<
        Result<MW::PositiveOutcome, MW::NegativeOutcome>,
        InsufficientCapacity,
    >)
        requires
            self.wf(),
            n >= 1,
        ensures
            n > self.burst_capacity() ==> r == Err::<
                Result<MW::PositiveOutcome, MW::NegativeOutcome>,
                InsufficientCapacity,
            >(InsufficientCapacity(self.burst_capacity() as u32)),
            n <= self.burst_capacity() ==> r is Ok && exists|raw: u64| #[trigger]
                self.tested::<K, P, MW>(
                    start,
                    key,
                    n as int,
                    t0.spec_duration_since(start),
                    stored(raw),
                    r->Ok_0,
                ),
    {
        let t0 = t0.duration_since(start);
        self.measure_all::<K, P, S, MW>(start, key, n, state, t0, true)
    }

    /// Tests how many of `n` cells conform against the state at `key`, and
    /// updates the state to let that many through.
    ///
    /// This never fails: the number let through lies between zero and `n`,
    /// and is never more than a full bucket holds. What is handed to the
    /// store is the decision of `decision_for_any`.
    pub fn test_any_n_and_update<
        K,
        P: Reference,
        S: StateStore<Key = K>,
        MW: RateLimitingMiddleware<K, P>,
    >(&self, start: P, key: &K, n: u32, state: &S, t0: P) -> (r: (u32, MW::PositiveOutcome))
        requires
            self.wf(),
            n >= 1,
        ensures
            exists|raw: u64| #[trigger]
                self.tested_any::<K, P, MW>(key, n as int, t0.spec_duration_since(start), stored(raw), r),
            r.0 <= n,
            r.0 <= self.burst_capacity(),
    {
        let t0 = t0.duration_since(start);
        let decide = |tat: Option<Nanos>| -> (d: Result<((u32, MW::PositiveOutcome), Nanos), ()>)
            ensures
                d is Ok,
                self.tested_any::<K, P, MW>(key, n as int, t0, tat, d->Ok_0.0),
                d->Ok_0.1 == self.spec_decide_any(t0, tat, n as int).2,
                d->Ok_0.0.0 <= n,
                d->Ok_0.0.0 <= self.burst_capacity(),
            {
                self.decision_for_any::<K, P, MW>(key, n, t0, tat)
            };
        match state.measure_and_replace(key, decide) {
            Ok(pair) => pair,
            Err(_) => vstd::pervasive::unreached(),
        }
    }
}

} // verus!
