//! What the algorithm guarantees over time: how a stored arrival time
//! relates to the decisions that follow, and how many cells a run of
//! decisions can let through.

use vstd::prelude::*;
use crate::clock::Reference;
use crate::gcra::Gcra;
use crate::nanos::Nanos;
use crate::middleware::{NoOpMiddleware, StateInformationMiddleware};
use crate::quota::Quota;
use crate::state::keyed::spec_drop_below;

verus! {

/// Rebuilding a quota from the parameters that enforce it gives the quota
/// back.
pub proof fn lemma_quota_round_trip(quota: Quota)
    requires
        quota.wf(),
    ensures
        Quota::spec_from_gcra_parameters(Gcra::spec_new(quota).t, Gcra::spec_new(quota).tau) == quota,
{
    let t = quota.replenish_1_per@;
    let m = (quota.max_burst - 1) as int;
    assert(t * m <= t * (m + 1) && (t * m) / t == m) by (nonlinear_arith)
        requires
            t >= 1,
            m >= 0,
    ;
}

/// Where no sum runs past the end of the count, a batch of `n` that arrives
/// at `t0` conforms if and only if `t0` has come within the tolerance of
/// the arrival time of its last cell; and the arrival time after it is the
/// later of `t0` and the one before, and `n` weights more.
pub proof fn lemma_decision_in_plain_terms(g: Gcra, t0: Nanos, prev: Option<Nanos>, n: int)
    requires
        g.wf(),
        n >= 1,
        Gcra::arrival(t0, prev) + n * g.t@ <= u64::MAX,
        t0@ + n * g.t@ <= u64::MAX,
    ensures
        g.conforms(t0, prev, n) <==> t0@ + g.tau@ >= Gcra::arrival(t0, prev) + (n - 1) * g.t@,
        g.next_arrival(t0, prev, n) == (if Gcra::arrival(t0, prev) >= t0@ {
            Gcra::arrival(t0, prev)
        } else {
            t0@
        }) + n * g.t@,
        g.next_arrival(t0, prev, n) >= Gcra::arrival(t0, prev) + g.t@,
        g.next_arrival(t0, prev, n) >= t0@ + g.t@,
{
    let t = g.t@;
    assert(t * (n - 1) == (n - 1) * t && (n - 1) * t + t == n * t && (n - 1) * t >= 0) by (nonlinear_arith)
        requires
            t >= 1,
            n >= 1,
    ;
}

/// What a decision stores is never zero, which stands for a state never
/// used: it is one weight at least.
pub proof fn lemma_stored_state_is_positive(g: Gcra, t0: Nanos, prev: Option<Nanos>, n: int)
    requires
        g.wf(),
        n >= 1,
    ensures
        g.next_arrival(t0, prev, n) >= g.t@ >= 1,
        g.next_arrival(t0, prev, n) <= u64::MAX,
        g.admitted(t0, prev, n) > 0 ==> g.next_arrival(t0, prev, g.admitted(t0, prev, n)) >= 1,
{
    let t = g.t@;
    assert(t * (n - 1) >= 0) by (nonlinear_arith)
        requires
            t >= 1,
            n >= 1,
    ;
    let k = g.admitted(t0, prev, n);
    if k > 0 {
        assert(t * (k - 1) >= 0) by (nonlinear_arith)
            requires
                t >= 1,
                k >= 1,
        ;
    }
}

/// A state never used lets a batch through at any time, if a full bucket
/// holds the batch at all.
pub proof fn lemma_fresh_state_admits(g: Gcra, t0: Nanos, n: int)
    requires
        g.wf(),
        n >= 1,
        g.fits(n),
    ensures
        g.spec_decide(t0, None, n) is Ok,
        g.available(t0, None) >= 1,
        g.admitted(t0, None, n) >= 1,
{
    let t = g.t@;
    assert(t * (n - 1) >= 0) by (nonlinear_arith)
        requires
            t >= 1,
            n >= 1,
    ;
    let room = crate::nanos::sat_add(t0@, g.tau@) - t0@;
    assert(room / t >= 0) by (nonlinear_arith)
        requires
            t >= 1,
            room >= 0,
    ;
    assert(g.tau@ / t >= 0) by (nonlinear_arith)
        requires
            t >= 1,
            g.tau@ >= 0,
    ;
}

/// A refusal names a time at which the same batch conforms, as long as
/// nothing else is let through in between.
pub proof fn lemma_denial_is_honest(g: Gcra, t0: Nanos, prev: Option<Nanos>, n: int)
    requires
        g.wf(),
        n >= 1,
        g.fits(n),
        g.spec_decide(t0, prev, n) is Err,
    ensures
        g.spec_decide(g.spec_decide(t0, prev, n)->Err_0.tat, prev, n) is Ok,
{
    assert(g.t@ * (n - 1) >= 0) by (nonlinear_arith)
        requires
            g.t@ >= 1,
            n >= 1,
    ;
}

/// On a clock that counts nanoseconds, the time that a refusal names as the
/// earliest possible is one at which the limiter lets the same batch
/// through, as long as nothing else is let through in between and the clock
/// can express that time.
pub proof fn lemma_earliest_possible_is_honest(g: Gcra, start: Nanos, now: Nanos, prev: Option<Nanos>, n: int)
    requires
        g.wf(),
        n >= 1,
        g.fits(n),
        g.spec_decide(now.spec_duration_since(start), prev, n) is Err,
        start@ + g.spec_decide(now.spec_duration_since(start), prev, n)->Err_0.tat@ <= u64::MAX,
    ensures
        ({
            let refused = g.spec_decide(now.spec_duration_since(start), prev, n)->Err_0;
            let earliest = start.spec_add(refused.tat);
            g.spec_decide(earliest.spec_duration_since(start), prev, n) is Ok
        }),
{
    let t0 = now.spec_duration_since(start);
    let refused = g.spec_decide(t0, prev, n)->Err_0;
    let earliest = start.spec_add(refused.tat);
    assert(earliest.spec_duration_since(start) == refused.tat);
    lemma_denial_is_honest(g, t0, prev, n);
}

/// A stored arrival time that lies a cell's weight or more in the past
/// decides every batch as a state never used does, at that time and at any
/// later one: the same verdict, the same snapshot, the same new arrival
/// time.
pub proof fn lemma_stale_state_decides_as_fresh(g: Gcra, now: Nanos, tat: Nanos, t0: Nanos, n: int)
    requires
        g.wf(),
        n >= 1,
        g.fits(n),
        tat@ <= spec_drop_below(now, g.t)@,
        t0@ >= now@,
    ensures
        g.spec_decide(t0, Some(tat), n) == g.spec_decide(t0, None, n),
        g.spec_decide(t0, None, n) is Ok,
{
    assert(g.t@ * (n - 1) >= 0) by (nonlinear_arith)
        requires
            g.t@ >= 1,
            n >= 1,
    ;
}

/// A stored arrival time that lies a cell's weight or more in the past lets
/// as many cells of a batch through as a state never used does, and leaves
/// the same arrival time, at any later time at which a full bucket's span
/// still fits in the count.
pub proof fn lemma_stale_state_vends_as_fresh(g: Gcra, now: Nanos, tat: Nanos, t0: Nanos, n: int)
    requires
        g.wf(),
        n >= 1,
        tat@ <= spec_drop_below(now, g.t)@,
        t0@ >= now@,
        t0@ + g.tau@ <= u64::MAX,
    ensures
        g.spec_decide_any(t0, Some(tat), n) == g.spec_decide_any(t0, None, n),
        g.admitted(t0, None, n) == (if n <= g.burst_capacity() { n } else { g.burst_capacity() }),
{
    let t = g.t@;
    let tau = g.tau@;
    let d = t0@ + tau - tat@;
    assert(d / t >= tau / t) by (nonlinear_arith)
        requires
            t >= 1,
            d >= tau,
            tau >= 0,
    ;
}

/// With the middleware that returns nothing, what a limiter returns is
/// settled by the time of arrival and the state that the decision finds: a
/// peek and an update that find the same state at the same time return the
/// same.
pub proof fn lemma_outcome_is_settled<K, P: Reference>(
    g: Gcra,
    start: P,
    key: &K,
    n: int,
    t0: Nanos,
    prev: Option<Nanos>,
    r1: Result<(), crate::gcra::NotUntil<P>>,
    r2: Result<(), crate::gcra::NotUntil<P>>,
)
    requires
        g.tested::<K, P, NoOpMiddleware>(start, key, n, t0, prev, r1),
        g.tested::<K, P, NoOpMiddleware>(start, key, n, t0, prev, r2),
    ensures
        r1 == r2,
{
}

/// With the middleware that returns the state, what a limiter returns is
/// settled by the time of arrival and the state that the decision finds.
pub proof fn lemma_informed_outcome_is_settled<K, P: Reference>(
    g: Gcra,
    start: P,
    key: &K,
    n: int,
    t0: Nanos,
    prev: Option<Nanos>,
    r1: Result<crate::gcra::StateSnapshot, crate::gcra::NotUntil<P>>,
    r2: Result<crate::gcra::StateSnapshot, crate::gcra::NotUntil<P>>,
)
    requires
        g.tested::<K, P, StateInformationMiddleware>(start, key, n, t0, prev, r1),
        g.tested::<K, P, StateInformationMiddleware>(start, key, n, t0, prev, r2),
    ensures
        r1 == r2,
{
}

/// A run of single cells that were all let through: `times[i]` is when the
/// cell arrived, `states[i]` what was stored before it and `states[i + 1]`
/// what was stored after it. No arrival time of the run reaches the end of
/// the count.
pub open spec fn admitted_run(g: Gcra, times: Seq<Nanos>, states: Seq<Option<Nanos>>) -> bool {
    &&& states.len() == times.len() + 1
    &&& forall|i: int|
        0 <= i < times.len() ==> {
            &&& g.conforms(#[trigger] times[i], states[i], 1)
            &&& g.next_arrival(times[i], states[i], 1) < u64::MAX
            &&& states[i + 1] == Some(Nanos(g.next_arrival(times[i], states[i], 1) as u64))
        }
}

/// In a run of admitted cells, the cell at `j` arrives no earlier than the
/// cell at `i` did, plus one weight for each cell between them, less the
/// tolerance.
pub proof fn lemma_run_spacing(g: Gcra, times: Seq<Nanos>, states: Seq<Option<Nanos>>, i: int, j: int)
    requires
        g.wf(),
        admitted_run(g, times, states),
        0 <= i <= j < times.len(),
    ensures
        (j - i) * g.t@ <= times[j]@ - times[i]@ + g.tau@,
        i < j ==> Gcra::arrival(times[j], states[j]) >= times[i]@ + (j - i) * g.t@,
    decreases j - i,
{
    let t = g.t@;
    assert(t * 0 == 0) by (nonlinear_arith);
    assert(g.additional_weight(1) == 0);
    let at_j = Gcra::arrival(times[j], states[j]);
    assert(g.conforms(times[j], states[j], 1));
    assert(times[j]@ >= at_j - g.tau@);
    if i == j {
        assert((j - i) * t == 0) by (nonlinear_arith)
            requires
                i == j,
        ;
    } else {
        let k = j - 1;
        let at_k = Gcra::arrival(times[k], states[k]);
        let next_k = g.next_arrival(times[k], states[k], 1);
        assert(g.conforms(times[k], states[k], 1));
        assert(next_k < u64::MAX);
        assert(states[k + 1] == Some(Nanos(next_k as u64)));
        assert(at_j == next_k);
        assert(next_k >= at_k + t);
        assert(next_k >= times[k]@ + t);
        assert((j - i) * t == (k - i) * t + t) by (nonlinear_arith)
            requires
                k == j - 1,
        ;
        if i < k {
            lemma_run_spacing(g, times, states, i, k);
            assert(at_k >= times[i]@ + (k - i) * t);
        } else {
            assert((k - i) * t == 0) by (nonlinear_arith)
                requires
                    i == k,
            ;
        }
        assert(at_j >= times[i]@ + (j - i) * t);
    }
}

/// No window of time holds more admitted cells than one for each weight
/// that fits in its length, and a full bucket besides.
pub proof fn lemma_admission_bound(g: Gcra, times: Seq<Nanos>, states: Seq<Option<Nanos>>, i: int, j: int, w: int)
    requires
        g.wf(),
        admitted_run(g, times, states),
        0 <= i <= j < times.len(),
        0 <= times[j]@ - times[i]@ <= w,
    ensures
        j - i + 1 <= w / g.t@ + g.burst_capacity(),
{
    lemma_run_spacing(g, times, states, i, j);
    let t = g.t@;
    let tau = g.tau@;
    let c = j - i;
    assert(c <= w / t + tau / t) by (nonlinear_arith)
        requires
            t >= 1,
            tau >= 0,
            tau % t == 0,
            w >= 0,
            c >= 0,
            c * t <= w + tau,
    ;
}

} // verus!
