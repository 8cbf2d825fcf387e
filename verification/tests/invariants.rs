use governor::clock::{Clock, FakeRelativeClock};
use governor::gcra::{Gcra, NotUntil, StateSnapshot};
use governor::middleware::{NoOpMiddleware, StateInformationMiddleware};
use governor::nanos::Nanos;
use governor::{InsufficientCapacity, Quota, RateLimiter};
use std::time::Duration;

const MS: u64 = 1_000_000;

#[test]
fn decisions_on_given_states() {
    let g = Gcra::new(Quota::per_second(2));
    assert_eq!(g.t, Nanos(500 * MS));
    assert_eq!(g.tau, Nanos(500 * MS));
    // a state never used
    assert_eq!(
        g.decide(Nanos(7), None, 1),
        Ok((StateSnapshot::new(g.t, g.tau, Nanos(7), Nanos(500 * MS + 7)), Nanos(500 * MS + 7)))
    );
    // a full bucket: refused until the tolerance covers the arrival time
    assert_eq!(
        g.decide(Nanos(2 * MS), Some(Nanos(1000 * MS)), 1),
        Err(StateSnapshot::new(g.t, g.tau, Nanos(500 * MS), Nanos(500 * MS)))
    );
    // a batch of two from a stored arrival time in the past
    assert_eq!(
        g.decide(Nanos(3000 * MS), Some(Nanos(1000 * MS)), 2),
        Ok((StateSnapshot::new(g.t, g.tau, Nanos(3000 * MS), Nanos(4000 * MS)), Nanos(4000 * MS)))
    );
    // the count stops at its end
    assert_eq!(
        g.decide(Nanos(u64::MAX), Some(Nanos(u64::MAX)), 1).unwrap().1,
        Nanos(u64::MAX)
    );
}

#[test]
fn what_a_decision_hands_to_the_store() {
    let g = Gcra::new(Quota::per_second(2));
    let key = 7u8;
    // a batch that conforms: nothing for the caller, the new arrival time
    // for the store
    let d = g.decision_for::<u8, Nanos, NoOpMiddleware>(Nanos(0), &key, 1, Nanos(7), None);
    assert_eq!(d, Ok(((), Nanos(500 * MS + 7))));
    let d = g.decision_for::<u8, Nanos, NoOpMiddleware>(Nanos(0), &key, 2, Nanos(3000 * MS), Some(Nanos(MS)));
    assert_eq!(d, Ok(((), Nanos(4000 * MS))));
    // the state comes back with the other middleware
    let d = g.decision_for::<u8, Nanos, StateInformationMiddleware>(Nanos(0), &key, 1, Nanos(7), None);
    assert_eq!(
        d,
        Ok((StateSnapshot::new(g.t, g.tau, Nanos(7), Nanos(500 * MS + 7)), Nanos(500 * MS + 7)))
    );
    // a refusal: when the cell may pass, and nothing for the store
    let d = g.decision_for::<u8, Nanos, NoOpMiddleware>(Nanos(5), &key, 1, Nanos(2 * MS), Some(Nanos(1000 * MS)));
    assert_eq!(
        d,
        Err(NotUntil::new(StateSnapshot::new(g.t, g.tau, Nanos(500 * MS), Nanos(500 * MS)), Nanos(5)))
    );
    // up to n cells: how many pass, and the arrival time after them
    let g = Gcra::new(Quota::per_second(10));
    let d = g.decision_for_any::<u8, Nanos, NoOpMiddleware>(&key, 10, Nanos(0), Some(Nanos(700 * MS)));
    assert_eq!(d, Ok(((3, ()), Nanos(1000 * MS))));
    let d = g.decision_for_any::<u8, Nanos, NoOpMiddleware>(&key, 10, Nanos(0), Some(Nanos(1000 * MS)));
    assert_eq!(d, Ok(((0, ()), Nanos(1000 * MS))));
}

#[test]
fn a_limiter_stores_what_the_decision_proposes() {
    let clock = FakeRelativeClock::default();
    let lim = RateLimiter::direct_with_clock(Quota::per_second(2), clock.clone());
    clock.advance(Duration::from_millis(3));
    assert_eq!(lim.check(), Ok(()));
    assert_eq!(lim.check_any_n(5), (1, ()));
    let state = lim.into_state_store();
    assert_eq!(state.0.load(std::sync::atomic::Ordering::Acquire), 1003 * MS);
}

#[test]
fn partial_vending_is_the_least_of_three() {
    let g = Gcra::new(Quota::per_second(10));
    let t = 100 * MS;
    for (t0, prev, n, expected) in [
        (0u64, None, 7u32, 7u32),
        (0, Some(7 * t), 10, 3),
        (0, Some(10 * t), 10, 0),
        (5 * t, Some(10 * t), 10, 5),
        (5 * t, Some(10 * t), 2, 2),
        (100 * t, Some(10 * t), 50, 10),
        (0, Some(11 * t), 1, 0),
    ] {
        let (k, snapshot, next) = g.decide_any(Nanos(t0), prev.map(Nanos), n);
        assert_eq!(k, expected);
        assert!(k <= n && k <= 10);
        assert_eq!(snapshot.tat, next);
        let tat = prev.unwrap_or(t0);
        if k == 0 {
            assert_eq!(next, Nanos(tat));
        } else {
            assert_eq!(next, Nanos(tat.max(t0) + k as u64 * t));
        }
    }
}

#[test]
fn remaining_burst_capacity_by_its_formula() {
    let t = Nanos(250 * MS);
    let tau = Nanos(750 * MS);
    assert_eq!(StateSnapshot::new(t, tau, Nanos(0), Nanos(250 * MS)).remaining_burst_capacity(), 3);
    assert_eq!(StateSnapshot::new(t, tau, Nanos(0), Nanos(1000 * MS)).remaining_burst_capacity(), 0);
    assert_eq!(StateSnapshot::new(t, tau, Nanos(0), Nanos(5000 * MS)).remaining_burst_capacity(), 0);
    assert_eq!(StateSnapshot::new(t, tau, Nanos(9000 * MS), Nanos(250 * MS)).remaining_burst_capacity(), 4);
    assert_eq!(StateSnapshot::new(t, tau, Nanos(100 * MS), Nanos(600 * MS)).remaining_burst_capacity(), 2);
}

#[test]
fn quota_formulas() {
    assert_eq!(Quota::per_second(3).replenish_interval(), Duration::from_nanos(333_333_333));
    assert_eq!(Quota::per_minute(7).replenish_interval(), Duration::from_nanos(60_000_000_000 / 7));
    assert_eq!(Quota::per_hour(2).replenish_interval(), Duration::from_secs(30 * 60));
    assert_eq!(Quota::per_second(50).replenish_interval(), Duration::from_millis(20));
    assert_eq!(Quota::per_second(50).burst_size(), 50);
    // never less than a nanosecond
    assert_eq!(Quota::per_second(u32::MAX).replenish_interval(), Duration::from_nanos(1));
    let q = Quota::per_hour(2).allow_burst(90);
    assert_eq!(q.burst_size(), 90);
    assert_eq!(q.burst_size_replenished_in(), Duration::from_secs(60 * 60 * (90 / 2)));
    assert_eq!(Quota::new(50, Duration::from_secs(1)), Some(Quota::per_second(50)));
    assert_eq!(
        Quota::with_period(Duration::from_secs(60 * 60 * 24)).unwrap().allow_burst(10).replenish_interval(),
        Duration::from_secs(86400)
    );
}

#[test]
fn quota_round_trips_through_the_parameters() {
    for burst in [1u32, 2, 3, 1000, u32::MAX] {
        for quota in [Quota::per_second(burst), Quota::per_minute(burst), Quota::per_hour(burst)] {
            let g = Gcra::new(quota);
            assert_eq!(Quota::from_gcra_parameters(g.t(), g.tau), quota);
            assert_eq!(g.max_batch(), burst);
        }
    }
}

#[test]
fn no_window_holds_more_than_its_share() {
    let clock = FakeRelativeClock::default();
    let lim = RateLimiter::direct_with_clock(Quota::per_second(5), clock.clone());
    let t = 200 * MS;
    let burst = 5u64;
    let mut admitted: Vec<u64> = Vec::new();
    let mut step = 1u64;
    for _ in 0..2000 {
        step = (step * 7 + 3) % 97;
        clock.advance(Duration::from_millis(step));
        if lim.check().is_ok() {
            admitted.push(clock.now().as_u64());
        }
    }
    assert!(admitted.len() > 100);
    for i in 0..admitted.len() {
        for j in i..admitted.len() {
            let w = admitted[j] - admitted[i];
            assert!((j - i + 1) as u64 <= w / t + burst);
        }
    }
}

#[test]
fn more_than_the_burst_never_passes() {
    let clock = FakeRelativeClock::default();
    let lim = RateLimiter::direct_with_clock(Quota::per_second(4), clock.clone());
    for round in 0..6u64 {
        assert_eq!(lim.check_n(5), Err(InsufficientCapacity(4)));
        assert_eq!(lim.check_n(u32::MAX), Err(InsufficientCapacity(4)));
        assert_eq!(lim.check_n_only(9), Err(InsufficientCapacity(4)));
        let (k, ()) = lim.check_any_n(100);
        assert!(k <= 4);
        clock.advance(Duration::from_millis(300 * round));
    }
}

#[test]
fn a_refusal_names_a_time_that_holds() {
    let clock = FakeRelativeClock::default();
    let lim = RateLimiter::direct_with_clock(Quota::per_second(3), clock.clone());
    for _ in 0..20 {
        match lim.check() {
            Ok(()) => {}
            Err(not_until) => {
                let earliest = not_until.earliest_possible();
                let wait = not_until.wait_time_from(clock.now());
                assert!(wait > Duration::from_nanos(0));
                clock.advance(wait);
                assert_eq!(clock.now(), earliest);
                assert_eq!(not_until.wait_time_from(clock.now()), Duration::from_nanos(0));
                assert_eq!(lim.check(), Ok(()));
            }
        }
    }
}

#[test]
fn peeking_changes_no_decision() {
    let clock = FakeRelativeClock::default();
    let peeked = RateLimiter::direct_with_clock(Quota::per_second(3), clock.clone());
    let plain = RateLimiter::direct_with_clock(Quota::per_second(3), clock.clone());
    let mut step = 5u64;
    for _ in 0..200 {
        step = (step * 13 + 1) % 211;
        clock.advance(Duration::from_millis(step));
        let first = peeked.check_only();
        let second = peeked.check_only();
        assert_eq!(first, second);
        let after_peek = peeked.check();
        assert_eq!(first, after_peek);
        assert_eq!(after_peek, plain.check());
        assert_eq!(peeked.check_n_only(2), peeked.check_n_only(2));
    }
}

#[test]
fn eviction_changes_no_decision() {
    let clock = FakeRelativeClock::default();
    let swept = RateLimiter::dashmap_with_clock(Quota::per_second(2), clock.clone());
    let kept = RateLimiter::dashmap_with_clock(Quota::per_second(2), clock.clone());
    let mut step = 3u64;
    for round in 0..300u32 {
        step = (step * 11 + 5) % 401;
        clock.advance(Duration::from_millis(step));
        let key = round % 7;
        swept.retain_recent();
        assert_eq!(swept.check_key(&key), kept.check_key(&key));
        assert_eq!(swept.check_key_any_n(&(key + 1), 2), kept.check_key_any_n(&(key + 1), 2));
    }
    assert!(swept.len() <= kept.len());
    clock.advance(Duration::from_secs(10));
    swept.retain_recent();
    assert!(swept.is_empty());
    assert!(!kept.is_empty());
}

#[test]
fn drop_below_lies_one_weight_before_now() {
    let clock = FakeRelativeClock::default();
    let lim = RateLimiter::dashmap_with_clock(Quota::per_second(4), clock.clone());
    lim.check_key(&0u8).unwrap();
    assert_eq!(lim.drop_below(Nanos(100 * MS)), Nanos(0));
    assert_eq!(lim.drop_below(Nanos(250 * MS)), Nanos(0));
    assert_eq!(lim.drop_below(Nanos(1000 * MS)), Nanos(750 * MS));
}

#[test]
fn nanos_arithmetic() {
    assert_eq!(Nanos(5).saturating_sub(Nanos(7)), Nanos(0));
    assert_eq!(Nanos(7).saturating_sub(Nanos(5)), Nanos(2));
    assert_eq!(Nanos(u64::MAX - 1).saturating_add(Nanos(5)), Nanos(u64::MAX));
    assert_eq!(Nanos(3).saturating_add(Nanos(5)), Nanos(8));
    assert_eq!(Nanos(3).saturating_mul(5), Nanos(15));
    assert_eq!(Nanos(u64::MAX / 2).saturating_mul(3), Nanos(u64::MAX));
    assert_eq!(Nanos(0).saturating_mul(u64::MAX), Nanos(0));
    assert_eq!(Nanos(17).div(Nanos(5)), 3);
    assert_eq!(Nanos(17).max(Nanos(5)), Nanos(17));
    assert_eq!(Nanos(17).min(Nanos(5)), Nanos(5));
    assert_eq!(Nanos(2) + Nanos(3), Nanos(5));
    assert_eq!(Nanos::from(9u64).as_u64(), 9);
    assert_eq!(Nanos::from_duration(Duration::from_secs(1)), Some(Nanos(1_000_000_000)));
    assert_eq!(Nanos::from_duration(Duration::from_secs(u64::MAX)), None);
    assert_eq!(Nanos(1500).to_duration(), Duration::from_nanos(1500));
}
