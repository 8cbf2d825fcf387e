use governor::clock::{Clock, FakeRelativeClock, QuantaClock, Reference};
use governor::gcra::Gcra;
use governor::middleware::{NoOpMiddleware, RateLimitingMiddleware, StateInformationMiddleware};
use governor::nanos::Nanos;
use governor::state::{InMemoryState, NotKeyed, StateStore};
use governor::{InsufficientCapacity, Quota, RateLimiter};
use std::sync::atomic::{AtomicU64, Ordering};
use std::sync::Arc;
use std::time::Duration;

#[test]
fn quanta_impls_coverage() {
    let one_ns = Nanos::new(1);
    let c = QuantaClock::default();
    let now = c.now();
    assert_ne!(now + one_ns, now);
    assert_eq!(one_ns, Reference::duration_since(&(now + one_ns), now));
    assert_eq!(Nanos::new(0), Reference::duration_since(&now, now + one_ns));
    assert_eq!(
        Reference::saturating_sub(
            &(now + Nanos::from_duration(Duration::from_nanos(1)).unwrap()),
            one_ns
        ),
        now
    );
}

#[test]
fn coverage() {
    let display_output = InsufficientCapacity(3).to_string();
    assert!(display_output.contains("3"));
    let debug_output = format!("{:?}", InsufficientCapacity(3));
    assert!(debug_output.contains("3"));
    assert_eq!(InsufficientCapacity(3), InsufficientCapacity(3));
}

#[test]
fn gcra_gcra_derives() {
    let g = Gcra::new(Quota::per_second(1));
    let g2 = Gcra::new(Quota::per_second(2));
    assert_eq!(g, g);
    assert_ne!(g, g2);
    assert!(format!("{g:?}").len() > 0);
}

#[test]
fn gcra_notuntil_impls() {
    let clock = FakeRelativeClock::default();
    let quota = Quota::per_second(1);
    let lb = RateLimiter::direct_with_clock(quota, clock);
    assert!(lb.check().is_ok());
    assert!(lb
        .check()
        .map_err(|nu| {
            assert_eq!(nu, nu);
            assert!(format!("{nu:?}").len() > 0);
            assert_eq!(nu.to_string(), "rate-limited until Nanos(1s)");
            assert_eq!(nu.quota(), quota);
        })
        .is_err());
}

#[test]
fn nanos_print_as_durations() {
    assert_eq!(format!("{:?}", Nanos(1_000_000_000)), "Nanos(1s)");
    assert_eq!(format!("{:?}", Nanos(1_500_000)), "Nanos(1.5ms)");
    assert_eq!(format!("{:?}", Nanos(0)), "Nanos(0ns)");
}

#[test]
fn gcra_roundtrips_quota() {
    for per_second in [1u32, 2, 3, 7, 10, 60, 999, 1000, 4096, 9999] {
        for burst in [1u32, 2, 5, 17, 100, 1234, 9999] {
            let quota = Quota::per_second(per_second).allow_burst(burst);
            let gcra = Gcra::new(quota);
            let back = Quota::from_gcra_parameters(gcra.t, gcra.tau);
            assert_eq!(quota, back);
        }
    }
}

#[test]
fn middleware_middleware_impl_derives() {
    assert_eq!(
        format!("{StateInformationMiddleware:?}"),
        "StateInformationMiddleware"
    );
    assert_eq!(format!("{:?}", NoOpMiddleware), "NoOpMiddleware");
}

#[test]
fn ensure_extant_middleware_gives_no_quota() {
    assert_eq!(
        <NoOpMiddleware as RateLimitingMiddleware<i32, Duration>>::check_quota(
            &NoOpMiddleware,
            &111,
            &|_| panic!("not to be called")
        ),
        None
    );
    let simw = StateInformationMiddleware;
    assert_eq!(
        <StateInformationMiddleware as RateLimitingMiddleware<i32, Duration>>::check_quota(
            &simw,
            &111,
            &|_| panic!("not to be called")
        ),
        None
    );
}

#[test]
fn not_keyed_impls_coverage() {
    assert_eq!(NotKeyed::NonKey, NotKeyed::NonKey);
}

#[test]
fn test_measure_and_peek_one_contention() {
    let state = Arc::new(InMemoryState(AtomicU64::new(0)));
    let calls = AtomicU64::new(0);

    let result: Result<(), String> = state.measure_and_peek_one(|old| {
        // Another party modifies the state after the decision has read it,
        // to force contention.
        if calls.fetch_add(1, Ordering::AcqRel) == 0 {
            state.0.store(42, Ordering::Release);
        }
        Ok::<(_, _), String>(((), Nanos::from(old.map(Nanos::as_u64).unwrap_or(0) + 1)))
    });

    assert_eq!(result, Ok(()));
    assert!(calls.load(Ordering::Acquire) >= 2);
}

#[test]
fn measure_and_peek_one_no_threads() {
    for initial_value in &[0u64, 1, 42, 100, 999, 2000] {
        let state = Arc::new(InMemoryState(AtomicU64::new(*initial_value)));

        let _ = state.measure_and_peek_one(|current_val| {
            // Depending on the current value, decide what to return.
            match current_val {
                Some(value) if value < Nanos::from(1000) => Ok(((), value + Nanos::from(1))),
                None => Ok(((), Nanos::from(1))),
                _ => Err("Some other error"),
            }
        });

        // Check that the state did not change.
        assert_eq!(state.0.load(Ordering::Acquire), *initial_value);
    }
}

#[test]
fn in_memory_state_impls() {
    let state = InMemoryState(AtomicU64::new(0));
    assert!(!format!("{:?}", state).is_empty());
}

#[test]
fn test_reset_in_memory_state() {
    let state = InMemoryState(AtomicU64::new(42));
    assert_eq!(state.0.load(Ordering::Acquire), 42);
    state.reset(&NotKeyed::NonKey);
    assert_eq!(state.0.load(Ordering::Acquire), 0);
}

#[test]
fn time_multiples() {
    let hourly = Quota::per_hour(1);
    let minutely = Quota::per_minute(1);
    let secondly = Quota::per_second(1);

    assert_eq!(
        hourly.replenish_interval() / 60,
        minutely.replenish_interval()
    );
    assert_eq!(
        minutely.replenish_interval() / 60,
        secondly.replenish_interval()
    );
}

#[test]
fn period_error_cases() {
    assert!(Quota::with_period(Duration::from_secs(0)).is_none());
    assert!(Quota::new(1, Duration::from_secs(0)).is_none());
}

#[test]
fn fake_clock_is_shared_by_its_clones() {
    let clock = FakeRelativeClock::default();
    let other = clock.clone();
    clock.advance(Duration::from_millis(3));
    assert_eq!(other.now(), Nanos::new(3_000_000));
    let _ = RateLimiter::direct_with_clock(Quota::per_second(1), &clock);
}
