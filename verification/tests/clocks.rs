use governor::clock::with_quanta::UpkeepError;
use governor::clock::{
    Clock, FakeRelativeClock, MonotonicClock, QuantaClock, QuantaInstant, QuantaUpkeepClock,
    ReasonablyRealtime, Reference, SystemClock,
};
use governor::nanos::Nanos;
use governor::{Quota, RateLimiter};
use std::time::{Duration, Instant, SystemTime};

#[test]
fn fake_clock_advances_by_what_it_is_told() {
    let clock = FakeRelativeClock::default();
    assert_eq!(clock.now(), Nanos(0));
    clock.advance(Duration::from_nanos(5));
    clock.advance(Duration::from_millis(2));
    assert_eq!(clock.now(), Nanos(2_000_005));
    assert_eq!(FakeRelativeClock::advanced(7, Nanos(8)), 15);
    assert_eq!(FakeRelativeClock::advanced(u64::MAX - 1, Nanos(8)), u64::MAX);
    clock.advance(Duration::from_nanos(u64::MAX));
    assert_eq!(clock.now(), Nanos(u64::MAX));
}

#[test]
fn nanos_as_readings() {
    let a = Nanos(100);
    assert_eq!(a.add_nanos(Nanos(5)), Nanos(105));
    assert_eq!(Nanos(u64::MAX).add_nanos(Nanos(5)), Nanos(u64::MAX));
    assert_eq!(Reference::duration_since(&a, Nanos(40)), Nanos(60));
    assert_eq!(Reference::duration_since(&a, Nanos(400)), Nanos(0));
    assert_eq!(Reference::saturating_sub(&a, Nanos(30)), Nanos(70));
    assert_eq!(Reference::saturating_sub(&a, Nanos(300)), Nanos(0));
}

#[test]
fn durations_as_readings() {
    let a = Duration::from_nanos(100);
    assert_eq!(a.add_nanos(Nanos(5)), Duration::from_nanos(105));
    assert_eq!(Duration::MAX.add_nanos(Nanos(5)), Duration::MAX);
    assert_eq!(Reference::duration_since(&a, Duration::from_nanos(40)), Nanos(60));
    assert_eq!(Reference::duration_since(&a, Duration::from_nanos(400)), Nanos(0));
    assert_eq!(Reference::duration_since(&Duration::MAX, a), Nanos(u64::MAX));
    assert_eq!(Reference::saturating_sub(&a, Nanos(30)), Duration::from_nanos(70));
    assert_eq!(Reference::saturating_sub(&a, Nanos(300)), a);
}

#[test]
fn instants_as_readings() {
    let now = MonotonicClock::default().now();
    let later = now.add_nanos(Nanos(1_500));
    assert_eq!(later, now + Duration::from_nanos(1_500));
    assert_eq!(Reference::duration_since(&later, now), Nanos(1_500));
    assert_eq!(Reference::duration_since(&now, later), Nanos(0));
    assert_eq!(Reference::saturating_sub(&later, Nanos(1_500)), now);
    // what the platform cannot express is left where it is
    assert_eq!(now.add_nanos(Nanos(u64::MAX)).add_nanos(Nanos(u64::MAX)) >= now, true);
}

#[test]
fn system_times_as_readings() {
    let now = SystemClock::default().now();
    let later = now.add_nanos(Nanos(2_000));
    assert_eq!(later, now + Duration::from_nanos(2_000));
    assert_eq!(Reference::duration_since(&later, now), Nanos(2_000));
    assert_eq!(Reference::duration_since(&now, later), Nanos(0));
    assert_eq!(Reference::saturating_sub(&later, Nanos(2_000)), now);
    assert_eq!(
        Reference::duration_since(&SystemTime::UNIX_EPOCH.add_nanos(Nanos(5)), SystemTime::UNIX_EPOCH),
        Nanos(5)
    );
}

#[test]
fn real_clocks_run_with_the_monotonic_clock() {
    let monotonic = MonotonicClock::default();
    let reference = monotonic.reference_point();
    let reading = reference.0 + Duration::from_secs(3);
    assert_eq!(MonotonicClock::convert_from_reference(reference, reading), reading);

    let wall = SystemClock::default();
    let reference = wall.reference_point();
    let reading = reference.0 + Duration::from_secs(3);
    assert_eq!(
        SystemClock::convert_from_reference(reference, reading),
        reference.1 + Duration::from_secs(3)
    );
    // a reading before the reference counts as the reference itself
    let before = reference.0 - Duration::from_secs(3);
    assert_eq!(SystemClock::convert_from_reference(reference, before), reference.1);

    let quanta = QuantaClock::default();
    let reference = quanta.reference_point();
    let reading = reference.0 + Nanos(3_000);
    assert_eq!(
        QuantaClock::convert_from_reference(reference, reading),
        reference.1 + Duration::from_nanos(3_000)
    );
}

#[test]
fn limiters_on_real_clocks() {
    let lim = RateLimiter::direct_with_clock(Quota::per_hour(2), MonotonicClock::default());
    assert!(lim.check().is_ok());
    assert!(lim.check().is_ok());
    let denied = lim.check().unwrap_err();
    let wait = denied.wait_time_from(Instant::now());
    assert!(wait > Duration::from_secs(29 * 60) && wait <= Duration::from_secs(30 * 60));
    assert!(denied.earliest_possible() > Instant::now());

    let lim = RateLimiter::direct_with_clock(Quota::per_hour(1), SystemClock::default());
    assert!(lim.check().is_ok());
    assert!(lim.check().is_err());

    let lim = RateLimiter::direct(Quota::per_hour(1));
    assert!(lim.check().is_ok());
    assert!(lim.check().is_err());
}

#[test]
fn quanta_clock_does_not_run_backwards() {
    let clock = QuantaClock::default();
    let other = clock.clone();
    let first = clock.now();
    let mut last = first;
    for _ in 0..1000 {
        let next = other.now();
        assert!(next >= last);
        last = next;
    }
    assert_eq!(QuantaInstant(Nanos(5)).add_nanos(Nanos(6)), QuantaInstant(Nanos(11)));
    assert_eq!(QuantaInstant(Nanos(5)) + Nanos(6), QuantaInstant(Nanos(11)));
    assert_eq!(
        Reference::saturating_sub(&QuantaInstant(Nanos(5)), Nanos(6)),
        QuantaInstant(Nanos(0))
    );
}

#[test]
fn an_upkeep_thread_that_did_not_start_gives_no_clock() {
    assert!(matches!(
        QuantaUpkeepClock::from_started(Err(UpkeepError::UpkeepRunning)),
        Err(UpkeepError::UpkeepRunning)
    ));
    assert!(matches!(
        QuantaUpkeepClock::from_started(Err(UpkeepError::FailedToSpawnUpkeepThread)),
        Err(UpkeepError::FailedToSpawnUpkeepThread)
    ));
}

#[test]
fn one_upkeep_thread_at_a_time() {
    let clock = QuantaUpkeepClock::from_interval(Duration::from_millis(5)).unwrap();
    let one_ns = Nanos::new(1);
    let now = clock.now();
    assert_ne!(now + one_ns, now);
    assert_eq!(one_ns, Reference::duration_since(&(now + one_ns), now));
    assert_eq!(Nanos::new(0), Reference::duration_since(&now, now + one_ns));
    match QuantaUpkeepClock::from_interval(Duration::from_millis(5)) {
        Err(e) => assert_eq!(e, UpkeepError::UpkeepRunning),
        Ok(_) => panic!("a second upkeep thread started"),
    }
    let copy = clock.clone();
    drop(clock);
    // the thread lives as long as one clone of the clock does
    assert!(QuantaUpkeepClock::from_interval(Duration::from_millis(5)).is_err());
    let start = copy.now();
    let spin = Instant::now();
    let mut latest = start;
    while spin.elapsed() < Duration::from_secs(5) && latest <= start {
        latest = copy.now();
    }
    assert!(latest > start);
}
