use governor::clock::{Clock, FakeRelativeClock};
use governor::{DefaultDirectRateLimiter, InsufficientCapacity, Quota, RateLimiter};
use std::time::Duration;

#[test]
fn direct_accepts_first_cell() {
    let clock = FakeRelativeClock::default();
    let lb = RateLimiter::direct_with_clock(Quota::per_second(5), clock);
    assert_eq!(Ok(()), lb.check());
}

#[test]
fn accepts_first_cell_check_only() {
    let clock = FakeRelativeClock::default();
    let lb = RateLimiter::direct_with_clock(Quota::per_second(1), &clock);
    assert_eq!(Ok(()), lb.check_only());
    // last call does not consume cells
    assert_eq!(Ok(()), lb.check_only());
}

#[test]
fn accepts_cells_check_n_only() {
    let clock = FakeRelativeClock::default();
    let lb = RateLimiter::direct_with_clock(Quota::per_second(3), &clock);
    assert_eq!(Ok(Ok(())), lb.check_n_only(3));
    // last call does not consume cells
    assert_eq!(Ok(Ok(())), lb.check_n_only(3));
}

#[test]
fn direct_rejects_too_many() {
    let clock = FakeRelativeClock::default();
    let lb = RateLimiter::direct_with_clock(Quota::per_second(2), clock.clone());
    let ms = Duration::from_millis(1);

    // use up our burst capacity (2 in the first second):
    assert_eq!(Ok(()), lb.check(), "Now: {:?}", clock.now());
    clock.advance(ms);
    assert_eq!(Ok(()), lb.check(), "Now: {:?}", clock.now());

    clock.advance(ms);
    assert_ne!(Ok(()), lb.check(), "Now: {:?}", clock.now());

    // should be ok again in 1s:
    clock.advance(ms * 1000);
    assert_eq!(Ok(()), lb.check(), "Now: {:?}", clock.now());
    clock.advance(ms);
    assert_eq!(Ok(()), lb.check());

    clock.advance(ms);
    assert_ne!(Ok(()), lb.check(), "{:?}", lb);
}

// Reproducer for:
// - https://github.com/boinkor-net/governor/issues/107
// - https://github.com/boinkor-net/governor/issues/249
#[test]
fn does_not_allow_one_extra_cell_after_longer_interval() {
    let clock = FakeRelativeClock::default();
    let lb = RateLimiter::direct_with_clock(Quota::per_second(5), clock.clone());

    for _ in 1..=5 {
        assert_eq!(Ok(()), lb.check(), "Now: {:?}", clock.now());
    }
    assert_ne!(Ok(()), lb.check(), "{:?}", lb);

    // Advance the clock substantially longer than necessary (or at least `(max_burst + 1) *
    // replenish_1_per`).
    clock.advance(Duration::from_secs(2));

    for _ in 1..=5 {
        assert_eq!(Ok(()), lb.check(), "Now: {:?}", clock.now());
    }
    assert_ne!(Ok(()), lb.check(), "{:?}", lb);
}

#[test]
fn rejects_too_many_check_only() {
    let clock = FakeRelativeClock::default();
    let lb = RateLimiter::direct_with_clock(Quota::per_second(2), &clock);
    let ms = Duration::from_millis(1);

    // use up our burst capacity (2 in the first second):
    assert_eq!(Ok(()), lb.check(), "Now: {:?}", clock.now());
    clock.advance(ms);
    assert_eq!(Ok(()), lb.check(), "Now: {:?}", clock.now());

    clock.advance(ms);
    assert_ne!(Ok(()), lb.check_only(), "Now: {:?}", clock.now());

    // should be ok again in 1s:
    clock.advance(ms * 1000);
    assert_eq!(Ok(()), lb.check(), "Now: {:?}", clock.now());
    clock.advance(ms);
    assert_eq!(Ok(()), lb.check());

    clock.advance(ms);
    assert_ne!(Ok(()), lb.check_only(), "{:?}", lb);
}

#[test]
fn direct_all_1_identical_to_1() {
    let clock = FakeRelativeClock::default();
    let lb = RateLimiter::direct_with_clock(Quota::per_second(2), clock.clone());
    let ms = Duration::from_millis(1);
    let one = 1;

    // use up our burst capacity (2 in the first second):
    assert_eq!(Ok(Ok(())), lb.check_n(one), "Now: {:?}", clock.now());
    clock.advance(ms);
    assert_eq!(Ok(Ok(())), lb.check_n(one), "Now: {:?}", clock.now());

    clock.advance(ms);
    assert_ne!(Ok(Ok(())), lb.check_n(one), "Now: {:?}", clock.now());

    // should be ok again in 1s:
    clock.advance(ms * 1000);
    assert_eq!(Ok(Ok(())), lb.check_n(one), "Now: {:?}", clock.now());
    clock.advance(ms);
    assert_eq!(Ok(Ok(())), lb.check_n(one));

    clock.advance(ms);
    assert_ne!(Ok(Ok(())), lb.check_n(one), "{:?}", lb);
}

#[test]
fn all_1_identical_to_1_check_only() {
    let clock = FakeRelativeClock::default();
    let lb = RateLimiter::direct_with_clock(Quota::per_second(2), &clock);
    let ms = Duration::from_millis(1);
    let one = 1;

    // use up our burst capacity (2 in the first second):
    assert_eq!(Ok(Ok(())), lb.check_n(one), "Now: {:?}", clock.now());
    clock.advance(ms);
    assert_eq!(Ok(Ok(())), lb.check_n(one), "Now: {:?}", clock.now());

    clock.advance(ms);
    assert_ne!(Ok(Ok(())), lb.check_n_only(one), "Now: {:?}", clock.now());

    // should be ok again in 1s:
    clock.advance(ms * 1000);
    assert_eq!(Ok(Ok(())), lb.check_n(one), "Now: {:?}", clock.now());
    clock.advance(ms);
    assert_eq!(Ok(Ok(())), lb.check_n(one));

    clock.advance(ms);
    assert_ne!(Ok(Ok(())), lb.check_n_only(one), "{:?}", lb);
}

#[test]
fn direct_never_allows_more_than_capacity_all() {
    let clock = FakeRelativeClock::default();
    let lb = RateLimiter::direct_with_clock(Quota::per_second(4), clock.clone());
    let ms = Duration::from_millis(1);

    // Use up the burst capacity:
    assert_eq!(Ok(Ok(())), lb.check_n(2));
    assert_eq!(Ok(Ok(())), lb.check_n(2));

    clock.advance(ms);
    assert_ne!(Ok(Ok(())), lb.check_n(2));

    // should be ok again in 1s:
    clock.advance(ms * 1000);
    assert_eq!(Ok(Ok(())), lb.check_n(2));
    clock.advance(ms);
    assert_eq!(Ok(Ok(())), lb.check_n(2));

    clock.advance(ms);
    assert_ne!(Ok(Ok(())), lb.check_n(2), "{:?}", lb);
}

#[test]
fn never_allows_more_than_capacity_all_check_only() {
    let clock = FakeRelativeClock::default();
    let lb = RateLimiter::direct_with_clock(Quota::per_second(4), &clock);
    let ms = Duration::from_millis(1);

    // Use up the burst capacity:
    assert_eq!(Ok(Ok(())), lb.check_n(2));
    assert_eq!(Ok(Ok(())), lb.check_n(2));

    clock.advance(ms);
    assert_ne!(Ok(Ok(())), lb.check_n_only(2));

    // should be ok again in 1s:
    clock.advance(ms * 1000);
    assert_eq!(Ok(Ok(())), lb.check_n(2));
    clock.advance(ms);
    assert_eq!(Ok(Ok(())), lb.check_n(2));

    clock.advance(ms);
    assert_ne!(Ok(Ok(())), lb.check_n_only(2), "{:?}", lb);
}

#[test]
fn direct_rejects_too_many_all() {
    let clock = FakeRelativeClock::default();
    let lb = RateLimiter::direct_with_clock(Quota::per_second(5), clock.clone());
    let ms = Duration::from_millis(1);

    // Should not allow the first 15 cells on a capacity 5 bucket:
    assert_ne!(Ok(Ok(())), lb.check_n(15));

    // After 3 and 20 seconds, it should not allow 15 on that bucket either:
    clock.advance(ms * 3 * 1000);
    assert_ne!(Ok(Ok(())), lb.check_n(15));
}

#[test]
fn rejects_too_many_all_check_n_only() {
    let clock = FakeRelativeClock::default();
    let lb = RateLimiter::direct_with_clock(Quota::per_second(5), &clock);
    let ms = Duration::from_millis(1);

    // Should not allow the first 15 cells on a capacity 5 bucket:
    assert_ne!(Ok(Ok(())), lb.check_n_only(15));

    // After 3 and 20 seconds, it should not allow 15 on that bucket either:
    clock.advance(ms * 3 * 1000);
    assert_ne!(Ok(Ok(())), lb.check_n_only(15));
}

#[test]
fn all_capacity_check_rejects_excess() {
    let clock = FakeRelativeClock::default();
    let lb = RateLimiter::direct_with_clock(Quota::per_second(5), clock);

    assert_eq!(Err(InsufficientCapacity(5)), lb.check_n(15));
    assert_eq!(Err(InsufficientCapacity(5)), lb.check_n(7));
    assert_eq!(Err(InsufficientCapacity(5)), lb.check_n(6));

    assert_eq!(Ok(Ok(())), lb.check_n(5));
}

#[test]
fn all_capacity_check_rejects_excess_check_n_only() {
    let clock = FakeRelativeClock::default();
    let lb = RateLimiter::direct_with_clock(Quota::per_second(5), &clock);

    assert_eq!(
        Err(InsufficientCapacity(5)),
        lb.check_n_only(15)
    );
    assert_eq!(
        Err(InsufficientCapacity(5)),
        lb.check_n_only(6)
    );
    assert_eq!(
        Err(InsufficientCapacity(5)),
        lb.check_n_only(7)
    );
}

#[test]
fn direct_correct_wait_time() {
    let clock = FakeRelativeClock::default();
    // Bucket adding a new element per 200ms:
    let lb = RateLimiter::direct_with_clock(Quota::per_second(5), clock.clone());
    let ms = Duration::from_millis(1);
    let mut conforming = 0;
    for _i in 0..20 {
        clock.advance(ms);
        let res = lb.check();
        match res {
            Ok(()) => {
                conforming += 1;
            }
            Err(wait) => {
                clock.advance(wait.wait_time_from(clock.now()));
                assert_eq!(Ok(()), lb.check());
                conforming += 1;
            }
        }
    }
    assert_eq!(20, conforming);
}

#[test]
fn default_direct() {
    let clock = governor::clock::DefaultClock::default();
    let limiter: DefaultDirectRateLimiter =
        RateLimiter::direct_with_clock(Quota::per_second(20), clock);
    assert_eq!(Ok(()), limiter.check());
}

