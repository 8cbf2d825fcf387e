use governor::{DefaultKeyedRateLimiter, Quota, RateLimiter};

#[test]
fn default_keyed() {
    let limiter: DefaultKeyedRateLimiter<u32> =
        RateLimiter::keyed(Quota::per_second(20));
    assert_eq!(Ok(()), limiter.check_key(&1));
}
