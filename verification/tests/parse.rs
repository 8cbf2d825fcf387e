use governor::parse::{parse_decimal, unit_seconds, QuotaParseError};
use governor::Quota;
use std::time::Duration;

#[test]
fn test_parse() {
    assert_eq!(Quota::per_second(1), Quota::try_from("1 per second").unwrap());
    assert_eq!(Quota::per_second(15), Quota::try_from("15 / Second").unwrap());
    assert_eq!(Quota::per_minute(3), Quota::try_from("3/MINUTE").unwrap());
    assert_eq!(Quota::per_hour(17), Quota::try_from("17/Hour").unwrap());
    assert_eq!(
        Quota::with_period(Duration::from_secs(3 * 60 * 60))
            .unwrap()
            .allow_burst(1),
        Quota::try_from("1 per 3 hours").unwrap()
    );
    assert_eq!(
        Quota::with_period(Duration::from_secs(3 * 60))
            .unwrap()
            .allow_burst(5),
        Quota::try_from("5 per 15 mInUtEs").unwrap()
    );
}

#[test]
fn parse_examples_of_the_documentation() {
    assert_eq!(Quota::try_from("5 per second").unwrap(), Quota::per_second(5));
    assert_eq!(Quota::try_from("15 / Minute").unwrap(), Quota::per_minute(15));
    assert_eq!(
        Quota::try_from("30 per 3 hours").unwrap(),
        Quota::with_period(Duration::from_nanos(
            (Duration::from_secs(3 * 60 * 60).as_nanos() / 30u128) as u64
        ))
        .unwrap()
        .allow_burst(30)
    );
}

#[test]
fn parse_takes_the_first_place_that_reads_as_a_quota() {
    assert_eq!(
        Quota::try_from("at most 2 per minute, please"),
        Ok(Quota::per_minute(2))
    );
    assert_eq!(Quota::try_from("7per2seconds"), Ok(Quota::per_second(7).allow_burst(7)).map(|q: Quota| {
        Quota::with_period(Duration::from_nanos(2_000_000_000 / 7)).unwrap().allow_burst(q.burst_size())
    }));
}

#[test]
fn parse_rejects_what_is_no_quota() {
    assert_eq!(Quota::try_from(""), Err(QuotaParseError::Unparseable));
    assert_eq!(Quota::try_from("five per second"), Err(QuotaParseError::Unparseable));
    assert_eq!(Quota::try_from("5 per day"), Err(QuotaParseError::Unparseable));
    assert_eq!(Quota::try_from("5 second"), Err(QuotaParseError::Unparseable));
}

#[test]
fn parse_rejects_a_burst_of_zero_or_beyond_32_bits() {
    assert_eq!(Quota::try_from("0 per second"), Err(QuotaParseError::InvalidBurst));
    assert_eq!(Quota::try_from("4294967296 per hour"), Err(QuotaParseError::InvalidBurst));
    assert_eq!(
        Quota::try_from("99999999999999999999999 per hour"),
        Err(QuotaParseError::InvalidBurst)
    );
    assert_eq!(
        Quota::try_from("4294967295 per hour"),
        Ok(Quota::per_hour(4294967295))
    );
}

#[test]
fn parse_rejects_a_count_beyond_64_bits() {
    assert_eq!(
        Quota::try_from("1 per 18446744073709551616 seconds"),
        Err(QuotaParseError::InvalidDuration)
    );
}

#[test]
fn parse_rejects_a_unit_in_letters_of_another_alphabet() {
    // The pattern takes the long s for an s; the units are then compared
    // letter by letter.
    assert_eq!(Quota::try_from("1 per \u{17f}econd"), Err(QuotaParseError::UnknownUnit));
}

#[test]
fn parse_rejects_a_period_of_zero_or_too_long() {
    assert_eq!(Quota::try_from("5 per 0 seconds"), Err(QuotaParseError::InvalidPeriod));
    assert_eq!(
        Quota::try_from("1 per 18446744073709551615 hours"),
        Err(QuotaParseError::InvalidPeriod)
    );
    // a share of less than a nanosecond
    assert_eq!(Quota::try_from("2000000000 per second"), Err(QuotaParseError::InvalidPeriod));
    assert_eq!(
        Quota::try_from("1000000000 per second"),
        Ok(Quota::per_second(1_000_000_000))
    );
}

#[test]
fn parse_errors_in_words() {
    assert_eq!(QuotaParseError::Unparseable.to_string(), "Unable to parse quota");
    assert_eq!(
        QuotaParseError::InvalidBurst.to_string(),
        "Invalid burst size: a number from 1 to 4294967295 is needed"
    );
    assert_eq!(
        QuotaParseError::InvalidDuration.to_string(),
        "Invalid duration: number too large to fit in target type"
    );
    assert_eq!(
        QuotaParseError::UnknownUnit.to_string(),
        "Unknown duration unit. Acceptable values are second(s)/minute(s)/hour(s)"
    );
    assert_eq!(QuotaParseError::InvalidPeriod.to_string(), "Invalid period");
}

#[test]
fn decimal_numbers() {
    assert_eq!(parse_decimal(&b"0".to_vec()), Some(0));
    assert_eq!(parse_decimal(&b"007".to_vec()), Some(7));
    assert_eq!(parse_decimal(&b"18446744073709551615".to_vec()), Some(u64::MAX));
    assert_eq!(parse_decimal(&b"18446744073709551616".to_vec()), None);
    assert_eq!(parse_decimal(&b"".to_vec()), None);
    assert_eq!(parse_decimal(&b"12a".to_vec()), None);
    assert_eq!(parse_decimal(&b"+12".to_vec()), None);
}

#[test]
fn units_in_seconds() {
    assert_eq!(unit_seconds(&b"second".to_vec()), Some(1));
    assert_eq!(unit_seconds(&b"MINUTE".to_vec()), Some(60));
    assert_eq!(unit_seconds(&b"hOuR".to_vec()), Some(3600));
    assert_eq!(unit_seconds(&b"hours".to_vec()), None);
    assert_eq!(unit_seconds(&b"day".to_vec()), None);
}
