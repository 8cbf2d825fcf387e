//! Quotas in words: `5 per second`, `15 / Minute`, `30 per 3 hours`.
//!
//! A quota is written as a burst size, `/` or `per`, a count of units that
//! may be left out, and a unit: `second`, `minute` or `hour`, with or
//! without an `s`, in capitals or not. The first place of a text that reads
//! so is taken.

use vstd::prelude::*;
use crate::nanos::Nanos;
use crate::quota::{Quota, NANOS_PER_SECOND};

verus! {

/// Why a text gives no quota.
#[derive(Clone, Copy, Debug, PartialEq, Eq, Structural)]
pub enum QuotaParseError {
    /// No place of the text reads as a quota.
    Unparseable,
    /// The burst size is zero or does not fit in 32 bits.
    InvalidBurst,
    /// The count of units does not fit in 64 bits.
    InvalidDuration,
    /// The unit is none of second, minute and hour.
    UnknownUnit,
    /// One cell's share of the period is less than a nanosecond, or the
    /// period is longer than a nanosecond count can express.
    InvalidPeriod,
}

impl QuotaParseError {
    /// The text of the error.
    pub open spec fn spec_message(&self) -> Seq<char> {
        match self {
            QuotaParseError::Unparseable => "Unable to parse quota"@,
            QuotaParseError::InvalidBurst => "Invalid burst size: a number from 1 to 4294967295 is needed"@,
            QuotaParseError::InvalidDuration => "Invalid duration: number too large to fit in target type"@,
            QuotaParseError::UnknownUnit =>
                "Unknown duration unit. Acceptable values are second(s)/minute(s)/hour(s)"@,
            QuotaParseError::InvalidPeriod => "Invalid period"@,
        }
    }

    /// The error in words.
    pub fn to_string(&self) -> (r: String)
        ensures
            r@ == self.spec_message(),
    {
        match self {
            QuotaParseError::Unparseable => "Unable to parse quota".to_string(),
            QuotaParseError::InvalidBurst => {
                "Invalid burst size: a number from 1 to 4294967295 is needed".to_string()
            },
            QuotaParseError::InvalidDuration => {
                "Invalid duration: number too large to fit in target type".to_string()
            },
            QuotaParseError::UnknownUnit => {
                "Unknown duration unit. Acceptable values are second(s)/minute(s)/hour(s)".to_string()
            },
            QuotaParseError::InvalidPeriod => "Invalid period".to_string(),
        }
    }
}

/// What `regex::Regex::new` and `Regex::captures` find: `None` where the
/// pattern is no regular expression or no place of the haystack matches it,
/// else, for the leftmost match, the text of each group of the pattern as
/// bytes, the whole match first, with `None` for a group that took no part.
pub uninterp spec fn regex_captures(pattern: Seq<char>, haystack: Seq<char>) -> Option<Seq<Option<Seq<u8>>>>;

/// `regex::Regex::new` and `Regex::captures`: the groups of the leftmost
/// match of `pattern` in `haystack`, which depend on the two texts alone.
#[verifier::external_body]
fn captures(pattern: &str, haystack: &str) -> (r: Option<Vec<Option<Vec<u8>>>>)
    ensures
        r.deep_view() == regex_captures(pattern@, haystack@),
{
    let re = regex::Regex::new(pattern).ok()?;
    let found = re.captures(haystack)?;
    Some(found.iter().map(|group| group.map(|m| m.as_str().as_bytes().to_vec())).collect())
}

/// The byte is a decimal digit.
pub open spec fn is_digit(b: u8) -> bool {
    48 <= b <= 57
}

/// The number that a text of decimal digits stands for.
pub open spec fn decimal_value(digits: Seq<u8>) -> nat
    decreases digits.len(),
{
    if digits.len() == 0 {
        0
    } else {
        decimal_value(digits.drop_last()) * 10 + (digits.last() - 48) as nat
    }
}

/// The number that a text stands for, where the text is one or more
/// decimal digits and the number fits in 64 bits.
pub open spec fn spec_parse_decimal(digits: Seq<u8>) -> Option<u64> {
    if digits.len() > 0 && (forall|i: int| 0 <= i < digits.len() ==> is_digit(#[trigger] digits[i]))
        && decimal_value(digits) <= u64::MAX {
        Some(decimal_value(digits) as u64)
    } else {
        None
    }
}

/// A text of digits stands for no less than any of its beginnings does.
proof fn lemma_decimal_grows(digits: Seq<u8>, k: int)
    requires
        0 <= k <= digits.len(),
        forall|i: int| 0 <= i < digits.len() ==> is_digit(#[trigger] digits[i]),
    ensures
        decimal_value(digits.take(k)) <= decimal_value(digits),
    decreases digits.len() - k,
{
    if k == digits.len() {
        assert(digits.take(k) =~= digits);
    } else {
        let longer = digits.take(k + 1);
        assert(longer.drop_last() =~= digits.take(k));
        assert(is_digit(digits[k]));
        assert(longer.last() == digits[k]);
        lemma_decimal_grows(digits, k + 1);
    }
}

/// Reads a text of decimal digits as a number.
pub fn parse_decimal(digits: &Vec<u8>) -> (r: Option<u64>)
    ensures
        r == spec_parse_decimal(digits@),
{
    if digits.len() == 0 {
        return None;
    }
    let mut value: u64 = 0;
    let mut i: usize = 0;
    while i < digits.len()
        invariant
            0 <= i <= digits.len(),
            forall|j: int| 0 <= j < i ==> is_digit(#[trigger] digits@[j]),
            value == decimal_value(digits@.take(i as int)),
        decreases digits.len() - i,
    {
        let b = digits[i];
        if b < 48 || b > 57 {
            return None;
        }
        let digit: u64 = (b - 48) as u64;
        proof {
            assert(digits@.take(i + 1).drop_last() =~= digits@.take(i as int));
            assert(digits@.take(i + 1).last() == b);
        }
        if value > (u64::MAX - digit) / 10 {
            proof {
                if forall|j: int| 0 <= j < digits.len() ==> is_digit(#[trigger] digits@[j]) {
                    lemma_decimal_grows(digits@, i + 1);
                }
            }
            return None;
        }
        value = value * 10 + digit;
        i = i + 1;
    }
    proof {
        assert(digits@.take(i as int) =~= digits@);
    }
    Some(value)
}

/// The byte in lower case, if it is a capital letter of the Latin alphabet.
pub open spec fn spec_lower(b: u8) -> u8 {
    if 65 <= b <= 90 {
        (b + 32) as u8
    } else {
        b
    }
}

/// The text reads as `word`, which is in lower case, whatever the case of
/// its own letters.
pub open spec fn spec_reads_as(text: Seq<u8>, word: Seq<u8>) -> bool {
    text.len() == word.len() && forall|i: int| 0 <= i < text.len() ==> spec_lower(#[trigger] text[i]) == word[i]
}

/// Tells whether the text reads as `word`, whatever the case of its
/// letters.
pub fn reads_as(text: &Vec<u8>, word: &Vec<u8>) -> (r: bool)
    ensures
        r == spec_reads_as(text@, word@),
{
    if text.len() != word.len() {
        return false;
    }
    let mut i: usize = 0;
    while i < text.len()
        invariant
            0 <= i <= text.len(),
            text.len() == word.len(),
            forall|j: int| 0 <= j < i ==> spec_lower(#[trigger] text@[j]) == word@[j],
        decreases text.len() - i,
    {
        let b = text[i];
        let lower: u8 = if 65 <= b && b <= 90 { b + 32 } else { b };
        if lower != word[i] {
            return false;
        }
        i = i + 1;
    }
    true
}

/// The word `second`.
pub open spec fn word_second() -> Seq<u8> {
    seq![115u8, 101u8, 99u8, 111u8, 110u8, 100u8]
}

/// The word `minute`.
pub open spec fn word_minute() -> Seq<u8> {
    seq![109u8, 105u8, 110u8, 117u8, 116u8, 101u8]
}

/// The word `hour`.
pub open spec fn word_hour() -> Seq<u8> {
    seq![104u8, 111u8, 117u8, 114u8]
}

/// The seconds in the unit that a text names.
pub open spec fn spec_unit_seconds(unit: Seq<u8>) -> Option<u64> {
    if spec_reads_as(unit, word_second()) {
        Some(1u64)
    } else if spec_reads_as(unit, word_minute()) {
        Some(60u64)
    } else if spec_reads_as(unit, word_hour()) {
        Some(3600u64)
    } else {
        None
    }
}

/// The seconds in the unit that a text names: second, minute or hour.
pub fn unit_seconds(unit: &Vec<u8>) -> (r: Option<u64>)
    ensures
        r == spec_unit_seconds(unit@),
{
    let second: Vec<u8> = vec![115u8, 101u8, 99u8, 111u8, 110u8, 100u8];
    let minute: Vec<u8> = vec![109u8, 105u8, 110u8, 117u8, 116u8, 101u8];
    let hour: Vec<u8> = vec![104u8, 111u8, 117u8, 114u8];
    proof {
        assert(second@ =~= word_second());
        assert(minute@ =~= word_minute());
        assert(hour@ =~= word_hour());
    }
    if reads_as(unit, &second) {
        Some(1)
    } else if reads_as(unit, &minute) {
        Some(60)
    } else if reads_as(unit, &hour) {
        Some(3600)
    } else {
        None
    }
}

/// The pattern of a quota in words. Its groups are the burst size, the
/// count of units and the unit.
pub open spec fn spec_quota_pattern() -> Seq<char> {
    "(?i)([0-9]+)\\s*(?:/|\\s*per\\s*)\\s*([0-9]+)*\\s*(second|minute|hour)s?"@
}

impl Quota {
    /// The quota that the three parts of a text give: the burst size, the
    /// count of units, which is one where the text has none, and the unit.
    ///
    /// The period is the count of units; each cell of the burst gets an
    /// equal share of it as its replenish interval.
    pub open spec fn spec_from_parts(burst: Seq<u8>, count: Option<Seq<u8>>, unit: Seq<u8>) -> Result<
        Quota,
        QuotaParseError,
    > {
        let max_burst = spec_parse_decimal(burst);
        let units = match count {
            Some(digits) => spec_parse_decimal(digits),
            None => Some(1u64),
        };
        let seconds = spec_unit_seconds(unit);
        if max_burst is None || max_burst->Some_0 == 0 || max_burst->Some_0 > u32::MAX {
            Err(QuotaParseError::InvalidBurst)
        } else if units is None {
            Err(QuotaParseError::InvalidDuration)
        } else if seconds is None {
            Err(QuotaParseError::UnknownUnit)
        } else {
            let period = units->Some_0 * seconds->Some_0 * NANOS_PER_SECOND;
            if period > u64::MAX || period / (max_burst->Some_0 as int) == 0 {
                Err(QuotaParseError::InvalidPeriod)
            } else {
                Ok(
                    Quota {
                        max_burst: max_burst->Some_0 as u32,
                        replenish_1_per: Nanos((period / (max_burst->Some_0 as int)) as u64),
                    },
                )
            }
        }
    }

    /// Makes a quota of the three parts of a text.
    pub fn from_parts(burst: &Vec<u8>, count: Option<&Vec<u8>>, unit: &Vec<u8>) -> (r: Result<
        Quota,
        QuotaParseError,
    >)
        ensures
            r == Quota::spec_from_parts(
                burst@,
                match count {
                    Some(digits) => Some(digits@),
                    None => None,
                },
                unit@,
            ),
            r is Ok ==> r->Ok_0.wf(),
    {
        let max_burst: u32 = match parse_decimal(burst) {
            None => {
                return Err(QuotaParseError::InvalidBurst);
            },
            Some(n) => {
                if n == 0 || n > 0xffff_ffff {
                    return Err(QuotaParseError::InvalidBurst);
                }
                n as u32
            },
        };
        let parsed = match count {
            Some(digits) => parse_decimal(digits),
            None => Some(1),
        };
        let units: u64 = match parsed {
            None => {
                return Err(QuotaParseError::InvalidDuration);
            },
            Some(n) => n,
        };
        let seconds: u64 = match unit_seconds(unit) {
            None => {
                return Err(QuotaParseError::UnknownUnit);
            },
            Some(s) => s,
        };
        let unit_nanos: u64 = seconds * NANOS_PER_SECOND;
        proof {
            assert(units * seconds * NANOS_PER_SECOND == units * unit_nanos) by (nonlinear_arith)
                requires
                    unit_nanos == seconds * NANOS_PER_SECOND,
            ;
        }
        if units > u64::MAX / unit_nanos {
            proof {
                assert(units * unit_nanos > u64::MAX) by (nonlinear_arith)
                    requires
                        unit_nanos > 0,
                        units > u64::MAX / unit_nanos,
                ;
            }
            return Err(QuotaParseError::InvalidPeriod);
        }
        proof {
            assert(units * unit_nanos <= u64::MAX) by (nonlinear_arith)
                requires
                    unit_nanos > 0,
                    units <= u64::MAX / unit_nanos,
            ;
        }
        let period: u64 = units * unit_nanos;
        let interval: u64 = period / (max_burst as u64);
        if interval == 0 {
            return Err(QuotaParseError::InvalidPeriod);
        }
        proof {
            assert((period as int / max_burst as int) * max_burst as int <= period) by (nonlinear_arith)
                requires
                    max_burst >= 1,
                    period >= 0,
            ;
        }
        Ok(Quota { max_burst, replenish_1_per: Nanos(interval) })
    }

    /// The quota that the groups of a match give: none where nothing
    /// matched, else that of the three parts, which are the groups after
    /// the whole match.
    pub open spec fn spec_from_groups(groups: Option<Seq<Option<Seq<u8>>>>) -> Result<Quota, QuotaParseError> {
        match groups {
            None => Err(QuotaParseError::Unparseable),
            Some(found) => if found.len() < 4 || found[1] is None || found[3] is None {
                Err(QuotaParseError::Unparseable)
            } else {
                Quota::spec_from_parts(found[1]->Some_0, found[2], found[3]->Some_0)
            },
        }
    }

    /// Makes a quota of the groups that the pattern found in a text.
    pub fn from_groups(groups: &Option<Vec<Option<Vec<u8>>>>) -> (r: Result<Quota, QuotaParseError>)
        ensures
            r == Quota::spec_from_groups(groups.deep_view()),
            r is Ok ==> r->Ok_0.wf(),
    {
        match groups {
            None => Err(QuotaParseError::Unparseable),
            Some(found) => {
                if found.len() < 4 {
                    return Err(QuotaParseError::Unparseable);
                }
                proof {
                    assert(found.deep_view().len() == found.len());
                    assert(found.deep_view()[1] == found@[1].deep_view());
                    assert(found.deep_view()[2] == found@[2].deep_view());
                    assert(found.deep_view()[3] == found@[3].deep_view());
                }
                match (&found[1], &found[3]) {
                    (Some(burst), Some(unit)) => {
                        proof {
                            assert(burst.deep_view() =~= burst@);
                            assert(unit.deep_view() =~= unit@);
                            if found@[2] is Some {
                                assert(found@[2]->Some_0.deep_view() =~= found@[2]->Some_0@);
                            }
                        }
                        Quota::from_parts(burst, found[2].as_ref(), unit)
                    },
                    _ => Err(QuotaParseError::Unparseable),
                }
            },
        }
    }

    /// Reads a quota in words, such as `5 per second`, `15 / Minute` or
    /// `30 per 3 hours`.
    pub fn try_from(value: &str) -> (r: Result<Quota, QuotaParseError>)
        ensures
            r == Quota::spec_from_groups(regex_captures(spec_quota_pattern(), value@)),
            r is Ok ==> r->Ok_0.wf(),
    {
        let pattern = "(?i)([0-9]+)\\s*(?:/|\\s*per\\s*)\\s*([0-9]+)*\\s*(second|minute|hour)s?";
        let groups = captures(pattern, value);
        Quota::from_groups(&groups)
    }
}

} // verus!
