//! A nanosecond scalar that fits in one atomic integer.

use core::time::Duration;
use vstd::prelude::*;

verus! {

/// The length of a `Duration` in nanoseconds: what `Duration::as_nanos`
/// returns for it.
pub uninterp spec fn duration_nanos(d: Duration) -> nat;

/// The `Duration` that `Duration::from_nanos` makes of a nanosecond count.
pub uninterp spec fn duration_from_nanos(nanos: u64) -> Duration;

/// `Duration::from_nanos`: the result is a function of the count alone, and
/// it is that many nanoseconds long.
pub assume_specification[ Duration::from_nanos ](nanos: u64) -> (r: Duration)
    ensures
        r == duration_from_nanos(nanos),
        duration_nanos(r) == nanos,
;

/// `Duration::as_nanos`: the total number of nanoseconds in the duration.
pub assume_specification[ Duration::as_nanos ](d: &Duration) -> (r: u128)
    ensures
        r == duration_nanos(*d),
;

/// Addition of two counts that stops at the largest 64-bit value.
pub open spec fn sat_add(a: int, b: int) -> int {
    if a + b > u64::MAX {
        u64::MAX as int
    } else {
        a + b
    }
}

/// Subtraction that stops at zero.
pub open spec fn sat_sub(a: int, b: int) -> int {
    if a >= b {
        a - b
    } else {
        0
    }
}

/// Multiplication that stops at the largest 64-bit value.
pub open spec fn sat_mul(a: int, b: int) -> int {
    if a * b > u64::MAX {
        u64::MAX as int
    } else {
        a * b
    }
}

/// What `Duration::checked_add` returns.
pub uninterp spec fn duration_checked_add(d: Duration, rhs: Duration) -> Option<Duration>;

/// What `Duration::checked_sub` returns.
pub uninterp spec fn duration_checked_sub(d: Duration, rhs: Duration) -> Option<Duration>;

/// `Duration::checked_add`: the sum of two durations, or `None` where it is
/// more than a duration can hold. The result depends on the two values
/// alone. A duration holds every 64-bit count of nanoseconds, so a sum
/// within such a count is never refused.
pub assume_specification[ Duration::checked_add ](d: Duration, rhs: Duration) -> (r: Option<Duration>)
    ensures
        r == duration_checked_add(d, rhs),
        r is Some ==> duration_nanos(r->Some_0) == duration_nanos(d) + duration_nanos(rhs),
        duration_nanos(d) + duration_nanos(rhs) <= u64::MAX ==> r is Some,
;

/// `Duration::checked_sub`: the difference of two durations, or `None`
/// where it would be negative. The result depends on the two values alone.
pub assume_specification[ Duration::checked_sub ](d: Duration, rhs: Duration) -> (r: Option<Duration>)
    ensures
        r == duration_checked_sub(d, rhs),
        r is Some <==> duration_nanos(d) >= duration_nanos(rhs),
        r is Some ==> duration_nanos(r->Some_0) == duration_nanos(d) - duration_nanos(rhs),
;

/// The length of a duration as a count of nanoseconds, which stops at the
/// largest count.
pub open spec fn spec_clamped(duration: Duration) -> Nanos {
    if duration_nanos(duration) <= u64::MAX {
        Nanos(duration_nanos(duration) as u64)
    } else {
        Nanos(u64::MAX)
    }
}

/// The length of a duration as a count of nanoseconds, which stops at the
/// largest count.
pub fn clamped(duration: Duration) -> (r: Nanos)
    ensures
        r == spec_clamped(duration),
{
    match Nanos::from_duration(duration) {
        Some(nanos) => nanos,
        None => Nanos(u64::MAX),
    }
}

/// A number of nanoseconds from a reference point.
///
/// The value is a plain 64-bit count, so spans longer than about 584 years
/// have no representation.
#[derive(Clone, Copy, PartialEq, Eq, Structural, Hash, Default, PartialOrd, Ord)]
pub struct Nanos(pub u64);

impl View for Nanos {
    type V = int;

    open spec fn view(&self) -> int {
        self.0 as int
    }
}

impl Nanos {
    /// Wraps a raw nanosecond count.
    pub fn new(u: u64) -> (r: Nanos)
        ensures
            r.0 == u,
    {
        Nanos(u)
    }

    /// The length of a duration in nanoseconds, if 64 bits hold it: about
    /// 584 years.
    pub fn from_duration(d: Duration) -> (r: Option<Nanos>)
        ensures
            r == (if duration_nanos(d) <= u64::MAX {
                Some(Nanos(duration_nanos(d) as u64))
            } else {
                None
            }),
    {
        let n: u128 = d.as_nanos();
        if n <= 0xffff_ffff_ffff_ffffu128 {
            Some(Nanos(n as u64))
        } else {
            None
        }
    }

    /// The duration of this many nanoseconds.
    pub fn to_duration(self) -> (r: Duration)
        ensures
            r == duration_from_nanos(self.0),
            duration_nanos(r) == self.0,
    {
        Duration::from_nanos(self.0)
    }

    /// The raw nanosecond count.
    pub fn as_u64(self) -> (r: u64)
        ensures
            r == self.0,
    {
        self.0
    }

    /// Subtraction that stops at zero.
    pub fn saturating_sub(self, rhs: Nanos) -> (r: Nanos)
        ensures
            r@ == sat_sub(self@, rhs@),
    {
        if self.0 >= rhs.0 {
            Nanos(self.0 - rhs.0)
        } else {
            Nanos(0)
        }
    }

    /// Addition that stops at the largest representable count.
    pub fn saturating_add(self, rhs: Nanos) -> (r: Nanos)
        ensures
            r@ == sat_add(self@, rhs@),
    {
        if rhs.0 <= u64::MAX - self.0 {
            Nanos(self.0 + rhs.0)
        } else {
            Nanos(u64::MAX)
        }
    }

    /// Multiplication by a cell count that stops at the largest
    /// representable count.
    pub fn saturating_mul(self, rhs: u64) -> (r: Nanos)
        ensures
            r@ == sat_mul(self@, rhs as int),
    {
        if self.0 == 0 || rhs == 0 {
            assert(self.0 * rhs == 0) by (nonlinear_arith)
                requires
                    self.0 == 0 || rhs == 0,
            ;
            Nanos(0)
        } else if rhs <= u64::MAX / self.0 {
            assert(self.0 * rhs <= u64::MAX) by (nonlinear_arith)
                requires
                    self.0 > 0,
                    rhs <= u64::MAX / self.0,
            ;
            Nanos(self.0 * rhs)
        } else {
            assert(self.0 * rhs > u64::MAX) by (nonlinear_arith)
                requires
                    self.0 > 0,
                    rhs > u64::MAX / self.0,
            ;
            Nanos(u64::MAX)
        }
    }

    /// How many whole spans of `rhs` fit into this one.
    pub fn div(self, rhs: Nanos) -> (r: u64)
        requires
            rhs@ > 0,
        ensures
            r == self@ / rhs@,
    {
        self.0 / rhs.0
    }

    /// The later of two counts.
    pub fn max(self, other: Nanos) -> (r: Nanos)
        ensures
            r@ == if self@ >= other@ { self@ } else { other@ },
    {
        if self.0 >= other.0 {
            self
        } else {
            other
        }
    }

    /// The earlier of two counts.
    pub fn min(self, other: Nanos) -> (r: Nanos)
        ensures
            r@ == if self@ <= other@ { self@ } else { other@ },
    {
        if self.0 <= other.0 {
            self
        } else {
            other
        }
    }
}

impl core::ops::Add<Nanos> for Nanos {
    type Output = Nanos;

    fn add(self, rhs: Nanos) -> (r: Nanos) {
        Nanos(self.0 + rhs.0)
    }
}

impl vstd::std_specs::ops::AddSpecImpl<Nanos> for Nanos {
    open spec fn obeys_add_spec() -> bool {
        true
    }

    open spec fn add_req(self, rhs: Nanos) -> bool {
        self@ + rhs@ <= u64::MAX
    }

    open spec fn add_spec(self, rhs: Nanos) -> Nanos {
        Nanos((self@ + rhs@) as u64)
    }
}

/// `core::fmt::Formatter`, which a value writes its text to.
#[verifier::external_type_specification]
#[verifier::external_body]
pub struct ExFormatter<'a>(core::fmt::Formatter<'a>);

/// `core::fmt::Error`, which says that a text could not be written.
#[verifier::external_type_specification]
#[verifier::external_body]
pub struct ExFmtError(core::fmt::Error);

impl core::fmt::Debug for Nanos {
    /// Writes the count as the duration that it is, by `write!`: `Nanos(1s)`
    /// for a second. Nothing is proved of the text.
    #[verifier::external_body]
    fn fmt(&self, f: &mut core::fmt::Formatter<'_>) -> Result<(), core::fmt::Error> {
        write!(f, "Nanos({:?})", Duration::from_nanos(self.0))
    }
}

impl From<u64> for Nanos {
    fn from(u: u64) -> (r: Nanos) {
        Nanos(u)
    }
}

impl vstd::std_specs::convert::FromSpecImpl<u64> for Nanos {
    open spec fn obeys_from_spec() -> bool {
        true
    }

    open spec fn from_spec(u: u64) -> Nanos {
        Nanos(u)
    }
}

} // verus!
