//! Signed lengths of time.

use vstd::prelude::*;

verus! {

/// The largest length of time, in nanoseconds: as many milliseconds as a
/// signed 64-bit number counts.
pub const MAX_DELTA_NANOS: i128 = 9_223_372_036_854_775_807_000_000;

/// The nanoseconds of an hour.
pub const NANOS_PER_HOUR: i128 = 3_600_000_000_000;

/// The nanoseconds of a minute.
pub const NANOS_PER_MINUTE: i128 = 60_000_000_000;

/// The nanoseconds of a second.
pub const NANOS_PER_SECOND: i128 = 1_000_000_000;

/// Whether a number of nanoseconds is a length of time that can be held.
pub open spec fn in_range(nanos: int) -> bool {
    -MAX_DELTA_NANOS <= nanos <= MAX_DELTA_NANOS
}

/// The number of nanoseconds, if it can be held.
pub open spec fn checked(nanos: int) -> Option<int> {
    if in_range(nanos) {
        Some(nanos)
    } else {
        None
    }
}

/// The sum of two lengths of time, if both are there and the sum can be held.
pub open spec fn checked_sum(first: Option<int>, second: Option<int>) -> Option<int> {
    match (first, second) {
        (Some(a), Some(b)) => checked(a + b),
        _ => None,
    }
}

/// The length of time with its sign turned.
pub open spec fn negated(nanos: Option<int>) -> Option<int> {
    match nanos {
        Some(n) => Some(-n),
        None => None,
    }
}

/// The sum of the lengths of time, added one after the other, if every sum on
/// the way can be held.
pub open spec fn total_of(nanos: Seq<int>) -> Option<int>
    decreases nanos.len(),
{
    if nanos.len() == 0 {
        Some(0)
    } else {
        checked_sum(total_of(nanos.drop_last()), Some(nanos.last()))
    }
}

/// The quotient rounded towards zero.
pub open spec fn quotient_towards_zero(n: int, d: int) -> int
    recommends
        d > 0,
{
    if n >= 0 {
        n / d
    } else {
        -((-n) / d)
    }
}

/// A signed length of time, counted in nanoseconds.
#[derive(Clone, Copy, Debug)]
pub struct Delta {
    nanos: i128,
}

impl View for Delta {
    type V = int;

    closed spec fn view(&self) -> int {
        self.nanos as int
    }
}

/// The view of a length of time that may be missing.
pub open spec fn maybe_nanos(delta: Option<Delta>) -> Option<int> {
    match delta {
        Some(delta) => Some(delta@),
        None => None,
    }
}

impl Delta {
    #[verifier::type_invariant]
    spec fn valid(self) -> bool {
        in_range(self.nanos as int)
    }

    /// No time at all.
    pub fn zero() -> (delta: Delta)
        ensures
            delta@ == 0,
    {
        Delta { nanos: 0 }
    }

    /// The length of time of so many nanoseconds, if it can be held.
    pub fn from_nanos(nanos: i128) -> (delta: Option<Delta>)
        ensures
            maybe_nanos(delta) == checked(nanos as int),
    {
        if -MAX_DELTA_NANOS <= nanos && nanos <= MAX_DELTA_NANOS {
            Some(Delta { nanos })
        } else {
            None
        }
    }

    /// The length of time of so many nanoseconds.
    pub fn from_small_nanos(nanos: i64) -> (delta: Delta)
        ensures
            delta@ == nanos,
    {
        Delta { nanos: nanos as i128 }
    }

    /// So many hours, if they can be held.
    pub fn hours(hours: i64) -> (delta: Option<Delta>)
        ensures
            maybe_nanos(delta) == checked(hours * NANOS_PER_HOUR),
    {
        Delta::from_nanos(hours as i128 * NANOS_PER_HOUR)
    }

    /// So many minutes, if they can be held.
    pub fn minutes(minutes: i64) -> (delta: Option<Delta>)
        ensures
            maybe_nanos(delta) == checked(minutes * NANOS_PER_MINUTE),
    {
        Delta::from_nanos(minutes as i128 * NANOS_PER_MINUTE)
    }

    /// The sum, if it can be held.
    pub fn checked_add(&self, other: &Delta) -> (sum: Option<Delta>)
        ensures
            maybe_nanos(sum) == checked(self@ + other@),
    {
        proof {
            use_type_invariant(self);
            use_type_invariant(other);
        }
        Delta::from_nanos(self.nanos + other.nanos)
    }

    /// The difference, if it can be held.
    pub fn checked_sub(&self, other: &Delta) -> (difference: Option<Delta>)
        ensures
            maybe_nanos(difference) == checked(self@ - other@),
    {
        proof {
            use_type_invariant(self);
            use_type_invariant(other);
        }
        Delta::from_nanos(self.nanos - other.nanos)
    }

    /// The same length of time with the other sign.
    pub fn neg(&self) -> (negative: Delta)
        ensures
            negative@ == -self@,
    {
        proof {
            use_type_invariant(self);
        }
        Delta { nanos: -self.nanos }
    }

    /// The nanoseconds.
    pub fn num_nanoseconds(&self) -> (nanos: i128)
        ensures
            nanos == self@,
            in_range(self@),
    {
        proof {
            use_type_invariant(self);
        }
        self.nanos
    }

    /// The whole seconds, rounded towards zero.
    pub fn num_seconds(&self) -> (seconds: i64)
        ensures
            seconds == quotient_towards_zero(self@, NANOS_PER_SECOND as int),
    {
        proof {
            use_type_invariant(self);
        }
        if self.nanos >= 0 {
            (self.nanos / NANOS_PER_SECOND) as i64
        } else {
            let positive: i128 = -self.nanos;
            let seconds: i128 = positive / NANOS_PER_SECOND;
            (-seconds) as i64
        }
    }

    /// The whole minutes, rounded towards zero.
    pub fn num_minutes(&self) -> (minutes: i64)
        ensures
            minutes == quotient_towards_zero(self@, NANOS_PER_MINUTE as int),
            in_range(self@),
    {
        proof {
            use_type_invariant(self);
        }
        if self.nanos >= 0 {
            (self.nanos / NANOS_PER_MINUTE) as i64
        } else {
            let positive: i128 = -self.nanos;
            let minutes: i128 = positive / NANOS_PER_MINUTE;
            (-minutes) as i64
        }
    }
}

} // verus!
