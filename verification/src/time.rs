//! Points in time as the tracker needs them: to measure how long ago something
//! happened, and to print a date.

use vstd::prelude::*;

verus! {

/// A point in time: whole seconds since 1970-01-01 00:00:00 UTC, and the
/// nanoseconds that have passed since the last whole second. A leap second
/// is written as chrono writes it: as the second before it, with a billion
/// nanoseconds or more.
#[derive(Clone, Copy, Debug, PartialEq, Eq, Structural)]
pub struct Timestamp {
    pub secs: i64,
    pub nanos: u32,
}

/// The date and time of a timestamp as RFC 3339 text in UTC, as chrono writes
/// it, or `None` where chrono has no date for these numbers.
pub uninterp spec fn rfc3339_text(secs: int, nanos: int) -> Option<Seq<char>>;

/// The second of the day that a timestamp falls in.
pub open spec fn second_of_day(moment: Timestamp) -> int {
    (moment.secs as int) % 86_400
}

/// The leap second that lies between two moments and that the difference of
/// their seconds does not count: one second more where the later moment is
/// later in its day than the earlier one is in its own and the earlier one is
/// a leap second, one second less where it is the other way round, else
/// nothing.
pub open spec fn leap_second_between(later: Timestamp, earlier: Timestamp) -> int {
    if second_of_day(later) > second_of_day(earlier) && earlier.nanos >= 1_000_000_000 {
        1
    } else if second_of_day(later) < second_of_day(earlier) && later.nanos >= 1_000_000_000 {
        -1
    } else {
        0
    }
}

/// The time from `earlier` to `later` in nanoseconds; negative where `later`
/// comes first.
pub open spec fn nanoseconds_between(later: Timestamp, earlier: Timestamp) -> int {
    (later.secs - earlier.secs + leap_second_between(later, earlier)) * 1_000_000_000 + (
    later.nanos - earlier.nanos)
}

/// The whole seconds in the time from `earlier` to `later`, rounded towards zero.
pub open spec fn whole_seconds_between(later: Timestamp, earlier: Timestamp) -> int {
    let nanoseconds = nanoseconds_between(later, earlier);
    if nanoseconds >= 0 {
        nanoseconds / 1_000_000_000
    } else {
        -((-nanoseconds) / 1_000_000_000)
    }
}

/// Computes the second of the day.
fn day_second(secs: i64) -> (second: i64)
    ensures
        second == secs as int % 86_400,
        0 <= second < 86_400,
{
    if secs >= 0 {
        secs % 86_400
    } else {
        // The seconds before 1970 count down from the end of their day.
        let back: i64 = (-(secs + 1)) % 86_400;
        86_399 - back
    }
}

impl Timestamp {
    /// The whole seconds that passed from `earlier` to `self`, rounded towards
    /// zero; negative where `self` comes first. A leap second counts as the
    /// second that it is. `None` where the number does not fit in 64 bits.
    pub fn seconds_since(&self, earlier: &Timestamp) -> (r: Option<i64>)
        ensures
            r == if i64::MIN <= whole_seconds_between(*self, *earlier) <= i64::MAX {
                Some(whole_seconds_between(*self, *earlier) as i64)
            } else {
                None
            },
    {
        let here = day_second(self.secs);
        let there = day_second(earlier.secs);
        let leap: i128 = if here > there && earlier.nanos >= 1_000_000_000 {
            1
        } else if here < there && self.nanos >= 1_000_000_000 {
            -1
        } else {
            0
        };
        let seconds: i128 = self.secs as i128 - earlier.secs as i128 + leap;
        let nanoseconds: i128 = seconds * 1_000_000_000 + (self.nanos as i128
            - earlier.nanos as i128);
        let whole: i128 = if nanoseconds >= 0 {
            nanoseconds / 1_000_000_000
        } else {
            -((-nanoseconds) / 1_000_000_000)
        };
        if whole < i64::MIN as i128 || whole > i64::MAX as i128 {
            None
        } else {
            Some(whole as i64)
        }
    }

    /// The timestamp as RFC 3339 text, such as `2025-01-02T03:04:05+00:00`;
    /// `None` where the numbers are outside the dates that can be written.
    pub fn to_rfc3339(&self) -> (r: Option<String>)
        ensures
            match r {
                Some(s) => rfc3339_text(self.secs as int, self.nanos as int) == Some(s@),
                None => rfc3339_text(self.secs as int, self.nanos as int) is None,
            },
    {
        rfc3339(self.secs, self.nanos)
    }
}

/// Calls chrono: `DateTime::from_timestamp`, which gives the UTC date and time
/// of a Unix timestamp or nothing where the numbers are out of its range, and
/// `DateTime::to_rfc3339` on what it gave. The text is a function of the two
/// numbers alone; the contract gives it the name `rfc3339_text` and says
/// nothing of what it holds.
#[verifier::external_body]
fn rfc3339(secs: i64, nanos: u32) -> (r: Option<String>)
    ensures
        match r {
            Some(s) => rfc3339_text(secs as int, nanos as int) == Some(s@),
            None => rfc3339_text(secs as int, nanos as int) is None,
        },
{
    chrono::DateTime::from_timestamp(secs, nanos).map(|moment| moment.to_rfc3339())
}

} // verus!
