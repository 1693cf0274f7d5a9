//! Durations from numbers: `5.seconds()`, `2.hours()`.
//!
//! [`NumTimeDuration`] gives an integer one method for each unit of time, from the
//! nanosecond to the week. Each returns the `std::time::Duration` of that many units.
//!
//! ```
//! use num_time_duration::NumTimeDuration;
//! use std::time::Duration;
//!
//! assert_eq!(1.hours(), Duration::from_secs(3600));
//! assert_eq!(1.days(), Duration::from_secs(86400));
//! ```

pub mod duration;
pub mod laws;
pub mod units;

use crate::duration::{max_total_nanos, scale, total_nanos};
use crate::laws::count_is_the_cast_to_u64;
use crate::units::{
    day, hour, microsecond, millisecond, minute, nanosecond, second, week, DAYS_PER_WEEK,
    HOURS_PER_DAY, MINUTES_PER_HOUR, SECONDS_PER_MINUTE,
};
use std::time::Duration;
use vstd::prelude::*;

verus! {

/// A number that stands for a count of units of time.
///
/// Every method returns the duration of `self.count()` units, exactly: a `Duration` counts
/// whole nanoseconds, and every unit is a whole number of them.
///
/// The four units up to the second take any receiver. The four above it are built from the
/// unit below, and take a receiver only where the result is no longer than `Duration::MAX`:
/// a longer one cannot be held, and the caller shows that none is asked for.
pub trait NumTimeDuration {
    /// How many units the receiver stands for.
    spec fn count(&self) -> nat;

    /// The duration of `self` nanoseconds.
    fn nanoseconds(&self) -> (d: Duration)
        ensures
            total_nanos(d) == self.count() * nanosecond(),
    ;

    /// The duration of `self` microseconds.
    fn microseconds(&self) -> (d: Duration)
        ensures
            total_nanos(d) == self.count() * microsecond(),
    ;

    /// The duration of `self` milliseconds.
    fn milliseconds(&self) -> (d: Duration)
        ensures
            total_nanos(d) == self.count() * millisecond(),
    ;

    /// The duration of `self` seconds.
    fn seconds(&self) -> (d: Duration)
        ensures
            total_nanos(d) == self.count() * second(),
    ;

    /// The duration of `self` minutes.
    fn minutes(&self) -> (d: Duration)
        requires
            self.count() * minute() <= max_total_nanos(),
        ensures
            total_nanos(d) == self.count() * minute(),
    ;

    /// The duration of `self` hours.
    fn hours(&self) -> (d: Duration)
        requires
            self.count() * hour() <= max_total_nanos(),
        ensures
            total_nanos(d) == self.count() * hour(),
    ;

    /// The duration of `self` days.
    fn days(&self) -> (d: Duration)
        requires
            self.count() * day() <= max_total_nanos(),
        ensures
            total_nanos(d) == self.count() * day(),
    ;

    /// The duration of `self` weeks.
    fn weeks(&self) -> (d: Duration)
        requires
            self.count() * week() <= max_total_nanos(),
        ensures
            total_nanos(d) == self.count() * week(),
    ;
}

/// An `i32` that is not negative stands for that many units.
///
/// A negative one is not rejected. It is widened as the cast `as u64` widens it, to the
/// unsigned 64-bit number with the same bits, so that `-1` stands for `u64::MAX` units.
/// Of the units above the second, no such count fits in a `Duration`: those four methods
/// take an `i32` exactly where it is not negative.
impl NumTimeDuration for i32 {
    open spec fn count(&self) -> nat {
        if *self >= 0 {
            *self as nat
        } else {
            (*self + 0x1_0000_0000_0000_0000) as nat
        }
    }

    fn nanoseconds(&self) -> (d: Duration)
        ensures
            *self >= 0 ==> total_nanos(d) == *self,
    {
        proof {
            count_is_the_cast_to_u64(*self);
        }
        Duration::from_nanos(*self as u64)
    }

    fn microseconds(&self) -> (d: Duration)
        ensures
            *self >= 0 ==> total_nanos(d) == *self * 1_000,
    {
        proof {
            count_is_the_cast_to_u64(*self);
        }
        Duration::from_micros(*self as u64)
    }

    fn milliseconds(&self) -> (d: Duration)
        ensures
            *self >= 0 ==> total_nanos(d) == *self * 1_000_000,
    {
        proof {
            count_is_the_cast_to_u64(*self);
        }
        Duration::from_millis(*self as u64)
    }

    fn seconds(&self) -> (d: Duration)
        ensures
            *self >= 0 ==> total_nanos(d) == *self * 1_000_000_000,
    {
        proof {
            count_is_the_cast_to_u64(*self);
        }
        Duration::from_secs(*self as u64)
    }

    fn minutes(&self) -> (d: Duration)
        ensures
            total_nanos(d) == *self * 60 * 1_000_000_000,
    {
        let seconds: Duration = self.seconds();
        scale(SECONDS_PER_MINUTE, seconds)
    }

    fn hours(&self) -> (d: Duration)
        ensures
            total_nanos(d) == *self * 3_600 * 1_000_000_000,
    {
        let minutes: Duration = self.minutes();
        scale(MINUTES_PER_HOUR, minutes)
    }

    fn days(&self) -> (d: Duration)
        ensures
            total_nanos(d) == *self * 86_400 * 1_000_000_000,
    {
        let hours: Duration = self.hours();
        scale(HOURS_PER_DAY, hours)
    }

    fn weeks(&self) -> (d: Duration)
        ensures
            total_nanos(d) == *self * 604_800 * 1_000_000_000,
    {
        let days: Duration = self.days();
        scale(DAYS_PER_WEEK, days)
    }
}

} // verus!
