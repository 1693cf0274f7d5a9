//! What holds of the conversions of an `i32`, beyond what each method states of itself.

use crate::duration::max_total_nanos;
use crate::units::{day, hour, microsecond, millisecond, minute, nanosecond, second, week};
use crate::NumTimeDuration;
use vstd::prelude::*;

verus! {

/// The count of an `i32` is what the cast `as u64` makes of it: the number itself where it
/// is not negative, and 2^64 more than the number where it is.
pub proof fn count_is_the_cast_to_u64(n: i32)
    ensures
        n.count() == n as u64,
        n >= 0 ==> n.count() == n,
        n < 0 ==> n.count() == n + 0x1_0000_0000_0000_0000,
{
    assert(n < 0 ==> (n as u64) == n + 0x1_0000_0000_0000_0000) by (bit_vector);
}

/// The units above the second take an `i32` exactly where it is not negative: the duration
/// of that many weeks, and so of as many of any shorter unit, is no longer than
/// `Duration::MAX`, and that of a negative receiver's count of minutes is longer.
pub proof fn longer_units_take_what_is_not_negative(n: i32)
    ensures
        n.count() * minute() <= max_total_nanos() <==> n >= 0,
        n.count() * hour() <= max_total_nanos() <==> n >= 0,
        n.count() * day() <= max_total_nanos() <==> n >= 0,
        n.count() * week() <= max_total_nanos() <==> n >= 0,
{
}

/// As many minutes are as long as sixty times as many seconds.
pub proof fn minutes_are_sixty_times_the_seconds(n: i32)
    requires
        0 <= n,
        60 * n <= i32::MAX,
    ensures
        n.count() * minute() == ((60 * n) as i32).count() * second(),
{
}

/// As many hours are as long as sixty times as many minutes.
pub proof fn hours_are_sixty_times_the_minutes(n: i32)
    requires
        0 <= n,
        60 * n <= i32::MAX,
    ensures
        n.count() * hour() == ((60 * n) as i32).count() * minute(),
{
}

/// As many days are as long as twenty-four times as many hours.
pub proof fn days_are_twenty_four_times_the_hours(n: i32)
    requires
        0 <= n,
        24 * n <= i32::MAX,
    ensures
        n.count() * day() == ((24 * n) as i32).count() * hour(),
{
}

/// As many weeks are as long as seven times as many days.
pub proof fn weeks_are_seven_times_the_days(n: i32)
    requires
        0 <= n,
        7 * n <= i32::MAX,
    ensures
        n.count() * week() == ((7 * n) as i32).count() * day(),
{
}

/// A receiver that stands for no unit gives the duration of length zero, whatever the
/// unit. The `i32` zero is such a receiver: it counts as itself.
pub proof fn nothing_of_any_unit_is_zero<T: NumTimeDuration>(n: T)
    requires
        n.count() == 0,
    ensures
        n.count() * nanosecond() == 0,
        n.count() * microsecond() == 0,
        n.count() * millisecond() == 0,
        n.count() * second() == 0,
        n.count() * minute() == 0,
        n.count() * hour() == 0,
        n.count() * day() == 0,
        n.count() * week() == 0,
{
}

} // verus!
