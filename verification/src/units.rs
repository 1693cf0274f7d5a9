//! The units of time: how long each one is, and how many of one make the next.

use vstd::prelude::*;

verus! {

/// How many seconds make a minute.
pub const SECONDS_PER_MINUTE: u32 = 60;

/// How many minutes make an hour.
pub const MINUTES_PER_HOUR: u32 = 60;

/// How many hours make a day.
pub const HOURS_PER_DAY: u32 = 24;

/// How many days make a week.
pub const DAYS_PER_WEEK: u32 = 7;

/// The length of a nanosecond, in nanoseconds.
pub open spec fn nanosecond() -> nat {
    1
}

/// The length of a microsecond, in nanoseconds.
pub open spec fn microsecond() -> nat {
    1_000
}

/// The length of a millisecond, in nanoseconds.
pub open spec fn millisecond() -> nat {
    1_000_000
}

/// The length of a second, in nanoseconds.
pub open spec fn second() -> nat {
    1_000_000_000
}

/// The length of a minute, in nanoseconds.
pub open spec fn minute() -> nat {
    60_000_000_000
}

/// The length of an hour, in nanoseconds.
pub open spec fn hour() -> nat {
    3_600_000_000_000
}

/// The length of a day, in nanoseconds.
pub open spec fn day() -> nat {
    86_400_000_000_000
}

/// The length of a week, in nanoseconds.
pub open spec fn week() -> nat {
    604_800_000_000_000
}

/// Each unit above the second is a whole number of the unit below it: a minute is sixty
/// seconds, an hour sixty minutes, a day twenty-four hours and a week seven days.
pub proof fn units_compose()
    ensures
        minute() == SECONDS_PER_MINUTE * second(),
        hour() == MINUTES_PER_HOUR * minute(),
        day() == HOURS_PER_DAY * hour(),
        week() == DAYS_PER_WEEK * day(),
{
}

} // verus!
