//! The model of `std::time::Duration` that the contracts of this library speak of, and
//! what is taken on trust of the standard library's functions on it.

use std::time::Duration;
use vstd::prelude::*;

verus! {

/// The length of `d` in nanoseconds: the number that `Duration::as_nanos` returns for it.
///
/// A `Duration` is opaque to the verifier, and its length is all that this library states
/// of one. Nothing is known of this function but what the trusted items below say.
pub uninterp spec fn total_nanos(d: Duration) -> nat;

/// The length of `Duration::MAX`, the longest duration there is: `u64::MAX` whole seconds
/// and 999,999,999 nanoseconds.
pub open spec fn max_total_nanos() -> nat {
    u64::MAX as nat * 1_000_000_000 + 999_999_999
}

/// Trusted: `Duration::from_nanos` returns the duration of exactly `nanos` nanoseconds.
pub assume_specification[ Duration::from_nanos ](nanos: u64) -> (d: Duration)
    ensures
        total_nanos(d) == nanos,
;

/// Trusted: `Duration::from_micros` returns the duration of exactly `micros` microseconds,
/// 1,000 nanoseconds each.
pub assume_specification[ Duration::from_micros ](micros: u64) -> (d: Duration)
    ensures
        total_nanos(d) == micros * 1_000,
;

/// Trusted: `Duration::from_millis` returns the duration of exactly `millis` milliseconds,
/// 1,000,000 nanoseconds each.
pub assume_specification[ Duration::from_millis ](millis: u64) -> (d: Duration)
    ensures
        total_nanos(d) == millis * 1_000_000,
;

/// Trusted: `Duration::from_secs` returns the duration of exactly `secs` whole seconds,
/// 1,000,000,000 nanoseconds each.
pub assume_specification[ Duration::from_secs ](secs: u64) -> (d: Duration)
    ensures
        total_nanos(d) == secs * 1_000_000_000,
;

/// Trusted: the product `factor * unit` of the standard library (`Mul<Duration>` for `u32`)
/// is the duration that is `factor` times as long as `unit`.
///
/// The standard library panics where the product would be longer than `Duration::MAX`, so
/// the caller shows that it is not.
#[verifier::external_body]
pub(crate) fn scale(factor: u32, unit: Duration) -> (d: Duration)
    requires
        factor * total_nanos(unit) <= max_total_nanos(),
    ensures
        total_nanos(d) == factor * total_nanos(unit),
{
    factor * unit
}

} // verus!
