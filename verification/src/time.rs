//! Durations as numbers of milliseconds.

use std::time::Duration;

use vstd::prelude::*;

verus! {

/// The duration of a number of milliseconds.
pub uninterp spec fn millis_duration(millis: u64) -> Duration;

/// The number of whole milliseconds that a duration lasts.
pub uninterp spec fn whole_millis(duration: Duration) -> u128;

/// Calls `std::time::Duration::from_millis`.
///
/// Taken on trust: the duration is a function of the number, and lasts that many
/// milliseconds.
#[verifier::external_body]
pub(crate) fn duration_from_millis(millis: u64) -> (duration: Duration)
    ensures
        duration == millis_duration(millis),
        whole_millis(duration) == millis,
{
    Duration::from_millis(millis)
}

/// Calls `std::time::Duration::as_millis`.
///
/// Taken on trust: the number of whole milliseconds is a function of the
/// duration.
#[verifier::external_body]
pub(crate) fn duration_as_millis(duration: Duration) -> (millis: u128)
    ensures
        millis == whole_millis(duration),
{
    duration.as_millis()
}

} // verus!
