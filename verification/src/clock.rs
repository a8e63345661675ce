//! The crate's only source of nondeterminism besides the random draw: the
//! wall clock, read as whole seconds or milliseconds since the Unix epoch.

use core::time::Duration;
use std::time::SystemTime;
use vstd::prelude::*;

verus! {

#[verifier::external_type_specification]
#[verifier::external_body]
pub struct ExSystemTime(SystemTime);

/// Relies on std's `SystemTime::now`: the current wall-clock reading.
/// Nothing is assumed of the value.
#[verifier::external_body]
fn system_now() -> (r: SystemTime) {
    SystemTime::now()
}

/// Relies on std's `SystemTime::duration_since` (against the epoch): the
/// span from the epoch to `t`, or nothing when the clock reads before the
/// epoch. Nothing is assumed of the value.
#[verifier::external_body]
fn since_epoch(t: SystemTime) -> (r: Option<Duration>) {
    match t.duration_since(SystemTime::UNIX_EPOCH) {
        Ok(d) => Some(d),
        Err(_) => None,
    }
}

/// Strict upper bound on a `Duration` in milliseconds: a `Duration`
/// carries at most `u64::MAX` whole seconds, so its total milliseconds
/// stay below `2^74`.
pub const MILLIS_CLOCK_BOUND: u128 = 0x4000000000000000000;

/// Relies on std's `Duration::as_millis`: the whole milliseconds of the
/// span, at most `u64::MAX * 1000 + 999` and so below `2^74`.
#[verifier::external_body]
fn duration_millis(d: &Duration) -> (r: u128)
    ensures
        r < MILLIS_CLOCK_BOUND,
{
    d.as_millis()
}

/// Relies on std's `Duration::as_secs`: the whole seconds of the span.
/// Nothing is assumed of the value.
#[verifier::external_body]
fn duration_secs(d: &Duration) -> (r: u64) {
    d.as_secs()
}

/// Milliseconds since the epoch; a clock before the epoch reads as zero.
pub fn current_millis() -> (r: u128)
    ensures
        r < MILLIS_CLOCK_BOUND,
{
    let now = system_now();
    match since_epoch(now) {
        Some(d) => duration_millis(&d),
        None => 0,
    }
}

/// Whole seconds since the epoch; a clock before the epoch reads as zero.
pub fn current_seconds() -> (r: u64) {
    let now = system_now();
    match since_epoch(now) {
        Some(d) => duration_secs(&d),
        None => 0,
    }
}

} // verus!
