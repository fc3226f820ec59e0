//! The wall clock. Timestamps are microseconds since the Unix epoch.

use vstd::prelude::*;

verus! {

/// Microseconds in one second.
pub const MICROS_PER_SECOND: i64 = 1_000_000;

/// Microseconds in one day.
pub const MICROS_PER_DAY: i64 = 86_400_000_000;

/// Calls `chrono::Utc::now` and reads it as microseconds since the Unix
/// epoch. The clock decides the value; `Utc::now` only returns for a system
/// time at or after the epoch.
#[verifier::external_body]
fn utc_now_micros() -> (now: i64)
    ensures
        0 <= now,
{
    chrono::Utc::now().timestamp_micros()
}

/// The current time, in microseconds since the Unix epoch.
pub fn now_micros() -> (now: i64)
    ensures
        0 <= now,
{
    utc_now_micros()
}

} // verus!
