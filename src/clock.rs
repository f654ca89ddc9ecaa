//! The wall clock, read through chrono.
//!
//! Nothing is known of what the clock returns: callers hand the value to
//! functions whose contracts hold for every value of it.

use vstd::prelude::*;

verus! {

/// Relies on chrono's `Utc::now().timestamp()`: the current time as whole
/// seconds since the Unix epoch.
#[verifier::external_body]
pub(crate) fn unix_time_now() -> i64 {
    chrono::Utc::now().timestamp()
}

/// Relies on chrono's `Utc::now().date_naive()` and `Datelike::num_days_from_ce`:
/// today's UTC calendar date, as a day number counted from 1 January of year 1.
#[verifier::external_body]
pub(crate) fn utc_day_now() -> i32 {
    chrono::Datelike::num_days_from_ce(&chrono::Utc::now().date_naive())
}

} // verus!
