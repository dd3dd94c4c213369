//! The present moment, as the calendar and the clock of the host give it.

use vstd::prelude::*;
use chrono::Datelike;

verus! {

/// Relies on chrono's `Utc::now` with `Datelike::year` and `Datelike::month`:
/// the calendar year and month of the present moment in UTC, the month
/// numbered from 1 to 12 as chrono documents it.
#[verifier::external_body]
pub(crate) fn current_period() -> (r: (i32, i32))
    ensures
        1 <= r.1 <= 12,
{
    let now = chrono::Utc::now();
    (now.year(), now.month() as i32)
}

/// Relies on chrono's `Utc::now` with `DateTime::timestamp`: the present
/// moment in seconds since the Unix epoch. Nothing is promised of its value.
#[verifier::external_body]
pub(crate) fn now_timestamp() -> (r: i64) {
    chrono::Utc::now().timestamp()
}

} // verus!
