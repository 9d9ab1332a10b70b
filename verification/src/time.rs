//! The two places where the library touches the clock and the calendar,
//! both through `chrono`.

use vstd::prelude::*;

verus! {

/// The `YYYY-MM-DD` rendering of a Unix timestamp.  Calendar arithmetic is
/// not restated here; the name stands for what `chrono` computes from the
/// timestamp alone.
pub uninterp spec fn unix_date_string(ts: int) -> Seq<char>;

/// Relies on chrono's `DateTime::from_timestamp` and its `%Y-%m-%d`
/// formatting: the result depends on the timestamp alone, and every
/// timestamp from 1970 through year 9999 is within chrono's range.
#[verifier::external_body]
pub(crate) fn format_unix_date(ts: i64) -> (r: Option<String>)
    ensures
        r is Some ==> r->0@ == unix_date_string(ts as int),
        0 <= ts <= 253402300799 ==> r is Some,
{
    chrono::DateTime::from_timestamp(ts, 0).map(|dt| dt.format("%Y-%m-%d").to_string())
}

/// Relies on chrono's `Utc::now`: the current Unix time in seconds.
/// Nothing is promised of the clock value.
#[verifier::external_body]
pub(crate) fn now_unix_seconds() -> i64 {
    chrono::Utc::now().timestamp()
}

} // verus!
