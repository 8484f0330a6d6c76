use vstd::prelude::*;
use chrono::{DateTime, Datelike, NaiveDate, Utc};

verus! {

/// Seconds since the epoch of 00:00:00 UTC on the first day of the month that
/// holds the instant `ts`, or `None` where the calendar cannot represent it.
pub uninterp spec fn month_start_of(ts: i64) -> Option<i64>;

/// Relies on `chrono::Utc::now`: the current time, in seconds since the epoch.
#[verifier::external_body]
pub(crate) fn now_timestamp() -> (r: i64) {
    Utc::now().timestamp()
}

/// Relies on chrono's calendar (`DateTime::from_timestamp`,
/// `NaiveDate::from_ymd_opt`, `NaiveDate::and_hms_opt`): the start of the
/// month holding `ts`, as a function of `ts` alone.
#[verifier::external_body]
pub(crate) fn month_start(ts: i64) -> (r: Option<i64>)
    ensures
        r == month_start_of(ts),
{
    let instant = DateTime::from_timestamp(ts, 0)?;
    let first = NaiveDate::from_ymd_opt(instant.year(), instant.month(), 1)?;
    Some(first.and_hms_opt(0, 0, 0)?.and_utc().timestamp())
}

} // verus!
