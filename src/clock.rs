use chrono::Datelike;
use vstd::prelude::*;

use crate::date::Date;

verus! {

/// Every day that chrono can represent lies within this many days of the
/// start of the common era (its dates run from 262144 BCE to 262142 CE).
pub const DAY_NUMBER_BOUND: i32 = 100_000_000;

/// Relies on chrono's `Local::now`, `DateTime::date_naive` and
/// `Datelike::num_days_from_ce`: the local calendar day, as a day number.
/// Only its range is known.
#[verifier::external_body]
pub(crate) fn todays_date() -> (r: Date)
    ensures
        -DAY_NUMBER_BOUND <= r.day_number <= DAY_NUMBER_BOUND,
{
    Date { day_number: chrono::Local::now().date_naive().num_days_from_ce() }
}

/// Relies on chrono's `Utc::now` and `DateTime::timestamp_millis`: the
/// current time in milliseconds since the Unix epoch. `Utc::now` panics on
/// a clock set before the epoch, so what it returns is never negative.
#[verifier::external_body]
pub(crate) fn now_millis() -> (r: i64)
    ensures
        r >= 0,
{
    chrono::Utc::now().timestamp_millis()
}

} // verus!
