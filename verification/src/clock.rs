//! The one place the library touches the wall clock.

use vstd::prelude::*;
use chrono::Datelike;
use crate::daycount::{Date, date_valid_s, days_in_month_s};

verus! {

/// Relies on chrono's `Utc::now` and `NaiveDate` accessors: a
/// `NaiveDate` always holds a valid civil date, so the month is in
/// `1..=12` and the day fits its month.  Which date comes back
/// depends on the clock, so nothing more is promised.
#[verifier::external_body]
fn today_ymd() -> (r: (i32, u8, u8))
    ensures
        1 <= r.1 <= 12,
        1 <= r.2,
        r.2 as int <= days_in_month_s(r.0 as int, r.1 as int),
{
    let d = chrono::Utc::now().date_naive();
    (d.year(), d.month() as u8, d.day() as u8)
}

/// Today's date in UTC.  Every outcome is a valid calendar date.
pub fn today() -> (r: Date)
    ensures
        date_valid_s(r),
{
    let (y, m, d): (i32, u8, u8) = today_ymd();
    Date { year: y, month: m, day: d }
}

} // verus!
