//! Tenors: calendar offsets in days, weeks, months or years.
//!
//! Day and week offsets walk the calendar one day at a time; month
//! and year offsets use month arithmetic with the day-of-month
//! clamped into the target month, as market conventions expect.

use vstd::prelude::*;
use crate::daycount::{Date, date_valid_s, days_in_month_s, succ_s, pred_s};

verus! {

/// A calendar offset.
#[derive(Clone, Copy, Debug)]
pub enum Tenor {
    /// So many calendar days.
    Days(i32),
    /// So many weeks.
    Weeks(i32),
    /// So many months, day-of-month clamped.
    Months(i32),
    /// So many years, day-of-month clamped.
    Years(i32),
}

/// `d` advanced by `k` calendar days (backward for negative `k`),
/// saturating at the representable ends of the calendar.
pub open spec fn advance_days_s(d: Date, k: int) -> Date
    decreases
            if k >= 0 {
                k
            } else {
                -k
            },
{
    if k == 0 {
        d
    } else if k > 0 {
        advance_days_s(succ_s(d), k - 1)
    } else {
        advance_days_s(pred_s(d), k + 1)
    }
}

/// `d` advanced by `n` months: month arithmetic over a shifted month
/// count, with the day clamped into the resulting month.
pub open spec fn add_months_s(d: Date, n: int) -> Date {
    let ts = d.year * 12 + d.month - 1 + n + 25_769_808_000;
    let y = ts / 12 - 2_147_484_000;
    let m = ts % 12 + 1;
    let dd = if d.day as int <= days_in_month_s(y, m) {
        d.day as int
    } else {
        days_in_month_s(y, m)
    };
    Date { year: y as i32, month: m as u8, day: dd as u8 }
}

/// Where a tenor lands starting from `from`.
pub open spec fn tenor_advance_s(t: Tenor, from: Date) -> Date {
    match t {
        Tenor::Days(n) => advance_days_s(from, n as int),
        Tenor::Weeks(n) => advance_days_s(from, 7 * n),
        Tenor::Months(n) => add_months_s(from, n as int),
        Tenor::Years(n) => add_months_s(from, 12 * n),
    }
}

/// Walk the calendar day by day.
fn step_days(from: Date, n: i64) -> (r: Date)
    requires
        date_valid_s(from),
    ensures
        r == advance_days_s(from, n as int),
        date_valid_s(r),
{
    let mut cur: Date = from;
    if n >= 0 {
        let mut k: i64 = n;
        while k > 0
            invariant
                date_valid_s(cur),
                0 <= k,
                advance_days_s(cur, k as int) == advance_days_s(from, n as int),
            decreases k,
        {
            cur = cur.succ();
            k = k - 1;
        }
    } else {
        let mut k: i64 = n;
        while k < 0
            invariant
                date_valid_s(cur),
                k <= 0,
                advance_days_s(cur, k as int) == advance_days_s(from, n as int),
            decreases -k,
        {
            cur = cur.pred();
            k = k + 1;
        }
    }
    cur
}

impl Tenor {
    /// The date this tenor lands on, starting from `from`.  Month and
    /// year offsets clamp the day-of-month into the target month.
    pub fn advance(&self, from: Date) -> (r: Date)
        requires
            date_valid_s(from),
            match *self {
                Tenor::Months(n) => -120_000 <= n <= 120_000 && -2_000_000_000 <= from.year
                    <= 2_000_000_000,
                Tenor::Years(n) => -10_000 <= n <= 10_000 && -2_000_000_000 <= from.year
                    <= 2_000_000_000,
                _ => true,
            },
        ensures
            r == tenor_advance_s(*self, from),
            date_valid_s(r),
    {
        match *self {
            Tenor::Days(n) => step_days(from, n as i64),
            Tenor::Weeks(n) => step_days(from, 7 * (n as i64)),
            Tenor::Months(n) => Self::add_months(from, n as i64),
            Tenor::Years(n) => Self::add_months(from, 12 * (n as i64)),
        }
    }

    /// Month arithmetic with day-of-month clamping.
    fn add_months(from: Date, n: i64) -> (r: Date)
        requires
            date_valid_s(from),
            -120_000 <= n <= 120_000,
            -2_000_000_000 <= from.year <= 2_000_000_000,
        ensures
            r == add_months_s(from, n as int),
            date_valid_s(r),
    {
        let ts: i64 = (from.year as i64) * 12 + (from.month as i64 - 1) + n + 25_769_808_000;
        let tu: u64 = ts as u64;
        let y: i32 = ((tu / 12) as i64 - 2_147_484_000) as i32;
        let m: u8 = (tu % 12) as u8 + 1;
        let dim: u8 = Date::days_in_month(y, m);
        let dd: u8 = if from.day <= dim {
            from.day
        } else {
            dim
        };
        Date { year: y, month: m, day: dd }
    }
}

} // verus!
