//! Calendar dates, day-count conventions and tenor arithmetic.
//!
//! Dates are plain year/month/day triples on the proleptic Gregorian
//! calendar.  A date's serial number (its day count from a fixed
//! distant epoch) is computed in closed form; day counts under the
//! `Actual` conventions are serial differences, the `30/360` families
//! adjust the day-of-month fields first, and `Business/252` counts
//! business days one calendar day at a time.  Year fractions are
//! exact rationals: a numerator and positive denominator.

use vstd::prelude::*;
use crate::fixed::fx_abs;

verus! {

/// Shift added to years so that every shifted value is positive; a
/// multiple of 400, so leap-year structure is preserved.
pub const YEAR_SHIFT: i64 = 2_147_484_000;

/// A calendar date: year, month (1-12), day (1-based).
#[derive(Clone, Copy, Debug, PartialEq, Eq, Structural, Hash)]
pub struct Date {
    /// Calendar year.
    pub year: i32,
    /// Month, `1` through `12`.
    pub month: u8,
    /// Day of month, `1`-based.
    pub day: u8,
}

/// Whether `y` is a Gregorian leap year.
pub open spec fn leap_s(y: int) -> bool {
    let n = y + YEAR_SHIFT as int;
    (n % 4 == 0 && n % 100 != 0) || n % 400 == 0
}

/// Days in month `m` of year `y`.
pub open spec fn days_in_month_s(y: int, m: int) -> int {
    if m == 2 {
        if leap_s(y) {
            29
        } else {
            28
        }
    } else if m == 4 || m == 6 || m == 9 || m == 11 {
        30
    } else {
        31
    }
}

/// A valid calendar date.
pub open spec fn date_valid_s(d: Date) -> bool {
    1 <= d.month <= 12 && 1 <= d.day <= days_in_month_s(d.year as int, d.month as int)
}

/// Chronological (lexicographic) strict order on dates.
pub open spec fn date_lt_s(a: Date, b: Date) -> bool {
    a.year < b.year || (a.year == b.year && (a.month < b.month || (a.month == b.month
        && a.day < b.day)))
}

/// Whether the shifted (March-based) civil year `n` ends with a leap
/// day; `leap_s(y)` is this predicate at `y + YEAR_SHIFT`.
pub open spec fn shifted_leap_s(n: int) -> bool {
    (n % 4 == 0 && n % 100 != 0) || n % 400 == 0
}

/// Days before the shifted civil year `n`, counted from the epoch.
pub open spec fn yearpart_s(n: int) -> int {
    let era = n / 400;
    let yoe = n % 400;
    era * 146097 + yoe * 365 + yoe / 4 - yoe / 100
}

/// The serial day number: days since the epoch `March 1 of the
/// shifted year zero`, computed in closed form from the civil
/// calendar structure.
pub open spec fn serial_s(d: Date) -> int {
    let ys = if d.month <= 2 {
        d.year + YEAR_SHIFT - 1
    } else {
        d.year + YEAR_SHIFT as int
    };
    let mp = if d.month > 2 {
        d.month - 3
    } else {
        d.month + 9
    };
    let doy = (153 * mp + 2) / 5 + d.day - 1;
    yearpart_s(ys) + doy
}

/// The day after `d` (the last representable date maps to itself).
pub open spec fn succ_s(d: Date) -> Date {
    if d.day < days_in_month_s(d.year as int, d.month as int) {
        Date { year: d.year, month: d.month, day: (d.day + 1) as u8 }
    } else if d.month < 12 {
        Date { year: d.year, month: (d.month + 1) as u8, day: 1 }
    } else if d.year < i32::MAX {
        Date { year: (d.year + 1) as i32, month: 1, day: 1 }
    } else {
        d
    }
}

/// `(x+1)/k` against `x/k`: the quotient steps exactly when `k`
/// divides `x+1`.
proof fn lemma_div_step(x: int, k: int)
    requires
        x >= 0,
        k > 0,
    ensures
        (x + 1) / k == x / k + if (x + 1) % k == 0 {
            1int
        } else {
            0int
        },
{
    vstd::arithmetic::div_mod::lemma_fundamental_div_mod(x, k);
    vstd::arithmetic::div_mod::lemma_fundamental_div_mod(x + 1, k);
    vstd::arithmetic::div_mod::lemma_mod_bound(x, k);
    vstd::arithmetic::div_mod::lemma_mod_bound(x + 1, k);
    let q = x / k;
    let r = x % k;
    let q1 = (x + 1) / k;
    let r1 = (x + 1) % k;
    assert((r + 1 < k ==> q1 == q && r1 == r + 1) && (r + 1 == k ==> q1 == q + 1 && r1 == 0))
        by (nonlinear_arith)
        requires
            k * q1 + r1 == k * q + r + 1,
            0 <= r < k,
            0 <= r1 < k,
    ;
}

/// Crossing into shifted civil year `n + 1` adds 365 days, or 366
/// when the ending year is a leap year.
proof fn lemma_yearpart_step(n: int)
    requires
        n >= 0,
    ensures
        yearpart_s(n + 1) == yearpart_s(n) + 365 + if shifted_leap_s(n + 1) {
            1int
        } else {
            0int
        },
{
    lemma_div_step(n, 400);
    let era = n / 400;
    let yoe = n % 400;
    vstd::arithmetic::div_mod::lemma_fundamental_div_mod(n, 400);
    vstd::arithmetic::div_mod::lemma_fundamental_div_mod(n + 1, 400);
    vstd::arithmetic::div_mod::lemma_mod_bound(n, 400);
    vstd::arithmetic::div_mod::lemma_mod_bound(n + 1, 400);
    if (n + 1) % 400 == 0 {
        assert(400 * ((n + 1) / 400) == 400 * (n / 400) + yoe + 1);
        assert(yoe == 399) by (nonlinear_arith)
            requires
                400 * ((n + 1) / 400) == 400 * (n / 400) + yoe + 1,
                (n + 1) / 400 == n / 400 + 1,
                0 <= yoe < 400,
        ;
        assert((era + 1) * 146097 == era * 146097 + 146097) by (nonlinear_arith);
        assert(yearpart_s(n + 1) == yearpart_s(n) + 366);
    } else {
        assert((n + 1) % 400 == yoe + 1) by {
            assert(400 * ((n + 1) / 400) + (n + 1) % 400 == 400 * (n / 400) + yoe + 1);
            assert((n + 1) / 400 == n / 400);
            assert(400 * ((n + 1) / 400) == 400 * (n / 400)) by (nonlinear_arith)
                requires
                    (n + 1) / 400 == n / 400,
            ;
        }
        lemma_div_step(yoe, 4);
        lemma_div_step(yoe, 100);
        vstd::arithmetic::div_mod::lemma_mod_mod(n + 1, 4, 100);
        vstd::arithmetic::div_mod::lemma_mod_mod(n + 1, 100, 4);
        vstd::arithmetic::div_mod::lemma_mod_mod(n + 1, 4, 25);
        assert((yoe + 1) % 4 == (n + 1) % 4);
        assert((yoe + 1) % 100 == (n + 1) % 100);
        assert((n + 1) % 100 == 0 ==> (n + 1) % 4 == 0) by {
            if (n + 1) % 100 == 0 {
                assert((n + 1) % 4 == ((n + 1) % 100) % 4) by {
                    vstd::arithmetic::div_mod::lemma_mod_mod(n + 1, 4, 25);
                }
            }
        }
    }
}

/// The serial number of the next day is exactly one more.
pub proof fn lemma_serial_succ(d: Date)
    requires
        date_valid_s(d),
        !(d.year == i32::MAX && d.month == 12 && d.day == 31),
    ensures
        serial_s(succ_s(d)) == serial_s(d) + 1,
{
    let y = d.year as int;
    let m = d.month as int;
    let day = d.day as int;
    if day < days_in_month_s(y, m) {
        // same month: only the day-of-year term moves
    } else if m == 2 {
        // February into March: the shifted civil year steps
        lemma_yearpart_step(y + YEAR_SHIFT - 1);
    } else {
        // month (or December-to-January) rollover within one civil year
        assert(m == 1 || m == 3 || m == 4 || m == 5 || m == 6 || m == 7 || m == 8 || m == 9
            || m == 10 || m == 11 || m == 12);
        assert(serial_s(succ_s(d)) == serial_s(d) + 1);
    }
}

/// January 1 of the following year lies strictly after every day of
/// the current year.
pub proof fn lemma_serial_jan1_next(d: Date)
    requires
        date_valid_s(d),
        d.year < i32::MAX,
    ensures
        serial_s(d) < serial_s(Date { year: (d.year + 1) as i32, month: 1, day: 1 }),
        serial_s(Date { year: (d.year + 1) as i32, month: 1, day: 1 }) <= serial_s(d) + 366,
{
    let y = d.year as int;
    let m = d.month as int;
    if m <= 2 {
        // same shifted civil year as next January
    } else {
        lemma_yearpart_step(y + YEAR_SHIFT as int);
    }
}

/// Serial numbers of valid dates are nonnegative and bounded.
pub proof fn lemma_serial_bounds(d: Date)
    requires
        date_valid_s(d),
    ensures
        0 <= serial_s(d) < 0x17000_0000_0000,
{
    let ys = if d.month <= 2 {
        d.year + YEAR_SHIFT - 1
    } else {
        d.year + YEAR_SHIFT as int
    };
    assert(351 <= ys <= 4_294_967_647);
    let era = ys / 400;
    let yoe = ys % 400;
    vstd::arithmetic::div_mod::lemma_fundamental_div_mod(ys, 400);
    vstd::arithmetic::div_mod::lemma_mod_bound(ys, 400);
    assert(0 <= era <= 10_737_419) by (nonlinear_arith)
        requires
            era == ys / 400,
            351 <= ys <= 4_294_967_647,
    ;
    assert(era * 146097 <= 10_737_419 * 146097) by (nonlinear_arith)
        requires
            0 <= era <= 10_737_419,
    ;
    assert(era * 146097 >= 0) by (nonlinear_arith)
        requires
            era >= 0,
    ;
    assert(0 <= yoe / 4 <= 99);
    assert(0 <= yoe / 100 <= 3);
}


/// An integer day count between two dates.
#[derive(Clone, Copy, Debug, PartialEq, Eq, Structural)]
pub struct Days(pub i64);

/// An exact rational year fraction: `num / den`, with `den > 0`.
#[derive(Clone, Copy, Debug, PartialEq, Eq, Structural)]
pub struct Years {
    /// Numerator (carries the sign).
    pub num: i64,
    /// Positive denominator.
    pub den: i64,
}

impl Years {
    /// The fraction as a scalar: numerator over denominator, each
    /// scaled, with the quotient rounded toward zero.
    pub fn to_fixed(&self) -> (r: crate::fixed::Fixed)
        ensures
            r.m() == crate::fixed::fx_div(
                crate::fixed::fx_clip(self.num * (crate::fixed::SCALE as int)),
                crate::fixed::fx_clip(self.den * (crate::fixed::SCALE as int)),
            ),
    {
        crate::fixed::Fixed::from_int(self.num).div(&crate::fixed::Fixed::from_int(self.den))
    }
}

impl Date {
    /// Build a date, validating the month and day-of-month.
    pub fn from_ymd(year: i32, month: u8, day: u8) -> (r: Option<Date>)
        ensures
            r is Some <==> date_valid_s(Date { year, month, day }),
            r matches Some(d) ==> d == (Date { year, month, day }),
    {
        if 1 <= month && month <= 12 && 1 <= day && day <= Self::days_in_month(year, month) {
            Some(Date { year, month, day })
        } else {
            None
        }
    }

    /// Days in the given month of the given year.
    pub fn days_in_month(year: i32, month: u8) -> (r: u8)
        ensures
            r as int == days_in_month_s(year as int, month as int),
    {
        if month == 2 {
            if is_leap_year(year) {
                29
            } else {
                28
            }
        } else if month == 4 || month == 6 || month == 9 || month == 11 {
            30
        } else {
            31
        }
    }

    /// The serial day number.
    pub fn serial(&self) -> (r: i64)
        requires
            date_valid_s(*self),
        ensures
            r as int == serial_s(*self),
            0 <= r < 0x17000_0000_0000,
    {
        proof {
            lemma_serial_bounds(*self);
        }
        let ys: u64 = if self.month <= 2 {
            (self.year as i64 + (YEAR_SHIFT - 1)) as u64
        } else {
            (self.year as i64 + YEAR_SHIFT) as u64
        };
        let era: u64 = ys / 400;
        let yoe: u64 = ys % 400;
        let mp: u64 = if self.month > 2 {
            (self.month - 3) as u64
        } else {
            (self.month + 9) as u64
        };
        let doy: u64 = (153 * mp + 2) / 5 + (self.day - 1) as u64;
        proof {
            crate::fixed::lemma_mul_le(era as int, 146097, 10_737_420, 146097);
        }
        (era * 146097 + yoe * 365 + yoe / 4 - yoe / 100 + doy) as i64
    }

    /// Chronological strict comparison.
    pub fn lt(&self, o: &Date) -> (r: bool)
        ensures
            r == date_lt_s(*self, *o),
    {
        self.year < o.year || (self.year == o.year && (self.month < o.month || (self.month
            == o.month && self.day < o.day)))
    }

    /// The next calendar day (the last representable date is fixed).
    pub fn succ(&self) -> (r: Date)
        requires
            date_valid_s(*self),
        ensures
            r == succ_s(*self),
            date_valid_s(r),
    {
        if self.day < Self::days_in_month(self.year, self.month) {
            Date { year: self.year, month: self.month, day: self.day + 1 }
        } else if self.month < 12 {
            Date { year: self.year, month: self.month + 1, day: 1 }
        } else if self.year < i32::MAX {
            Date { year: self.year + 1, month: 1, day: 1 }
        } else {
            *self
        }
    }

    /// The previous calendar day (the first representable date is
    /// fixed).
    pub fn pred(&self) -> (r: Date)
        requires
            date_valid_s(*self),
        ensures
            r == pred_s(*self),
            date_valid_s(r),
    {
        if self.day > 1 {
            Date { year: self.year, month: self.month, day: self.day - 1 }
        } else if self.month > 1 {
            Date {
                year: self.year,
                month: self.month - 1,
                day: Self::days_in_month(self.year, self.month - 1),
            }
        } else if self.year > i32::MIN {
            Date { year: self.year - 1, month: 12, day: 31 }
        } else {
            *self
        }
    }
}

/// The day before `d` (the first representable date maps to itself).
pub open spec fn pred_s(d: Date) -> Date {
    if d.day > 1 {
        Date { year: d.year, month: d.month, day: (d.day - 1) as u8 }
    } else if d.month > 1 {
        Date {
            year: d.year,
            month: (d.month - 1) as u8,
            day: days_in_month_s(d.year as int, d.month as int - 1) as u8,
        }
    } else if d.year > i32::MIN {
        Date { year: (d.year - 1) as i32, month: 12, day: 31 }
    } else {
        d
    }
}

/// Whether `year` is a Gregorian leap year.
pub fn is_leap_year(year: i32) -> (r: bool)
    ensures
        r == leap_s(year as int),
{
    let n: u64 = (year as i64 + YEAR_SHIFT) as u64;
    (n % 4 == 0 && n % 100 != 0) || n % 400 == 0
}

/// A business-day calendar: which dates count as working days.
pub trait Calendar: Sized {
    /// Which days the calendar treats as business days.
    spec fn biz(&self, d: Date) -> bool;

    /// Decide whether `d` is a business day.
    fn is_business_day(&self, d: Date) -> (r: bool)
        requires
            date_valid_s(d),
        ensures
            r == self.biz(d),
    ;
}

/// The plain Monday-to-Friday calendar, with no holidays.
#[derive(Clone, Copy, Debug, PartialEq, Eq, Structural)]
pub struct WeekendCalendar;

impl Calendar for WeekendCalendar {
    /// Weekday by serial arithmetic: Monday is `0`, so business days
    /// are the residues below five.
    open spec fn biz(&self, d: Date) -> bool {
        (serial_s(d) + 2) % 7 < 5
    }

    fn is_business_day(&self, d: Date) -> (r: bool) {
        let s: i64 = d.serial();
        ((s + 2) as u64) % 7 < 5
    }
}

/// The supported Thirty/360 day-count flavours.
#[derive(Clone, Copy, Debug, PartialEq, Eq, Structural)]
pub enum Thirty360Subtype {
    /// US (NASD) end-of-month rule.
    US,
    /// European rule: both end days clipped to 30.
    European,
    /// German rule: end-of-February also clipped to 30.
    German,
}

/// How a date is rolled onto a business day.
#[derive(Clone, Copy, Debug, PartialEq, Eq, Structural)]
pub enum BusinessDayConvention {
    /// Keep the date as it is.
    Unadjusted,
    /// Roll forward to the next business day.
    Following,
    /// Roll back to the previous business day.
    Preceding,
    /// Roll forward unless that leaves the month, then roll back.
    ModifiedFollowing,
    /// Roll back unless that leaves the month, then roll forward.
    ModifiedPreceding,
}

/// A day-count convention; `Business252` carries its calendar.
#[derive(Clone, Copy, Debug)]
pub enum DayCountConvention<C: Calendar> {
    /// Actual days over 360.
    Actual360,
    /// Actual days over a fixed 365.
    Actual365Fixed,
    /// Actual/actual, ISDA flavour: split at year boundaries.
    ActActISDA,
    /// A 30/360 flavour.
    Thirty360(Thirty360Subtype),
    /// Business days over 252, under the given calendar.
    Business252(C),
}

/// The date falls on the last day of February.
pub open spec fn is_last_feb_s(d: Date) -> bool {
    d.month == 2 && d.day as int == days_in_month_s(d.year as int, 2)
}

/// The Thirty/360 day count: day-of-month fields are adjusted by the
/// subtype's rules, then months count thirty days each.
pub open spec fn thirty360_days_s(sub: Thirty360Subtype, s: Date, e: Date) -> int {
    let d1 = match sub {
        Thirty360Subtype::US => if s.day == 31 {
            30int
        } else {
            s.day as int
        },
        Thirty360Subtype::European => if s.day == 31 {
            30int
        } else {
            s.day as int
        },
        Thirty360Subtype::German => if is_last_feb_s(s) || s.day == 31 {
            30int
        } else {
            s.day as int
        },
    };
    let d2 = match sub {
        Thirty360Subtype::US => if e.day == 31 && d1 == 30 {
            30int
        } else {
            e.day as int
        },
        Thirty360Subtype::European => if e.day == 31 {
            30int
        } else {
            e.day as int
        },
        Thirty360Subtype::German => if is_last_feb_s(e) || e.day == 31 {
            30int
        } else {
            e.day as int
        },
    };
    360 * (e.year - s.year) + 30 * (e.month - s.month) + (d2 - d1)
}

/// Business days in `[d, end)`, walked one calendar day at a time.
pub open spec fn count_biz_s<C: Calendar>(cal: C, d: Date, end: Date) -> int
    decreases end.year - d.year, 12 - d.month, 32 - d.day,
{
    if !(date_valid_s(d) && date_valid_s(end) && date_lt_s(d, end)) {
        0
    } else {
        (if cal.biz(d) {
            1int
        } else {
            0int
        }) + count_biz_s(cal, succ_s(d), end)
    }
}

/// Actual/actual ISDA numerator at denominator `365 * 366`: each
/// year's days are weighted by the other factor of its own length.
pub open spec fn isda_weight_s(y: int) -> int {
    if leap_s(y) {
        365
    } else {
        366
    }
}

/// The ISDA numerator from `d` to `end` (`d` at or before `end`),
/// split at calendar year boundaries.
pub open spec fn isda_num_s(d: Date, end: Date) -> int
    decreases end.year - d.year,
{
    if d.year >= end.year {
        (serial_s(end) - serial_s(d)) * isda_weight_s(d.year as int)
    } else {
        let jan1 = Date { year: (d.year + 1) as i32, month: 1, day: 1 };
        (serial_s(jan1) - serial_s(d)) * isda_weight_s(d.year as int) + isda_num_s(jan1, end)
    }
}

/// The integer day count under the given convention.
pub open spec fn days_between_s<C: Calendar>(
    conv: DayCountConvention<C>,
    start: Date,
    end: Date,
) -> int {
    match conv {
        DayCountConvention::Actual360 => serial_s(end) - serial_s(start),
        DayCountConvention::Actual365Fixed => serial_s(end) - serial_s(start),
        DayCountConvention::ActActISDA => serial_s(end) - serial_s(start),
        DayCountConvention::Thirty360(sub) => thirty360_days_s(sub, start, end),
        DayCountConvention::Business252(cal) => count_biz_s(cal, start, end),
    }
}

/// The denominator a convention's year fraction carries.
pub open spec fn yf_den_s<C: Calendar>(conv: DayCountConvention<C>) -> int {
    match conv {
        DayCountConvention::Actual360 => 360,
        DayCountConvention::Actual365Fixed => 365,
        DayCountConvention::ActActISDA => 133590,
        DayCountConvention::Thirty360(_) => 360,
        DayCountConvention::Business252(_) => 252,
    }
}

/// The year-fraction numerator for `start` at or before `end`.
pub open spec fn yf_num_pos_s<C: Calendar>(
    conv: DayCountConvention<C>,
    start: Date,
    end: Date,
) -> int {
    match conv {
        DayCountConvention::ActActISDA => isda_num_s(start, end),
        _ => days_between_s(conv, start, end),
    }
}

/// The year-fraction numerator: zero for equal dates, negated for a
/// reversed interval.
pub open spec fn yf_num_s<C: Calendar>(conv: DayCountConvention<C>, start: Date, end: Date) -> int {
    if start == end {
        0
    } else if date_lt_s(end, start) {
        -yf_num_pos_s(conv, end, start)
    } else {
        yf_num_pos_s(conv, start, end)
    }
}

/// The library's period calculator: integer day counts and exact
/// rational year fractions under each supported convention.
pub struct DefaultPeriodCalculator;

impl DefaultPeriodCalculator {
    /// Count business days in `[start, end)` under `cal`.
    fn business_days<C: Calendar>(cal: &C, start: Date, end: Date) -> (r: i64)
        requires
            date_valid_s(start),
            date_valid_s(end),
        ensures
            r as int == count_biz_s(*cal, start, end),
            0 <= r < 0x17000_0000_0000,
    {
        let mut count: i64 = 0;
        let mut current: Date = start;
        proof {
            lemma_serial_bounds(start);
        }
        while current.lt(&end)
            invariant
                date_valid_s(current),
                date_valid_s(end),
                count + count_biz_s(*cal, current, end) == count_biz_s(*cal, start, end),
                0 <= count,
                count <= serial_s(current) - serial_s(start),
                serial_s(start) >= 0,
            decreases end.year - current.year, 12 - current.month, 32 - current.day,
        {
            proof {
                lemma_serial_bounds(current);
                lemma_serial_succ(current);
            }
            if cal.is_business_day(current) {
                count = count + 1;
            }
            current = current.succ();
        }
        proof {
            lemma_serial_bounds(current);
        }
        count
    }

    /// The ISDA numerator, accumulated year segment by year segment.
    fn isda_numerator(start: Date, end: Date) -> (r: i64)
        requires
            date_valid_s(start),
            date_valid_s(end),
            date_lt_s(start, end) || start == end,
        ensures
            r as int == isda_num_s(start, end),
            -0x80_0000_0000_0000 <= r <= 0x80_0000_0000_0000,
    {
        let mut acc: i64 = 0;
        let mut current: Date = start;
        proof {
            lemma_serial_bounds(start);
        }
        while current.year < end.year
            invariant
                date_valid_s(current),
                date_valid_s(end),
                current.year <= end.year,
                date_lt_s(current, end) || current == end,
                acc + isda_num_s(current, end) == isda_num_s(start, end),
                0 <= acc,
                acc <= 366 * (serial_s(current) - serial_s(start)),
                serial_s(start) >= 0,
                serial_s(current) >= serial_s(start),
            decreases end.year - current.year,
        {
            proof {
                lemma_serial_bounds(current);
                lemma_serial_bounds(end);
                lemma_serial_jan1_next(current);
            }
            let jan1: Date = Date { year: current.year + 1, month: 1, day: 1 };
            proof {
                lemma_serial_bounds(jan1);
            }
            let seg: i64 = jan1.serial() - current.serial();
            let w: i64 = if is_leap_year(current.year) {
                365
            } else {
                366
            };
            acc = acc + seg * w;
            current = jan1;
        }
        proof {
            lemma_serial_bounds(current);
            lemma_serial_bounds(end);
        }
        let seg: i64 = end.serial() - current.serial();
        let w: i64 = if is_leap_year(current.year) {
            365
        } else {
            366
        };
        acc + seg * w
    }

    /// The integer day count between two dates under a convention.
    pub fn days_between<C: Calendar>(
        &self,
        start: Date,
        end: Date,
        convention: DayCountConvention<C>,
    ) -> (r: Days)
        requires
            date_valid_s(start),
            date_valid_s(end),
        ensures
            r.0 as int == days_between_s(convention, start, end),
    {
        match convention {
            DayCountConvention::Actual360 => Days(end.serial() - start.serial()),
            DayCountConvention::Actual365Fixed => Days(end.serial() - start.serial()),
            DayCountConvention::ActActISDA => Days(end.serial() - start.serial()),
            DayCountConvention::Thirty360(sub) => Days(Self::thirty360_days(sub, start, end)),
            DayCountConvention::Business252(cal) => Days(Self::business_days(&cal, start, end)),
        }
    }

    /// The Thirty/360 day count.
    fn thirty360_days(sub: Thirty360Subtype, s: Date, e: Date) -> (r: i64)
        requires
            date_valid_s(s),
            date_valid_s(e),
        ensures
            r as int == thirty360_days_s(sub, s, e),
            -0x2000_0000_0000 <= r <= 0x2000_0000_0000,
    {
        let d1: i64 = match sub {
            Thirty360Subtype::US => if s.day == 31 {
                30
            } else {
                s.day as i64
            },
            Thirty360Subtype::European => if s.day == 31 {
                30
            } else {
                s.day as i64
            },
            Thirty360Subtype::German => if Self::is_last_feb(s) || s.day == 31 {
                30
            } else {
                s.day as i64
            },
        };
        let d2: i64 = match sub {
            Thirty360Subtype::US => if e.day == 31 && d1 == 30 {
                30
            } else {
                e.day as i64
            },
            Thirty360Subtype::European => if e.day == 31 {
                30
            } else {
                e.day as i64
            },
            Thirty360Subtype::German => if Self::is_last_feb(e) || e.day == 31 {
                30
            } else {
                e.day as i64
            },
        };
        360 * (e.year as i64 - s.year as i64) + 30 * (e.month as i64 - s.month as i64) + (d2 - d1)
    }

    /// The date falls on the last day of February.
    fn is_last_feb(d: Date) -> (r: bool)
        ensures
            r == is_last_feb_s(d),
    {
        d.month == 2 && d.day == Date::days_in_month(d.year, 2)
    }

    /// The exact rational year fraction between two dates.
    pub fn year_fraction<C: Calendar>(
        &self,
        start: Date,
        end: Date,
        convention: DayCountConvention<C>,
    ) -> (r: Years)
        requires
            date_valid_s(start),
            date_valid_s(end),
        ensures
            r.num as int == yf_num_s(convention, start, end),
            r.den as int == yf_den_s(convention),
    {
        if start == end {
            let den: i64 = match convention {
                DayCountConvention::Actual360 => 360,
                DayCountConvention::Actual365Fixed => 365,
                DayCountConvention::ActActISDA => 133590,
                DayCountConvention::Thirty360(_) => 360,
                DayCountConvention::Business252(_) => 252,
            };
            return Years { num: 0, den };
        }
        let (lo, hi, neg): (Date, Date, bool) = if end.lt(&start) {
            (end, start, true)
        } else {
            (start, end, false)
        };
        let den: i64 = match &convention {
            DayCountConvention::Actual360 => 360,
            DayCountConvention::Actual365Fixed => 365,
            DayCountConvention::ActActISDA => 133590,
            DayCountConvention::Thirty360(_) => 360,
            DayCountConvention::Business252(_) => 252,
        };
        let num_pos: i64 = match convention {
            DayCountConvention::Actual360 => hi.serial() - lo.serial(),
            DayCountConvention::Actual365Fixed => hi.serial() - lo.serial(),
            DayCountConvention::ActActISDA => Self::isda_numerator(lo, hi),
            DayCountConvention::Thirty360(sub) => Self::thirty360_days(sub, lo, hi),
            DayCountConvention::Business252(cal) => Self::business_days(&cal, lo, hi),
        };
        if neg {
            Years { num: -num_pos, den }
        } else {
            Years { num: num_pos, den }
        }
    }
}


/// The first business day at or after `d`, scanning at most `fuel`
/// days ahead (the scan gives up, returning the day it reached, on a
/// calendar with no business day in that window).
pub open spec fn roll_forward_s<C: Calendar>(cal: C, d: Date, fuel: nat) -> Date
    decreases fuel,
{
    if !date_valid_s(d) || fuel == 0 || cal.biz(d) {
        d
    } else {
        roll_forward_s(cal, succ_s(d), (fuel - 1) as nat)
    }
}

/// The first business day at or before `d`, scanning at most `fuel`
/// days back.
pub open spec fn roll_backward_s<C: Calendar>(cal: C, d: Date, fuel: nat) -> Date
    decreases fuel,
{
    if !date_valid_s(d) || fuel == 0 || cal.biz(d) {
        d
    } else {
        roll_backward_s(cal, pred_s(d), (fuel - 1) as nat)
    }
}

/// Where a business-day convention rolls a date, scanning at most a
/// year in either direction.
pub open spec fn adjust_s<C: Calendar>(conv: BusinessDayConvention, cal: C, d: Date) -> Date {
    match conv {
        BusinessDayConvention::Unadjusted => d,
        BusinessDayConvention::Following => roll_forward_s(cal, d, 366),
        BusinessDayConvention::Preceding => roll_backward_s(cal, d, 366),
        BusinessDayConvention::ModifiedFollowing => {
            let next = roll_forward_s(cal, d, 366);
            if next.month != d.month {
                roll_backward_s(cal, d, 366)
            } else {
                next
            }
        },
        BusinessDayConvention::ModifiedPreceding => {
            let prev = roll_backward_s(cal, d, 366);
            if prev.month != d.month {
                roll_forward_s(cal, d, 366)
            } else {
                prev
            }
        },
    }
}

/// Scan forward for the first business day, up to a year.
fn roll_forward<C: Calendar>(cal: &C, date: Date) -> (r: Date)
    requires
        date_valid_s(date),
    ensures
        r == roll_forward_s(*cal, date, 366),
        date_valid_s(r),
{
    let mut d: Date = date;
    let mut fuel: u32 = 366;
    while fuel > 0 && !cal.is_business_day(d)
        invariant
            date_valid_s(d),
            fuel <= 366,
            roll_forward_s(*cal, d, fuel as nat) == roll_forward_s(*cal, date, 366),
        decreases fuel,
    {
        d = d.succ();
        fuel = fuel - 1;
    }
    d
}

/// Scan backward for the first business day, up to a year.
fn roll_backward<C: Calendar>(cal: &C, date: Date) -> (r: Date)
    requires
        date_valid_s(date),
    ensures
        r == roll_backward_s(*cal, date, 366),
        date_valid_s(r),
{
    let mut d: Date = date;
    let mut fuel: u32 = 366;
    while fuel > 0 && !cal.is_business_day(d)
        invariant
            date_valid_s(d),
            fuel <= 366,
            roll_backward_s(*cal, d, fuel as nat) == roll_backward_s(*cal, date, 366),
        decreases fuel,
    {
        d = d.pred();
        fuel = fuel - 1;
    }
    d
}

impl BusinessDayConvention {
    /// Roll `date` onto a business day as the convention directs: the
    /// modified flavours fall back to the other direction when the
    /// roll leaves the month.
    pub fn adjust<C: Calendar>(&self, date: Date, cal: &C) -> (r: Date)
        requires
            date_valid_s(date),
        ensures
            r == adjust_s(*self, *cal, date),
            date_valid_s(r),
    {
        match *self {
            BusinessDayConvention::Unadjusted => date,
            BusinessDayConvention::Following => roll_forward(cal, date),
            BusinessDayConvention::Preceding => roll_backward(cal, date),
            BusinessDayConvention::ModifiedFollowing => {
                let next: Date = roll_forward(cal, date);
                if next.month != date.month {
                    roll_backward(cal, date)
                } else {
                    next
                }
            },
            BusinessDayConvention::ModifiedPreceding => {
                let prev: Date = roll_backward(cal, date);
                if prev.month != date.month {
                    roll_forward(cal, date)
                } else {
                    prev
                }
            },
        }
    }
}

/// Where stepping `count` business days lands, moving one calendar
/// day at a time (forward or backward) and spending one unit of
/// `fuel` per calendar day.
pub open spec fn advance_biz_s<C: Calendar>(
    cal: C,
    d: Date,
    forward: bool,
    count: nat,
    fuel: nat,
) -> Date
    decreases fuel,
{
    if fuel == 0 || count == 0 || !date_valid_s(d) {
        d
    } else {
        let nx = if forward {
            succ_s(d)
        } else {
            pred_s(d)
        };
        if cal.biz(nx) {
            advance_biz_s(cal, nx, forward, (count - 1) as nat, (fuel - 1) as nat)
        } else {
            advance_biz_s(cal, nx, forward, count, (fuel - 1) as nat)
        }
    }
}

/// Step `n` business days from `date` (backward for negative `n`),
/// scanning at most a year of calendar days per business day.
pub fn advance_business_days<C: Calendar>(cal: &C, date: Date, n: i32) -> (r: Date)
    requires
        date_valid_s(date),
    ensures
        r == advance_biz_s(
            *cal,
            date,
            n >= 0,
            fx_abs(n as int) as nat,
            (fx_abs(n as int) * 366) as nat,
        ),
        date_valid_s(r),
{
    let forward: bool = n >= 0;
    let mut count: u64 = if n >= 0 {
        n as u64
    } else if n == i32::MIN {
        2_147_483_648u64
    } else {
        (-n) as u64
    };
    let mut fuel: u64 = count * 366;
    let mut d: Date = date;
    while count > 0 && fuel > 0
        invariant
            date_valid_s(d),
            advance_biz_s(*cal, d, forward, count as nat, fuel as nat) == advance_biz_s(
                *cal,
                date,
                forward,
                (if n >= 0 {
                    n as int
                } else {
                    -(n as int)
                }) as nat,
                (fx_abs(n as int) * 366) as nat,
            ),
        decreases fuel,
    {
        d = if forward {
            d.succ()
        } else {
            d.pred()
        };
        if cal.is_business_day(d) {
            count = count - 1;
        }
        fuel = fuel - 1;
    }
    d
}

} // verus!
