//! Proleptic Gregorian calendar arithmetic relative to 1970-01-01.
//!
//! Day numbers count whole days since 1970-01-01, which is day 0. The
//! calendar is UTC only and knows no leap seconds.

use vstd::prelude::*;

verus! {

/// Seconds in one day.
pub const SECONDS_PER_DAY: i64 = 86_400;

/// Days in 400 consecutive Gregorian years.
pub const DAYS_PER_CYCLE: i64 = 146_097;

/// The greatest year for which `days_to_year` is computed.
pub const MAX_YEAR: i64 = 2_000_000_000_000_000;

/// The Gregorian leap-year rule: divisible by 4 and not by 100, unless
/// divisible by 400.
pub open spec fn leap_year(year: int) -> bool {
    (year % 4 == 0 && year % 100 != 0) || year % 400 == 0
}

/// Days in `year`.
pub open spec fn year_length(year: int) -> int {
    if leap_year(year) {
        366
    } else {
        365
    }
}

/// Days in month `month` (1 = January) of `year`.
pub open spec fn month_length(year: int, month: int) -> int {
    if month == 2 {
        if leap_year(year) {
            29
        } else {
            28
        }
    } else if month == 4 || month == 6 || month == 9 || month == 11 {
        30
    } else {
        31
    }
}

/// Days in the years from 1970 up to, not including, `year`. Years at or
/// before 1970 have no elapsed years and give 0.
pub open spec fn days_before_year(year: int) -> int
    decreases year - 1970,
{
    if year <= 1970 {
        0
    } else {
        days_before_year(year - 1) + year_length(year - 1)
    }
}

/// Days in the months of `year` before `month` (1 = January).
pub open spec fn days_before_month(year: int, month: int) -> int
    decreases month,
{
    if month <= 1 {
        0
    } else {
        days_before_month(year, month - 1) + month_length(year, month - 1)
    }
}

/// The day number of a calendar date: elapsed years, then completed months,
/// then completed days of the month.
pub open spec fn day_number(year: int, month: int, day: int) -> int {
    days_before_year(year) + days_before_month(year, month) + (day - 1)
}

/// Years before `year` (counted from year 1) that are leap years.
pub open spec fn leap_years_before(year: int) -> int {
    (year - 1) / 4 - (year - 1) / 100 + (year - 1) / 400
}

/// A calendar date: year, month (1 = January) and day of the month.
#[derive(Clone, Copy, Debug, PartialEq, Eq, Structural)]
pub struct CivilDate {
    pub year: i64,
    pub month: i64,
    pub day: i64,
}

impl CivilDate {
    /// The date names a real day at or after 1970-01-01.
    pub open spec fn valid(&self) -> bool {
        &&& self.year >= 1970
        &&& 1 <= self.month <= 12
        &&& 1 <= self.day <= month_length(self.year as int, self.month as int)
    }

    /// The date's day number.
    pub open spec fn day_number(&self) -> int {
        day_number(self.year as int, self.month as int, self.day as int)
    }
}

/// The date of a day number is the valid date with that day number.
pub open spec fn is_date_of_day(date: CivilDate, day: int) -> bool {
    date.valid() && date.day_number() == day
}

/// The calendar date of day `day`, for `0 <= day <= i64::MAX`.
pub open spec fn date_of_day(day: int) -> CivilDate {
    choose|date: CivilDate| is_date_of_day(date, day)
}

/// Each year adds its own length to the days before it.
pub proof fn lemma_days_before_next_year(year: int)
    requires
        year >= 1970,
    ensures
        days_before_year(year + 1) == days_before_year(year) + year_length(year),
{
}

/// The leap-year count grows by one exactly at leap years.
proof fn lemma_leap_count_step(year: int)
    requires
        year >= 1,
    ensures
        leap_years_before(year + 1) == leap_years_before(year) + if leap_year(year) {
            1int
        } else {
            0int
        },
{
}

/// The days before a year in closed form.
pub proof fn lemma_days_before_year_closed(year: int)
    requires
        year >= 1970,
    ensures
        days_before_year(year) == 365 * (year - 1970) + leap_years_before(year) - 477,
    decreases year - 1970,
{
    if year > 1970 {
        lemma_days_before_year_closed(year - 1);
        lemma_leap_count_step(year - 1);
    }
}

/// A year holds 365 or 366 days, so the days before a year lie between
/// those multiples of the years elapsed.
pub proof fn lemma_days_before_year_bounds(year: int)
    requires
        year >= 1970,
    ensures
        365 * (year - 1970) <= days_before_year(year) <= 366 * (year - 1970),
    decreases year - 1970,
{
    if year > 1970 {
        lemma_days_before_year_bounds(year - 1);
    }
}

/// Every 400 years hold the same number of days.
pub proof fn lemma_days_before_cycle(cycles: int)
    requires
        cycles >= 0,
    ensures
        days_before_year(1970 + 400 * cycles) == 146_097 * cycles,
{
    lemma_days_before_year_closed(1970 + 400 * cycles);
}

/// Later years start on later days.
pub proof fn lemma_days_before_year_monotonic(a: int, b: int)
    requires
        1970 <= a < b,
    ensures
        days_before_year(a) + year_length(a) <= days_before_year(b),
    decreases b - a,
{
    if a + 1 < b {
        lemma_days_before_year_monotonic(a, b - 1);
    }
}

/// Later months start on later days of the year.
pub proof fn lemma_days_before_month_monotonic(year: int, a: int, b: int)
    requires
        1 <= a < b,
    ensures
        days_before_month(year, a) + month_length(year, a) <= days_before_month(year, b),
    decreases b - a,
{
    if a + 1 < b {
        lemma_days_before_month_monotonic(year, a, b - 1);
    }
}

/// The twelve months of a year add up to the year.
pub proof fn lemma_months_fill_year(year: int)
    ensures
        days_before_month(year, 13) == year_length(year),
{
    reveal_with_fuel(days_before_month, 14);
}

/// A valid date lies inside its year.
pub proof fn lemma_day_of_year_bound(date: CivilDate)
    requires
        date.valid(),
    ensures
        0 <= days_before_month(date.year as int, date.month as int) + (date.day - 1)
            < year_length(date.year as int),
{
    let y = date.year as int;
    let m = date.month as int;
    lemma_months_fill_year(y);
    if m < 12 {
        lemma_days_before_month_monotonic(y, m, 13);
    } else {
        assert(days_before_month(y, 13) == days_before_month(y, 12) + month_length(y, 12));
    }
    lemma_days_before_month_nonnegative(y, m);
}

/// No month starts before the first day of its year.
pub proof fn lemma_days_before_month_nonnegative(year: int, month: int)
    ensures
        days_before_month(year, month) >= 0,
    decreases month,
{
    if month > 1 {
        lemma_days_before_month_nonnegative(year, month - 1);
    }
}

/// Two valid dates with the same day number are the same date.
pub proof fn lemma_day_number_injective(a: CivilDate, b: CivilDate)
    requires
        a.valid(),
        b.valid(),
        a.day_number() == b.day_number(),
    ensures
        a == b,
{
    lemma_day_of_year_bound(a);
    lemma_day_of_year_bound(b);
    if a.year < b.year {
        lemma_days_before_year_monotonic(a.year as int, b.year as int);
    }
    if b.year < a.year {
        lemma_days_before_year_monotonic(b.year as int, a.year as int);
    }
    assert(a.year == b.year);
    if a.month < b.month {
        lemma_days_before_month_monotonic(a.year as int, a.month as int, b.month as int);
    }
    if b.month < a.month {
        lemma_days_before_month_monotonic(a.year as int, b.month as int, a.month as int);
    }
}

/// `a` comes before `b` in the calendar: by year, then month, then day.
pub open spec fn date_precedes(a: CivilDate, b: CivilDate) -> bool {
    a.year < b.year || (a.year == b.year && (a.month < b.month || (a.month == b.month && a.day
        < b.day)))
}

/// Dates keep the order of time: of two valid dates the one with the
/// smaller day number is the earlier one in the calendar, and only it.
pub proof fn lemma_dates_keep_order(a: CivilDate, b: CivilDate)
    requires
        a.valid(),
        b.valid(),
    ensures
        a.day_number() < b.day_number() <==> date_precedes(a, b),
{
    lemma_day_of_year_bound(a);
    lemma_day_of_year_bound(b);
    if a.year < b.year {
        lemma_days_before_year_monotonic(a.year as int, b.year as int);
    }
    if b.year < a.year {
        lemma_days_before_year_monotonic(b.year as int, a.year as int);
    }
    if a.year == b.year {
        if a.month < b.month {
            lemma_days_before_month_monotonic(a.year as int, a.month as int, b.month as int);
        }
        if b.month < a.month {
            lemma_days_before_month_monotonic(a.year as int, b.month as int, a.month as int);
        }
    }
}

/// A valid date is the date of its own day number.
pub proof fn lemma_date_of_day_number(date: CivilDate)
    requires
        date.valid(),
    ensures
        date_of_day(date.day_number()) == date,
{
    assert(is_date_of_day(date, date.day_number()));
    lemma_day_number_injective(date, date_of_day(date.day_number()));
}

/// Every day from the epoch on has a date, the one that `date_of_day`
/// names, and its year is not later than a year per day would give.
pub proof fn lemma_date_of_day_exists(day: int) -> (date: CivilDate)
    requires
        0 <= day <= i64::MAX - 1970,
    ensures
        date == date_of_day(day),
        is_date_of_day(date, day),
        date.year <= 1970 + day,
    decreases day,
{
    let date = if day == 0 {
        CivilDate { year: 1970, month: 1, day: 1 }
    } else {
        let prev = lemma_date_of_day_exists(day - 1);
        if prev.day < month_length(prev.year as int, prev.month as int) {
            CivilDate { year: prev.year, month: prev.month, day: (prev.day + 1) as i64 }
        } else if prev.month < 12 {
            CivilDate { year: prev.year, month: (prev.month + 1) as i64, day: 1 }
        } else {
            lemma_months_fill_year(prev.year as int);
            assert(days_before_month(prev.year as int, 13) == days_before_month(
                prev.year as int,
                12,
            ) + month_length(prev.year as int, 12));
            CivilDate { year: (prev.year + 1) as i64, month: 1, day: 1 }
        }
    };
    assert(date.day_number() == day);
    lemma_date_of_day_number(date);
    date
}

/// Leap years are the years with 366 days, and the years whose February
/// has 29 days; the twelve months of any year add up to the year. The
/// lengths of years and of months thus rest on one and the same rule.
pub proof fn lemma_leap_rule_shared(year: int)
    ensures
        leap_year(year) <==> year_length(year) == 366,
        leap_year(year) <==> month_length(year, 2) == 29,
        days_before_month(year, 13) == year_length(year),
{
    lemma_months_fill_year(year);
}

/// Whether 4 divides `year`.
fn divisible_by_4(year: i64) -> (r: bool)
    ensures
        r == (year as int % 4 == 0),
{
    year % 4 == 0
}

/// Whether 100 divides `year`.
fn divisible_by_100(year: i64) -> (r: bool)
    ensures
        r == (year as int % 100 == 0),
{
    year % 100 == 0
}

/// Whether 400 divides `year`.
fn divisible_by_400(year: i64) -> (r: bool)
    ensures
        r == (year as int % 400 == 0),
{
    year % 400 == 0
}

/// Whether `year` is a leap year.
pub fn is_leap(year: i64) -> (r: bool)
    ensures
        r == leap_year(year as int),
{
    (divisible_by_4(year) && !divisible_by_100(year)) || divisible_by_400(year)
}

/// The number of days in `year`.
pub fn days_in_year(year: i64) -> (r: i64)
    ensures
        r == year_length(year as int),
{
    if is_leap(year) {
        366
    } else {
        365
    }
}

/// The number of days in month `month` (1 = January) of `year`.
pub fn days_in_month(year: i64, month: i64) -> (r: i64)
    ensures
        r == month_length(year as int, month as int),
{
    if month == 2 {
        if is_leap(year) {
            29
        } else {
            28
        }
    } else if month == 4 || month == 6 || month == 9 || month == 11 {
        30
    } else {
        31
    }
}

/// The days in the years from 1970 up to, not including, `year`.
pub fn days_to_year(year: i64) -> (r: i64)
    requires
        year <= MAX_YEAR,
    ensures
        r == days_before_year(year as int),
        0 <= r <= 366 * MAX_YEAR,
{
    if year <= 1970 {
        0
    } else {
        proof {
            lemma_days_before_year_closed(year as int);
            lemma_days_before_year_bounds(year as int);
        }
        let last: i64 = year - 1;
        365 * (year - 1970) + (last / 4 - last / 100 + last / 400) - 477
    }
}

/// The days in the months of `year` before `month`.
pub fn days_to_month(year: i64, month: i64) -> (r: i64)
    requires
        1 <= month <= 12,
    ensures
        r == days_before_month(year as int, month as int),
        0 <= r <= 31 * 11,
{
    let mut total: i64 = 0;
    let mut m: i64 = 1;
    while m < month
        invariant
            1 <= m <= month <= 12,
            total == days_before_month(year as int, m as int),
            0 <= total <= 31 * (m - 1),
        decreases month - m,
    {
        total = total + days_in_month(year, m);
        m = m + 1;
    }
    total
}

/// The calendar date of day number `days`.
///
/// Whole 400-year cycles are skipped at once; the remaining days are taken
/// off year by year, then month by month.
pub fn civil_from_days(days: i64) -> (date: CivilDate)
    requires
        days >= 0,
    ensures
        date == date_of_day(days as int),
        date.valid(),
        date.day_number() == days,
{
    let cycles: i64 = days / DAYS_PER_CYCLE;
    let mut rest: i64 = days % DAYS_PER_CYCLE;
    let first: i64 = 1970 + cycles * 400;
    let mut year: i64 = first;
    proof {
        lemma_days_before_cycle(cycles as int);
    }
    while rest >= days_in_year(year)
        invariant
            0 <= rest,
            first <= year,
            (year - first) + rest <= DAYS_PER_CYCLE,
            1970 <= first <= 1970 + 400 * (i64::MAX / DAYS_PER_CYCLE),
            days_before_year(year as int) + rest == days,
        decreases rest,
    {
        proof {
            lemma_days_before_next_year(year as int);
        }
        rest = rest - days_in_year(year);
        year = year + 1;
    }
    let ghost day_of_year = rest as int;
    let mut month: i64 = 1;
    while rest >= days_in_month(year, month)
        invariant
            1 <= month <= 12,
            0 <= rest,
            days_before_month(year as int, month as int) + rest == day_of_year,
            day_of_year < year_length(year as int),
        decreases 12 - month,
    {
        proof {
            if month == 12 {
                lemma_months_fill_year(year as int);
                assert(days_before_month(year as int, 13) == days_before_month(year as int, 12)
                    + month_length(year as int, 12));
            }
        }
        rest = rest - days_in_month(year, month);
        month = month + 1;
    }
    let date = CivilDate { year, month, day: rest + 1 };
    proof {
        lemma_date_of_day_number(date);
    }
    date
}

/// The day number of `date`, where it is not too far in the future.
pub fn days_from_civil(date: &CivilDate) -> (r: i64)
    requires
        date.year <= MAX_YEAR,
        1 <= date.month <= 12,
        1 <= date.day <= 31,
    ensures
        r == date.day_number(),
{
    days_to_year(date.year) + days_to_month(date.year, date.month) + (date.day - 1)
}

} // verus!
