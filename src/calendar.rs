//! The proleptic Gregorian calendar as day numbers counted from 1970-01-01,
//! and the two conversions between day numbers and dates that chrono supplies.
use chrono::Datelike;
use vstd::prelude::*;

verus! {

/// Day numbers that the conversions accept: about 246,000 years either way.
pub const MAX_DAY_NUMBER: i64 = 90_000_000;

/// Day number of 0001-01-01 counted from 1970-01-01, negated.
pub const UNIX_EPOCH_FROM_CE: i64 = 719_163;

pub open spec fn is_leap_year(y: int) -> bool {
    y % 4 == 0 && (y % 100 != 0 || y % 400 == 0)
}

pub open spec fn days_in_year(y: int) -> int {
    if is_leap_year(y) { 366 } else { 365 }
}

pub open spec fn days_in_month(y: int, m: int) -> int {
    if m == 2 {
        if is_leap_year(y) { 29 } else { 28 }
    } else if m == 4 || m == 6 || m == 9 || m == 11 {
        30
    } else {
        31
    }
}

/// Days of year `y` that come before the first of month `m`.
pub open spec fn days_before_month(y: int, m: int) -> int
    decreases m,
{
    if m <= 1 { 0 } else { days_before_month(y, m - 1) + days_in_month(y, m - 1) }
}

/// Day number of January 1 of year `y`.
pub open spec fn days_before_year(y: int) -> int
    decreases (if y >= 1970 { y - 1970 } else { 1970 - y }),
{
    if y > 1970 {
        days_before_year(y - 1) + days_in_year(y - 1)
    } else if y < 1970 {
        days_before_year(y + 1) - days_in_year(y)
    } else {
        0
    }
}

pub open spec fn is_valid_date(y: int, m: int, d: int) -> bool {
    1 <= m <= 12 && 1 <= d <= days_in_month(y, m)
}

/// Day number of the date `y-m-d`.
pub open spec fn days_from_civil(y: int, m: int, d: int) -> int {
    days_before_year(y) + days_before_month(y, m) + d - 1
}

/// Weekday of a day number, counted from Monday = 0 (1970-01-01 was a Thursday).
pub open spec fn weekday_of(days: int) -> int {
    (days + 3) % 7
}

/// The date `(year, month, day)` that has the given day number.
pub open spec fn civil_of(days: int) -> (int, int, int) {
    choose|ymd: (int, int, int)|
        is_valid_date(ymd.0, ymd.1, ymd.2) && days_from_civil(ymd.0, ymd.1, ymd.2) == days
}

/// A calendar date with its weekday (Monday = 0).
#[derive(Clone, Copy, Debug, PartialEq, Eq)]
pub struct CivilDate {
    pub year: i32,
    pub month: u32,
    pub day: u32,
    pub weekday: u32,
}

impl CivilDate {
    pub open spec fn day_number(self) -> int {
        days_from_civil(self.year as int, self.month as int, self.day as int)
    }

    pub open spec fn wf(self) -> bool {
        &&& is_valid_date(self.year as int, self.month as int, self.day as int)
        &&& -250_000 <= self.year <= 250_000
        &&& self.weekday == weekday_of(self.day_number())
    }
}

/// Relies on chrono's `NaiveDate::from_num_days_from_ce_opt` and its `Datelike`
/// accessors: the date, and its weekday, of a day number well inside chrono's range.
#[verifier::external_body]
fn date_of_day_number(days: i64) -> (r: CivilDate)
    requires
        -MAX_DAY_NUMBER <= days <= MAX_DAY_NUMBER,
    ensures
        r.wf(),
        r.day_number() == days,
{
    let d = chrono::NaiveDate::from_num_days_from_ce_opt((days + UNIX_EPOCH_FROM_CE) as i32).unwrap();
    CivilDate {
        year: d.year(),
        month: d.month(),
        day: d.day(),
        weekday: d.weekday().num_days_from_monday(),
    }
}

/// Relies on chrono's `NaiveDate::from_ymd_opt` and `Datelike::num_days_from_ce`:
/// the day number of a valid date.
#[verifier::external_body]
fn day_number_of_date(year: i32, month: u32, day: u32) -> (r: i64)
    requires
        is_valid_date(year as int, month as int, day as int),
        -250_000 <= year <= 250_000,
    ensures
        r == days_from_civil(year as int, month as int, day as int),
{
    let d = chrono::NaiveDate::from_ymd_opt(year, month, day).unwrap();
    d.num_days_from_ce() as i64 - UNIX_EPOCH_FROM_CE
}

/// The date of a day number.
pub fn civil_from_days(days: i64) -> (r: CivilDate)
    requires
        -MAX_DAY_NUMBER <= days <= MAX_DAY_NUMBER,
    ensures
        r.wf(),
        r.day_number() == days,
        (r.year as int, r.month as int, r.day as int) == civil_of(days as int),
{
    let r = date_of_day_number(days);
    proof {
        lemma_civil_of(r.year as int, r.month as int, r.day as int);
    }
    r
}

/// The day number of the first day of a month.
pub fn first_of_month(year: i32, month: u32) -> (r: i64)
    requires
        1 <= month <= 12,
        -250_000 <= year <= 250_000,
    ensures
        r == days_from_civil(year as int, month as int, 1),
{
    day_number_of_date(year, month, 1)
}

pub proof fn lemma_year_step(y: int)
    ensures
        days_before_year(y + 1) == days_before_year(y) + days_in_year(y),
{
    if y < 1970 {
        assert(days_before_year(y) == days_before_year(y + 1) - days_in_year(y));
    }
}

pub proof fn lemma_year_monotone(y1: int, y2: int)
    requires
        y1 < y2,
    ensures
        days_before_year(y1) + days_in_year(y1) <= days_before_year(y2),
    decreases y2 - y1,
{
    lemma_year_step(y1);
    if y2 > y1 + 1 {
        lemma_year_monotone(y1 + 1, y2);
    }
}

pub proof fn lemma_month_monotone(y: int, m1: int, m2: int)
    requires
        1 <= m1 < m2,
    ensures
        days_before_month(y, m1) + days_in_month(y, m1) <= days_before_month(y, m2),
    decreases m2 - m1,
{
    if m2 > m1 + 1 {
        lemma_month_monotone(y, m1, m2 - 1);
    }
}

pub proof fn lemma_month_nonneg(y: int, m: int)
    requires
        1 <= m,
    ensures
        days_before_month(y, m) >= 0,
{
    if m > 1 {
        lemma_month_monotone(y, 1, m);
    }
}

pub proof fn lemma_year_length(y: int)
    ensures
        days_before_month(y, 12) + days_in_month(y, 12) == days_in_year(y),
{
    reveal_with_fuel(days_before_month, 12);
}

/// A valid date lies within its year.
pub proof fn lemma_date_in_year(y: int, m: int, d: int)
    requires
        is_valid_date(y, m, d),
    ensures
        days_before_year(y) <= days_from_civil(y, m, d) < days_before_year(y) + days_in_year(y),
{
    lemma_month_nonneg(y, m);
    lemma_year_length(y);
    if m < 12 {
        lemma_month_monotone(y, m, 12);
    }
}

/// Day numbers of valid dates follow the order of the dates.
pub proof fn lemma_civil_order(y1: int, m1: int, d1: int, y2: int, m2: int, d2: int)
    requires
        is_valid_date(y1, m1, d1),
        is_valid_date(y2, m2, d2),
        days_from_civil(y1, m1, d1) <= days_from_civil(y2, m2, d2),
    ensures
        y1 < y2 || (y1 == y2 && (m1 < m2 || (m1 == m2 && d1 <= d2))),
{
    lemma_date_in_year(y1, m1, d1);
    lemma_date_in_year(y2, m2, d2);
    if y1 > y2 {
        lemma_year_monotone(y2, y1);
    } else if y1 == y2 && m1 > m2 {
        lemma_month_monotone(y1, m2, m1);
    }
}

/// Two valid dates with one day number are the same date.
pub proof fn lemma_civil_unique(y1: int, m1: int, d1: int, y2: int, m2: int, d2: int)
    requires
        is_valid_date(y1, m1, d1),
        is_valid_date(y2, m2, d2),
        days_from_civil(y1, m1, d1) == days_from_civil(y2, m2, d2),
    ensures
        y1 == y2 && m1 == m2 && d1 == d2,
{
    lemma_civil_order(y1, m1, d1, y2, m2, d2);
    lemma_civil_order(y2, m2, d2, y1, m1, d1);
}

/// `civil_of` gives back the date of a valid date's day number.
pub proof fn lemma_civil_of(y: int, m: int, d: int)
    requires
        is_valid_date(y, m, d),
    ensures
        civil_of(days_from_civil(y, m, d)) == (y, m, d),
{
    let days = days_from_civil(y, m, d);
    let w = (y, m, d);
    assert(is_valid_date(w.0, w.1, w.2) && days_from_civil(w.0, w.1, w.2) == days);
    let c = civil_of(days);
    lemma_civil_unique(c.0, c.1, c.2, y, m, d);
}

} // verus!
