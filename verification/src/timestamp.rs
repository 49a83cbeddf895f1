//! File modification times rendered as `YYYY-MM-DD HH:MM:SS` (UTC).
//!
//! The calendar is the proleptic Gregorian one, counted from the Unix
//! epoch (1970-01-01T00:00:00Z). No date library is involved: a day
//! number is turned into a date by counting off whole 400-year cycles,
//! then years, then months, and the result is proved to be the one date
//! whose day number it is.
use vstd::prelude::*;
use crate::text::{decimal_padded, push_decimal_padded, push_str};

verus! {

/// Gregorian leap-year rule.
pub open spec fn is_leap_year(y: int) -> bool {
    (y % 4 == 0 && y % 100 != 0) || y % 400 == 0
}

/// Number of days in year `y`.
pub open spec fn year_days(y: int) -> int {
    if is_leap_year(y) {
        366
    } else {
        365
    }
}

/// Number of days in month `m` (1 = January) of year `y`.
pub open spec fn month_days(y: int, m: int) -> int {
    if m == 2 {
        if is_leap_year(y) {
            29
        } else {
            28
        }
    } else if m == 4 || m == 6 || m == 9 || m == 11 {
        30
    } else {
        31
    }
}

/// Days from 1970-01-01 to January 1st of year `y` (for `y >= 1970`).
pub open spec fn days_before_year(y: int) -> int
    decreases y - 1970,
{
    if y <= 1970 {
        0
    } else {
        days_before_year(y - 1) + year_days(y - 1)
    }
}

/// Days from January 1st to the first day of month `m` in year `y`.
pub open spec fn days_before_month(y: int, m: int) -> int
    decreases m,
{
    if m <= 1 {
        0
    } else {
        days_before_month(y, m - 1) + month_days(y, m - 1)
    }
}

/// A calendar date on or after the epoch.
pub open spec fn valid_date(y: int, m: int, d: int) -> bool {
    y >= 1970 && 1 <= m <= 12 && 1 <= d <= month_days(y, m)
}

/// The number of days between 1970-01-01 and the date `y-m-d`.
pub open spec fn epoch_day(y: int, m: int, d: int) -> int {
    days_before_year(y) + days_before_month(y, m) + d - 1
}

/// Leap years among 1..=x (for `x >= 0`).
spec fn leaps_through(x: int) -> int {
    x / 4 - x / 100 + x / 400
}

proof fn lemma_leaps_step(x: int)
    requires
        x >= 1,
    ensures
        leaps_through(x) - leaps_through(x - 1) == if is_leap_year(x) {
            1int
        } else {
            0int
        },
{
}

/// Closed form of [`days_before_year`].
proof fn lemma_days_before_year_closed(y: int)
    requires
        y >= 1970,
    ensures
        days_before_year(y) == 365 * (y - 1970) + leaps_through(y - 1) - leaps_through(1969),
    decreases y - 1970,
{
    if y > 1970 {
        lemma_days_before_year_closed(y - 1);
        lemma_leaps_step(y - 1);
    }
}

/// Any 400 consecutive years from the epoch on hold 146097 days.
proof fn lemma_four_centuries(y: int)
    requires
        y >= 1970,
    ensures
        days_before_year(y + 400) == days_before_year(y) + 146097,
{
    lemma_days_before_year_closed(y);
    lemma_days_before_year_closed(y + 400);
    let x = y - 1;
    assert((x + 400) / 4 == x / 4 + 100);
    assert((x + 400) / 100 == x / 100 + 4);
    assert((x + 400) / 400 == x / 400 + 1);
}

/// `k` whole 400-year cycles after the epoch.
proof fn lemma_cycles(k: int)
    requires
        k >= 0,
    ensures
        days_before_year(1970 + 400 * k) == 146097 * k,
    decreases k,
{
    if k > 0 {
        lemma_cycles(k - 1);
        lemma_four_centuries(1970 + 400 * (k - 1));
    }
}

/// Every year has at least 365 days, so later years start later.
proof fn lemma_years_grow(a: int, b: int)
    requires
        1970 <= a <= b,
    ensures
        days_before_year(b) >= days_before_year(a) + 365 * (b - a),
    decreases b - a,
{
    if a < b {
        lemma_years_grow(a, b - 1);
    }
}

/// The twelve months make up the year.
proof fn lemma_months_fill_year(y: int)
    ensures
        days_before_month(y, 13) == year_days(y),
{
    reveal_with_fuel(days_before_month, 13);
}

proof fn lemma_months_nonneg(y: int, m: int)
    ensures
        days_before_month(y, m) >= 0,
    decreases m,
{
    if m > 1 {
        lemma_months_nonneg(y, m - 1);
    }
}

/// Later months start later: month `a` ends no later than month `b`
/// begins.
proof fn lemma_months_grow(y: int, a: int, b: int)
    requires
        1 <= a < b,
    ensures
        days_before_month(y, b) >= days_before_month(y, a) + month_days(y, a),
    decreases b - a,
{
    if a + 1 < b {
        lemma_months_grow(y, a, b - 1);
    }
}

/// Distinct valid dates have distinct day numbers.
pub proof fn lemma_epoch_day_injective(y1: int, m1: int, d1: int, y2: int, m2: int, d2: int)
    requires
        valid_date(y1, m1, d1),
        valid_date(y2, m2, d2),
        epoch_day(y1, m1, d1) == epoch_day(y2, m2, d2),
    ensures
        y1 == y2 && m1 == m2 && d1 == d2,
{
    assert forall|y: int, m: int, d: int| #[trigger] valid_date(y, m, d) implies days_before_year(y)
        <= epoch_day(y, m, d) < days_before_year(y + 1) by {
        lemma_months_fill_year(y);
        lemma_months_nonneg(y, m);
        assert(days_before_year(y + 1) == days_before_year(y) + year_days(y));
        if m < 12 {
            lemma_months_grow(y, m, 13);
        }
    }
    if y1 < y2 {
        lemma_years_grow(y1 + 1, y2);
        assert(false);
    } else if y2 < y1 {
        lemma_years_grow(y2 + 1, y1);
        assert(false);
    } else if m1 < m2 {
        lemma_months_grow(y1, m1, m2);
        assert(false);
    } else if m2 < m1 {
        lemma_months_grow(y1, m2, m1);
        assert(false);
    }
}

/// The date whose day number is `n` (unique by
/// [`lemma_epoch_day_injective`]; exists for every `n >= 0` by
/// [`civil_from_days`]).
pub open spec fn date_of_day(n: int) -> (int, int, int) {
    choose|y: int, m: int, d: int| valid_date(y, m, d) && epoch_day(y, m, d) == n
}

/// `YYYY-MM-DD HH:MM:SS`, each field zero-padded to its width.
pub open spec fn timestamp_text(y: nat, mo: nat, d: nat, h: nat, mi: nat, s: nat) -> Seq<char> {
    decimal_padded(y, 4) + "-"@ + decimal_padded(mo, 2) + "-"@ + decimal_padded(d, 2) + " "@
        + decimal_padded(h, 2) + ":"@ + decimal_padded(mi, 2) + ":"@ + decimal_padded(s, 2)
}

/// The UTC timestamp text of `secs` seconds after the epoch.
pub open spec fn mtime_text(secs: nat) -> Seq<char> {
    let (y, m, d) = date_of_day((secs / 86400) as int);
    let t = secs % 86400;
    timestamp_text(y as nat, m as nat, d as nat, t / 3600, (t % 3600) / 60, t % 60)
}

/// A calendar date: year, month (1 = January) and day of the month.
#[derive(Debug, Clone, Copy, PartialEq, Eq)]
pub struct CivilDate {
    pub year: u64,
    pub month: u64,
    pub day: u64,
}

fn is_leap(y: u64) -> (r: bool)
    ensures
        r == is_leap_year(y as int),
{
    (y % 4 == 0 && y % 100 != 0) || y % 400 == 0
}

fn days_in_year(y: u64) -> (r: u64)
    ensures
        r == year_days(y as int),
{
    if is_leap(y) {
        366
    } else {
        365
    }
}

fn days_in_month(y: u64, m: u64) -> (r: u64)
    ensures
        r == month_days(y as int, m as int),
{
    if m == 2 {
        if is_leap(y) {
            29
        } else {
            28
        }
    } else if m == 4 || m == 6 || m == 9 || m == 11 {
        30
    } else {
        31
    }
}

/// The date of the `n`-th day after 1970-01-01.
pub fn civil_from_days(n: u64) -> (r: CivilDate)
    ensures
        valid_date(r.year as int, r.month as int, r.day as int),
        epoch_day(r.year as int, r.month as int, r.day as int) == n,
{
    let era: u64 = n / 146097;
    let mut rem: u64 = n % 146097;
    proof {
        lemma_cycles(era as int);
        assert(era * 400 + 2370 <= u64::MAX) by (nonlinear_arith)
            requires
                era == n / 146097,
                n <= u64::MAX,
        ;
        assert(n == 146097 * era + n % 146097 && n % 146097 < 146097) by (nonlinear_arith)
            requires
                era == n / 146097,
        ;
    }
    let mut year: u64 = 1970 + era * 400;
    let ghost start = year;
    while rem >= days_in_year(year)
        invariant
            start == 1970 + 400 * era,
            start + 400 <= u64::MAX,
            n < 146097 * era + 146097,
            start <= year,
            days_before_year(year as int) + rem == n,
            days_before_year(start as int) == 146097 * era,
            days_before_year(year as int) >= days_before_year(start as int) + 365 * (year - start),
        decreases rem,
    {
        let len = days_in_year(year);
        rem = rem - len;
        year = year + 1;
    }
    proof {
        lemma_months_fill_year(year as int);
    }
    let ghost year_rem = rem;
    let mut month: u64 = 1;
    while rem >= days_in_month(year, month)
        invariant
            1 <= month <= 12,
            days_before_month(year as int, month as int) + rem == year_rem,
            year_rem < days_before_month(year as int, 13),
        decreases rem,
    {
        let len = days_in_month(year, month);
        rem = rem - len;
        month = month + 1;
    }
    proof {
        lemma_years_grow(start as int, year as int);
    }
    CivilDate { year, month, day: rem + 1 }
}

/// Render `secs` seconds after the epoch as `YYYY-MM-DD HH:MM:SS`
/// (UTC).
pub fn format_mtime(secs: u64) -> (r: String)
    ensures
        r@ == mtime_text(secs as nat),
{
    let days = secs / 86400;
    let t = secs % 86400;
    let date = civil_from_days(days);
    proof {
        let (y, m, d) = date_of_day(days as int);
        assert(valid_date(date.year as int, date.month as int, date.day as int));
        lemma_epoch_day_injective(
            y,
            m,
            d,
            date.year as int,
            date.month as int,
            date.day as int,
        );
    }
    let mut out = String::new();
    push_decimal_padded(&mut out, date.year, 4);
    push_str(&mut out, "-");
    push_decimal_padded(&mut out, date.month, 2);
    push_str(&mut out, "-");
    push_decimal_padded(&mut out, date.day, 2);
    push_str(&mut out, " ");
    push_decimal_padded(&mut out, t / 3600, 2);
    push_str(&mut out, ":");
    push_decimal_padded(&mut out, (t % 3600) / 60, 2);
    push_str(&mut out, ":");
    push_decimal_padded(&mut out, t % 60, 2);
    out
}

} // verus!
