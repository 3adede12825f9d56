//! Proleptic Gregorian calendar arithmetic.
//!
//! Dates relate to a day number: the count of days since 1970-01-01. The
//! spec functions define the calendar; the executable conversions are proved
//! exact against them.

use vstd::prelude::*;

verus! {

/// Leap years have 366 days: every fourth year, except centuries that are
/// not divisible by 400.
pub open spec fn is_leap_year(y: int) -> bool {
    (y % 4 == 0 && y % 100 != 0) || y % 400 == 0
}

pub open spec fn spec_days_in_year(y: int) -> int {
    if is_leap_year(y) {
        366
    } else {
        365
    }
}

/// Number of days in month `m` (1-based) of year `y`.
pub open spec fn spec_days_in_month(y: int, m: int) -> int {
    if m == 2 {
        if is_leap_year(y) {
            29
        } else {
            28
        }
    } else if m == 4 || m == 6 || m == 9 || m == 11 {
        30
    } else {
        31
    }
}

/// Days from 1970-01-01 to `y`-01-01 (negative before 1970).
pub open spec fn days_before_year(y: int) -> int
    decreases
        (if y >= 1970 {
            y - 1970
        } else {
            1970 - y
        }),
{
    if y == 1970 {
        0
    } else if y > 1970 {
        days_before_year(y - 1) + spec_days_in_year(y - 1)
    } else {
        days_before_year(y + 1) - spec_days_in_year(y)
    }
}

/// Days from `y`-01-01 to `y`-`m`-01.
pub open spec fn days_before_month(y: int, m: int) -> int
    decreases m,
{
    if m <= 1 {
        0
    } else {
        days_before_month(y, m - 1) + spec_days_in_month(y, m - 1)
    }
}

/// `y`-`m`-`d` names a real calendar date.
pub open spec fn valid_ymd(y: int, m: int, d: int) -> bool {
    1 <= m <= 12 && 1 <= d <= spec_days_in_month(y, m)
}

/// The day number of the date `y`-`m`-`d`.
pub open spec fn days_from_civil(y: int, m: int, d: int) -> int {
    days_before_year(y) + days_before_month(y, m) + (d - 1)
}

pub fn days_in_year(y: u16) -> (r: u32)
    ensures
        r == spec_days_in_year(y as int),
{
    if (y % 4 == 0 && y % 100 != 0) || y % 400 == 0 {
        366
    } else {
        365
    }
}

pub fn days_in_month(y: u16, m: u8) -> (r: u32)
    ensures
        r == spec_days_in_month(y as int, m as int),
{
    if m == 2 {
        if (y % 4 == 0 && y % 100 != 0) || y % 400 == 0 {
            29
        } else {
            28
        }
    } else if m == 4 || m == 6 || m == 9 || m == 11 {
        30
    } else {
        31
    }
}

pub proof fn lemma_days_before_year_monotone(y1: int, y2: int)
    requires
        1970 <= y1 <= y2,
    ensures
        days_before_year(y1) <= days_before_year(y2),
        days_before_year(y1) + 365 * (y2 - y1) <= days_before_year(y2),
    decreases y2 - y1,
{
    if y1 < y2 {
        lemma_days_before_year_monotone(y1, y2 - 1);
    }
}

/// The months of a year sum to the year's length.
pub proof fn lemma_months_fill_year(y: int)
    ensures
        days_before_month(y, 13) == spec_days_in_year(y),
{
    reveal_with_fuel(days_before_month, 14);
}

proof fn lemma_days_before_month_le(y: int, m1: int, m2: int)
    requires
        1 <= m1 <= m2,
    ensures
        days_before_month(y, m1) <= days_before_month(y, m2),
    decreases m2 - m1,
{
    if m1 < m2 {
        lemma_days_before_month_le(y, m1, m2 - 1);
    }
}

proof fn lemma_days_before_year_at_most(y: int)
    requires
        1970 <= y <= 65536,
    ensures
        days_before_year(y) <= (y - 1970) * 366,
    decreases y,
{
    if y > 1970 {
        lemma_days_before_year_at_most(y - 1);
        assert((y - 1 - 1970) * 366 + 366 == (y - 1970) * 366) by (nonlinear_arith);
    }
}

/// Day counts from 1970 stay well inside `u32` for every representable year.
pub proof fn lemma_days_before_year_bounded(y: int)
    requires
        1970 <= y <= 65536,
    ensures
        0 <= days_before_year(y) <= 0x1800000,
{
    lemma_days_before_year_at_most(y);
    lemma_days_before_year_monotone(1970, y);
    assert((y - 1970) * 366 <= (65536 - 1970) * 366) by (nonlinear_arith)
        requires
            1970 <= y <= 65536,
    ;
}

pub proof fn lemma_days_before_month_bounded(y: int, m: int)
    requires
        1 <= m <= 13,
    ensures
        0 <= days_before_month(y, m) <= 366,
{
    lemma_days_before_month_le(y, 1, m);
    lemma_days_before_month_le(y, m, 13);
    lemma_months_fill_year(y);
}

/// Convert a day number (days since 1970-01-01) to the calendar date it
/// falls on. Supports every day number up to the last representable year.
pub fn days_to_civil(days: u32) -> (r: (u16, u8, u8))
    requires
        days < days_before_year(65536),
    ensures
        ({
            let (y, m, d) = r;
            &&& 1970 <= y
            &&& valid_ymd(y as int, m as int, d as int)
            &&& days_from_civil(y as int, m as int, d as int) == days
        }),
{
    let mut year: u16 = 1970;
    let mut rem: u32 = days;
    while rem >= days_in_year(year)
        invariant
            1970 <= year <= 65535,
            days_before_year(year as int) + rem == days,
            days < days_before_year(65536),
        decreases rem,
    {
        proof {
            if year == 65535 {
                assert(days_before_year(65536) == days_before_year(65535) + spec_days_in_year(
                    65535,
                ));
                assert(false);
            }
            assert(days_before_year(year as int + 1) == days_before_year(year as int)
                + spec_days_in_year(year as int));
        }
        rem = rem - days_in_year(year);
        year = year + 1;
    }
    proof {
        lemma_months_fill_year(year as int);
    }
    let mut month: u8 = 1;
    while rem >= days_in_month(year, month)
        invariant
            1 <= month <= 12,
            days_before_year(year as int) + days_before_month(year as int, month as int) + rem
                == days,
            rem + days_before_month(year as int, month as int) < spec_days_in_year(year as int),
            days_before_month(year as int, 13) == spec_days_in_year(year as int),
        decreases 12 - month,
    {
        proof {
            if month == 12 {
                assert(days_before_month(year as int, 13) == days_before_month(year as int, 12)
                    + spec_days_in_month(year as int, 12));
                assert(false);
            }
            assert(days_before_month(year as int, month as int + 1) == days_before_month(
                year as int,
                month as int,
            ) + spec_days_in_month(year as int, month as int));
        }
        rem = rem - days_in_month(year, month);
        month = month + 1;
    }
    let day: u8 = (rem + 1) as u8;
    (year, month, day)
}

/// Convert a calendar date at or after 1970-01-01 to its day number.
pub fn civil_to_days(y: u16, m: u8, d: u8) -> (r: u32)
    requires
        y >= 1970,
        valid_ymd(y as int, m as int, d as int),
    ensures
        r == days_from_civil(y as int, m as int, d as int),
{
    proof {
        lemma_days_before_year_bounded(y as int);
    }
    let mut acc: u32 = 0;
    let mut yy: u16 = 1970;
    while yy < y
        invariant
            1970 <= yy <= y,
            acc == days_before_year(yy as int),
            days_before_year(y as int) <= 0x1800000,
            y <= 65535,
        decreases y - yy,
    {
        proof {
            assert(days_before_year(yy as int + 1) == days_before_year(yy as int)
                + spec_days_in_year(yy as int));
            lemma_days_before_year_monotone(yy as int + 1, y as int);
        }
        acc = acc + days_in_year(yy);
        yy = yy + 1;
    }
    let mut mm: u8 = 1;
    while mm < m
        invariant
            1 <= mm <= m,
            m <= 12,
            acc == days_before_year(y as int) + days_before_month(y as int, mm as int),
            days_before_year(y as int) <= 0x1800000,
        decreases m - mm,
    {
        proof {
            assert(days_before_month(y as int, mm as int + 1) == days_before_month(
                y as int,
                mm as int,
            ) + spec_days_in_month(y as int, mm as int));
            lemma_days_before_month_bounded(y as int, mm as int + 1);
        }
        acc = acc + days_in_month(y, mm);
        mm = mm + 1;
    }
    proof {
        lemma_days_before_month_bounded(y as int, m as int);
    }
    acc + (d as u32 - 1)
}

} // verus!
