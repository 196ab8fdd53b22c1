//! Proleptic Gregorian civil dates from a count of days since 1970-01-01, found by walking
//! whole years and then whole months, as the panel's date formatting does.

use vstd::prelude::*;

verus! {

/// Gregorian leap year.
pub open spec fn is_leap(y: int) -> bool {
    (y % 4 == 0 && y % 100 != 0) || y % 400 == 0
}

pub open spec fn year_len(y: int) -> int {
    if is_leap(y) {
        366
    } else {
        365
    }
}

/// Day `rem` counted from the start of year `y`, walked forward one whole year at a time:
/// the year it falls in and the day within that year.
pub open spec fn year_of(rem: int, y: int) -> (int, int)
    decreases rem,
{
    if rem < year_len(y) {
        (y, rem)
    } else {
        year_of(rem - year_len(y), y + 1)
    }
}

/// Length of month `m` (1 to 12) of year `y`.
pub open spec fn month_len(y: int, m: int) -> int {
    if m == 2 {
        if is_leap(y) {
            29
        } else {
            28
        }
    } else if m == 4 || m == 6 || m == 9 || m == 11 {
        30
    } else {
        31
    }
}

/// Days in months `m` to 12 of year `y`.
pub open spec fn days_left(y: int, m: int) -> int
    decreases 13 - m,
{
    if m > 12 || m < 1 {
        0
    } else {
        month_len(y, m) + days_left(y, m + 1)
    }
}

/// Day `rem` counted from the start of month `m`, walked forward one whole month at a time:
/// the month it falls in and the day of that month (from 1).
pub open spec fn month_of(rem: int, y: int, m: int) -> (int, int)
    decreases 13 - m,
{
    if m >= 12 || rem < month_len(y, m) {
        (m, rem + 1)
    } else {
        month_of(rem - month_len(y, m), y, m + 1)
    }
}

/// Year, month and day of day number `days` (0 is 1970-01-01).
pub open spec fn civil(days: int) -> (int, int, int) {
    let (y, r) = year_of(days, 1970);
    let (m, d) = month_of(r, y, 1);
    (y, m, d)
}

proof fn lemma_year_len_is_months(y: int)
    ensures
        days_left(y, 1) == year_len(y),
{
    reveal_with_fuel(days_left, 13);
}

fn leap(y: u64) -> (r: bool)
    ensures
        r == is_leap(y as int),
{
    (y % 4 == 0 && y % 100 != 0) || y % 400 == 0
}

fn year_len_of(y: u64) -> (r: u64)
    ensures
        r == year_len(y as int),
{
    if leap(y) {
        366
    } else {
        365
    }
}

fn month_len_of(y: u64, m: u64) -> (r: u64)
    ensures
        r == month_len(y as int, m as int),
{
    if m == 2 {
        if leap(y) {
            29
        } else {
            28
        }
    } else if m == 4 || m == 6 || m == 9 || m == 11 {
        30
    } else {
        31
    }
}

/// Year, month and day of day number `days`.
pub fn civil_from_days(days: u64) -> (r: (u64, u64, u64))
    ensures
        (r.0 as int, r.1 as int, r.2 as int) == civil(days as int),
        1 <= r.1 <= 12,
        1 <= r.2 <= 31,
{
    let mut y: u64 = 1970;
    let mut rem: u64 = days;
    while rem >= year_len_of(y)
        invariant
            1970 <= y,
            rem <= days,
            (y - 1970) * 365 <= days - rem,
            year_of(days as int, 1970) == year_of(rem as int, y as int),
        decreases rem,
    {
        let yl = year_len_of(y);
        rem = rem - yl;
        y = y + 1;
    }
    let ghost r0 = rem as int;
    proof {
        lemma_year_len_is_months(y as int);
    }
    let mut m: u64 = 1;
    while m < 12 && rem >= month_len_of(y, m)
        invariant
            1 <= m <= 12,
            rem < days_left(y as int, m as int),
            month_of(r0, y as int, 1) == month_of(rem as int, y as int, m as int),
        decreases 12 - m,
    {
        let ml = month_len_of(y, m);
        rem = rem - ml;
        m = m + 1;
    }
    proof {
        if m == 12 {
            assert(days_left(y as int, 13) == 0);
        }
    }
    (y, m, rem + 1)
}


proof fn lemma_year_of_bounds(rem: int, y: int)
    requires
        rem >= 0,
    ensures
        0 <= year_of(rem, y).1 < year_len(year_of(rem, y).0),
        year_of(rem, y).0 >= y,
    decreases rem,
{
    if rem >= year_len(y) {
        lemma_year_of_bounds(rem - year_len(y), y + 1);
    }
}

proof fn lemma_month_of_bounds(rem: int, y: int, m: int)
    requires
        1 <= m <= 12,
        0 <= rem < days_left(y, m),
    ensures
        m <= month_of(rem, y, m).0 <= 12,
        1 <= month_of(rem, y, m).1 <= month_len(y, month_of(rem, y, m).0),
    decreases 13 - m,
{
    if m < 12 && rem >= month_len(y, m) {
        lemma_month_of_bounds(rem - month_len(y, m), y, m + 1);
    } else if m == 12 {
        assert(days_left(y, 13) == 0);
    }
}

/// Law: every day from 1970-01-01 on gets a real calendar date: a year from 1970, a month
/// from 1 to 12 and a day within that month.
pub proof fn lemma_civil_is_valid_date(days: int)
    requires
        days >= 0,
    ensures
        civil(days).0 >= 1970,
        1 <= civil(days).1 <= 12,
        1 <= civil(days).2 <= month_len(civil(days).0, civil(days).1),
{
    lemma_year_of_bounds(days, 1970);
    let (y, r) = year_of(days, 1970);
    lemma_year_len_is_months(y);
    lemma_month_of_bounds(r, y, 1);
}

/// Law: the months have their Gregorian lengths. April, June, September and November have
/// 30 days; February has 29 in a year divisible by 4 but not by 100, or by 400, else 28;
/// every other month has 31.
pub proof fn lemma_gregorian_month_lengths(y: int)
    ensures
        month_len(y, 1) == 31,
        month_len(y, 2) == (if (y % 4 == 0 && y % 100 != 0) || y % 400 == 0 { 29int } else { 28int }),
        month_len(y, 3) == 31,
        month_len(y, 4) == 30,
        month_len(y, 5) == 31,
        month_len(y, 6) == 30,
        month_len(y, 7) == 31,
        month_len(y, 8) == 31,
        month_len(y, 9) == 30,
        month_len(y, 10) == 31,
        month_len(y, 11) == 30,
        month_len(y, 12) == 31,
        days_left(y, 1) == year_len(y),
{
    lemma_year_len_is_months(y);
}

proof fn lemma_year_of_next(rem: int, y: int)
    requires
        rem >= 0,
    ensures
        year_of(rem + 1, y) == (if year_of(rem, y).1 + 1 < year_len(year_of(rem, y).0) {
            (year_of(rem, y).0, year_of(rem, y).1 + 1)
        } else {
            (year_of(rem, y).0 + 1, 0int)
        }),
    decreases rem,
{
    if rem < year_len(y) {
        if rem + 1 >= year_len(y) {
            assert(year_of(rem + 1, y) == year_of(0, y + 1));
            assert(year_of(0, y + 1) == (y + 1, 0int));
        }
    } else {
        lemma_year_of_next(rem - year_len(y), y + 1);
        assert(year_of(rem + 1, y) == year_of(rem + 1 - year_len(y), y + 1));
    }
}

proof fn lemma_month_of_next(rem: int, y: int, m: int)
    requires
        1 <= m <= 12,
        0 <= rem,
        rem + 1 < days_left(y, m),
    ensures
        month_of(rem, y, m).1 < month_len(y, month_of(rem, y, m).0) || month_of(rem, y, m).0 < 12,
        month_of(rem + 1, y, m) == (if month_of(rem, y, m).1 < month_len(y, month_of(rem, y, m).0) {
            (month_of(rem, y, m).0, month_of(rem, y, m).1 + 1)
        } else {
            (month_of(rem, y, m).0 + 1, 1int)
        }),
    decreases 13 - m,
{
    if m >= 12 {
        assert(days_left(y, 13) == 0);
    } else if rem < month_len(y, m) {
        if rem + 1 >= month_len(y, m) {
            assert(month_of(rem + 1, y, m) == month_of(0, y, m + 1));
            assert(month_of(0, y, m + 1) == (m + 1, 1int));
        }
    } else {
        lemma_month_of_next(rem - month_len(y, m), y, m + 1);
        assert(month_of(rem + 1, y, m) == month_of(rem + 1 - month_len(y, m), y, m + 1));
    }
}

proof fn lemma_month_of_last(y: int, m: int)
    requires
        1 <= m <= 12,
    ensures
        month_of(days_left(y, m) - 1, y, m) == (12int, 31int),
    decreases 13 - m,
{
    if m >= 12 {
        assert(days_left(y, 13) == 0);
    } else {
        lemma_month_of_last(y, m + 1);
        assert(days_left(y, m + 1) >= 1) by {
            if m + 1 < 12 {
                assert(days_left(y, m + 2) >= 0) by {
                    lemma_days_left_nonneg(y, m + 2);
                }
            } else {
                assert(days_left(y, 13) == 0);
            }
        }
    }
}

proof fn lemma_days_left_nonneg(y: int, m: int)
    ensures
        days_left(y, m) >= 0,
    decreases 13 - m,
{
    if 1 <= m <= 12 {
        lemma_days_left_nonneg(y, m + 1);
    }
}

/// Law: consecutive day numbers are consecutive calendar dates. The day after `(y, m, d)`
/// is `(y, m, d + 1)` within the month, the 1st of the next month after a month's last day,
/// and January 1st of the next year after December 31st.
pub proof fn lemma_civil_next_day(days: int)
    requires
        days >= 0,
    ensures
        civil(days + 1) == (if civil(days).2 < month_len(civil(days).0, civil(days).1) {
            (civil(days).0, civil(days).1, civil(days).2 + 1)
        } else if civil(days).1 < 12 {
            (civil(days).0, civil(days).1 + 1, 1int)
        } else {
            (civil(days).0 + 1, 1int, 1int)
        }),
{
    lemma_year_of_bounds(days, 1970);
    lemma_year_of_next(days, 1970);
    let (y, r) = year_of(days, 1970);
    lemma_year_len_is_months(y);
    lemma_month_of_bounds(r, y, 1);
    if r + 1 < year_len(y) {
        lemma_month_of_next(r, y, 1);
    } else {
        lemma_month_of_last(y, 1);
        assert(month_of(0, y + 1, 1) == (1int, 1int));
    }
}

/// Law: day 0 is 1970-01-01; with `lemma_civil_next_day` this fixes every later date.
pub proof fn lemma_civil_epoch()
    ensures
        civil(0) == (1970int, 1int, 1int),
{
    assert(year_of(0, 1970) == (1970int, 0int));
    assert(month_of(0, 1970, 1) == (1int, 1int));
}

} // verus!
