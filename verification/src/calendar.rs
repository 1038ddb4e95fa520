//! The proleptic Gregorian calendar from 1970 onwards: year and month
//! lengths, the day number of a date, and the (unique) date of a day
//! number.

use vstd::prelude::*;

verus! {

pub open spec fn is_leap_year(y: int) -> bool {
    y % 4 == 0 && (y % 100 != 0 || y % 400 == 0)
}

pub open spec fn year_length(y: int) -> int {
    if is_leap_year(y) { 366 } else { 365 }
}

/// Days from 1970-01-01 to January 1st of year `y` (`y >= 1970`).
pub open spec fn days_before_year(y: int) -> int
    decreases y - 1970,
{
    if y <= 1970 {
        0
    } else {
        days_before_year(y - 1) + year_length(y - 1)
    }
}

pub open spec fn month_length(y: int, m: int) -> int {
    if m == 2 {
        if is_leap_year(y) { 29 } else { 28 }
    } else if m == 4 || m == 6 || m == 9 || m == 11 {
        30
    } else {
        31
    }
}

/// Days from January 1st to the first day of month `m` of year `y`.
pub open spec fn days_before_month(y: int, m: int) -> int
    decreases m,
{
    if m <= 1 {
        0
    } else {
        days_before_month(y, m - 1) + month_length(y, m - 1)
    }
}

/// `(y, m, d)` names a real day on or after 1970-01-01.
pub open spec fn is_civil_date(y: int, m: int, d: int) -> bool {
    &&& y >= 1970
    &&& 1 <= m <= 12
    &&& 1 <= d <= month_length(y, m)
}

/// Days from 1970-01-01 to the date `(y, m, d)`.
pub open spec fn day_number(y: int, m: int, d: int) -> int {
    days_before_year(y) + days_before_month(y, m) + d - 1
}

/// The date whose day number is `days`.
pub open spec fn civil_date(days: nat) -> (int, int, int) {
    choose|t: (int, int, int)| is_civil_date(t.0, t.1, t.2) && day_number(t.0, t.1, t.2) == days
}

/// Leap years in `1..=y`.
spec fn leaps_through(y: int) -> int {
    y / 4 - y / 100 + y / 400
}

proof fn lemma_leaps_step(y: int)
    requires
        y >= 1,
    ensures
        leaps_through(y) - leaps_through(y - 1) == (if is_leap_year(y) { 1int } else { 0int }),
{
    assert(y / 4 - (y - 1) / 4 == (if y % 4 == 0 { 1int } else { 0int })) by (nonlinear_arith)
        requires y >= 1;
    assert(y / 100 - (y - 1) / 100 == (if y % 100 == 0 { 1int } else { 0int })) by (nonlinear_arith)
        requires y >= 1;
    assert(y / 400 - (y - 1) / 400 == (if y % 400 == 0 { 1int } else { 0int })) by (nonlinear_arith)
        requires y >= 1;
    assert(y % 400 == 0 ==> y % 100 == 0 && y % 4 == 0) by (nonlinear_arith);
    assert(y % 100 == 0 ==> y % 4 == 0) by (nonlinear_arith);
}

proof fn lemma_days_before_year_closed(y: int)
    requires
        y >= 1970,
    ensures
        days_before_year(y) == 365 * (y - 1970) + leaps_through(y - 1) - leaps_through(1969),
    decreases y - 1970,
{
    if y > 1970 {
        lemma_days_before_year_closed(y - 1);
        lemma_leaps_step(y - 1);
    }
}

/// Every 400-year cycle holds 146097 days.
pub proof fn lemma_days_before_cycles(q: int)
    requires
        q >= 0,
    ensures
        days_before_year(1970 + 400 * q) == 146097 * q,
{
    lemma_days_before_year_closed(1970 + 400 * q);
    let x = 1969 + 400 * q;
    assert(x / 4 == 1969int / 4 + 100 * q) by (nonlinear_arith)
        requires x == 1969 + 400 * q;
    assert(x / 100 == 1969int / 100 + 4 * q) by (nonlinear_arith)
        requires x == 1969 + 400 * q;
    assert(x / 400 == 1969int / 400 + q) by (nonlinear_arith)
        requires x == 1969 + 400 * q;
}

pub proof fn lemma_year_step(y: int)
    requires
        y >= 1970,
    ensures
        days_before_year(y + 1) == days_before_year(y) + year_length(y),
{
}

/// Later years start later: the whole of year `a` precedes year `b`.
pub proof fn lemma_years_ordered(a: int, b: int)
    requires
        1970 <= a < b,
    ensures
        days_before_year(a) + year_length(a) <= days_before_year(b),
    decreases b - a,
{
    if b > a + 1 {
        lemma_years_ordered(a, b - 1);
    }
}

pub proof fn lemma_months_fill_year(y: int)
    ensures
        days_before_month(y, 12) + month_length(y, 12) == year_length(y),
{
    reveal_with_fuel(days_before_month, 13);
}

/// Earlier months end before later months begin.
pub proof fn lemma_months_ordered(y: int, a: int, b: int)
    requires
        1 <= a < b,
    ensures
        days_before_month(y, a) + month_length(y, a) <= days_before_month(y, b),
    decreases b - a,
{
    if b > a + 1 {
        lemma_months_ordered(y, a, b - 1);
    }
}

proof fn lemma_days_before_month_nonneg(y: int, m: int)
    ensures
        days_before_month(y, m) >= 0,
    decreases m,
{
    if m > 1 {
        lemma_days_before_month_nonneg(y, m - 1);
    }
}

/// A date's day falls within its year.
pub proof fn lemma_day_within_year(y: int, m: int, d: int)
    requires
        is_civil_date(y, m, d),
    ensures
        days_before_year(y) <= day_number(y, m, d) < days_before_year(y) + year_length(y),
{
    lemma_months_fill_year(y);
    lemma_days_before_month_nonneg(y, m);
    if m < 12 {
        lemma_months_ordered(y, m, 12);
    }
}

/// Law: distinct dates have distinct day numbers.
pub proof fn lemma_day_number_injective(a: (int, int, int), b: (int, int, int))
    requires
        is_civil_date(a.0, a.1, a.2),
        is_civil_date(b.0, b.1, b.2),
        day_number(a.0, a.1, a.2) == day_number(b.0, b.1, b.2),
    ensures
        a == b,
{
    lemma_day_within_year(a.0, a.1, a.2);
    lemma_day_within_year(b.0, b.1, b.2);
    if a.0 < b.0 {
        lemma_years_ordered(a.0, b.0);
    } else if b.0 < a.0 {
        lemma_years_ordered(b.0, a.0);
    }
    assert(a.0 == b.0);
    if a.1 < b.1 {
        lemma_months_ordered(a.0, a.1, b.1);
    } else if b.1 < a.1 {
        lemma_months_ordered(a.0, b.1, a.1);
    }
}

/// A date with day number `days` is the date `civil_date(days)`.
pub proof fn lemma_civil_date_is(y: int, m: int, d: int, days: nat)
    requires
        is_civil_date(y, m, d),
        day_number(y, m, d) == days,
    ensures
        civil_date(days) == (y, m, d),
{
    let w = (y, m, d);
    assert(is_civil_date(w.0, w.1, w.2) && day_number(w.0, w.1, w.2) == days);
    let t = civil_date(days);
    assert(is_civil_date(t.0, t.1, t.2) && day_number(t.0, t.1, t.2) == days);
    lemma_day_number_injective(t, (y, m, d));
}

} // verus!
