//! The proleptic Gregorian calendar as arithmetic on unbounded integers.
//!
//! Everything here is specification and proof: the executable functions
//! of this crate state their results over these definitions.

use vstd::prelude::*;

verus! {

/// Whether `year` has a 29 February: every fourth year, except the
/// centuries that are not a multiple of 400.
pub open spec fn is_leap(year: int) -> bool {
    year % 4 == 0 && (year % 100 != 0 || year % 400 == 0)
}

/// The number of days in `year`.
pub open spec fn days_in_year(year: int) -> int {
    if is_leap(year) {
        366
    } else {
        365
    }
}

/// The number of leap years among the years `1 .. year`; for `year < 1`
/// it is minus the number of leap years among `year .. 1`.
pub open spec fn leap_years_before(year: int) -> int {
    (year - 1) / 4 - (year - 1) / 100 + (year - 1) / 400
}

/// The number of days from 1 January 1970 to 1 January of `year`,
/// negative for the years before 1970.
pub open spec fn days_before_year(year: int) -> int {
    365 * (year - 1970) + leap_years_before(year) - leap_years_before(1970)
}

/// The number of days in month `month` (1 for January to 12 for December).
pub open spec fn days_in_month(month: int, leap: bool) -> int {
    if month == 2 {
        if leap {
            29
        } else {
            28
        }
    } else if month == 4 || month == 6 || month == 9 || month == 11 {
        30
    } else {
        31
    }
}

/// The number of days of a year without a 29 February that lie before
/// month `month` begins.
pub open spec fn days_before_month_common(month: int) -> int {
    if month <= 1 {
        0
    } else if month == 2 {
        31
    } else if month == 3 {
        59
    } else if month == 4 {
        90
    } else if month == 5 {
        120
    } else if month == 6 {
        151
    } else if month == 7 {
        181
    } else if month == 8 {
        212
    } else if month == 9 {
        243
    } else if month == 10 {
        273
    } else if month == 11 {
        304
    } else {
        334
    }
}

/// The number of days of a year that lie before month `month` begins.
pub open spec fn days_before_month(month: int, leap: bool) -> int {
    days_before_month_common(month) + if leap && month >= 3 {
        1int
    } else {
        0int
    }
}

/// Whether `year`, `month`, `day` name a day of the calendar.
pub open spec fn is_valid_date(year: int, month: int, day: int) -> bool {
    1 <= month <= 12 && 1 <= day <= days_in_month(month, is_leap(year))
}

/// The day of the year, from 1, of a day of the calendar.
pub open spec fn day_of_year(year: int, month: int, day: int) -> int {
    days_before_month(month, is_leap(year)) + day
}

/// The number of days from 1 January 1970 to the given day, negative for
/// the days before it.
pub open spec fn day_number(year: int, month: int, day: int) -> int {
    days_before_year(year) + day_of_year(year, month, day) - 1
}

/// The number of days from 1 January 1970 to 1 March 2000.
pub open spec fn epoch_difference() -> int {
    11017
}

/// The day of the week of the day with the given day number, from 0 for
/// Sunday to 6 for Saturday. 1 January 1970 was a Thursday.
pub open spec fn weekday_index(day_number: int) -> int {
    (day_number + 4) % 7
}

/// A multiple of 400 is a multiple of 100, and a multiple of 100 is a
/// multiple of 4.
proof fn lemma_century_multiples(year: int)
    ensures
        year % 400 == 0 ==> year % 100 == 0,
        year % 100 == 0 ==> year % 4 == 0,
{
    if year % 400 == 0 {
        assert(year == 100 * (4 * (year / 400)));
    }
    if year % 100 == 0 {
        assert(year == 4 * (25 * (year / 100)));
    }
}

/// One year on, one more leap year lies behind if this year is one.
proof fn lemma_leap_step(year: int)
    ensures
        leap_years_before(year + 1) == leap_years_before(year) + if is_leap(year) {
            1int
        } else {
            0int
        },
{
    lemma_century_multiples(year);
    assert(year / 4 == (year - 1) / 4 + if year % 4 == 0 { 1int } else { 0int });
    assert(year / 100 == (year - 1) / 100 + if year % 100 == 0 { 1int } else { 0int });
    assert(year / 400 == (year - 1) / 400 + if year % 400 == 0 { 1int } else { 0int });
}

/// One year on, the year's first day lies a year's length later.
pub proof fn lemma_next_year(year: int)
    ensures
        days_before_year(year + 1) == days_before_year(year) + days_in_year(year),
{
    lemma_leap_step(year);
}

/// A later year never begins before an earlier one.
pub proof fn lemma_years_in_order(earlier: int, later: int)
    requires
        earlier <= later,
    ensures
        days_before_year(earlier) + 365 * (later - earlier) <= days_before_year(later),
    decreases later - earlier,
{
    if earlier < later {
        lemma_years_in_order(earlier, later - 1);
        lemma_next_year(later - 1);
    }
}

/// Every day of a year lies between the year's first day and the next
/// year's first day.
pub proof fn lemma_day_within_year(year: int, month: int, day: int)
    requires
        is_valid_date(year, month, day),
    ensures
        1 <= day_of_year(year, month, day) <= days_in_year(year),
        days_before_year(year) <= day_number(year, month, day) < days_before_year(year + 1),
{
    lemma_next_year(year);
}

/// A day of the year belongs to one month and one day of it only.
pub proof fn lemma_day_of_year_distinct(leap: bool, m1: int, d1: int, m2: int, d2: int)
    requires
        1 <= m1 <= 12,
        1 <= m2 <= 12,
        1 <= d1 <= days_in_month(m1, leap),
        1 <= d2 <= days_in_month(m2, leap),
        days_before_month(m1, leap) + d1 == days_before_month(m2, leap) + d2,
    ensures
        m1 == m2,
        d1 == d2,
{
}

/// Two days of the calendar with the same day number are the same day:
/// turning a date into its day number loses nothing.
pub proof fn lemma_day_number_distinct(y1: int, m1: int, d1: int, y2: int, m2: int, d2: int)
    requires
        is_valid_date(y1, m1, d1),
        is_valid_date(y2, m2, d2),
        day_number(y1, m1, d1) == day_number(y2, m2, d2),
    ensures
        y1 == y2,
        m1 == m2,
        d1 == d2,
{
    lemma_day_within_year(y1, m1, d1);
    lemma_day_within_year(y2, m2, d2);
    if y1 < y2 {
        lemma_years_in_order(y1 + 1, y2);
    }
    if y2 < y1 {
        lemma_years_in_order(y2 + 1, y1);
    }
    lemma_day_of_year_distinct(is_leap(y1), m1, d1, m2, d2);
}

/// A day that lies between a year's first day and the next year's first
/// day is a day of that year, and its day of the year is its distance
/// from the year's first day.
pub proof fn lemma_year_of_day_number(y: int, m: int, d: int, year: int)
    requires
        is_valid_date(y, m, d),
        days_before_year(year) <= day_number(y, m, d) < days_before_year(year + 1),
    ensures
        y == year,
        day_of_year(y, m, d) == day_number(y, m, d) - days_before_year(year) + 1,
{
    lemma_day_within_year(y, m, d);
    if y < year {
        lemma_years_in_order(y + 1, year);
    }
    if year < y {
        lemma_years_in_order(year + 1, y);
    }
}

/// The year of a day is bounded by its day number: a year has at least
/// 365 days.
pub proof fn lemma_year_bounds(y: int, m: int, d: int)
    requires
        is_valid_date(y, m, d),
    ensures
        y >= 1970 ==> 365 * (y - 1970) <= day_number(y, m, d),
        y < 1970 ==> day_number(y, m, d) < 365 * (y + 1 - 1970),
{
    lemma_day_within_year(y, m, d);
    assert(days_before_year(1970) == 0);
    if y >= 1970 {
        lemma_years_in_order(1970, y);
    } else {
        lemma_years_in_order(y + 1, 1970);
    }
}

/// The day after the last day of a month is the first day of the next
/// month: the day of the year goes up by one across every month boundary,
/// the one between February and March included, in leap years and others.
pub proof fn lemma_month_boundary(year: int, month: int)
    requires
        1 <= month <= 11,
    ensures
        day_of_year(year, month, days_in_month(month, is_leap(year))) + 1 == day_of_year(
            year,
            month + 1,
            1,
        ),
{
}

/// Every whole number is the day number of a day of the calendar: the
/// calendar has no holes. The day is found by walking from 1 January
/// 1970, a day at a time.
pub proof fn lemma_day_exists(number: int) -> (r: (int, int, int))
    ensures
        is_valid_date(r.0, r.1, r.2),
        day_number(r.0, r.1, r.2) == number,
    decreases
            if number >= 0 {
                number
            } else {
                -number
            },
{
    if number == 0 {
        assert(days_before_year(1970) == 0);
        (1970, 1, 1)
    } else if number > 0 {
        let (y, m, d) = lemma_day_exists(number - 1);
        if d < days_in_month(m, is_leap(y)) {
            (y, m, d + 1)
        } else if m < 12 {
            lemma_month_boundary(y, m);
            (y, m + 1, 1)
        } else {
            lemma_next_year(y);
            (y + 1, 1, 1)
        }
    } else {
        let (y, m, d) = lemma_day_exists(number + 1);
        if d > 1 {
            (y, m, d - 1)
        } else if m > 1 {
            lemma_month_boundary(y, m - 1);
            (y, m - 1, days_in_month(m - 1, is_leap(y)))
        } else {
            lemma_next_year(y - 1);
            (y - 1, 12, 31)
        }
    }
}

/// The number of days from 1 March to the first day of month `month`,
/// in a year that is counted from 1 March to the end of February.
pub open spec fn march_offset(month: int) -> int {
    if month <= 1 {
        306
    } else if month == 2 {
        337
    } else if month == 3 {
        0
    } else if month == 4 {
        31
    } else if month == 5 {
        61
    } else if month == 6 {
        92
    } else if month == 7 {
        122
    } else if month == 8 {
        153
    } else if month == 9 {
        184
    } else if month == 10 {
        214
    } else if month == 11 {
        245
    } else {
        275
    }
}

/// The greatest number of days that month `month` can have.
pub open spec fn march_length(month: int) -> int {
    days_in_month(month, true)
}

/// The date that lies in a given place of the cycles of 400, 100 and 4
/// years that begin on 1 March 2000 has the day number of that place.
pub(crate) proof fn lemma_cycles_to_date(
    days: int,
    n400: int,
    n100: int,
    n4: int,
    y: int,
    rest: int,
    month: int,
    day: int,
)
    requires
        0 <= n100 <= 3,
        0 <= n4 <= 24,
        0 <= y <= 3,
        days == 146097 * n400 + 36524 * n100 + 1461 * n4 + 365 * y + rest,
        0 <= rest <= 365,
        rest == 365 ==> y == 3 && (n4 < 24 || n100 == 3),
        1 <= month <= 12,
        rest == march_offset(month) + day - 1,
        1 <= day <= march_length(month),
    ensures
        ({
            let year = 2000 + 400 * n400 + 100 * n100 + 4 * n4 + y + if month <= 2 {
                1int
            } else {
                0int
            };
            &&& is_valid_date(year, month, day)
            &&& day_number(year, month, day) == days + epoch_difference()
            &&& day_of_year(year, month, day) == if month <= 2 {
                rest - 305
            } else if y == 0 && (n4 != 0 || n100 == 0) {
                rest + 61
            } else {
                rest + 60
            }
        }),
{
    let year = 400 * n400 + 100 * n100 + 4 * n4 + y + if month <= 2 {
        1int
    } else {
        0int
    };
    lemma_march_year(n400, n100, n4, y, year, month);
    let full = year + 2000;
    let leap = is_leap(full);
    assert(leap_years_before(1970) == 477);
    assert(days_before_year(full) == 365 * (full - 1970) + leap_years_before(full) - 477);
    if month <= 2 {
        assert(days_before_month(month, leap) == march_offset(month) - 306);
    } else {
        assert(days_before_month(month, leap) == march_offset(month) + 59 + if leap {
            1int
        } else {
            0int
        });
    }
}

/// The quotient and remainder, rounded down, of a number one below a
/// multiple of four plus a small rest.
pub(crate) proof fn lemma_split_4(k: int, t: int)
    requires
        0 <= t <= 4,
    ensures
        (4 * k + t - 1) / 4 == k - if t == 0 { 1int } else { 0int },
        (4 * k + t) % 4 == 0 <==> t == 0 || t == 4,
{
}

/// The same for a hundred.
pub(crate) proof fn lemma_split_100(k: int, t: int)
    requires
        0 <= t <= 100,
    ensures
        (100 * k + t - 1) / 100 == k - if t == 0 { 1int } else { 0int },
        (100 * k + t) % 100 == 0 <==> t == 0 || t == 100,
{
}

/// The same for four hundred.
pub(crate) proof fn lemma_split_400(k: int, t: int)
    requires
        0 <= t <= 400,
    ensures
        (400 * k + t - 1) / 400 == k - if t == 0 { 1int } else { 0int },
        (400 * k + t) % 400 == 0 <==> t == 0 || t == 400,
{
}

/// The leap years behind a year that is given by its place in the cycles
/// of 400, 100 and 4 years that begin on 1 March 2000.
///
/// `year` is the calendar year, counted from 2000, of a month `month` in
/// the year that begins on 1 March in the place `n400`, `n100`, `n4`, `y`:
/// the same year for March to December, the next for January and
/// February.
proof fn lemma_march_year(n400: int, n100: int, n4: int, y: int, year: int, month: int)
    requires
        0 <= n100 <= 3,
        0 <= n4 <= 24,
        0 <= y <= 3,
        1 <= month <= 12,
        year == 400 * n400 + 100 * n100 + 4 * n4 + y + if month <= 2 {
            1int
        } else {
            0int
        },
    ensures
        leap_years_before(year + 2000) == 485 + 97 * n400 + 24 * n100 + n4 - if month >= 3
            && is_leap(year + 2000) {
            1int
        } else {
            0int
        },
        is_leap(year + 2000) <==> if month >= 3 {
            y == 0 && (n4 != 0 || n100 == 0)
        } else {
            y == 3 && (n4 != 24 || n100 == 3)
        },
{
    let full = year + 2000;
    let e = if month <= 2 { 1int } else { 0int };
    let t4 = y + e;
    let t100 = 4 * n4 + t4;
    let t400 = 100 * n100 + t100;
    lemma_split_4(100 * (n400 + 5) + 25 * n100 + n4, t4);
    lemma_split_100(4 * (n400 + 5) + n100, t100);
    lemma_split_400(n400 + 5, t400);
    assert(full == 4 * (100 * (n400 + 5) + 25 * n100 + n4) + t4);
    assert(full == 100 * (4 * (n400 + 5) + n100) + t100);
    assert(full == 400 * (n400 + 5) + t400);
    assert(full % 4 == 0 <==> t4 == 0 || t4 == 4);
    assert(full % 100 == 0 <==> t100 == 0 || t100 == 100);
    assert(full % 400 == 0 <==> t400 == 0 || t400 == 400);
    assert((full - 1) / 4 == 100 * (n400 + 5) + 25 * n100 + n4 - if t4 == 0 { 1int } else { 0int });
    assert((full - 1) / 100 == 4 * (n400 + 5) + n100 - if t100 == 0 { 1int } else { 0int });
    assert((full - 1) / 400 == n400 + 5 - if t400 == 0 { 1int } else { 0int });
}

} // verus!
