//! Dates, times, datetimes, months, and weekdays.

use vstd::prelude::*;
use vstd::std_specs::cmp::PartialEqSpecImpl;

use crate::cal::{DatePiece, TimePiece};
use crate::duration::Duration;
use crate::instant::Instant;
use vstd::std_specs::ops::{AddSpecImpl, SubSpecImpl};
use crate::cal::civil::{
    day_number, day_of_year, days_before_month, days_before_month_common, days_before_year,
    days_in_month, days_in_year, epoch_difference, is_leap, is_valid_date, leap_years_before,
    lemma_cycles_to_date, lemma_day_exists, lemma_day_number_distinct, lemma_day_within_year,
    lemma_next_year,
    lemma_split_100, lemma_split_4, lemma_split_400, lemma_year_bounds, lemma_year_of_day_number,
    march_length, march_offset,
    weekday_index,
};

verus! {

/// The one way in which a date or a time can fail to be built.
#[derive(PartialEq, Eq, Structural, Debug, Copy, Clone)]
pub enum Error {
    /// A field lies outside the range that the calendar or the clock
    /// gives it, or the date lies beyond the days that can be counted.
    OutOfRange,
}

impl Error {
    /// What went wrong, in words.
    pub fn message(&self) -> (r: &'static str)
        ensures
            r@ == "datetime field out of range"@,
    {
        "datetime field out of range"
    }
}

/// A month of the year, starting with January, and ending with December.
///
/// This is an enum instead of just a number to prevent off-by-one
/// errors: is month 2 February (1-indexed) or March (0-indexed)?
#[derive(PartialEq, Eq, Structural, PartialOrd, Ord, Debug, Clone, Copy)]
pub enum Month {
    January,
    February,
    March,
    April,
    May,
    June,
    July,
    August,
    September,
    October,
    November,
    December,
}

impl Month {
    /// The number of this month in the year, from 1 for January to 12
    /// for December.
    pub open spec fn number(self) -> int {
        match self {
            Month::January => 1,
            Month::February => 2,
            Month::March => 3,
            Month::April => 4,
            Month::May => 5,
            Month::June => 6,
            Month::July => 7,
            Month::August => 8,
            Month::September => 9,
            Month::October => 10,
            Month::November => 11,
            Month::December => 12,
        }
    }

    /// The month with the given number, from 1 for January to 12 for
    /// December.
    pub open spec fn of_number(number: int) -> Month {
        if number <= 1 {
            Month::January
        } else if number == 2 {
            Month::February
        } else if number == 3 {
            Month::March
        } else if number == 4 {
            Month::April
        } else if number == 5 {
            Month::May
        } else if number == 6 {
            Month::June
        } else if number == 7 {
            Month::July
        } else if number == 8 {
            Month::August
        } else if number == 9 {
            Month::September
        } else if number == 10 {
            Month::October
        } else if number == 11 {
            Month::November
        } else {
            Month::December
        }
    }

    /// Returns the number of days in this month, depending on whether it
    /// is a leap year or not.
    pub fn days_in_month(self, leap_year: bool) -> (r: i8)
        ensures
            r == days_in_month(self.number(), leap_year),
            28 <= r <= 31,
    {
        match self {
            Month::January => 31,
            Month::February => if leap_year {
                29
            } else {
                28
            },
            Month::March => 31,
            Month::April => 30,
            Month::May => 31,
            Month::June => 30,
            Month::July => 31,
            Month::August => 31,
            Month::September => 30,
            Month::October => 31,
            Month::November => 30,
            Month::December => 31,
        }
    }

    /// Returns the number of days that have elapsed in a year *before*
    /// this month begins, with no leap year check.
    pub fn days_before_start(self) -> (r: i16)
        ensures
            r == days_before_month_common(self.number()),
            0 <= r <= 334,
    {
        match self {
            Month::January => 0,
            Month::February => 31,
            Month::March => 59,
            Month::April => 90,
            Month::May => 120,
            Month::June => 151,
            Month::July => 181,
            Month::August => 212,
            Month::September => 243,
            Month::October => 273,
            Month::November => 304,
            Month::December => 334,
        }
    }

    /// Returns the number of months that lie between January and this
    /// month: 0 for January, 11 for December.
    pub fn months_from_january(self) -> (r: usize)
        ensures
            r == self.number() - 1,
    {
        match self {
            Month::January => 0,
            Month::February => 1,
            Month::March => 2,
            Month::April => 3,
            Month::May => 4,
            Month::June => 5,
            Month::July => 6,
            Month::August => 7,
            Month::September => 8,
            Month::October => 9,
            Month::November => 10,
            Month::December => 11,
        }
    }

    /// Returns the month based on a number, with January as **Month 1**,
    /// February as **Month 2**, and so on.
    pub fn from_one(month: i8) -> (r: Result<Self, Error>)
        ensures
            r == if 1 <= month <= 12 {
                Ok::<Month, Error>(Month::of_number(month as int))
            } else {
                Err::<Month, Error>(Error::OutOfRange)
            },
            r matches Ok(m) ==> m.number() == month,
    {
        Ok(
            match month {
                1 => Month::January,
                2 => Month::February,
                3 => Month::March,
                4 => Month::April,
                5 => Month::May,
                6 => Month::June,
                7 => Month::July,
                8 => Month::August,
                9 => Month::September,
                10 => Month::October,
                11 => Month::November,
                12 => Month::December,
                _ => return Err(Error::OutOfRange),
            },
        )
    }

    /// Returns the month based on a number, with January as **Month 0**,
    /// February as **Month 1**, and so on.
    pub fn from_zero(month: i8) -> (r: Result<Self, Error>)
        ensures
            r == if 0 <= month <= 11 {
                Ok::<Month, Error>(Month::of_number(month + 1))
            } else {
                Err::<Month, Error>(Error::OutOfRange)
            },
            r matches Ok(m) ==> m.number() == month + 1,
    {
        Ok(
            match month {
                0 => Month::January,
                1 => Month::February,
                2 => Month::March,
                3 => Month::April,
                4 => Month::May,
                5 => Month::June,
                6 => Month::July,
                7 => Month::August,
                8 => Month::September,
                9 => Month::October,
                10 => Month::November,
                11 => Month::December,
                _ => return Err(Error::OutOfRange),
            },
        )
    }
}

/// A named day of the week.
///
/// Weekdays have no order: there is no agreement on whether the week
/// begins on Sunday or on Monday, so both numberings are offered.
#[derive(PartialEq, Eq, Structural, Debug, Clone, Copy)]
pub enum Weekday {
    Sunday,
    Monday,
    Tuesday,
    Wednesday,
    Thursday,
    Friday,
    Saturday,
}

impl Weekday {
    /// The number of this day counted from Sunday as 0 to Saturday as 6.
    pub open spec fn index(self) -> int {
        match self {
            Weekday::Sunday => 0,
            Weekday::Monday => 1,
            Weekday::Tuesday => 2,
            Weekday::Wednesday => 3,
            Weekday::Thursday => 4,
            Weekday::Friday => 5,
            Weekday::Saturday => 6,
        }
    }

    /// The number of this day counted from Monday as 1 to Sunday as 7.
    pub open spec fn iso_number(self) -> int {
        if self == Weekday::Sunday {
            7
        } else {
            self.index()
        }
    }

    /// The day with the given number counted from Sunday as 0.
    pub open spec fn of_index(index: int) -> Weekday {
        if index <= 0 {
            Weekday::Sunday
        } else if index == 1 {
            Weekday::Monday
        } else if index == 2 {
            Weekday::Tuesday
        } else if index == 3 {
            Weekday::Wednesday
        } else if index == 4 {
            Weekday::Thursday
        } else if index == 5 {
            Weekday::Friday
        } else {
            Weekday::Saturday
        }
    }

    /// The day of the week of the day with the given day number, counted
    /// from 1 January 1970.
    pub open spec fn of_day_number(day_number: int) -> Weekday {
        Weekday::of_index(weekday_index(day_number))
    }

    /// Returns the number of this day with Monday as Day 1 and Sunday as
    /// Day 7.
    pub fn days_from_monday_as_one(self) -> (r: i8)
        ensures
            r == self.iso_number(),
            1 <= r <= 7,
    {
        match self {
            Weekday::Sunday => 7,
            Weekday::Monday => 1,
            Weekday::Tuesday => 2,
            Weekday::Wednesday => 3,
            Weekday::Thursday => 4,
            Weekday::Friday => 5,
            Weekday::Saturday => 6,
        }
    }

    /// Returns the number of days that lie between Sunday and this day:
    /// 0 for Sunday, 6 for Saturday.
    pub fn days_from_sunday(self) -> (r: usize)
        ensures
            r == self.index(),
    {
        match self {
            Weekday::Sunday => 0,
            Weekday::Monday => 1,
            Weekday::Tuesday => 2,
            Weekday::Wednesday => 3,
            Weekday::Thursday => 4,
            Weekday::Friday => 5,
            Weekday::Saturday => 6,
        }
    }

    /// Return the weekday based on a number, with Sunday as Day 0, Monday
    /// as Day 1, and so on.
    pub fn from_zero(weekday: i8) -> (r: Result<Self, Error>)
        ensures
            r == if 0 <= weekday <= 6 {
                Ok::<Weekday, Error>(Weekday::of_index(weekday as int))
            } else {
                Err::<Weekday, Error>(Error::OutOfRange)
            },
            r matches Ok(w) ==> w.index() == weekday,
    {
        Ok(
            match weekday {
                0 => Weekday::Sunday,
                1 => Weekday::Monday,
                2 => Weekday::Tuesday,
                3 => Weekday::Wednesday,
                4 => Weekday::Thursday,
                5 => Weekday::Friday,
                6 => Weekday::Saturday,
                _ => return Err(Error::OutOfRange),
            },
        )
    }

    /// Return the weekday based on a number, with Monday as Day 1, and so
    /// on to Sunday as Day 7.
    pub fn from_one(weekday: i8) -> (r: Result<Self, Error>)
        ensures
            r == if 1 <= weekday <= 7 {
                Ok::<Weekday, Error>(Weekday::of_index(weekday as int % 7))
            } else {
                Err::<Weekday, Error>(Error::OutOfRange)
            },
            r matches Ok(w) ==> w.iso_number() == weekday,
    {
        Ok(
            match weekday {
                7 => Weekday::Sunday,
                1 => Weekday::Monday,
                2 => Weekday::Tuesday,
                3 => Weekday::Wednesday,
                4 => Weekday::Thursday,
                5 => Weekday::Friday,
                6 => Weekday::Saturday,
                _ => return Err(Error::OutOfRange),
            },
        )
    }
}

/// Split a number of years into a number of year-cycles, and the number
/// of years left over that do not fit into a cycle. This is also used
/// for day-cycles.
///
/// This is a division with its remainder, except that the remainder of
/// a negative number is not negative: the quotient is rounded down.
pub fn split_cycles(number_of_periods: i64, cycle_length: i64) -> (r: (i64, i64))
    requires
        cycle_length > 0,
    ensures
        r.0 == number_of_periods as int / cycle_length as int,
        r.1 == number_of_periods as int % cycle_length as int,
        number_of_periods == r.0 * cycle_length + r.1,
        0 <= r.1 < cycle_length,
{
    let mut cycles: i64 = number_of_periods / cycle_length;
    let mut remainder: i64 = number_of_periods % cycle_length;
    proof {
        lemma_rounded_down(number_of_periods as int, cycle_length as int);
    }
    if remainder < 0 {
        remainder += cycle_length;
        cycles -= 1;
    }
    (cycles, remainder)
}

/// How the quotient rounded towards zero, which the machine computes,
/// relates to the quotient rounded down.
proof fn lemma_rounded_down(n: int, c: int)
    requires
        c > 0,
    ensures
        n == (n / c) * c + n % c,
        0 <= n % c < c,
        n < 0 && (-n) % c != 0 ==> n / c == -((-n) / c) - 1 && n % c == c - (-n) % c,
        n < 0 && (-n) % c == 0 ==> n / c == -((-n) / c) && n % c == 0,
        n < 0 ==> n <= n / c,
        n >= 0 ==> 0 <= n / c <= n,
{
    vstd::arithmetic::div_mod::lemma_fundamental_div_mod(n, c);
    vstd::arithmetic::div_mod::lemma_mod_bound(n, c);
    assert(n == (n / c) * c + n % c) by (nonlinear_arith)
        requires
            n == c * (n / c) + n % c,
    ;
    if n < 0 {
        let x = -n;
        let a = x / c;
        let b = x % c;
        vstd::arithmetic::div_mod::lemma_fundamental_div_mod(x, c);
        vstd::arithmetic::div_mod::lemma_mod_bound(x, c);
        vstd::arithmetic::div_mod::lemma_div_pos_is_pos(x, c);
        assert(a <= x) by (nonlinear_arith)
            requires
                x == c * a + b,
                0 <= b,
                0 <= a,
                c >= 1,
        ;
        if b != 0 {
            assert(a + 1 <= x) by (nonlinear_arith)
                requires
                    x == c * a + b,
                    0 < b,
                    0 <= a,
                    c >= 1,
            ;
            assert(n == (-a - 1) * c + (c - b)) by (nonlinear_arith)
                requires
                    x == c * a + b,
                    n == -x,
            ;
            vstd::arithmetic::div_mod::lemma_fundamental_div_mod_converse(
                n,
                c,
                -a - 1,
                c - b,
            );
        } else {
            assert(n == (-a) * c + 0) by (nonlinear_arith)
                requires
                    x == c * a + b,
                    b == 0,
                    n == -x,
            ;
            vstd::arithmetic::div_mod::lemma_fundamental_div_mod_converse(n, c, -a, 0);
        }
    } else {
        vstd::arithmetic::div_mod::lemma_div_pos_is_pos(n, c);
        assert(n / c <= n) by (nonlinear_arith)
            requires
                n == c * (n / c) + n % c,
                0 <= n % c,
                0 <= n / c,
                c >= 1,
        ;
    }
}

/// Computes the weekday, given the number of days that have passed
/// since 1 January 1970, which was a Thursday.
fn weekday_of_day_number(days: i128) -> (r: Weekday)
    ensures
        r == Weekday::of_day_number(days as int),
{
    let weekday: i128 = (days % 7 + 4) % 7;
    let index: i128 = if weekday < 0 {
        weekday + 7
    } else {
        weekday
    };
    assert(index == weekday_index(days as int));
    if index == 0 {
        Weekday::Sunday
    } else if index == 1 {
        Weekday::Monday
    } else if index == 2 {
        Weekday::Tuesday
    } else if index == 3 {
        Weekday::Wednesday
    } else if index == 4 {
        Weekday::Thursday
    } else if index == 5 {
        Weekday::Friday
    } else {
        Weekday::Saturday
    }
}

/// Computes the weekday, given the number of days that have passed
/// since 1 March 2000, which was a Wednesday.
pub fn days_to_weekday(days: i64) -> (r: Weekday)
    ensures
        r == Weekday::of_day_number(days + epoch_difference()),
{
    let weekday: i64 = (days % 7 + 3) % 7;
    let index: i64 = if weekday < 0 {
        weekday + 7
    } else {
        weekday
    };
    assert(index == weekday_index(days + epoch_difference()));
    match index {
        0 => Weekday::Sunday,
        1 => Weekday::Monday,
        2 => Weekday::Tuesday,
        3 => Weekday::Wednesday,
        4 => Weekday::Thursday,
        5 => Weekday::Friday,
        _ => Weekday::Saturday,
    }
}

/// A single year.
///
/// This is just a wrapper around `i64` that performs year-related tests.
#[derive(PartialEq, Eq, Structural, Debug, Copy, Clone)]
pub struct Year(pub i64);

impl Year {
    /// Returns whether this year is a leap year.
    pub fn is_leap_year(self) -> (r: bool)
        ensures
            r == is_leap(self.0 as int),
    {
        self.leap_year_calculations().1
    }

    /// Performs two related calculations for leap years, returning the
    /// results as a two-part tuple:
    ///
    /// 1. The number of leap years from 2001 up to, but not including,
    ///    this year; for a year before 2001, minus the number of leap
    ///    years from this year up to 2000;
    /// 2. Whether this year is a leap year or not.
    pub fn leap_year_calculations(self) -> (r: (i64, bool))
        ensures
            r.0 == leap_years_before(self.0 as int) - leap_years_before(2001),
            r.1 == is_leap(self.0 as int),
    {
        // Years relative to 2000, in whole 400-year cycles and the rest:
        // 2000 itself is five such cycles.
        let (cycles, mut remainder) = split_cycles(self.0, 400);
        let num_400y_cycles: i64 = cycles - 5;

        // Standard leap-year calculations, performed on the remainder
        let currently_leap_year = remainder == 0 || (remainder % 100 != 0 && remainder % 4 == 0);

        let num_100y_cycles: i64 = remainder / 100;
        remainder -= num_100y_cycles * 100;

        let leap_years_elapsed: i64 = remainder / 4 + 97 * num_400y_cycles  // There are 97 leap years in 400 years
         + 24 * num_100y_cycles  // There are 24 leap years in 100 years
         - if currently_leap_year {
            1i64
        } else {
            0i64
        };

        proof {
            let year = self.0 as int;
            let rest = year - 400 * cycles;
            let in_century = rest - 100 * num_100y_cycles;
            let in_four = in_century - 4 * (in_century / 4);
            assert(remainder == in_century);
            assert(rest % 100 == in_century);
            assert(rest % 4 == in_four);
            lemma_split_4(100 * cycles + 25 * num_100y_cycles + in_century / 4, in_four);
            lemma_split_100(4 * cycles + num_100y_cycles, in_century);
            lemma_split_400(cycles as int, rest);
            assert(year == 4 * (100 * cycles + 25 * num_100y_cycles + in_century / 4) + in_four);
            assert(year == 100 * (4 * cycles + num_100y_cycles) + in_century);
            assert(year == 400 * cycles + rest);
        }

        (leap_years_elapsed, currently_leap_year)
    }
}

/// Number of days guaranteed to be in four years.
const DAYS_IN_4Y: i64 = 1461;

/// Number of days guaranteed to be in a hundred years.
const DAYS_IN_100Y: i64 = 36524;

/// Number of days guaranteed to be in four hundred years.
const DAYS_IN_400Y: i64 = 146097;

/// Number of seconds in a day. As everywhere in this library, leap seconds
/// are simply ignored.
const SECONDS_IN_DAY: i64 = 86400;

/// Number of days between **1st January, 1970** and **1st March, 2000**.
///
/// This might seem like an odd number to calculate, instead of using the
/// 1st of January as a reference point, but by having the reference point
/// immediately after a possible leap-year day, the maths needed to
/// calculate the day, week and month of an instant comes out a lot
/// simpler: the Gregorian calendar repeats every 400 years, the year 2000
/// is a multiple of 400, and the leap day falls at the very end of each
/// cycle that is counted from 1 March.
pub const EPOCH_DIFFERENCE: i64 = 11017;

/// The number of days elapsed at the end of each month, counted from the
/// beginning of March, going backwards from January to March and leaving
/// out February, the last month of a year counted so.
fn time_triangle() -> (r: [i64; 11])
    ensures
        r@ =~= seq![337i64, 306, 275, 245, 214, 184, 153, 122, 92, 61, 31],
{
    [337, 306, 275, 245, 214, 184, 153, 122, 92, 61, 31]
}

/// A year, a month and a day that were not checked against the calendar:
/// the 30th of February can be written down as a `YMD`, and is refused
/// when it is turned into a day count or a [`LocalDate`].
#[derive(PartialEq, Eq, Structural, PartialOrd, Ord, Clone, Debug, Copy)]
pub struct YMD {
    pub year: i64,
    pub month: Month,
    pub day: i8,
}

impl YMD {
    /// Whether these fields name a day of the calendar.
    pub open spec fn spec_is_valid(self) -> bool {
        is_valid_date(self.year as int, self.month.number(), self.day as int)
    }

    /// The number of days from 1 January 1970 to this day.
    pub open spec fn day_number(self) -> int {
        day_number(self.year as int, self.month.number(), self.day as int)
    }

    /// Returns whether this datestamp is valid, which means whether the
    /// day is in the range allowed by the month.
    ///
    /// Whether the year is a leap year is passed in rather than
    /// calculated afresh.
    pub fn is_valid(&self, is_leap_year: bool) -> (r: bool)
        ensures
            r == (1 <= self.day <= days_in_month(self.month.number(), is_leap_year)),
    {
        self.day >= 1 && self.day <= self.month.days_in_month(is_leap_year)
    }

    /// The day number of these fields, with room for every year that
    /// 64 bits can hold, or nothing if they name no day of the calendar.
    fn day_number_wide(&self) -> (r: Option<i128>)
        ensures
            r == if self.spec_is_valid() {
                Some(self.day_number() as i128)
            } else {
                None::<i128>
            },
            r matches Some(n) ==> n == self.day_number(),
    {
        let years: i128 = self.year as i128 - 2000;
        let (leap_days_elapsed, is_leap_year) = Year(self.year).leap_year_calculations();

        if !self.is_valid(is_leap_year) {
            return None;
        }
        // Work out the number of days from the start of 1970 to now,
        // which is a multiple of the number of years...

        let days: i128 = years * 365
        // Plus the number of days between the start of 2000 and the
        // start of 1970, to make up the difference because our
        // dates start at 2000 and instants start at 1970...
         + 10958
        // Plus the number of leap years that have elapsed between
        // now and the start of 2000...
         + leap_days_elapsed as i128
        // Plus the number of days in all the months leading up to
        // the current month...
         + self.month.days_before_start() as i128
        // Plus an extra leap day for *this* year...
         + if is_leap_year && self.month.months_from_january() >= 2 {
            1i128
        } else {
            0i128
        }
        // Plus the number of days in the month so far! (Days are
        // 1-indexed, so we make them 0-indexed here)
         + (self.day - 1) as i128;

        Some(days)
    }

    /// Calculates the number of days that have elapsed since the 1st
    /// January, 1970. Returns the number of days if this datestamp is
    /// valid and its day can be counted in 64 bits; an error otherwise.
    pub fn to_days_since_epoch(&self) -> (r: Result<i64, Error>)
        ensures
            r == if self.spec_is_valid() && i64::MIN <= self.day_number() <= i64::MAX {
                Ok::<i64, Error>(self.day_number() as i64)
            } else {
                Err::<i64, Error>(Error::OutOfRange)
            },
            r matches Ok(n) ==> n == self.day_number(),
    {
        match self.day_number_wide() {
            Some(days) => {
                if days < -0x8000_0000_0000_0000 || days > 0x7fff_ffff_ffff_ffff {
                    Err(Error::OutOfRange)
                } else {
                    Ok(days as i64)
                }
            },
            None => Err(Error::OutOfRange),
        }
    }
}

/// A **local date** is a day-long span on the timeline, *without a time
/// zone*.
///
/// Besides the year, the month and the day it holds the day of the year
/// and the day of the week. These are worked out once, when the date is
/// made, and always agree with the first three.
#[derive(Eq, Clone, Copy, Debug)]
pub struct LocalDate {
    ymd: YMD,
    yearday: i16,
    weekday: Weekday,
}

impl PartialEq for LocalDate {
    /// Dates are equal when their years, months and days are.
    fn eq(&self, other: &Self) -> (r: bool) {
        self.ymd == other.ymd
    }
}

impl PartialEqSpecImpl for LocalDate {
    open spec fn obeys_eq_spec() -> bool {
        true
    }

    open spec fn eq_spec(&self, other: &Self) -> bool {
        self@ == other@
    }
}

impl View for LocalDate {
    type V = YMD;

    /// The year, the month and the day: what tells one date from another.
    closed spec fn view(&self) -> YMD {
        self.ymd
    }
}

impl LocalDate {
    /// The day of the year that this date holds.
    pub closed spec fn spec_yearday(self) -> int {
        self.yearday as int
    }

    /// The day of the week that this date holds.
    pub closed spec fn spec_weekday(self) -> Weekday {
        self.weekday
    }

    /// The number of days from 1 January 1970 to this date.
    pub open spec fn day_number(self) -> int {
        self@.day_number()
    }

    /// Whether the day with this day number can be held: counted from
    /// 1 March 2000, its number fits in 64 bits.
    pub open spec fn countable(day_number: int) -> bool {
        i64::MIN <= day_number - epoch_difference() <= i64::MAX
    }

    /// The date is a day of the calendar that can be counted, and its day
    /// of the year and day of the week are those of that day.
    pub open spec fn wf(self) -> bool {
        &&& self@.spec_is_valid()
        &&& LocalDate::countable(self.day_number())
        &&& self.spec_yearday() == day_of_year(
            self@.year as int,
            self@.month.number(),
            self@.day as int,
        )
        &&& self.spec_weekday() == Weekday::of_day_number(self.day_number())
    }

    /// The date with the given day number, counted from 1 January 1970.
    pub closed spec fn of_day_number(day_number: int) -> LocalDate {
        choose|date: LocalDate| date.wf() && date.day_number() == day_number
    }

    /// A day number belongs to one date only: a date is the date of its
    /// day number.
    pub proof fn lemma_of_day_number(self)
        requires
            self.wf(),
        ensures
            LocalDate::of_day_number(self.day_number()) == self,
    {
        let other = LocalDate::of_day_number(self.day_number());
        assert(other.wf() && other.day_number() == self.day_number());
        lemma_day_number_distinct(
            self@.year as int,
            self@.month.number(),
            self@.day as int,
            other@.year as int,
            other@.month.number(),
            other@.day as int,
        );
        self.lemma_same_fields(other);
    }

    /// Every day number that can be counted has its date.
    pub proof fn lemma_date_exists(day_number: int)
        requires
            LocalDate::countable(day_number),
        ensures
            LocalDate::of_day_number(day_number).wf(),
            LocalDate::of_day_number(day_number).day_number() == day_number,
    {
        let (y, m, d) = lemma_day_exists(day_number);
        lemma_year_bounds(y, m, d);
        let date = LocalDate {
            ymd: YMD { year: y as i64, month: Month::of_number(m), day: d as i8 },
            yearday: day_of_year(y, m, d) as i16,
            weekday: Weekday::of_day_number(day_number),
        };
        assert(date.wf() && date.day_number() == day_number);
    }

    /// Turning a day of the calendar into its day number and the number
    /// back into a date gives the day that one began with, for every
    /// year, however far from 1970, whose days can be counted.
    pub proof fn lemma_day_number_round_trip(fields: YMD)
        requires
            fields.spec_is_valid(),
            LocalDate::countable(fields.day_number()),
        ensures
            LocalDate::of_day_number(fields.day_number()).wf(),
            LocalDate::of_day_number(fields.day_number())@ == fields,
    {
        let date = LocalDate::of_day_number(fields.day_number());
        LocalDate::lemma_date_exists(fields.day_number());
        lemma_day_number_distinct(
            date@.year as int,
            date@.month.number(),
            date@.day as int,
            fields.year as int,
            fields.month.number(),
            fields.day as int,
        );
    }

    /// A date comes back from its year and its day of the year.
    pub proof fn lemma_yearday_round_trip(self)
        requires
            self.wf(),
        ensures
            1 <= self.spec_yearday() <= days_in_year(self@.year as int),
            LocalDate::yd_spec(self@.year as int, self.spec_yearday()) == Ok::<LocalDate, Error>(
                self,
            ),
    {
        lemma_day_within_year(self@.year as int, self@.month.number(), self@.day as int);
        self.lemma_of_day_number();
    }

    /// A date is known by its year, month and day: two well-formed dates
    /// that agree on them agree on everything.
    pub proof fn lemma_same_fields(self, other: LocalDate)
        requires
            self.wf(),
            other.wf(),
            self@ == other@,
        ensures
            self == other,
    {
    }

    /// The day of the year, from 1 January as 1, that the date of an ISO
    /// week date falls on: `week` weeks and `weekday` days after the
    /// Monday before the week that holds 4 January of `year`, which is
    /// week 1. It is less than 1 for a day of the year before, and more
    /// than the year's length for one of the year after.
    pub open spec fn iso_week_yearday(year: int, week: int, weekday: Weekday) -> int {
        7 * week + weekday.iso_number() - (Weekday::of_day_number(
            day_number(year, 1, 4),
        ).iso_number() + 3)
    }

    /// The date with the given day number, if there is one that can be
    /// held, or else the error that says that it is out of range.
    pub open spec fn of_day_number_checked(day_number: int) -> Result<LocalDate, Error> {
        if LocalDate::countable(day_number) {
            Ok(LocalDate::of_day_number(day_number))
        } else {
            Err(Error::OutOfRange)
        }
    }

    /// What [`LocalDate::ymd`] returns: the date of the given day, if it
    /// is a day of the calendar that can be counted.
    pub open spec fn ymd_spec(year: int, month: Month, day: int) -> Result<LocalDate, Error> {
        if is_valid_date(year, month.number(), day) {
            LocalDate::of_day_number_checked(day_number(year, month.number(), day))
        } else {
            Err(Error::OutOfRange)
        }
    }

    /// What [`LocalDate::yd`] returns: the date of the given day of the
    /// year, if the year has that day, from 1 for 1 January to 365, or to
    /// 366 in a leap year, and the day can be counted.
    pub open spec fn yd_spec(year: int, yearday: int) -> Result<LocalDate, Error> {
        if 1 <= yearday <= days_in_year(year) {
            LocalDate::of_day_number_checked(days_before_year(year) + yearday - 1)
        } else {
            Err(Error::OutOfRange)
        }
    }

    /// What [`LocalDate::ywd`] returns: the date of the given day of the
    /// given week, if it lies within the year before, the year itself or
    /// the year after.
    pub open spec fn ywd_spec(year: int, week: int, weekday: Weekday) -> Result<LocalDate, Error> {
        let yearday = LocalDate::iso_week_yearday(year, week, weekday);
        if -days_in_year(year - 1) <= yearday < days_in_year(year) + 367 {
            LocalDate::of_day_number_checked(days_before_year(year) + yearday - 1)
        } else {
            Err(Error::OutOfRange)
        }
    }

    /// Creates a new local date instance from the given year, month, and day
    /// fields.
    ///
    /// The values are checked for validity before instantiation, and
    /// passing in values out of range will return an error. A day of the
    /// calendar so far from 2000 that it cannot be counted is out of
    /// range too.
    pub fn ymd(year: i64, month: Month, day: i8) -> (r: Result<Self, Error>)
        ensures
            r == LocalDate::ymd_spec(year as int, month, day as int),
            r is Ok <==> is_valid_date(year as int, month.number(), day as int)
                && LocalDate::countable(day_number(year as int, month.number(), day as int)),
            r matches Ok(date) ==> date.wf() && date@ == (YMD { year, month, day }),
            r matches Ok(date) ==> date == LocalDate::of_day_number(
                day_number(year as int, month.number(), day as int),
            ),
            r matches Err(e) ==> e == Error::OutOfRange,
    {
        let fields = YMD { year, month, day };
        match fields.day_number_wide() {
            Some(days) => {
                let made = Self::from_day_number(days);
                proof {
                    if let Ok(date) = made {
                        lemma_day_number_distinct(
                            date@.year as int,
                            date@.month.number(),
                            date@.day as int,
                            year as int,
                            month.number(),
                            day as int,
                        );
                    }
                }
                made
            },
            None => Err(Error::OutOfRange),
        }
    }

    /// Creates a new local date instance from the given year and day-of-year
    /// values.
    ///
    /// The values are checked for validity before instantiation, and
    /// passing in values out of range will return an error: the day of
    /// the year runs from 1 to 365, or to 366 in a leap year.
    pub fn yd(year: i64, yearday: i64) -> (r: Result<Self, Error>)
        ensures
            r == LocalDate::yd_spec(year as int, yearday as int),
            r is Ok <==> 1 <= yearday <= days_in_year(year as int) && LocalDate::countable(
                days_before_year(year as int) + yearday - 1,
            ),
            r matches Ok(date) ==> date.wf() && date.day_number() == days_before_year(year as int)
                + yearday - 1,
            r matches Ok(date) ==> date@.year == year && date.spec_yearday() == yearday,
            r matches Err(e) ==> e == Error::OutOfRange,
    {
        let days_in_year: i64 = if Year(year).is_leap_year() {
            366
        } else {
            365
        };
        if 1 <= yearday && yearday <= days_in_year {
            let jan_1 = YMD { year, month: Month::January, day: 1 };
            match jan_1.day_number_wide() {
                Some(days) => {
                    let made = Self::from_day_number(days + yearday as i128 - 1);
                    proof {
                        lemma_next_year(year as int);
                        if let Ok(date) = made {
                            lemma_year_of_day_number(
                                date@.year as int,
                                date@.month.number(),
                                date@.day as int,
                                year as int,
                            );
                        }
                    }
                    made
                },
                None => Err(Error::OutOfRange),
            }
        } else {
            Err(Error::OutOfRange)
        }
    }

    /// Creates a new local date instance from the given year, week-of-year,
    /// and weekday values.
    ///
    /// Week 1 is the week, from Monday to Sunday, that holds 4 January.
    /// The day may lie in the year before or the year after the given
    /// one, as the first and the last week of a year do. A week number
    /// from which the day would lie further away than that is out of
    /// range.
    pub fn ywd(year: i64, week: i64, weekday: Weekday) -> (r: Result<Self, Error>)
        ensures
            r == LocalDate::ywd_spec(year as int, week as int, weekday),
            r is Ok <==> {
                let yearday = LocalDate::iso_week_yearday(year as int, week as int, weekday);
                &&& -days_in_year(year - 1) <= yearday < days_in_year(year as int) + 367
                &&& LocalDate::countable(days_before_year(year as int) + yearday - 1)
            },
            r matches Ok(date) ==> date.wf() && date.day_number() == days_before_year(year as int)
                + LocalDate::iso_week_yearday(year as int, week as int, weekday) - 1,
            r matches Ok(date) ==> date.spec_weekday() == weekday,
            r matches Err(e) ==> e == Error::OutOfRange,
    {
        let made = Self::week_date(year, week, weekday.days_from_monday_as_one());
        proof {
            lemma_iso_week_day(day_number(year as int, 1, 4), week as int, weekday);
        }
        made
    }

    /// What [`LocalDate::from_weekday`] returns: the date of the day with
    /// the number `day`, from 1 for Monday to 7 for Sunday, or 0 for the
    /// Sunday before, of the given week, if it lies within the year
    /// before, the year itself or the year after.
    pub open spec fn from_weekday_spec(year: int, week: int, day: int) -> Result<LocalDate, Error> {
        let yearday = LocalDate::iso_week_yearday(year, week, Weekday::Monday) + day - 1;
        if 0 <= day <= 7 && -days_in_year(year - 1) <= yearday < days_in_year(year) + 367 {
            LocalDate::of_day_number_checked(days_before_year(year) + yearday - 1)
        } else {
            Err(Error::OutOfRange)
        }
    }

    /// Creates a new local date instance from the given year, week-of-year,
    /// and the number of the day in the week, from 1 for Monday to 7 for
    /// Sunday; 0 is the Sunday before the week.
    pub fn from_weekday(year: i64, week: i64, day: i64) -> (r: Result<Self, Error>)
        ensures
            r == LocalDate::from_weekday_spec(year as int, week as int, day as int),
            r matches Ok(date) ==> date.wf(),
    {
        if 0 <= day && day <= 7 {
            Self::week_date(year, week, day as i8)
        } else {
            Err(Error::OutOfRange)
        }
    }

    /// The date of the day with the number `day`, counted from Monday as
    /// 1, in the given week of the given year.
    fn week_date(year: i64, week: i64, day: i8) -> (r: Result<Self, Error>)
        requires
            0 <= day <= 7,
        ensures
            r == {
                let yearday = LocalDate::iso_week_yearday(year as int, week as int, Weekday::Monday)
                    + day - 1;
                if -days_in_year(year - 1) <= yearday < days_in_year(year as int) + 367 {
                    LocalDate::of_day_number_checked(days_before_year(year as int) + yearday - 1)
                } else {
                    Err(Error::OutOfRange)
                }
            },
            r matches Ok(date) ==> date.wf() && date.day_number() == days_before_year(year as int)
                + LocalDate::iso_week_yearday(year as int, week as int, Weekday::Monday) + day - 2,
    {
        let jan_4 = YMD { year, month: Month::January, day: 4 };
        let jan_4_days: i128 = match jan_4.day_number_wide() {
            Some(days) => days,
            None => { return Err(Error::OutOfRange); },
        };
        let jan_4_weekday = weekday_of_day_number(jan_4_days);
        let correction: i64 = jan_4_weekday.days_from_monday_as_one() as i64 + 3;
        proof {
            assert(jan_4_days == days_before_year(year as int) + 3);
            lemma_year_bounds(year as int, 1, 4);
            lemma_next_year(year - 1);
        }

        // No week this far from the year leaves the day within reach of it.
        if week < -60 || week > 120 {
            return Err(Error::OutOfRange);
        }
        let yearday: i64 = 7 * week + day as i64 - correction;
        assert(yearday == LocalDate::iso_week_yearday(year as int, week as int, Weekday::Monday)
            + day - 1);
        if year == i64::MIN {
            return Err(Error::OutOfRange);
        }
        // A day of the year before is counted on from that year's end,
        // one of the year after from this year's end: either way the day
        // lies so many days from 1 January of this year.

        let within_reach = if yearday <= 0 {
            let days_in_year: i64 = if Year(year - 1).is_leap_year() {
                366
            } else {
                365
            };
            0 <= days_in_year + yearday
        } else {
            let days_in_year: i64 = if Year(year).is_leap_year() {
                366
            } else {
                365
            };
            yearday - days_in_year < 367
        };

        if within_reach {
            Self::from_day_number(jan_4_days - 3 + yearday as i128 - 1)
        } else {
            Err(Error::OutOfRange)
        }
    }

    /// Creates a new local date instance from the given year and day-of-year
    /// values, as [`LocalDate::yd`] does.
    pub fn from_yearday(year: i64, yearday: i64) -> (r: Result<Self, Error>)
        ensures
            r == LocalDate::yd_spec(year as int, yearday as int),
            r is Ok <==> 1 <= yearday <= days_in_year(year as int) && LocalDate::countable(
                days_before_year(year as int) + yearday - 1,
            ),
            r matches Ok(date) ==> date.wf() && date@.year == year && date.spec_yearday()
                == yearday,
            r matches Err(e) ==> e == Error::OutOfRange,
    {
        Self::yd(year, yearday)
    }

    /// Creates a new datestamp instance with the given year, month, day,
    /// weekday, and yearday fields.
    ///
    /// The values are not checked: they must name a day of the calendar
    /// that can be counted, with the day of the week and the day of the
    /// year that this day has.
    pub fn _new_with_prefilled_values(
        year: i64,
        month: Month,
        day: i8,
        weekday: Weekday,
        yearday: i16,
    ) -> (r: Self)
        requires
            is_valid_date(year as int, month.number(), day as int),
            LocalDate::countable(day_number(year as int, month.number(), day as int)),
            weekday == Weekday::of_day_number(day_number(year as int, month.number(), day as int)),
            yearday == day_of_year(year as int, month.number(), day as int),
        ensures
            r.wf(),
            r@ == (YMD { year, month, day }),
            r.spec_weekday() == weekday,
            r.spec_yearday() == yearday,
            LocalDate::ymd_spec(year as int, month, day as int) == Ok::<LocalDate, Error>(r),
    {
        let date = Self { ymd: YMD { year, month, day }, weekday, yearday };
        proof {
            date.lemma_of_day_number();
        }
        date
    }

    /// The date with the given day number, counted from 1 January 1970,
    /// if it can be held.
    fn from_day_number(days: i128) -> (r: Result<Self, Error>)
        ensures
            r == LocalDate::of_day_number_checked(days as int),
            r is Ok <==> LocalDate::countable(days as int),
            r matches Ok(date) ==> date.wf() && date.day_number() == days && date
                == LocalDate::of_day_number(days as int),
            r matches Err(e) ==> e == Error::OutOfRange,
    {
        if days < -0x8000_0000_0000_0000 + 11017 || days > 0x7fff_ffff_ffff_ffff + 11017 {
            Err(Error::OutOfRange)
        } else {
            Ok(Self::from_days_since_epoch((days - 11017) as i64))
        }
    }

    /// Computes a LocalDate - year, month, day, weekday, and yearday -
    /// given the number of days that have passed since 1 March 2000.
    ///
    /// Every number of days gives a date, and the date gives back the
    /// number: it is the one day of the calendar with that day number.
    pub fn from_days_since_epoch(days: i64) -> (r: Self)
        ensures
            r.wf(),
            r.day_number() == days + epoch_difference(),
            r == LocalDate::of_day_number(days + epoch_difference()),
    {
        // The Gregorian calendar works in 400-year cycles, which repeat
        // themselves ever after: find the numbers of 400-year, 100-year
        // and 4-year cycles and of years, and the days left in the year.
        let place = CyclePlace::of_days(days);

        // Leap year calculation goes thusly:
        //
        // 1. If the year is a multiple of 400, it is a leap year.
        // 2. Else, if the year is a multiple of 100, it is *not* a leap year.
        // 3. Else, if the year is a multiple of 4, it is a leap year again!
        //
        // We already have the values for the numbers of multiples at this
        // point, and it is safe to re-use them.
        let days_this_year: i64 = if place.years == 0 && !(place.num_4y_cycles == 0
            && place.num_100y_cycles != 0) {
            366
        } else {
            365
        };

        // Find out which number day of the year it is.
        // The 306 here refers to the number of days in a year excluding
        // January and February (which are excluded because of the epoch)
        let mut day_of_year: i64 = place.remainder + days_this_year - 306;
        if day_of_year >= days_this_year {
            day_of_year -= days_this_year;  // wrap around for January and February
        }
        // Turn all those cycles into an actual number of years.

        let mut years: i64 = place.years + 4 * place.num_4y_cycles + 100 * place.num_100y_cycles
            + 400 * place.num_400y_cycles;

        // Work out the month, counted from March as 0, and the number of
        // days into the month.
        let (march_month, month_days) = month_of_march_year(place.remainder);

        // Need to add 2 to the month in order to compensate for the epoch
        // being in March.
        let mut month: i8 = march_month + 2;

        if month >= 12 {
            years += 1;  // wrap around for January and February
            month -= 12;  // (yes, again)
        }
        // The check immediately above means that the month number is in
        // the range (0..12).

        let month_variant = match Month::from_zero(month) {
            Ok(m) => m,
            Err(_) => Month::January,
        };

        proof {
            lemma_cycles_to_date(
                days as int,
                place.num_400y_cycles as int,
                place.num_100y_cycles as int,
                place.num_4y_cycles as int,
                place.years as int,
                place.remainder as int,
                month + 1,
                month_days + 1,
            );
        }

        // Finally, adjust the day numbers for human reasons: the first day
        // of the month is the 1st, rather than the 0th, and the year needs
        // to be adjusted relative to the epoch.
        let date = Self {
            yearday: (day_of_year + 1) as i16,
            weekday: days_to_weekday(days),
            ymd: YMD { year: years + 2000, month: month_variant, day: month_days + 1 },
        };
        proof {
            date.lemma_of_day_number();
        }
        date
    }
}

/// Where a day lies in the cycles of the calendar, counted from
/// 1 March 2000: so many times 400 years, then up to three times 100
/// years, up to 24 times four years, up to three years, and the days
/// that are left in the year that begins on 1 March.
struct CyclePlace {
    num_400y_cycles: i64,
    num_100y_cycles: i64,
    num_4y_cycles: i64,
    years: i64,
    remainder: i64,
}

impl CyclePlace {
    /// The parts add up to `days`, and stay in their ranges. Only the
    /// day that ends four years of which the last is a leap year is
    /// the 366th of its year.
    spec fn is_place_of(self, days: int) -> bool {
        &&& days == 146097 * self.num_400y_cycles + 36524 * self.num_100y_cycles + 1461
            * self.num_4y_cycles + 365 * self.years + self.remainder
        &&& 0 <= self.num_100y_cycles <= 3
        &&& 0 <= self.num_4y_cycles <= 24
        &&& 0 <= self.years <= 3
        &&& 0 <= self.remainder <= 365
        &&& self.remainder == 365 ==> self.years == 3 && (self.num_4y_cycles < 24
            || self.num_100y_cycles == 3)
    }

    /// Finds the numbers of 400-year, 100-year and 4-year cycles and of
    /// years by constantly subtracting from the number of leftover days.
    fn of_days(days: i64) -> (r: Self)
        ensures
            r.is_place_of(days as int),
            -63_137_000_000_000 <= r.num_400y_cycles <= 63_137_000_000_000,
    {
        let (num_400y_cycles, mut remainder) = split_cycles(days, DAYS_IN_400Y);

        // The last day of the 400 years is a leap day, which belongs to
        // the fourth century and not to a fifth: hence the cap.
        let mut num_100y_cycles: i64 = remainder / DAYS_IN_100Y;
        if num_100y_cycles > 3 {
            num_100y_cycles = 3;
        }
        remainder -= num_100y_cycles * DAYS_IN_100Y;  // remainder is now days left in this 100-year cycle

        let num_4y_cycles: i64 = remainder / DAYS_IN_4Y;
        remainder -= num_4y_cycles * DAYS_IN_4Y;  // remainder is now days left in this 4-year cycle

        // Likewise the last day of the four years belongs to the fourth.
        let mut years: i64 = remainder / 365;
        if years > 3 {
            years = 3;
        }
        remainder -= years * 365;  // remainder is now days left in this year

        CyclePlace { num_400y_cycles, num_100y_cycles, num_4y_cycles, years, remainder }
    }
}

/// Works out the month and the number of days into the month of a day
/// of the year that begins on 1 March, by scanning the time triangle for
/// the month that has the correct number of days elapsed at the end of
/// it. The month is counted from March as 0 to February as 11, the day
/// from 0.
fn month_of_march_year(remainder: i64) -> (r: (i8, i8))
    requires
        0 <= remainder <= 365,
    ensures
        0 <= r.0 <= 11,
        0 <= r.1 < march_length((r.0 + 2) % 12 + 1),
        remainder == march_offset((r.0 + 2) % 12 + 1) + r.1,
{
    let triangle = time_triangle();
    let mut index: usize = 0;
    while index < 11 && triangle[index] > remainder
        invariant
            index <= 11,
            triangle@ =~= seq![337i64, 306, 275, 245, 214, 184, 153, 122, 92, 61, 31],
            forall|j: int| 0 <= j < index ==> triangle@[j] > remainder,
        decreases 11 - index,
    {
        index += 1;
    }
    assert(index > 0 ==> triangle@[index - 1] > remainder);
    // (it is "11 - index" below because the triangle goes backwards)
    if index < 11 {
        (11 - index as i8, (remainder - triangle[index]) as i8)
    } else {
        (0, remainder as i8)  // No month found? Then it is March.
    }
}

impl DatePiece for LocalDate {
    open spec fn date_piece(&self) -> LocalDate {
        *self
    }

    open spec fn has_date_piece(&self) -> bool {
        true
    }

    fn year(&self) -> (r: i64) {
        self.ymd.year
    }

    fn month(&self) -> (r: Month) {
        self.ymd.month
    }

    fn day(&self) -> (r: i8) {
        self.ymd.day
    }

    fn yearday(&self) -> (r: i16) {
        self.yearday
    }

    fn weekday(&self) -> (r: Weekday) {
        self.weekday
    }

    fn year_of_century(&self) -> (r: i64) {
        self.year() % 100
    }

    fn years_from_2000(&self) -> (r: i64) {
        self.year() - 2000
    }
}

/// The day that lies so many weeks and days after the Monday of the week
/// of 4 January falls on the day of the week that was asked for.
pub proof fn lemma_iso_week_day(jan_4: int, week: int, weekday: Weekday)
    ensures
        Weekday::of_day_number(
            jan_4 - 3 + (7 * week + weekday.iso_number() - (Weekday::of_day_number(
                jan_4,
            ).iso_number() + 3)) - 1,
        ) == weekday,
{
    let i = weekday_index(jan_4);
    let w4 = Weekday::of_day_number(jan_4).iso_number();
    assert(0 <= i < 7);
    assert(w4 == if i == 0 { 7int } else { i });
    let monday = jan_4 - (w4 - 1);
    assert(weekday_index(monday) == 1);
    let target = monday + 7 * (week - 1) + (weekday.iso_number() - 1);
    assert(weekday_index(target) == weekday.iso_number() % 7);
}

/// The quotient of two numbers rounded towards zero, as the machine
/// divides.
pub open spec fn div_toward_zero(a: int, b: int) -> int {
    if a >= 0 {
        a / b
    } else {
        -((-a) / b)
    }
}

/// What is left of `a` after the division by `b` that rounds towards
/// zero: it has the sign of `a`.
pub open spec fn rem_toward_zero(a: int, b: int) -> int {
    a - b * div_toward_zero(a, b)
}

/// The hour, minute, second and millisecond of a time of day, as
/// unbounded integers.
pub struct TimeFields {
    pub hour: int,
    pub minute: int,
    pub second: int,
    pub millisecond: int,
}

/// A **local time** is a time on the timeline that recurs once a day,
/// *without a time zone*.
#[derive(PartialEq, Eq, Structural, PartialOrd, Ord, Clone, Copy, Debug)]
pub struct LocalTime {
    hour: i8,
    minute: i8,
    second: i8,
    millisecond: i16,
}

impl View for LocalTime {
    type V = TimeFields;

    closed spec fn view(&self) -> TimeFields {
        TimeFields {
            hour: self.hour as int,
            minute: self.minute as int,
            second: self.second as int,
            millisecond: self.millisecond as int,
        }
    }
}

impl LocalTime {
    /// The time is one that a clock shows, from 00:00:00.000 to
    /// 23:59:59.999, or it is 24:00:00.000, the end of the day.
    pub open spec fn wf(self) -> bool {
        ||| self.within_day() && 0 <= self@.millisecond <= 999
        ||| self@.hour == 24 && self@.minute == 0 && self@.second == 0 && self@.millisecond == 0
    }

    /// The hour, the minute and the second are those of a clock.
    pub open spec fn within_day(self) -> bool {
        0 <= self@.hour <= 23 && 0 <= self@.minute <= 59 && 0 <= self@.second <= 59
    }

    /// The number of seconds from midnight to this time, ignoring
    /// milliseconds.
    pub open spec fn seconds_of_day(self) -> int {
        self@.hour * 3600 + self@.minute * 60 + self@.second
    }

    /// The time that is shown `seconds` seconds after midnight, with the
    /// given milliseconds. For a number of seconds that is negative or
    /// above 8 bits' worth of hours, the fields are what 8 bits keep of
    /// the quotients, rounded towards zero.
    pub closed spec fn of_seconds(seconds: int, millisecond: int) -> LocalTime {
        LocalTime {
            hour: div_toward_zero(div_toward_zero(seconds, 60), 60) as i8,
            minute: rem_toward_zero(div_toward_zero(seconds, 60), 60) as i8,
            second: rem_toward_zero(seconds, 60) as i8,
            millisecond: millisecond as i16,
        }
    }

    /// The fields that `of_seconds` gives, for every number of seconds.
    pub proof fn lemma_of_seconds_fields(seconds: int, millisecond: int)
        ensures
            LocalTime::of_seconds(seconds, millisecond)@ == (TimeFields {
                hour: (div_toward_zero(div_toward_zero(seconds, 60), 60) as i8) as int,
                minute: (rem_toward_zero(div_toward_zero(seconds, 60), 60) as i8) as int,
                second: (rem_toward_zero(seconds, 60) as i8) as int,
                millisecond: (millisecond as i16) as int,
            }),
    {
    }

    /// Within a day, `of_seconds` gives the time of a clock.
    pub proof fn lemma_of_seconds(seconds: int, millisecond: int)
        requires
            0 <= seconds <= 86400,
            i16::MIN <= millisecond <= i16::MAX,
        ensures
            LocalTime::of_seconds(seconds, millisecond)@ == (TimeFields {
                hour: seconds / 3600,
                minute: seconds / 60 % 60,
                second: seconds % 60,
                millisecond,
            }),
            LocalTime::of_seconds(seconds, millisecond).seconds_of_day() == seconds,
            seconds < 86400 ==> LocalTime::of_seconds(seconds, millisecond).within_day(),
    {
        assert(seconds / 60 / 60 == seconds / 3600);
    }

    /// A time is known by its four fields.
    pub proof fn lemma_same_fields(self, other: LocalTime)
        requires
            self@ == other@,
        ensures
            self == other,
    {
    }

    /// A time of a clock is the time that is shown so many seconds after
    /// midnight.
    pub proof fn lemma_seconds_of_day(self)
        requires
            self.within_day() || (self@.hour == 24 && self@.minute == 0 && self@.second == 0),
        ensures
            0 <= self.seconds_of_day() <= 86400,
            LocalTime::of_seconds(self.seconds_of_day(), self@.millisecond) == self,
    {
        let n = self.seconds_of_day();
        assert(n / 60 == self@.hour * 60 + self@.minute);
        assert(n % 60 == self@.second);
        assert(n / 60 / 60 == self@.hour);
        assert(n / 60 % 60 == self@.minute);
    }

    /// Computes the number of hours, minutes, and seconds, based on the
    /// number of seconds that have elapsed since midnight.
    pub fn from_seconds_since_midnight(seconds: i64) -> (r: Self)
        ensures
            r == LocalTime::of_seconds(seconds as int, 0),
            0 <= seconds < 86400 ==> r.wf(),
    {
        proof {
            if 0 <= seconds < 86400 {
                LocalTime::lemma_of_seconds(seconds as int, 0);
            }
        }
        Self::from_seconds_and_milliseconds_since_midnight(seconds, 0)
    }

    /// Computes the number of hours, minutes, and seconds, based on the
    /// number of seconds that have elapsed since midnight.
    pub fn from_seconds_and_milliseconds_since_midnight(
        seconds: i64,
        millisecond_of_second: i16,
    ) -> (r: Self)
        ensures
            r == LocalTime::of_seconds(seconds as int, millisecond_of_second as int),
            0 <= seconds < 86400 && 0 <= millisecond_of_second <= 999 ==> r.wf(),
    {
        proof {
            if 0 <= seconds < 86400 {
                LocalTime::lemma_of_seconds(seconds as int, millisecond_of_second as int);
            }
        }
        Self {
            hour: #[verifier::truncate]
            ((seconds / 60 / 60) as i8),
            minute: #[verifier::truncate]
            ((seconds / 60 % 60) as i8),
            second: #[verifier::truncate]
            ((seconds % 60) as i8),
            millisecond: millisecond_of_second,
        }
    }

    /// Returns the time at midnight, with all fields initialised to 0.
    pub fn midnight() -> (r: Self)
        ensures
            r.wf(),
            r@ == (TimeFields { hour: 0, minute: 0, second: 0, millisecond: 0 }),
    {
        Self { hour: 0, minute: 0, second: 0, millisecond: 0 }
    }

    /// Creates a new timestamp instance with the given hour and minute
    /// fields. The second and millisecond fields are set to 0.
    ///
    /// The values are checked for validity before instantiation, and
    /// passing in values out of range will return an `Err`.
    pub fn hm(hour: i8, minute: i8) -> (r: Result<Self, Error>)
        ensures
            r is Ok <==> (0 <= hour <= 23 && 0 <= minute <= 59) || (hour == 24 && minute == 0),
            r matches Ok(time) ==> time.wf() && time@ == (TimeFields {
                hour: hour as int,
                minute: minute as int,
                second: 0,
                millisecond: 0,
            }),
            r matches Err(e) ==> e == Error::OutOfRange,
    {
        if (0 <= hour && hour < 24 && 0 <= minute && minute < 60) || (hour == 24 && minute == 0) {
            Ok(Self { hour, minute, second: 0, millisecond: 0 })
        } else {
            Err(Error::OutOfRange)
        }
    }

    /// Creates a new timestamp instance with the given hour, minute, and
    /// second fields. The millisecond field is set to 0.
    ///
    /// The values are checked for validity before instantiation, and
    /// passing in values out of range will return an `Err`.
    pub fn hms(hour: i8, minute: i8, second: i8) -> (r: Result<Self, Error>)
        ensures
            r is Ok <==> (0 <= hour <= 23 && 0 <= minute <= 59 && 0 <= second <= 59) || (hour
                == 24 && minute == 0 && second == 0),
            r matches Ok(time) ==> time.wf() && time@ == (TimeFields {
                hour: hour as int,
                minute: minute as int,
                second: second as int,
                millisecond: 0,
            }),
            r matches Err(e) ==> e == Error::OutOfRange,
    {
        if (0 <= hour && hour < 24 && 0 <= minute && minute < 60 && 0 <= second && second < 60)
            || (hour == 24 && minute == 0 && second == 0) {
            Ok(Self { hour, minute, second, millisecond: 0 })
        } else {
            Err(Error::OutOfRange)
        }
    }

    /// Creates a new timestamp instance with the given hour, minute,
    /// second, and millisecond fields.
    ///
    /// The values are checked for validity before instantiation, and
    /// passing in values out of range will return an `Err`. The hour 24
    /// is in range with no minutes, seconds or milliseconds, as the end
    /// of the day.
    pub fn hms_ms(hour: i8, minute: i8, second: i8, millisecond: i16) -> (r: Result<Self, Error>)
        ensures
            r is Ok <==> (0 <= hour <= 23 && 0 <= minute <= 59 && 0 <= second <= 59 && 0
                <= millisecond <= 999) || (hour == 24 && minute == 0 && second == 0
                && millisecond == 0),
            r matches Ok(time) ==> time.wf() && time@ == (TimeFields {
                hour: hour as int,
                minute: minute as int,
                second: second as int,
                millisecond: millisecond as int,
            }),
            r matches Err(e) ==> e == Error::OutOfRange,
    {
        if (0 <= hour && hour < 24 && 0 <= minute && minute < 60 && 0 <= second && second < 60
            && 0 <= millisecond && millisecond < 1000) || (hour == 24 && minute == 0 && second
            == 0 && millisecond == 0) {
            Ok(Self { hour, minute, second, millisecond })
        } else {
            Err(Error::OutOfRange)
        }
    }

    /// Calculate the number of seconds since midnight this time is at,
    /// ignoring milliseconds.
    pub fn to_seconds(self) -> (r: i64)
        ensures
            r == self.seconds_of_day(),
    {
        self.hour as i64 * 3600 + self.minute as i64 * 60 + self.second as i64
    }
}

impl TimePiece for LocalTime {
    open spec fn time_piece(&self) -> LocalTime {
        *self
    }

    open spec fn has_time_piece(&self) -> bool {
        true
    }

    fn hour(&self) -> (r: i8) {
        self.hour
    }

    fn minute(&self) -> (r: i8) {
        self.minute
    }

    fn second(&self) -> (r: i8) {
        self.second
    }

    fn millisecond(&self) -> (r: i16) {
        self.millisecond
    }
}

/// A **local date-time** is an exact instant on the timeline, *without a
/// time zone*.
#[derive(PartialEq, Eq, PartialOrd, Clone, Copy, Debug)]
pub struct LocalDateTime {
    date: LocalDate,
    time: LocalTime,
}

impl LocalDateTime {
    /// The date portion.
    pub closed spec fn spec_date(self) -> LocalDate {
        self.date
    }

    /// The time portion.
    pub closed spec fn spec_time(self) -> LocalTime {
        self.time
    }

    /// Both portions are well-formed.
    pub open spec fn wf(self) -> bool {
        self.spec_date().wf() && self.spec_time().wf()
    }

    /// The number of seconds from midnight, 1st January, 1970 to this
    /// date and time, ignoring milliseconds.
    pub open spec fn timestamp(self) -> int {
        self.spec_date().day_number() * 86400 + self.spec_time().seconds_of_day()
    }

    /// Whether the date is one of the calendar and the number of seconds
    /// from 1970 to this date and time fits in 64 bits, so that there is
    /// an [`Instant`] for it.
    pub open spec fn has_instant(self) -> bool {
        self.spec_date().wf() && i64::MIN <= self.timestamp() <= i64::MAX
    }

    /// The instant of this date and time: its seconds from 1970, and its
    /// milliseconds as they are.
    pub open spec fn instant(self) -> Instant {
        Instant::of_parts(self.timestamp(), self.spec_time()@.millisecond)
    }

    /// The date and time that a clock shows `seconds` seconds after
    /// midnight, 1st January, 1970, with the given milliseconds.
    pub closed spec fn at_spec(seconds: int, millisecond: int) -> LocalDateTime {
        LocalDateTime {
            date: LocalDate::of_day_number(seconds / 86400),
            time: LocalTime::of_seconds(seconds % 86400, millisecond),
        }
    }

    /// The date and time of an instant.
    pub open spec fn of_instant(instant: Instant) -> LocalDateTime {
        LocalDateTime::at_spec(instant.spec_seconds(), instant.spec_milliseconds())
    }

    /// The number of milliseconds from midnight, 1st January, 1970 to this
    /// date and time.
    pub open spec fn total_ms(self) -> int {
        self.timestamp() * 1000 + self.spec_time()@.millisecond
    }

    /// The date and time that a clock shows `total` milliseconds after
    /// midnight, 1st January, 1970.
    pub open spec fn at_total_ms(total: int) -> LocalDateTime {
        LocalDateTime::at_spec(total / 1000, total % 1000)
    }

    /// Whether the date and time that a clock shows `ms` milliseconds
    /// after this one can be worked out: this one has an instant, and so
    /// has the other.
    pub open spec fn can_shift(self, ms: int) -> bool {
        self.has_instant() && Duration::representable(self.total_ms() + ms)
    }

    /// The date and time that a clock shows `ms` milliseconds after this
    /// one, or before it if `ms` is negative.
    pub open spec fn shifted(self, ms: int) -> LocalDateTime {
        LocalDateTime::at_total_ms(self.total_ms() + ms)
    }

    /// A date and time worked out from a number of milliseconds has that
    /// number of milliseconds, and shows a time of a clock.
    pub proof fn lemma_at_total_ms(total: int)
        requires
            Duration::representable(total),
        ensures
            LocalDateTime::at_total_ms(total).wf(),
            LocalDateTime::at_total_ms(total).spec_time().within_day(),
            LocalDateTime::at_total_ms(total).has_instant(),
            LocalDateTime::at_total_ms(total).timestamp() == total / 1000,
            LocalDateTime::at_total_ms(total).spec_time()@.millisecond == total % 1000,
            LocalDateTime::at_total_ms(total).total_ms() == total,
    {
        LocalDateTime::lemma_at_spec_timestamp(total / 1000, total % 1000);
    }

    /// A date-time is known by its two portions.
    pub proof fn lemma_same_portions(self, other: LocalDateTime)
        requires
            self.spec_date() == other.spec_date(),
            self.spec_time() == other.spec_time(),
        ensures
            self == other,
    {
    }

    /// The portions of the date and time of a number of seconds.
    pub proof fn lemma_at_spec(seconds: int, millisecond: int)
        ensures
            LocalDateTime::at_spec(seconds, millisecond).spec_date() == LocalDate::of_day_number(
                seconds / 86400,
            ),
            LocalDateTime::at_spec(seconds, millisecond).spec_time() == LocalTime::of_seconds(
                seconds % 86400,
                millisecond,
            ),
    {
    }

    /// The date and time of a number of seconds has that number of
    /// seconds, and shows a time within the day.
    pub proof fn lemma_at_spec_timestamp(seconds: int, millisecond: int)
        requires
            i64::MIN <= seconds <= i64::MAX,
            i16::MIN <= millisecond <= i16::MAX,
        ensures
            LocalDateTime::at_spec(seconds, millisecond).spec_date().wf(),
            LocalDateTime::at_spec(seconds, millisecond).spec_time().within_day(),
            LocalDateTime::at_spec(seconds, millisecond).timestamp() == seconds,
            LocalDateTime::at_spec(seconds, millisecond).spec_time()@.millisecond == millisecond,
            LocalDateTime::at_spec(seconds, millisecond).has_instant(),
    {
        LocalDate::lemma_date_exists(seconds / 86400);
        LocalTime::lemma_of_seconds(seconds % 86400, millisecond);
    }

    /// Turning a date and time of a clock into its seconds from 1970 and
    /// these back into a date and time gives what one had. The end of
    /// the day written as 24:00:00 is left out: its seconds are those of
    /// the next day's 00:00:00, which is what comes back for them.
    pub proof fn lemma_seconds_round_trip(self)
        requires
            self.spec_date().wf(),
            self.spec_time().within_day(),
        ensures
            LocalDateTime::at_spec(self.timestamp(), self.spec_time()@.millisecond) == self,
    {
        let seconds = self.timestamp();
        let day = self.spec_date().day_number();
        let of_day = self.spec_time().seconds_of_day();
        assert(0 <= of_day < 86400);
        assert(seconds / 86400 == day && seconds % 86400 == of_day) by {
            assert(seconds == 86400 * day + of_day);
        }
        self.spec_date().lemma_of_day_number();
        self.spec_time().lemma_seconds_of_day();
    }

    /// Computes a complete date-time based on the values in the given
    /// Instant parameter.
    pub fn from_instant(instant: Instant) -> (r: Self)
        ensures
            r == LocalDateTime::of_instant(instant),
            r.spec_date().wf(),
            r.spec_time().within_day(),
            r.timestamp() == instant.spec_seconds(),
            r.spec_time()@.millisecond == instant.spec_milliseconds(),
            instant.wf() ==> r.wf(),
    {
        Self::at_ms(instant.seconds(), instant.milliseconds())
    }

    /// Computes a complete date-time based on the number of seconds that
    /// have elapsed since **midnight, 1st January, 1970**, setting the
    /// number of milliseconds to 0.
    pub fn at(seconds_since_1970_epoch: i64) -> (r: Self)
        ensures
            r == LocalDateTime::at_spec(seconds_since_1970_epoch as int, 0),
            r.wf(),
            r.spec_time().within_day(),
            r.timestamp() == seconds_since_1970_epoch,
            r.spec_time()@.millisecond == 0,
    {
        Self::at_ms(seconds_since_1970_epoch, 0)
    }

    /// Computes a complete date-time based on the number of seconds that
    /// have elapsed since **midnight, 1st January, 1970**,
    pub fn at_ms(seconds_since_1970_epoch: i64, millisecond_of_second: i16) -> (r: Self)
        ensures
            r == LocalDateTime::at_spec(
                seconds_since_1970_epoch as int,
                millisecond_of_second as int,
            ),
            r.spec_date().wf(),
            r.spec_time().within_day(),
            r.timestamp() == seconds_since_1970_epoch,
            r.spec_time()@.millisecond == millisecond_of_second,
            0 <= millisecond_of_second <= 999 ==> r.wf(),
    {
        // Just split the input value into days and seconds, and let
        // LocalDate and LocalTime do all the hard work.
        let (days, secs) = split_cycles(seconds_since_1970_epoch, SECONDS_IN_DAY);
        proof {
            LocalTime::lemma_of_seconds(secs as int, millisecond_of_second as int);
        }

        Self {
            date: LocalDate::from_days_since_epoch(days - EPOCH_DIFFERENCE),
            time: LocalTime::from_seconds_and_milliseconds_since_midnight(
                secs,
                millisecond_of_second,
            ),
        }
    }

    /// Creates a new local date time from a local date and a local time.
    pub fn new(date: LocalDate, time: LocalTime) -> (r: Self)
        ensures
            r.spec_date() == date,
            r.spec_time() == time,
    {
        Self { date, time }
    }

    /// Creates a new local date time from a local date and a local time.
    pub fn from_date_time(date: LocalDate, time: LocalTime) -> (r: Self)
        ensures
            r.spec_date() == date,
            r.spec_time() == time,
    {
        Self::new(date, time)
    }

    /// Returns the date portion of this date-time stamp.
    pub fn date(&self) -> (r: LocalDate)
        ensures
            r == self.spec_date(),
    {
        self.date
    }

    /// Returns the time portion of this date-time stamp.
    pub fn time(&self) -> (r: LocalTime)
        ensures
            r == self.spec_time(),
    {
        self.time
    }

    /// The instant of this date and time, taken as one of UTC.
    pub fn to_instant(&self) -> (r: Instant)
        requires
            self.has_instant(),
        ensures
            r == self.instant(),
            r.spec_seconds() == self.timestamp(),
            r.spec_milliseconds() == self.spec_time()@.millisecond,
            r.total_ms() == self.total_ms(),
            self.spec_time().wf() ==> r.wf(),
    {
        proof {
            Instant::lemma_of_parts(self.timestamp(), self.spec_time()@.millisecond);
            lemma_year_bounds(
                self.date@.year as int,
                self.date@.month.number(),
                self.date@.day as int,
            );
        }
        let days: i128 = match self.date.ymd.day_number_wide() {
            Some(days) => days,
            None => 0,
        };
        let seconds: i128 = days * 86400 + self.time.to_seconds() as i128;
        Instant::at_ms(seconds as i64, self.time.millisecond)
    }

    /// The date and time that a clock shows `seconds` seconds after this
    /// one.
    pub fn add_seconds(&self, seconds: i64) -> (r: Self)
        requires
            self.can_shift(seconds * 1000),
        ensures
            r == self.shifted(seconds * 1000),
            r.wf(),
            r.spec_time().within_day(),
            r.total_ms() == self.total_ms() + seconds * 1000,
    {
        proof {
            LocalDateTime::lemma_at_total_ms(self.total_ms() + seconds * 1000);
        }
        Self::from_instant(self.to_instant() + Duration::of(seconds))
    }
}

impl core::ops::Add<Duration> for LocalDateTime {
    type Output = LocalDateTime;

    /// The date and time that a clock shows `duration` after this one.
    fn add(self, duration: Duration) -> (r: LocalDateTime)
        ensures
            r.wf(),
            r.spec_time().within_day(),
            r.total_ms() == self.total_ms() + duration.total_ms(),
    {
        proof {
            LocalDateTime::lemma_at_total_ms(self.total_ms() + duration.total_ms());
        }
        Self::from_instant(self.to_instant() + duration)
    }
}

impl AddSpecImpl<Duration> for LocalDateTime {
    open spec fn obeys_add_spec() -> bool {
        true
    }

    open spec fn add_req(self, duration: Duration) -> bool {
        self.can_shift(duration.total_ms())
    }

    open spec fn add_spec(self, duration: Duration) -> LocalDateTime {
        self.shifted(duration.total_ms())
    }
}

impl core::ops::Sub<Duration> for LocalDateTime {
    type Output = LocalDateTime;

    /// The date and time that a clock shows `duration` before this one.
    fn sub(self, duration: Duration) -> (r: LocalDateTime)
        ensures
            r.wf(),
            r.spec_time().within_day(),
            r.total_ms() == self.total_ms() - duration.total_ms(),
    {
        proof {
            LocalDateTime::lemma_at_total_ms(self.total_ms() - duration.total_ms());
        }
        Self::from_instant(self.to_instant() - duration)
    }
}

impl SubSpecImpl<Duration> for LocalDateTime {
    open spec fn obeys_sub_spec() -> bool {
        true
    }

    open spec fn sub_req(self, duration: Duration) -> bool {
        self.can_shift(-duration.total_ms())
    }

    open spec fn sub_spec(self, duration: Duration) -> LocalDateTime {
        self.shifted(-duration.total_ms())
    }
}

impl DatePiece for LocalDateTime {
    open spec fn date_piece(&self) -> LocalDate {
        self.spec_date()
    }

    open spec fn has_date_piece(&self) -> bool {
        true
    }

    fn year(&self) -> (r: i64) {
        self.date.ymd.year
    }

    fn month(&self) -> (r: Month) {
        self.date.ymd.month
    }

    fn day(&self) -> (r: i8) {
        self.date.ymd.day
    }

    fn yearday(&self) -> (r: i16) {
        self.date.yearday
    }

    fn weekday(&self) -> (r: Weekday) {
        self.date.weekday
    }

    fn year_of_century(&self) -> (r: i64) {
        self.year() % 100
    }

    fn years_from_2000(&self) -> (r: i64) {
        self.year() - 2000
    }
}

impl TimePiece for LocalDateTime {
    open spec fn time_piece(&self) -> LocalTime {
        self.spec_time()
    }

    open spec fn has_time_piece(&self) -> bool {
        true
    }

    fn hour(&self) -> (r: i8) {
        self.time.hour
    }

    fn minute(&self) -> (r: i8) {
        self.time.minute
    }

    fn second(&self) -> (r: i8) {
        self.time.second
    }

    fn millisecond(&self) -> (r: i16) {
        self.time.millisecond
    }
}

} // verus!
