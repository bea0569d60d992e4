//! ISO-8601 date and time calculations, which use years, months, days,
//! hours, minutes, and seconds.

use vstd::prelude::*;

use self::datetime::{rem_toward_zero, LocalDate, LocalTime, Month, Weekday};

pub mod civil;
pub mod convenience;
pub mod datetime;
pub mod fmt;
pub mod iter;
pub mod offset;
pub mod order;
pub mod parse;
pub mod zone;

verus! {

/// The **date piece** trait is used for date and time values that have
/// date components of years, months, and days.
pub trait DatePiece {
    /// The date whose components are read.
    spec fn date_piece(&self) -> LocalDate;

    /// Whether the date can be read. Where reading it takes arithmetic,
    /// this says when the arithmetic stays within 64 bits.
    spec fn has_date_piece(&self) -> bool;

    /// The year, in absolute terms.
    /// This is in human-readable format, so the year 2014 actually has a
    /// year value of 2014, rather than 14 or 114 or anything like that.
    fn year(&self) -> (r: i64)
        requires
            self.has_date_piece(),
        ensures
            r == self.date_piece()@.year,
    ;

    /// The month of the year.
    fn month(&self) -> (r: Month)
        requires
            self.has_date_piece(),
        ensures
            r == self.date_piece()@.month,
    ;

    /// The day of the month, from 1 to 31.
    fn day(&self) -> (r: i8)
        requires
            self.has_date_piece(),
        ensures
            r == self.date_piece()@.day,
    ;

    /// The day of the year, from 1 to 366.
    fn yearday(&self) -> (r: i16)
        requires
            self.has_date_piece(),
        ensures
            r == self.date_piece().spec_yearday(),
    ;

    /// The day of the week.
    fn weekday(&self) -> (r: Weekday)
        requires
            self.has_date_piece(),
        ensures
            r == self.date_piece().spec_weekday(),
    ;

    /// The number of years into the century.
    /// This is the same as the last two digits of the year, with the
    /// sign of the year.
    fn year_of_century(&self) -> (r: i64)
        requires
            self.has_date_piece(),
        ensures
            r == rem_toward_zero(self.date_piece()@.year as int, 100),
    ;

    /// The year number, relative to the year 2000.
    /// Internally, many routines use years relative the year 2000,
    /// rather than the year 0 (well, 1 BCE).
    fn years_from_2000(&self) -> (r: i64)
        requires
            self.has_date_piece(),
            self.date_piece()@.year - 2000 >= i64::MIN,
        ensures
            r == self.date_piece()@.year - 2000,
    ;
}

/// The **time piece** trait is used for date and time values that have
/// time components of hours, minutes, and seconds.
pub trait TimePiece {
    /// The time whose components are read.
    spec fn time_piece(&self) -> LocalTime;

    /// Whether the time can be read. Where reading it takes arithmetic,
    /// this says when the arithmetic stays within 64 bits.
    spec fn has_time_piece(&self) -> bool;

    /// The hour of the day.
    fn hour(&self) -> (r: i8)
        requires
            self.has_time_piece(),
        ensures
            r == self.time_piece()@.hour,
    ;

    /// The minute of the hour.
    fn minute(&self) -> (r: i8)
        requires
            self.has_time_piece(),
        ensures
            r == self.time_piece()@.minute,
    ;

    /// The second of the minute.
    fn second(&self) -> (r: i8)
        requires
            self.has_time_piece(),
        ensures
            r == self.time_piece()@.second,
    ;

    /// The millisecond of the second.
    fn millisecond(&self) -> (r: i16)
        requires
            self.has_time_piece(),
        ensures
            r == self.time_piece()@.millisecond,
    ;
}

} // verus!
