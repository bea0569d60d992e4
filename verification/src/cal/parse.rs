//! Dates and times read from their ISO-8601 notation.
//!
//! The notation is taken apart by the `iso8601` crate, which hands back
//! numbers that it did not hold against the calendar. Here the numbers
//! are checked and turned into dates and times.

use core::str::FromStr;
use vstd::prelude::*;
use vstd::string::StringExecFns;

use crate::cal::datetime::{
    Error as DateTimeError, LocalDate, LocalDateTime, LocalTime, Month, TimeFields, Weekday,
};
use crate::cal::offset::{Error as OffsetError, Offset, OffsetDateTime};

verus! {

/// The numbers of a date as they were read, in one of the three forms
/// that the notation has.
#[derive(PartialEq, Eq, Structural, Debug, Copy, Clone)]
pub enum DateFields {
    /// A year, a month and a day of the month.
    YMD { year: i32, month: u32, day: u32 },
    /// A year, a week and a day of the week.
    Week { year: i32, ww: u32, d: u32 },
    /// A year and a day of the year.
    Ordinal { year: i32, ddd: u32 },
}

/// The numbers of a time of day as they were read, with the hours and
/// minutes of the offset from UTC that followed it, if one did.
#[derive(PartialEq, Eq, Structural, Debug, Copy, Clone)]
pub struct ClockFields {
    pub hour: u32,
    pub minute: u32,
    pub second: u32,
    pub millisecond: u32,
    pub tz_offset_hours: i32,
    pub tz_offset_minutes: i32,
}

/// The numbers of a date and a time of day as they were read.
#[derive(PartialEq, Eq, Structural, Debug, Copy, Clone)]
pub struct DateTimeFields {
    pub date: DateFields,
    pub time: ClockFields,
}

/// What `iso8601::date` makes of a text: the numbers of the date, or the
/// message with which it turns the text down.
pub uninterp spec fn iso8601_date(input: Seq<char>) -> Result<DateFields, Seq<char>>;

/// What `iso8601::time` makes of a text: the numbers of the time, or the
/// message with which it turns the text down.
pub uninterp spec fn iso8601_time(input: Seq<char>) -> Result<ClockFields, Seq<char>>;

/// What `iso8601::datetime` makes of a text: the numbers of the date and
/// the time, or the message with which it turns the text down.
pub uninterp spec fn iso8601_datetime(input: Seq<char>) -> Result<DateTimeFields, Seq<char>>;

/// Whether `parsed` is what came back for a text of which the parser
/// makes `named`.
pub open spec fn is_parse_of<T>(parsed: Result<T, String>, named: Result<T, Seq<char>>) -> bool {
    match parsed {
        Ok(fields) => named == Ok::<T, Seq<char>>(fields),
        Err(message) => named == Err::<T, Seq<char>>(message@),
    }
}

/// Reads the numbers of a date with `iso8601::date`, which takes the
/// text apart and has the same answer for the same text.
#[verifier::external_body]
fn read_date(input: &str) -> (r: Result<DateFields, String>)
    ensures
        is_parse_of(r, iso8601_date(input@)),
{
    match iso8601::date(input) {
        Ok(iso8601::Date::YMD { year, month, day }) => Ok(DateFields::YMD { year, month, day }),
        Ok(iso8601::Date::Week { year, ww, d }) => Ok(DateFields::Week { year, ww, d }),
        Ok(iso8601::Date::Ordinal { year, ddd }) => Ok(DateFields::Ordinal { year, ddd }),
        Err(message) => Err(message),
    }
}

/// Reads the numbers of a time of day with `iso8601::time`, which takes
/// the text apart and has the same answer for the same text.
#[verifier::external_body]
fn read_time(input: &str) -> (r: Result<ClockFields, String>)
    ensures
        is_parse_of(r, iso8601_time(input@)),
{
    match iso8601::time(input) {
        Ok(t) => Ok(
            ClockFields {
                hour: t.hour,
                minute: t.minute,
                second: t.second,
                millisecond: t.millisecond,
                tz_offset_hours: t.tz_offset_hours,
                tz_offset_minutes: t.tz_offset_minutes,
            },
        ),
        Err(message) => Err(message),
    }
}

/// Reads the numbers of a date and a time of day with
/// `iso8601::datetime`, which takes the text apart and has the same
/// answer for the same text.
#[verifier::external_body]
fn read_datetime(input: &str) -> (r: Result<DateTimeFields, String>)
    ensures
        is_parse_of(r, iso8601_datetime(input@)),
{
    let parsed = iso8601::datetime(input)?;
    let (t, date) = (parsed.time, match parsed.date {
        iso8601::Date::YMD { year, month, day } => DateFields::YMD { year, month, day },
        iso8601::Date::Week { year, ww, d } => DateFields::Week { year, ww, d },
        iso8601::Date::Ordinal { year, ddd } => DateFields::Ordinal { year, ddd },
    });
    let time = ClockFields {
        hour: t.hour, minute: t.minute, second: t.second, millisecond: t.millisecond,
        tz_offset_hours: t.tz_offset_hours, tz_offset_minutes: t.tz_offset_minutes,
    };
    Ok(DateTimeFields { date, time })
}

/// The ways in which a text can fail to give a date or a time: it may
/// not be in the notation at all, or its numbers may name no date.
#[derive(PartialEq, Debug, Clone)]
pub enum Error<E> {
    /// The numbers were read, and are out of range.
    Date(E),
    /// The text is not in the notation. The message says so.
    Parse(String),
}

/// What went wrong, in words: a word on whether the text was read, and
/// then the message `detail` of the error of the date, or the parser's
/// own message.
pub open spec fn message_text<E>(error: Error<E>, detail: Seq<char>) -> Seq<char> {
    match error {
        Error::Date(_) => "parsing resulted in an invalid date: "@ + detail,
        Error::Parse(message) => "parse error: "@ + message@,
    }
}

impl Error<DateTimeError> {
    /// What went wrong, in words.
    pub fn message(&self) -> (r: String)
        ensures
            r@ == message_text(*self, "datetime field out of range"@),
    {
        match self {
            Error::Date(e) => {
                let mut text = "parsing resulted in an invalid date: ".to_owned();
                text.append(e.message());
                text
            },
            Error::Parse(message) => {
                let mut text = "parse error: ".to_owned();
                text.append(message.as_str());
                text
            },
        }
    }
}

impl Error<OffsetError> {
    /// What went wrong, in words.
    pub fn message(&self) -> (r: String)
        ensures
            r@ == message_text(
                *self,
                match self {
                    Error::Date(OffsetError::OutOfRange) => "offset field out of range"@,
                    Error::Date(OffsetError::SignMismatch) => "sign mismatch"@,
                    _ => "datetime field out of range"@,
                },
            ),
    {
        match self {
            Error::Date(e) => {
                let mut text = "parsing resulted in an invalid date: ".to_owned();
                text.append(e.message());
                text
            },
            Error::Parse(message) => {
                let mut text = "parse error: ".to_owned();
                text.append(message.as_str());
                text
            },
        }
    }
}

/// The date that the numbers name. A number is first cut down to the 8
/// bits that a month or a day of the week is held in, and to 64 bits
/// otherwise.
pub open spec fn date_of_fields(fields: DateFields) -> Result<LocalDate, DateTimeError> {
    match fields {
        DateFields::YMD { year, month, day } => if 1 <= (month as i8) <= 12 {
            LocalDate::ymd_spec(year as int, Month::of_number((month as i8) as int), (day as i8) as int)
        } else {
            Err(DateTimeError::OutOfRange)
        },
        DateFields::Week { year, ww, d } => if 1 <= (d as i8) <= 7 {
            LocalDate::ywd_spec(year as int, ww as int, Weekday::of_index((d as i8) as int % 7))
        } else {
            Err(DateTimeError::OutOfRange)
        },
        DateFields::Ordinal { year, ddd } => LocalDate::yd_spec(year as int, ddd as int),
    }
}

/// Whether the numbers, each cut down to the bits that it is held in,
/// name a time of a clock from 00:00:00.000 to 23:59:59.999, or the end
/// of the day, 24:00:00.000.
pub open spec fn is_time_of_fields(fields: ClockFields) -> bool {
    ||| {
        &&& 0 <= (fields.hour as i8) <= 23
        &&& 0 <= (fields.minute as i8) <= 59
        &&& 0 <= (fields.second as i8) <= 59
        &&& 0 <= (fields.millisecond as i16) <= 999
    }
    ||| {
        &&& (fields.hour as i8) == 24
        &&& (fields.minute as i8) == 0
        &&& (fields.second as i8) == 0
        &&& (fields.millisecond as i16) == 0
    }
}

/// Turns the numbers of a date into a date, if they name one.
pub fn fields_to_date(fields: DateFields) -> (r: Result<LocalDate, DateTimeError>)
    ensures
        r == date_of_fields(fields),
        r matches Ok(date) ==> date.wf(),
{
    match fields {
        DateFields::YMD { year, month, day } => {
            let month_variant = match Month::from_one(
                #[verifier::truncate]
                (month as i8),
            ) {
                Ok(m) => m,
                Err(e) => { return Err(e); },
            };
            LocalDate::ymd(
                year as i64,
                month_variant,
                #[verifier::truncate]
                (day as i8),
            )
        },
        DateFields::Week { year, ww, d } => {
            let weekday_variant = match Weekday::from_one(
                #[verifier::truncate]
                (d as i8),
            ) {
                Ok(w) => w,
                Err(e) => { return Err(e); },
            };
            LocalDate::ywd(year as i64, ww as i64, weekday_variant)
        },
        DateFields::Ordinal { year, ddd } => LocalDate::yd(year as i64, ddd as i64),
    }
}

/// Turns the numbers of a time of day into a time, if they name one.
pub fn fields_to_time(fields: ClockFields) -> (r: Result<LocalTime, DateTimeError>)
    ensures
        r is Ok <==> is_time_of_fields(fields),
        r matches Ok(time) ==> time.wf() && time@ == time_of_fields(fields),
        r matches Err(e) ==> e == DateTimeError::OutOfRange,
{
    let h = #[verifier::truncate]
    (fields.hour as i8);
    let m = #[verifier::truncate]
    (fields.minute as i8);
    let s = #[verifier::truncate]
    (fields.second as i8);
    let ms = #[verifier::truncate]
    (fields.millisecond as i16);

    LocalTime::hms_ms(h, m, s, ms)
}

/// What was read of a text, with the message as the characters that it
/// holds.
pub open spec fn read_as<T>(parsed: Result<T, String>) -> Result<T, Seq<char>> {
    match parsed {
        Ok(fields) => Ok(fields),
        Err(message) => Err(message@),
    }
}

/// The time that the numbers name, with each number cut down to the
/// bits that it is held in.
pub open spec fn time_of_fields(fields: ClockFields) -> TimeFields {
    TimeFields {
        hour: (fields.hour as i8) as int,
        minute: (fields.minute as i8) as int,
        second: (fields.second as i8) as int,
        millisecond: (fields.millisecond as i16) as int,
    }
}

/// Whether `r` is what a text gives as a date, if `read` is what the
/// parser makes of the text: the date that the numbers name; or the error
/// that says that they name none; or the parser's message, if the text
/// was not in the notation.
pub open spec fn is_date_outcome(
    read: Result<DateFields, Seq<char>>,
    r: Result<LocalDate, Error<DateTimeError>>,
) -> bool {
    match read {
        Ok(fields) => match date_of_fields(fields) {
            Ok(date) => r == Ok::<LocalDate, Error<DateTimeError>>(date),
            Err(e) => r == Err::<LocalDate, Error<DateTimeError>>(Error::Date(e)),
        },
        Err(message) => r matches Err(Error::Parse(text)) && text@ == message,
    }
}

/// Whether `r` is what a text gives as a time of day, if `read` is what
/// the parser makes of the text: the time that the numbers name; or the
/// error that says that they name none; or the parser's message, if the
/// text was not in the notation.
pub open spec fn is_time_outcome(
    read: Result<ClockFields, Seq<char>>,
    r: Result<LocalTime, Error<DateTimeError>>,
) -> bool {
    match read {
        Ok(fields) => if is_time_of_fields(fields) {
            r matches Ok(time) && time@ == time_of_fields(fields)
        } else {
            r == Err::<LocalTime, Error<DateTimeError>>(Error::Date(DateTimeError::OutOfRange))
        },
        Err(message) => r matches Err(Error::Parse(text)) && text@ == message,
    }
}

/// Whether `r` is what a text gives as a date and time, if `read` is what
/// the parser makes of the text: the date and the time that the numbers
/// name; or the error of the date, or else that of the time, if they name
/// none; or the parser's message, if the text was not in the notation.
/// An offset that was read is left aside.
pub open spec fn is_datetime_outcome(
    read: Result<DateTimeFields, Seq<char>>,
    r: Result<LocalDateTime, Error<DateTimeError>>,
) -> bool {
    match read {
        Ok(fields) => match date_of_fields(fields.date) {
            Ok(date) => if is_time_of_fields(fields.time) {
                r matches Ok(local) && local.spec_date() == date && local.spec_time()@
                    == time_of_fields(fields.time)
            } else {
                r == Err::<LocalDateTime, Error<DateTimeError>>(
                    Error::Date(DateTimeError::OutOfRange),
                )
            },
            Err(e) => r == Err::<LocalDateTime, Error<DateTimeError>>(Error::Date(e)),
        },
        Err(message) => r matches Err(Error::Parse(text)) && text@ == message,
    }
}

/// The offset that the hours and minutes name, each cut down to 8 bits:
/// its seconds, or the error that says why there is none.
pub open spec fn offset_of_fields(fields: ClockFields) -> Result<int, OffsetError> {
    let hours = (fields.tz_offset_hours as i8) as int;
    let minutes = (fields.tz_offset_minutes as i8) as int;
    if (hours > 0 && minutes < 0) || (hours < 0 && minutes > 0) {
        Err(OffsetError::SignMismatch)
    } else if -24 < hours < 24 && -60 < minutes < 60 {
        Ok(hours * 3600 + minutes * 60)
    } else {
        Err(OffsetError::OutOfRange)
    }
}

/// Whether `r` is what a text gives as a date and time with an offset, if
/// `read` is what the parser makes of the text: the date, the time and
/// the offset that the numbers name; or the error of the date, or else
/// that of the time, or else that of the offset, if they name none; or
/// the parser's message, if the text was not in the notation.
pub open spec fn is_offset_datetime_outcome(
    read: Result<DateTimeFields, Seq<char>>,
    r: Result<OffsetDateTime, Error<OffsetError>>,
) -> bool {
    match read {
        Ok(fields) => match date_of_fields(fields.date) {
            Ok(date) => if is_time_of_fields(fields.time) {
                match offset_of_fields(fields.time) {
                    Ok(seconds) => r matches Ok(zoned) && zoned.offset.spec_seconds() == Some(
                        seconds,
                    ) && zoned.local.spec_date() == date && zoned.local.spec_time()@
                        == time_of_fields(fields.time),
                    Err(e) => r == Err::<OffsetDateTime, Error<OffsetError>>(Error::Date(e)),
                }
            } else {
                r == Err::<OffsetDateTime, Error<OffsetError>>(
                    Error::Date(OffsetError::Date(DateTimeError::OutOfRange)),
                )
            },
            Err(e) => r == Err::<OffsetDateTime, Error<OffsetError>>(
                Error::Date(OffsetError::Date(e)),
            ),
        },
        Err(message) => r matches Err(Error::Parse(text)) && text@ == message,
    }
}

/// Turns what was read of a text into a date.
pub fn date_from_parsed(parsed: Result<DateFields, String>) -> (r: Result<
    LocalDate,
    Error<DateTimeError>,
>)
    ensures
        is_date_outcome(read_as(parsed), r),
        parsed matches Err(message) ==> r == Err::<LocalDate, Error<DateTimeError>>(
            Error::Parse(message),
        ),
        r matches Ok(date) ==> date.wf(),
{
    match parsed {
        Ok(fields) => match fields_to_date(fields) {
            Ok(date) => Ok(date),
            Err(e) => Err(Error::Date(e)),
        },
        Err(e) => Err(Error::Parse(e)),
    }
}

/// Turns what was read of a text into a time of day.
pub fn time_from_parsed(parsed: Result<ClockFields, String>) -> (r: Result<
    LocalTime,
    Error<DateTimeError>,
>)
    ensures
        is_time_outcome(read_as(parsed), r),
        parsed matches Err(message) ==> r == Err::<LocalTime, Error<DateTimeError>>(
            Error::Parse(message),
        ),
        r matches Ok(time) ==> time.wf(),
{
    match parsed {
        Ok(fields) => match fields_to_time(fields) {
            Ok(time) => Ok(time),
            Err(e) => Err(Error::Date(e)),
        },
        Err(e) => Err(Error::Parse(e)),
    }
}

/// Turns what was read of a text into a date and time.
pub fn datetime_from_parsed(parsed: Result<DateTimeFields, String>) -> (r: Result<
    LocalDateTime,
    Error<DateTimeError>,
>)
    ensures
        is_datetime_outcome(read_as(parsed), r),
        parsed matches Err(message) ==> r == Err::<LocalDateTime, Error<DateTimeError>>(
            Error::Parse(message),
        ),
        r matches Ok(local) ==> local.wf(),
{
    let fields = match parsed {
        Ok(fields) => fields,
        Err(e) => { return Err(Error::Parse(e)); },
    };
    let date = match fields_to_date(fields.date) {
        Ok(date) => date,
        Err(e) => { return Err(Error::Date(e)); },
    };
    let time = match fields_to_time(fields.time) {
        Ok(time) => time,
        Err(e) => { return Err(Error::Date(e)); },
    };
    Ok(LocalDateTime::new(date, time))
}

/// Turns what was read of a text into a date and time with an offset.
pub fn offset_datetime_from_parsed(parsed: Result<DateTimeFields, String>) -> (r: Result<
    OffsetDateTime,
    Error<OffsetError>,
>)
    ensures
        is_offset_datetime_outcome(read_as(parsed), r),
        parsed matches Err(message) ==> r == Err::<OffsetDateTime, Error<OffsetError>>(
            Error::Parse(message),
        ),
        r matches Ok(zoned) ==> zoned.local.wf() && zoned.offset.wf(),
{
    let fields = match parsed {
        Ok(fields) => fields,
        Err(e) => { return Err(Error::Parse(e)); },
    };
    let date = match fields_to_date(fields.date) {
        Ok(date) => date,
        Err(e) => { return Err(Error::Date(OffsetError::Date(e))); },
    };
    let time = match fields_to_time(fields.time) {
        Ok(time) => time,
        Err(e) => { return Err(Error::Date(OffsetError::Date(e))); },
    };
    let offset = match Offset::of_hours_and_minutes(
        #[verifier::truncate]
        (fields.time.tz_offset_hours as i8),
        #[verifier::truncate]
        (fields.time.tz_offset_minutes as i8),
    ) {
        Ok(offset) => offset,
        Err(e) => { return Err(Error::Date(e)); },
    };
    Ok(offset.transform_date(LocalDateTime::new(date, time)))
}

/// Reads a date from its ISO-8601 notation.
pub fn parse_date(input: &str) -> (r: Result<LocalDate, Error<DateTimeError>>)
    ensures
        is_date_outcome(iso8601_date(input@), r),
        r matches Ok(date) ==> date.wf(),
{
    date_from_parsed(read_date(input))
}

/// Reads a time of day from its ISO-8601 notation.
pub fn parse_time(input: &str) -> (r: Result<LocalTime, Error<DateTimeError>>)
    ensures
        is_time_outcome(iso8601_time(input@), r),
        r matches Ok(time) ==> time.wf(),
{
    time_from_parsed(read_time(input))
}

/// Reads a date and time from its ISO-8601 notation.
pub fn parse_datetime(input: &str) -> (r: Result<LocalDateTime, Error<DateTimeError>>)
    ensures
        is_datetime_outcome(iso8601_datetime(input@), r),
        r matches Ok(local) ==> local.wf(),
{
    datetime_from_parsed(read_datetime(input))
}

/// Reads a date and time with an offset from its ISO-8601 notation.
pub fn parse_offset_datetime(input: &str) -> (r: Result<OffsetDateTime, Error<OffsetError>>)
    ensures
        is_offset_datetime_outcome(iso8601_datetime(input@), r),
        r matches Ok(zoned) ==> zoned.local.wf() && zoned.offset.wf(),
{
    offset_datetime_from_parsed(read_datetime(input))
}

impl FromStr for LocalDate {
    type Err = Error<DateTimeError>;

    /// Reads a date from its ISO-8601 notation: the date that the numbers
    /// in the text name; or the error that says that they name none; or
    /// the parser's message, if the text is not in the notation.
    fn from_str(input: &str) -> (r: Result<Self, Self::Err>)
        ensures
            is_date_outcome(iso8601_date(input@), r),
            r matches Ok(date) ==> date.wf(),
    {
        parse_date(input)
    }
}

impl FromStr for LocalTime {
    type Err = Error<DateTimeError>;

    /// Reads a time of day from its ISO-8601 notation: the time that the
    /// numbers in the text name; or the error that says that they name
    /// none; or the parser's message, if the text is not in the notation.
    fn from_str(input: &str) -> (r: Result<Self, Self::Err>)
        ensures
            is_time_outcome(iso8601_time(input@), r),
            r matches Ok(time) ==> time.wf(),
    {
        parse_time(input)
    }
}

impl FromStr for LocalDateTime {
    type Err = Error<DateTimeError>;

    /// Reads a date and time from its ISO-8601 notation: the date and the
    /// time that the numbers in the text name; or the error of the date,
    /// or else that of the time, if they name none; or the parser's
    /// message, if the text is not in the notation.
    fn from_str(input: &str) -> (r: Result<Self, Self::Err>)
        ensures
            is_datetime_outcome(iso8601_datetime(input@), r),
            r matches Ok(local) ==> local.wf(),
    {
        parse_datetime(input)
    }
}

impl FromStr for OffsetDateTime {
    type Err = Error<OffsetError>;

    /// Reads a date and time with an offset from its ISO-8601 notation:
    /// the date, the time and the offset that the numbers in the text
    /// name; or the error of the date, or else that of the time, or else
    /// that of the offset, if they name none; or the parser's message, if
    /// the text is not in the notation.
    fn from_str(input: &str) -> (r: Result<Self, Self::Err>)
        ensures
            is_offset_datetime_outcome(iso8601_datetime(input@), r),
            r matches Ok(zoned) ==> zoned.local.wf() && zoned.offset.wf(),
    {
        parse_offset_datetime(input)
    }
}

} // verus!
