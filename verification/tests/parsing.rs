use datetime::cal::offset::Error as OffsetError;
use datetime::cal::parse::{
    date_from_parsed, datetime_from_parsed, fields_to_date, fields_to_time,
    offset_datetime_from_parsed, time_from_parsed, ClockFields, DateFields, DateTimeFields, Error,
};
use datetime::{
    DatePiece, LocalDate, LocalDateTime, LocalTime, Month, Offset, OffsetDateTime, TimePiece,
    Weekday,
};
use std::str::FromStr;

fn clock(hour: u32, minute: u32, second: u32, millisecond: u32) -> ClockFields {
    ClockFields { hour, minute, second, millisecond, tz_offset_hours: 0, tz_offset_minutes: 0 }
}

#[test]
fn parse_dates_in_three_forms() {
    let expected = LocalDate::ymd(2015, Month::November, 2).unwrap();
    assert_eq!(LocalDate::from_str("2015-11-02"), Ok(expected));
    assert_eq!(LocalDate::from_str("20151102"), Ok(expected));
    assert_eq!(LocalDate::from_str("2015-306"), Ok(expected));
    assert_eq!(LocalDate::from_str("2015-W45-1"), Ok(expected));
    assert_eq!(LocalDate::from_str("1985-04-12"), Ok(LocalDate::ymd(1985, Month::April, 12).unwrap()));
    assert_eq!(LocalDate::from_str("-0753-04-21"), Ok(LocalDate::ymd(-753, Month::April, 21).unwrap()));
}

#[test]
fn parse_refuses_what_is_no_date() {
    assert!(matches!(LocalDate::from_str(""), Err(Error::Parse(_))));
    assert!(matches!(LocalDate::from_str("yesterday"), Err(Error::Parse(_))));
    assert_eq!(LocalDate::from_str("2015-02-29"), Err(Error::Date(datetime::Error::OutOfRange)));
    assert_eq!(LocalDate::from_str("2015-04-31"), Err(Error::Date(datetime::Error::OutOfRange)));
    assert!(LocalDate::from_str("2016-02-29").is_ok());
    assert_eq!(LocalDate::from_str("2015-366"), Err(Error::Date(datetime::Error::OutOfRange)));
    assert_eq!(LocalDate::from_str("2016-366"), LocalDate::ymd(2016, Month::December, 31).map_err(Error::Date));
}

#[test]
fn parse_times() {
    assert_eq!(LocalTime::from_str("21:56:42"), Ok(LocalTime::hms(21, 56, 42).unwrap()));
    assert_eq!(LocalTime::from_str("21:56:42.5"), Ok(LocalTime::hms_ms(21, 56, 42, 500).unwrap()));
    assert_eq!(LocalTime::from_str("0735"), Ok(LocalTime::hms(7, 35, 0).unwrap()));
    assert!(matches!(LocalTime::from_str("noon"), Err(Error::Parse(_))));
    assert_eq!(LocalTime::from_str("24:00"), Ok(LocalTime::hms(24, 0, 0).unwrap()));
    assert_eq!(LocalTime::from_str("24:00:00.000"), Ok(LocalTime::hms(24, 0, 0).unwrap()));
    assert_eq!(LocalTime::from_str("24:00:01"), Err(Error::Date(datetime::Error::OutOfRange)));
    assert_eq!(LocalTime::from_str("24:01"), Err(Error::Date(datetime::Error::OutOfRange)));
    assert_eq!(LocalTime::from_str("24:00:00.001"), Err(Error::Date(datetime::Error::OutOfRange)));
    assert_eq!(LocalTime::from_str("23:59:60"), Err(Error::Date(datetime::Error::OutOfRange)));
}

#[test]
fn parse_date_times_with_and_without_offset() {
    let local = LocalDateTime::from_str("2001-02-03T04:05:06+07:00").unwrap();
    assert_eq!((local.year(), local.month(), local.day()), (2001, Month::February, 3));
    assert_eq!((local.hour(), local.minute(), local.second(), local.millisecond()), (4, 5, 6, 0));
    assert_eq!(local.weekday(), Weekday::Saturday);

    let zoned = OffsetDateTime::from_str("2001-02-03T04:05:06+07:30").unwrap();
    assert_eq!(zoned.local, local);
    assert_eq!(zoned.offset, Offset::of_hours_and_minutes(7, 30).unwrap());
    let zoned = OffsetDateTime::from_str("2001-02-03T04:05:06-07:30").unwrap();
    assert_eq!(zoned.offset, Offset::of_hours_and_minutes(-7, -30).unwrap());
    let zoned = OffsetDateTime::from_str("2001-02-03T04:05:06Z").unwrap();
    assert_eq!(zoned.offset, Offset::of_seconds(0).unwrap());
    assert!(matches!(OffsetDateTime::from_str("2001-02-03"), Err(Error::Parse(_))));
    assert_eq!(
        OffsetDateTime::from_str("2001-02-30T04:05:06Z"),
        Err(Error::Date(OffsetError::Date(datetime::Error::OutOfRange)))
    );
    assert_eq!(
        OffsetDateTime::from_str("2001-02-03T04:05:06+24:00"),
        Err(Error::Date(OffsetError::OutOfRange))
    );
    assert!(matches!(LocalDateTime::from_str("2001-02-03 04:05:06"), Err(Error::Parse(_))));
    assert_eq!(
        LocalDateTime::from_str("2001-02-29T04:05:06"),
        Err(Error::Date(datetime::Error::OutOfRange))
    );
}

#[test]
fn fields_become_dates() {
    assert_eq!(
        fields_to_date(DateFields::YMD { year: 2015, month: 6, day: 26 }),
        LocalDate::ymd(2015, Month::June, 26)
    );
    assert_eq!(
        fields_to_date(DateFields::YMD { year: 2015, month: 13, day: 26 }),
        Err(datetime::Error::OutOfRange)
    );
    assert_eq!(
        fields_to_date(DateFields::YMD { year: 2015, month: 0, day: 26 }),
        Err(datetime::Error::OutOfRange)
    );
    assert_eq!(
        fields_to_date(DateFields::YMD { year: 2015, month: 6, day: 31 }),
        Err(datetime::Error::OutOfRange)
    );
    assert_eq!(
        fields_to_date(DateFields::Week { year: 2009, ww: 53, d: 7 }),
        LocalDate::ymd(2010, Month::January, 3)
    );
    assert_eq!(
        fields_to_date(DateFields::Week { year: 2009, ww: 1, d: 8 }),
        Err(datetime::Error::OutOfRange)
    );
    assert_eq!(
        fields_to_date(DateFields::Week { year: 2009, ww: 1, d: 0 }),
        Err(datetime::Error::OutOfRange)
    );
    assert_eq!(
        fields_to_date(DateFields::Ordinal { year: 2016, ddd: 60 }),
        LocalDate::ymd(2016, Month::February, 29)
    );
    assert_eq!(
        fields_to_date(DateFields::Ordinal { year: 2016, ddd: 366 }),
        LocalDate::ymd(2016, Month::December, 31)
    );
    assert_eq!(
        fields_to_date(DateFields::Ordinal { year: 2016, ddd: 367 }),
        Err(datetime::Error::OutOfRange)
    );
    assert_eq!(
        fields_to_date(DateFields::Ordinal { year: 2015, ddd: 366 }),
        Err(datetime::Error::OutOfRange)
    );
    assert_eq!(
        fields_to_date(DateFields::Ordinal { year: 2015, ddd: 0 }),
        Err(datetime::Error::OutOfRange)
    );
}

#[test]
fn fields_become_times() {
    assert_eq!(fields_to_time(clock(1, 2, 3, 4)), LocalTime::hms_ms(1, 2, 3, 4));
    assert_eq!(fields_to_time(clock(24, 0, 0, 0)), LocalTime::hms(24, 0, 0));
    assert_eq!(fields_to_time(clock(24, 0, 0, 1)), Err(datetime::Error::OutOfRange));
    assert_eq!(fields_to_time(clock(24, 0, 1, 0)), Err(datetime::Error::OutOfRange));
    assert_eq!(fields_to_time(clock(24, 1, 0, 0)), Err(datetime::Error::OutOfRange));
    assert_eq!(fields_to_time(clock(25, 0, 0, 0)), Err(datetime::Error::OutOfRange));
    assert_eq!(fields_to_time(clock(0, 60, 0, 0)), Err(datetime::Error::OutOfRange));
    assert_eq!(fields_to_time(clock(0, 0, 60, 0)), Err(datetime::Error::OutOfRange));
    assert_eq!(fields_to_time(clock(0, 0, 0, 1000)), Err(datetime::Error::OutOfRange));
}

#[test]
fn parsed_results_become_values_or_errors() {
    let date = DateFields::YMD { year: 2015, month: 6, day: 26 };
    let bad_date = DateFields::YMD { year: 2015, month: 6, day: 31 };
    assert_eq!(date_from_parsed(Ok(date)), Ok(LocalDate::ymd(2015, Month::June, 26).unwrap()));
    assert_eq!(date_from_parsed(Ok(bad_date)), Err(Error::Date(datetime::Error::OutOfRange)));
    assert_eq!(
        date_from_parsed(Err(String::from("no date"))),
        Err(Error::Parse(String::from("no date")))
    );
    assert_eq!(time_from_parsed(Ok(clock(1, 2, 3, 4))), Ok(LocalTime::hms_ms(1, 2, 3, 4).unwrap()));
    assert_eq!(
        time_from_parsed(Ok(clock(25, 2, 3, 4))),
        Err(Error::Date(datetime::Error::OutOfRange))
    );
    assert_eq!(
        time_from_parsed(Err(String::from("no time"))),
        Err(Error::Parse(String::from("no time")))
    );
    let both = datetime_from_parsed(Ok(DateTimeFields { date, time: clock(1, 2, 3, 4) })).unwrap();
    assert_eq!(both.date(), LocalDate::ymd(2015, Month::June, 26).unwrap());
    assert_eq!(both.time(), LocalTime::hms_ms(1, 2, 3, 4).unwrap());
    assert_eq!(
        datetime_from_parsed(Ok(DateTimeFields { date: bad_date, time: clock(1, 2, 3, 4) })),
        Err(Error::Date(datetime::Error::OutOfRange))
    );
    assert_eq!(
        datetime_from_parsed(Ok(DateTimeFields { date, time: clock(1, 2, 3, 4000) })),
        Err(Error::Date(datetime::Error::OutOfRange))
    );
    assert_eq!(
        datetime_from_parsed(Err(String::from("nothing"))),
        Err(Error::Parse(String::from("nothing")))
    );
    let mut time = clock(1, 2, 3, 4);
    time.tz_offset_hours = -4;
    time.tz_offset_minutes = 30;
    assert_eq!(
        offset_datetime_from_parsed(Ok(DateTimeFields { date, time })),
        Err(Error::Date(OffsetError::SignMismatch))
    );
    time.tz_offset_minutes = -30;
    let zoned = offset_datetime_from_parsed(Ok(DateTimeFields { date, time })).unwrap();
    assert_eq!(zoned.offset, Offset::of_seconds(-4 * 3600 - 30 * 60).unwrap());
    assert_eq!(zoned.local, both);
    assert_eq!(
        offset_datetime_from_parsed(Ok(DateTimeFields { date: bad_date, time })),
        Err(Error::Date(OffsetError::Date(datetime::Error::OutOfRange)))
    );
    assert_eq!(
        offset_datetime_from_parsed(Err(String::from("nothing"))),
        Err(Error::Parse(String::from("nothing")))
    );
}

#[test]
fn date() {
    let date = LocalDate::from_str("1985-04-12").unwrap();
    assert_eq!(date, LocalDate::ymd(1985, Month::April, 12).unwrap());
}

#[test]
fn fail() {
    let date = LocalDate::from_str("");
    assert!(matches!(date, Err(Error::Parse(_))));
}

#[test]
fn errors_have_their_messages() {
    assert_eq!(datetime::Error::OutOfRange.message(), "datetime field out of range");
    assert_eq!(OffsetError::OutOfRange.message(), "offset field out of range");
    assert_eq!(OffsetError::SignMismatch.message(), "sign mismatch");
    assert_eq!(
        OffsetError::Date(datetime::Error::OutOfRange).message(),
        "datetime field out of range"
    );
    let error: Error<datetime::Error> = Error::Date(datetime::Error::OutOfRange);
    assert_eq!(error.message(), "parsing resulted in an invalid date: datetime field out of range");
    let error: Error<datetime::Error> = Error::Parse(String::from("Failed to parse date: x"));
    assert_eq!(error.message(), "parse error: Failed to parse date: x");
    let error: Error<OffsetError> = Error::Date(OffsetError::SignMismatch);
    assert_eq!(error.message(), "parsing resulted in an invalid date: sign mismatch");
    let error: Error<OffsetError> = Error::Parse(String::from("nothing"));
    assert_eq!(error.message(), "parse error: nothing");
    match LocalDate::from_str("x") {
        Err(error) => assert_eq!(error.message(), "parse error: Failed to parse date: x"),
        Ok(_) => panic!("no date should come of this"),
    }
}
