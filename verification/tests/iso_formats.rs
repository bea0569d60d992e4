use datetime::{LocalDate, LocalDateTime, LocalTime, Month, Offset, ISO};
use std::str::FromStr;

#[test]
fn iso_formats_recently() {
    let date = LocalDate::ymd(1600, Month::February, 28).unwrap();
    let debugged = date.iso().to_string();

    assert_eq!(debugged, "1600-02-28");
}

#[test]
fn iso_formats_just_then() {
    let date = LocalDate::ymd(-753, Month::December, 1).unwrap();
    let debugged = date.iso().to_string();

    assert_eq!(debugged, "-0753-12-01");
}

#[test]
fn iso_formats_far_far_future() {
    let date = LocalDate::ymd(10601, Month::January, 31).unwrap();
    let debugged = date.iso().to_string();

    assert_eq!(debugged, "+10601-01-31");
}

#[test]
fn iso_formats_midday() {
    let time = LocalTime::hms(12, 0, 0).unwrap();
    let debugged = time.iso().to_string();

    assert_eq!(debugged, "12:00:00.000");
}

#[test]
fn iso_formats_ascending() {
    let then = LocalDateTime::new(
        LocalDate::ymd(2009, Month::February, 13).unwrap(),
        LocalTime::hms(23, 31, 30).unwrap(),
    );

    let debugged = then.iso().to_string();

    assert_eq!(debugged, "2009-02-13T23:31:30.000");
}

#[test]
fn zulu() {
    let offset = Offset::utc();
    let debugged = offset.iso().to_string();
    assert_eq!(debugged, "Z");
}

#[test]
fn hours() {
    let offset = Offset::of_hours_and_minutes(1, 0).unwrap();
    let debugged = offset.iso().to_string();
    assert_eq!(debugged, "+01");
}

#[test]
fn hours_minutes() {
    let offset = Offset::of_hours_and_minutes(1, 30).unwrap();
    let debugged = offset.iso().to_string();
    assert_eq!(debugged, "+01:30");
}

#[test]
fn dublin_mean_time() {
    let offset = Offset::of_seconds(-25 * 60 - 21).unwrap();
    let debugged = offset.iso().to_string();
    assert_eq!(debugged, "-00:25:21");
}

#[test]
fn offset_date_time() {
    let offset = Offset::of_seconds(25 * 60 + 21).unwrap();

    let then = LocalDateTime::new(
        LocalDate::ymd(2009, Month::February, 13).unwrap(),
        LocalTime::hms(23, 31, 30).unwrap(),
    );

    let debugged = offset.transform_date(then).iso().to_string();
    assert_eq!(debugged, "2009-02-13T23:31:30.000+00:25:21");
}

#[test]
fn iso_formats() {
    assert_eq!(
        LocalDateTime::from_str("2001-02-03T04:05:06+07:00").unwrap(),
        LocalDateTime::from_str("20010203T040506+0700").unwrap()
    );
    assert_eq!(
        LocalDateTime::from_str("2001-02-03T04:05:06+07:00").unwrap(),
        LocalDateTime::from_str("2001-W05-6T04:05:06+07:00").unwrap()
    );
    assert_eq!(
        LocalDateTime::from_str("20010203T040506+0700").unwrap(),
        LocalDateTime::from_str("2001-W05-6T04:05:06+07:00").unwrap()
    );
}

#[test]
fn iso_years_get_their_sign_outside_four_digits() {
    let text = |year| LocalDate::ymd(year, Month::March, 4).unwrap().iso().to_string();
    assert_eq!(text(0), "0000-03-04");
    assert_eq!(text(5), "0005-03-04");
    assert_eq!(text(9998), "9998-03-04");
    assert_eq!(text(9999), "+9999-03-04");
    assert_eq!(text(10000), "+10000-03-04");
    assert_eq!(text(-1), "-0001-03-04");
    assert_eq!(text(-12345), "-12345-03-04");
    assert_eq!(text(292_277_026_596), "+292277026596-03-04");
}

#[test]
fn iso_times_and_offsets_are_padded() {
    assert_eq!(LocalTime::hms_ms(1, 2, 3, 4).unwrap().iso().to_string(), "01:02:03.004");
    assert_eq!(LocalTime::hms_ms(23, 59, 59, 999).unwrap().iso().to_string(), "23:59:59.999");
    assert_eq!(LocalTime::hms(24, 0, 0).unwrap().iso().to_string(), "24:00:00.000");
    assert_eq!(LocalTime::midnight().iso().as_str(), "00:00:00.000");
    assert_eq!(Offset::of_seconds(0).unwrap().iso().to_string(), "+00");
    assert_eq!(Offset::of_seconds(-3600).unwrap().iso().to_string(), "-01");
    assert_eq!(Offset::of_seconds(-60).unwrap().iso().to_string(), "-00:01");
    assert_eq!(Offset::of_seconds(-1).unwrap().iso().to_string(), "-00:00:01");
    assert_eq!(Offset::of_seconds(3601).unwrap().iso().to_string(), "+01:00:01");
    assert_eq!(Offset::of_seconds(86399).unwrap().iso().to_string(), "+23:59:59");
    assert_eq!(Offset::of_hours_and_minutes(-11, -30).unwrap().iso().to_string(), "-11:30");
    let mut text = String::from("at ");
    LocalTime::hms(7, 8, 9).unwrap().fmt(&mut text);
    assert_eq!(text, "at 07:08:09.000");
    assert_eq!(LocalDateTime::at(0).debug_text(), "LocalDateTime(1970-01-01T00:00:00.000)");
}
