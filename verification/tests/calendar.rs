use datetime::{DatePiece, Duration, LocalDate, LocalDateTime, Month, TimePiece, Weekday};

#[test]
fn cal_arithmetic_addition() {
    let date = LocalDateTime::at(10000);
    assert_eq!(LocalDateTime::at(10001), date + Duration::of(1))
}

#[test]
fn cal_arithmetic_subtraction() {
    let date = LocalDateTime::at(100000000);
    assert_eq!(LocalDateTime::at(99999999), date - Duration::of(1))
}

#[test]
fn start_of_year_day() {
    let date = LocalDate::ymd(2015, Month::January, 1).unwrap();
    assert_eq!(date.yearday(), 1);
}

#[test]
fn end_of_year_day() {
    let date = LocalDate::ymd(2015, Month::December, 31).unwrap();
    assert_eq!(date.yearday(), 365);
}

#[test]
fn end_of_leap_year_day() {
    let date = LocalDate::ymd(2016, Month::December, 31).unwrap();
    assert_eq!(date.yearday(), 366);
}

#[test]
fn date_to_yd_yearday() {
    for year in 1..2058 {
        assert_eq!(
            LocalDate::ymd(year, Month::from_one(01).unwrap(), 31).unwrap().yearday() + 1,
            LocalDate::ymd(year, Month::from_one(02).unwrap(), 01).unwrap().yearday()
        );
        assert_eq!(
            LocalDate::ymd(year, Month::from_one(03).unwrap(), 31).unwrap().yearday() + 1,
            LocalDate::ymd(year, Month::from_one(04).unwrap(), 01).unwrap().yearday()
        );
        assert_eq!(
            LocalDate::ymd(year, Month::from_one(04).unwrap(), 30).unwrap().yearday() + 1,
            LocalDate::ymd(year, Month::from_one(05).unwrap(), 01).unwrap().yearday()
        );
        assert!(LocalDate::ymd(year, Month::from_one(12).unwrap(), 31).unwrap().yearday() > 0);
    }
    assert_eq!(
        LocalDate::ymd(1600, Month::from_one(02).unwrap(), 29).unwrap().yearday() + 1, // leap year
        LocalDate::ymd(1600, Month::from_one(03).unwrap(), 01).unwrap().yearday()
    );
    assert_eq!(
        LocalDate::ymd(1601, Month::from_one(02).unwrap(), 28).unwrap().yearday() + 1, // no leap year
        LocalDate::ymd(1601, Month::from_one(03).unwrap(), 01).unwrap().yearday()
    );
}

#[test]
fn yearday_goes_up_by_one_across_every_month_boundary() {
    for year in [-401i64, -400, -1, 0, 1, 1600, 1700, 1900, 2000, 2015, 2016, 2100, 10_601].iter() {
        let leap = datetime::Year(*year).is_leap_year();
        for m in 1..12 {
            let month = Month::from_one(m).unwrap();
            let next = Month::from_one(m + 1).unwrap();
            let last = LocalDate::ymd(*year, month, month.days_in_month(leap)).unwrap();
            let first = LocalDate::ymd(*year, next, 1).unwrap();
            assert_eq!(last.yearday() + 1, first.yearday());
        }
        assert_eq!(LocalDate::ymd(*year, Month::January, 1).unwrap().yearday(), 1);
        assert_eq!(
            LocalDate::ymd(*year, Month::December, 31).unwrap().yearday(),
            if leap { 366 } else { 365 }
        );
    }
}

#[test]
fn datetime_to_instant_test_1970() {
    let date = LocalDateTime::at(0);
    let res = date.to_instant().seconds();

    assert_eq!(res, 0)
}

#[test]
fn datetime_to_instant_test_1971() {
    let date = LocalDateTime::at(86400);
    let res = date.to_instant().seconds();

    assert_eq!(res, 86400)
}

#[test]
fn datetime_to_instant_test_1972() {
    let date = LocalDateTime::at(86400 * 365 * 2);
    let res = date.to_instant().seconds();

    assert_eq!(0, 86400 * 365 * 2 - res)
}

#[test]
fn datetime_to_instant_test_1973() {
    let date = LocalDateTime::at(86400 * (365 * 3 + 1));
    let res = date.to_instant().seconds();

    assert_eq!(0, 86400 * (365 * 3 + 1) - res)
}

#[test]
fn datetime_to_instant_some_date() {
    let date = LocalDateTime::at(1234567890);
    let res = date.to_instant().seconds();

    assert_eq!(1234567890, res)
}

#[test]
fn datetime_to_instant_far_far_future() {
    let date = LocalDateTime::at(54321234567890);
    let res = date.to_instant().seconds();

    assert_eq!(54321234567890, res)
}

#[test]
fn datetime_to_instant_the_distant_past() {
    let date = LocalDateTime::at(-54321234567890);
    let res = date.to_instant().seconds();

    assert_eq!(-54321234567890, res)
}

#[test]
fn a_long_time_ago() {
    let date = LocalDateTime::at(-1_000_000_000);

    assert_eq!(date.year(), 1938);
    assert_eq!(date.month(), Month::April);
    assert_eq!(date.day(), 24);
    assert_eq!(date.hour(), 22);
    assert_eq!(date.minute(), 13);
    assert_eq!(date.second(), 20);
}

#[test]
fn unix_epoch() {
    let date = LocalDateTime::at(0);

    assert_eq!(date.year(), 1970);
    assert_eq!(date.month(), Month::January);
    assert_eq!(date.day(), 01);
    assert_eq!(date.hour(), 00);
    assert_eq!(date.minute(), 00);
    assert_eq!(date.second(), 00);
}

#[test]
fn instant_to_datetime_billennium() {
    let date = LocalDateTime::at(1_000_000_000);

    assert_eq!(date.year(), 2001);
    assert_eq!(date.month(), Month::September);
    assert_eq!(date.day(), 09);
    assert_eq!(date.hour(), 01);
    assert_eq!(date.minute(), 46);
    assert_eq!(date.second(), 40);
}

#[test]
fn instant_to_datetime_numbers() {
    let date = LocalDateTime::at(1_234_567_890);

    assert_eq!(date.year(), 2009);
    assert_eq!(date.month(), Month::February);
    assert_eq!(date.day(), 13);
    assert_eq!(date.hour(), 23);
    assert_eq!(date.minute(), 31);
    assert_eq!(date.second(), 30);
}

#[test]
fn instant_to_datetime_year_2038_problem() {
    let date = LocalDateTime::at(0x7FFF_FFFF);

    assert_eq!(date.year(), 2038);
    assert_eq!(date.month(), Month::January);
    assert_eq!(date.day(), 19);
    assert_eq!(date.hour(), 03);
    assert_eq!(date.minute(), 14);
    assert_eq!(date.second(), 07);
}

#[test]
fn instant_to_datetime_the_end_of_time() {
    let date = LocalDateTime::at(0x7FFF_FFFF_FFFF_FFFF);

    assert_eq!(date.year(), 292_277_026_596);
    assert_eq!(date.month(), Month::December);
    assert_eq!(date.day(), 4);
    assert_eq!(date.hour(), 15);
    assert_eq!(date.minute(), 30);
    assert_eq!(date.second(), 07);
}

#[test]
fn just_some_date() {
    let date = LocalDateTime::at(146096 * 86400);

    assert_eq!(date.year(), 2369);
    assert_eq!(date.month(), Month::December);
    assert_eq!(date.day(), 31);
    assert_eq!(date.hour(), 00);
    assert_eq!(date.minute(), 00);
    assert_eq!(date.second(), 00);
}

#[test]
fn leap_year_some_date() {
    let date = LocalDateTime::at(1459468800);

    assert_eq!(date.year(), 2016);
    assert_eq!(date.month(), Month::April);
    assert_eq!(date.day(), 1);
    assert_eq!(date.hour(), 00);
    assert_eq!(date.minute(), 00);
    assert_eq!(date.second(), 00);
}

#[test]
fn leap_year_29th_feb() {
    let date = LocalDateTime::at(1456704000);

    assert_eq!(date.year(), 2016);
    assert_eq!(date.month(), Month::February);
    assert_eq!(date.day(), 29);
    assert_eq!(date.hour(), 00);
    assert_eq!(date.minute(), 00);
    assert_eq!(date.second(), 00);
}

#[test]
fn day_start_of_year() {
    let date = LocalDate::yd(2015, 1).unwrap();
    assert_eq!(2015, date.year());
    assert_eq!(Month::January, date.month());
    assert_eq!(1, date.day());
}

#[test]
fn yd_to_date_from_yearday() {
    for date in vec![
        //LocalDate::ymd(1970, 01 , 01).unwrap(),
        LocalDate::ymd(1971, Month::from_one(01).unwrap(), 01).unwrap(),
        LocalDate::ymd(1973, Month::from_one(01).unwrap(), 01).unwrap(),
        LocalDate::ymd(1977, Month::from_one(01).unwrap(), 01).unwrap(),
        LocalDate::ymd(1989, Month::from_one(11).unwrap(), 10).unwrap(),
        LocalDate::ymd(1990, Month::from_one(7).unwrap(), 8).unwrap(),
        LocalDate::ymd(2014, Month::from_one(7).unwrap(), 13).unwrap(),
        LocalDate::ymd(2001, Month::from_one(2).unwrap(), 03).unwrap(),
    ] {
        let new_date = LocalDate::yd(date.year(), date.yearday() as i64).unwrap();
        assert_eq!(new_date, date);
        assert!(LocalDate::yd(2002, 1).is_ok());

        assert_eq!(new_date.yearday(), date.yearday());
    }
}

#[test]
fn ymd_to_date_the_distant_past() {
    let date = LocalDate::ymd(7, Month::April, 1).unwrap();

    assert_eq!(date.year(), 7);
    assert_eq!(date.month(), Month::April);
    assert_eq!(date.day(), 1);
}

#[test]
fn ymd_to_date_the_distant_present() {
    let date = LocalDate::ymd(2015, Month::January, 16).unwrap();

    assert_eq!(date.year(), 2015);
    assert_eq!(date.month(), Month::January);
    assert_eq!(date.day(), 16);
}

#[test]
fn ymd_to_date_the_distant_future() {
    let date = LocalDate::ymd(1048576, Month::October, 13).unwrap();

    assert_eq!(date.year(), 1048576);
    assert_eq!(date.month(), Month::October);
    assert_eq!(date.day(), 13);
}

#[test]
fn yd_counts_on_from_the_first_of_january() {
    let date = LocalDate::yd(2015, 0x100).unwrap();
    assert_eq!((date.year(), date.month(), date.day()), (2015, Month::September, 13));
    let date = LocalDate::yd(2015, 268).unwrap();
    assert_eq!((date.year(), date.month(), date.day()), (2015, Month::September, 25));
    let date = LocalDate::yd(2016, 268).unwrap();
    assert_eq!((date.year(), date.month(), date.day()), (2016, Month::September, 24));
    assert_eq!(LocalDate::yd(2015, 1), LocalDate::ymd(2015, Month::January, 1));
    assert_eq!(LocalDate::yd(2015, 365), LocalDate::ymd(2015, Month::December, 31));
    assert_eq!(LocalDate::yd(2016, 60), LocalDate::ymd(2016, Month::February, 29));
    assert_eq!(LocalDate::yd(2016, 366), LocalDate::ymd(2016, Month::December, 31));
    assert_eq!(LocalDate::yd(2015, 0), Err(datetime::Error::OutOfRange));
    assert_eq!(LocalDate::yd(2015, 366), Err(datetime::Error::OutOfRange));
    assert_eq!(LocalDate::yd(2016, 367), Err(datetime::Error::OutOfRange));
    assert_eq!(LocalDate::yd(2015, 367), Err(datetime::Error::OutOfRange));
    assert_eq!(LocalDate::yd(2015, -1), Err(datetime::Error::OutOfRange));
    assert_eq!(LocalDate::yd(2015, i64::MAX), Err(datetime::Error::OutOfRange));
    assert_eq!(LocalDate::yd(2015, i64::MIN), Err(datetime::Error::OutOfRange));
}

#[test]
fn yd_takes_the_days_of_the_year_and_no_others() {
    for year in [-1_000_000i64, -401, -400, -1, 0, 1, 1900, 2000, 2015, 2016, 2100, 1_000_000].iter() {
        let length: i64 = if datetime::Year(*year).is_leap_year() { 366 } else { 365 };
        for n in -3..371i64 {
            let made = LocalDate::yd(*year, n);
            assert_eq!(made, LocalDate::from_yearday(*year, n));
            if n < 1 || n > length {
                assert_eq!(made, Err(datetime::Error::OutOfRange));
            } else {
                let date = made.unwrap();
                assert_eq!(date.year(), *year);
                assert_eq!(date.yearday() as i64, n);
                assert_eq!(LocalDate::ymd(date.year(), date.month(), date.day()), Ok(date));
            }
        }
    }
}

#[test]
fn every_date_comes_back_from_its_year_and_day_of_the_year() {
    for days in (-800_000..800_000i64).step_by(97) {
        let date = LocalDate::from_days_since_epoch(days);
        assert_eq!(LocalDate::yd(date.year(), date.yearday() as i64), Ok(date));
    }
    for days in [i64::MIN, i64::MIN + 1, -1, 0, 1, i64::MAX - 1, i64::MAX].iter() {
        let date = LocalDate::from_days_since_epoch(*days);
        assert_eq!(LocalDate::yd(date.year(), date.yearday() as i64), Ok(date));
    }
}

#[test]
fn ywd_follows_the_iso_week() {
    let date = LocalDate::ywd(2015, 37, Weekday::Friday).unwrap();
    assert_eq!((date.year(), date.month(), date.day()), (2015, Month::September, 11));
    assert_eq!(date.weekday(), Weekday::Friday);

    let date = LocalDate::ywd(2009, 1, Weekday::Monday).unwrap();
    assert_eq!((date.year(), date.month(), date.day()), (2008, Month::December, 29));
    assert_eq!(date.weekday(), Weekday::Monday);

    let date = LocalDate::ywd(2009, 53, Weekday::Sunday).unwrap();
    assert_eq!((date.year(), date.month(), date.day()), (2010, Month::January, 3));
    assert_eq!(date.weekday(), Weekday::Sunday);

    assert_eq!(LocalDate::ywd(2001, 5, Weekday::Saturday), LocalDate::ymd(2001, Month::February, 3));
    assert_eq!(LocalDate::ywd(2015, 1, Weekday::Thursday), LocalDate::ymd(2015, Month::January, 1));
    assert_eq!(LocalDate::ywd(2012, 1, Weekday::Monday), LocalDate::ymd(2012, Month::January, 2));
    assert_eq!(LocalDate::ywd(2011, 1, Weekday::Monday), LocalDate::ymd(2011, Month::January, 3));
    assert_eq!(LocalDate::ywd(2010, 1, Weekday::Monday), LocalDate::ymd(2010, Month::January, 4));
    assert_eq!(LocalDate::ywd(2016, 52, Weekday::Sunday), LocalDate::ymd(2017, Month::January, 1));
    assert_eq!(LocalDate::ywd(2015, 53, Weekday::Thursday), LocalDate::ymd(2015, Month::December, 31));
    assert_eq!(LocalDate::ywd(2015, i64::MAX, Weekday::Monday), Err(datetime::Error::OutOfRange));
    assert_eq!(LocalDate::ywd(2015, i64::MIN, Weekday::Monday), Err(datetime::Error::OutOfRange));
    assert_eq!(LocalDate::ywd(2015, 200, Weekday::Monday), Err(datetime::Error::OutOfRange));
    assert_eq!(LocalDate::ywd(2015, -60, Weekday::Monday), Err(datetime::Error::OutOfRange));
    for week in -50..106 {
        for day in 1..8 {
            let weekday = Weekday::from_one(day).unwrap();
            let jan_4 = LocalDate::ymd(2015, Month::January, 4).unwrap();
            let monday = 4 - jan_4.weekday().days_from_monday_as_one() as i64 + 1;
            let yearday = monday + 7 * (week - 1) + day as i64 - 1;
            let made = LocalDate::ywd(2015, week, weekday);
            if -365 <= yearday && yearday < 365 + 367 {
                let made = made.unwrap();
                assert_eq!(made.weekday(), weekday);
                assert_eq!(made, LocalDate::from_days_since_epoch(16436 - 11017 + yearday - 1));
                assert_eq!(LocalDate::from_weekday(2015, week, day as i64), Ok(made));
            } else {
                assert!(made.is_err());
            }
        }
    }
    assert_eq!(LocalDate::from_weekday(2015, 2, 0), LocalDate::ywd(2015, 1, Weekday::Sunday));
    assert_eq!(LocalDate::from_weekday(2015, 2, 8), Err(datetime::Error::OutOfRange));
    assert_eq!(LocalDate::from_weekday(2015, 2, -1), Err(datetime::Error::OutOfRange));
}

#[test]
fn today_is_the_date_of_the_clock() {
    use_today()
}

fn use_today() {
    let now = datetime::Instant::at_ms(1_000_000_000, 5);
    let today = <LocalDate as datetime::convenience::Today>::today(now);
    assert_eq!(today, LocalDate::ymd(2001, Month::September, 9).unwrap());
    assert_eq!(today.weekday(), Weekday::Sunday);
}

#[test]
fn dates_are_in_the_order_of_their_days() {
    let days: [i64; 9] = [-800_000, -366, -1, 0, 1, 58, 59, 365, 800_000];
    for a in days.iter() {
        for b in days.iter() {
            let left = LocalDate::from_days_since_epoch(*a);
            let right = LocalDate::from_days_since_epoch(*b);
            assert_eq!(left.partial_cmp(&right), a.partial_cmp(b));
            assert_eq!(left < right, a < b);
            assert_eq!(left == right, a == b);
            assert_eq!(left >= right, a >= b);
        }
    }
    assert!(LocalDate::ymd(2015, Month::December, 31).unwrap() < LocalDate::ymd(2016, Month::January, 1).unwrap());
    assert!(LocalDate::ymd(2016, Month::February, 29).unwrap() < LocalDate::ymd(2016, Month::March, 1).unwrap());
    assert!(LocalDate::ymd(-1, Month::February, 28).unwrap() < LocalDate::ymd(1, Month::January, 1).unwrap());
    assert!(LocalDateTime::at(5) < LocalDateTime::at(6));
    assert!(LocalDateTime::at(86399) < LocalDateTime::at(86400));
    assert!(LocalDateTime::at_ms(5, 1) > LocalDateTime::at_ms(5, 0));
}
