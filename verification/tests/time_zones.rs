use datetime::zone::runtime::{OwnedFixedTimespanSet, OwnedTimeZone};
use datetime::zone::{
    FixedTimespan, FixedTimespanSet, LocalTimes, StaticTimeZone, Surroundings, TimeZone,
    TimeZoneSource,
};
use datetime::{DatePiece, LocalDate, LocalDateTime, LocalTime, Month, TimePiece};
use std::borrow::Cow;
use std::sync::Arc;

const fn span(offset: i64, name: &'static str) -> FixedTimespan<'static> {
    FixedTimespan { offset, is_dst: false, name: Cow::Borrowed(name) }
}

const NONE: FixedTimespanSet<'static> = FixedTimespanSet { first: span(0, "ZONE_A"), rest: &[] };

const ONE: FixedTimespanSet<'static> = FixedTimespanSet {
    first: span(0, "ZONE_A"),
    rest: &[(1174784400, span(3600, "ZONE_B"))],
};

const MANY: FixedTimespanSet<'static> = FixedTimespanSet {
    first: span(0, "ZONE_A"),
    rest: &[(1174784400, span(3600, "ZONE_B")), (1193533200, span(0, "ZONE_C"))],
};

const TEST_ZONESET: &'static StaticTimeZone<'static> = &StaticTimeZone {
    name: "Test Zoneset",
    fixed_timespans: FixedTimespanSet {
        first: span(0, "ZONE_A"),
        rest: &[
            (1206838800, span(3600, "ZONE_B")),
            (1224982800, span(0, "ZONE_A")),
            (1238288400, span(3600, "ZONE_B")),
            (1256432400, span(0, "ZONE_A")),
            (1269738000, span(3600, "ZONE_B")),
            (1288486800, span(0, "ZONE_A")),
        ],
    },
};

fn at(year: i64, month: Month, day: i8, hour: i8, minute: i8) -> LocalDateTime {
    LocalDateTime::new(
        LocalDate::ymd(year, month, day).unwrap(),
        LocalTime::hms(hour, minute, 0).unwrap(),
    )
}

#[test]
fn zoned_empty() {
    assert_eq!(
        NONE.find_with_surroundings(1184000000),
        Surroundings { previous: None, current: &span(0, "ZONE_A"), next: None }
    )
}

#[test]
fn zoned_just_one_first() {
    assert_eq!(
        ONE.find_with_surroundings(1184000000),
        Surroundings {
            previous: Some((&span(0, "ZONE_A"), 1174784400)),
            current: &span(3600, "ZONE_B"),
            next: None,
        }
    );
}

#[test]
fn zoned_just_one_other() {
    assert_eq!(
        ONE.find_with_surroundings(1174000000),
        Surroundings {
            previous: None,
            current: &span(0, "ZONE_A"),
            next: Some(&(1174784400, span(3600, "ZONE_B"))),
        }
    )
}

#[test]
fn zoned_multiple_second() {
    assert_eq!(
        MANY.find_with_surroundings(1184000000),
        Surroundings {
            previous: Some((&span(0, "ZONE_A"), 1174784400)),
            current: &span(3600, "ZONE_B"),
            next: Some(&(1193533200, span(0, "ZONE_C"))),
        }
    );
}

#[test]
fn zoned_multiple_last() {
    assert_eq!(
        MANY.find_with_surroundings(1200000000),
        Surroundings {
            previous: Some((&span(3600, "ZONE_B"), 1193533200)),
            current: &span(0, "ZONE_C"),
            next: None,
        }
    );
}

#[test]
fn zoneinfo_empty() {
    assert_eq!(
        NONE.find_with_surroundings(1184000000),
        Surroundings { previous: None, current: &span(0, "ZONE_A"), next: None }
    )
}

#[test]
fn zoneinfo_just_one_first() {
    assert_eq!(
        ONE.find_with_surroundings(1184000000),
        Surroundings {
            previous: Some((&span(0, "ZONE_A"), 1174784400)),
            current: &span(3600, "ZONE_B"),
            next: None,
        }
    );
}

#[test]
fn zoneinfo_just_one_other() {
    assert_eq!(
        ONE.find_with_surroundings(1174000000),
        Surroundings {
            previous: None,
            current: &span(0, "ZONE_A"),
            next: Some(&(1174784400, span(3600, "ZONE_B"))),
        }
    )
}

#[test]
fn zoneinfo_multiple_second() {
    assert_eq!(
        MANY.find_with_surroundings(1184000000),
        Surroundings {
            previous: Some((&span(0, "ZONE_A"), 1174784400)),
            current: &span(3600, "ZONE_B"),
            next: Some(&(1193533200, span(0, "ZONE_C"))),
        }
    );
}

#[test]
fn zoneinfo_multiple_last() {
    assert_eq!(
        MANY.find_with_surroundings(1200000000),
        Surroundings {
            previous: Some((&span(3600, "ZONE_B"), 1193533200)),
            current: &span(0, "ZONE_C"),
            next: None,
        }
    );
}

#[test]
fn time_zones_construction() {
    let test_date = at(2010, Month::June, 9, 15, 15);

    let zone = TimeZone(TimeZoneSource::Static(TEST_ZONESET));
    assert_eq!(zone.offset(test_date), 3600);

    let zoned_date = zone.convert_local(test_date).unwrap_precise();
    assert_eq!(zoned_date.year(), 2010);
    assert_eq!(zoned_date.hour(), 15);

    let instant = at(2010, Month::June, 9, 14, 15).to_instant();

    assert_eq!(instant, zoned_date.to_instant());
}

#[test]
fn time_zones_ambiguity() {
    let test_date = at(2010, Month::October, 31, 1, 15);

    let zone = TimeZone(TimeZoneSource::Static(TEST_ZONESET));
    let converted = zone.convert_local(test_date);
    assert!(converted.is_ambiguous(), "Local time {:?} should be ambiguous", converted);
}

#[test]
fn time_zones_impossible() {
    let test_date = at(2010, Month::March, 28, 1, 15);

    let zone = TimeZone(TimeZoneSource::Static(TEST_ZONESET));
    let converted = zone.convert_local(test_date);
    assert!(converted.is_impossible(), "Local time {:?} should be impossible", converted);
}

#[test]
fn zoned_construction() {
    let test_date = at(2010, Month::June, 9, 15, 15);

    let zone = TimeZone(TimeZoneSource::Static(TEST_ZONESET));
    assert_eq!(zone.offset(test_date), 3600);
    assert_eq!(zone.name(test_date), "ZONE_B");
    assert_eq!(zone.zone_name(), Some("Test Zoneset"));
    assert!(!zone.is_fixed());

    let zoned_date = zone.convert_local(test_date).unwrap_precise();
    assert_eq!(zoned_date.year(), 2010);
    assert_eq!(zoned_date.hour(), 15);

    let instant = at(2010, Month::June, 9, 14, 15).to_instant();

    assert_eq!(instant, zoned_date.to_instant());
}

#[test]
fn zoned_ambiguity() {
    let test_date = at(2010, Month::October, 31, 1, 15);

    let zone = TimeZone(TimeZoneSource::Static(TEST_ZONESET));
    match zone.convert_local(test_date) {
        LocalTimes::Ambiguous { earlier, later } => {
            // The two instants differ by exactly the drop of the offset.
            assert_eq!(later.to_instant().seconds() - earlier.to_instant().seconds(), 3600);
            assert_eq!(earlier.to_instant(), at(2010, Month::October, 31, 0, 15).to_instant());
            assert_eq!(later.to_instant(), test_date.to_instant());
            assert_eq!((earlier.hour(), earlier.minute()), (1, 15));
            assert_eq!((later.hour(), later.minute()), (1, 15));
        }
        other => panic!("Local time {:?} should be ambiguous", other),
    }
}

#[test]
fn zoned_impossible() {
    let test_date = at(2010, Month::March, 28, 1, 15);

    let zone = TimeZone(TimeZoneSource::Static(TEST_ZONESET));
    let converted = zone.convert_local(test_date);
    assert!(converted.is_impossible(), "Local time {:?} should be impossible", converted);
    assert!(!converted.is_ambiguous());
}

#[test]
fn zoneinfo_construction() {
    let zone = TimeZone(TimeZoneSource::Static(TEST_ZONESET));
    // Away from any boundary the instant is the local time less the offset.
    for (local, offset) in [
        (at(2010, Month::June, 9, 15, 15), 3600),
        (at(2010, Month::January, 9, 15, 15), 0),
        (at(2000, Month::January, 1, 0, 0), 0),
        (at(2011, Month::July, 1, 0, 0), 0),
        (at(2008, Month::July, 1, 0, 0), 3600),
    ]
    .iter()
    {
        let zoned = zone.convert_local(*local).unwrap_precise();
        assert_eq!(zoned.to_instant().seconds(), local.to_instant().seconds() - offset);
        assert_eq!(zone.offset(*local), *offset);
        // Back from the instant under the same offset is the local time.
        let back = LocalDateTime::from_instant(zoned.to_instant()).add_seconds(*offset);
        assert_eq!(back, *local);
        assert_eq!((zoned.year(), zoned.month(), zoned.day()), (local.year(), local.month(), local.day()));
        assert_eq!((zoned.yearday(), zoned.weekday()), (local.yearday(), local.weekday()));
        assert_eq!(
            (zoned.hour(), zoned.minute(), zoned.second(), zoned.millisecond()),
            (local.hour(), local.minute(), local.second(), local.millisecond())
        );
    }
}

#[test]
fn zoneinfo_ambiguity() {
    let zone = TimeZone(TimeZoneSource::Static(TEST_ZONESET));
    assert!(zone.convert_local(at(2010, Month::October, 31, 1, 0)).is_ambiguous());
    assert!(zone.convert_local(at(2010, Month::October, 31, 1, 59)).is_ambiguous());
    assert!(!zone.convert_local(at(2010, Month::October, 31, 2, 0)).is_ambiguous());
    assert!(!zone.convert_local(at(2010, Month::October, 31, 0, 59)).is_ambiguous());
    assert!(zone.convert_local(at(2009, Month::October, 25, 1, 30)).is_ambiguous());
    assert!(zone.convert_local(at(2008, Month::October, 26, 1, 30)).is_ambiguous());
}

#[test]
fn zoneinfo_impossible() {
    let zone = TimeZone(TimeZoneSource::Static(TEST_ZONESET));
    assert!(zone.convert_local(at(2010, Month::March, 28, 1, 15)).is_impossible());
    assert!(zone.convert_local(at(2010, Month::March, 28, 1, 59)).is_impossible());
    assert!(!zone.convert_local(at(2010, Month::March, 28, 2, 0)).is_impossible());
    assert!(!zone.convert_local(at(2010, Month::March, 28, 0, 59)).is_impossible());
    assert!(zone.convert_local(at(2009, Month::March, 29, 1, 30)).is_impossible());
    assert!(zone.convert_local(at(2008, Month::March, 30, 1, 30)).is_impossible());
}

#[test]
fn time_zones_built_at_run_time() {
    let owned = OwnedTimeZone {
        name: Some(String::from("Test/Owned")),
        fixed_timespans: OwnedFixedTimespanSet {
            first: span(0, "ZONE_A"),
            rest: vec![
                (1206838800, span(3600, "ZONE_B")),
                (1224982800, span(0, "ZONE_A")),
            ],
        },
    };
    assert_eq!(owned.fixed_timespans.borrow(), FixedTimespanSet {
        first: span(0, "ZONE_A"),
        rest: &[(1206838800, span(3600, "ZONE_B")), (1224982800, span(0, "ZONE_A"))],
    });
    let zone = TimeZone(TimeZoneSource::Runtime(Arc::new(owned)));
    let shared = zone.clone();
    assert_eq!(zone.zone_name(), Some("Test/Owned"));
    assert!(!zone.is_fixed());
    let summer = at(2008, Month::June, 9, 15, 15);
    assert_eq!(zone.offset(summer), 3600);
    assert_eq!(shared.offset(summer), 3600);
    assert_eq!(zone.name(summer), "ZONE_B");
    assert_eq!(zone.to_zoned(summer), at(2008, Month::June, 9, 16, 15));
    assert_eq!(zone.to_zoned(at(2008, Month::January, 9, 15, 15)), at(2008, Month::January, 9, 15, 15));
    assert!(zone.convert_local(at(2008, Month::March, 30, 1, 30)).is_impossible());
    assert!(shared.convert_local(at(2008, Month::October, 26, 1, 30)).is_ambiguous());
    let zoned = zone.convert_local(summer).unwrap_precise();
    assert_eq!(zoned.to_instant(), at(2008, Month::June, 9, 14, 15).to_instant());

    let nameless = TimeZone(TimeZoneSource::Runtime(Arc::new(OwnedTimeZone {
        name: None,
        fixed_timespans: OwnedFixedTimespanSet { first: span(-18000, "EST"), rest: vec![] },
    })));
    assert_eq!(nameless.zone_name(), None);
    assert!(nameless.is_fixed());
    assert_eq!(nameless.offset(summer), -18000);
    assert_eq!(nameless.to_zoned(summer), at(2008, Month::June, 9, 10, 15));
}
