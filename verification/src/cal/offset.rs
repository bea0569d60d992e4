//! Datetimes with a fixed UTC offset.

use vstd::prelude::*;

use crate::cal::datetime::{
    div_toward_zero, rem_toward_zero, LocalDate, LocalDateTime, LocalTime, Month, Weekday,
};
use crate::cal::{DatePiece, TimePiece};
use crate::duration::Duration;

verus! {

/// The ways in which an offset, or a date and time with an offset, can
/// fail to be built.
#[derive(PartialEq, Eq, Structural, Debug, Copy, Clone)]
pub enum Error {
    /// The offset is a day or more, or its hours or minutes are.
    OutOfRange,
    /// The hours and the minutes pull in different directions.
    SignMismatch,
    /// The date or the time is out of range.
    Date(crate::cal::datetime::Error),
}

impl Error {
    /// What went wrong, in words.
    pub fn message(&self) -> (r: &'static str)
        ensures
            r@ == match self {
                Error::OutOfRange => "offset field out of range"@,
                Error::SignMismatch => "sign mismatch"@,
                Error::Date(_) => "datetime field out of range"@,
            },
    {
        match self {
            Error::OutOfRange => "offset field out of range",
            Error::SignMismatch => "sign mismatch",
            Error::Date(e) => e.message(),
        }
    }
}

/// A fixed distance from UTC, or UTC itself.
#[derive(PartialEq, Eq, Copy, Clone, Debug)]
pub struct Offset {
    offset_seconds: Option<i32>,
}

impl Offset {
    /// The seconds by which the offset is ahead of UTC, or nothing for
    /// UTC itself.
    pub closed spec fn spec_seconds(self) -> Option<int> {
        match self.offset_seconds {
            Some(s) => Some(s as int),
            None => None,
        }
    }

    /// The offset is less than a day, either way.
    pub open spec fn wf(self) -> bool {
        self.spec_seconds() matches Some(s) ==> -86400 < s < 86400
    }

    /// The seconds by which the offset is ahead of UTC: none for UTC
    /// itself.
    pub open spec fn total_seconds(self) -> int {
        match self.spec_seconds() {
            Some(s) => s,
            None => 0,
        }
    }

    /// An offset is known by its seconds.
    pub proof fn lemma_same_seconds(self, other: Offset)
        requires
            self.spec_seconds() == other.spec_seconds(),
        ensures
            self == other,
    {
        match (self.offset_seconds, other.offset_seconds) {
            (Some(a), Some(b)) => {
                assert(a == b);
            },
            _ => {},
        }
    }

    /// Whether the date and time that a clock with this offset shows at
    /// the UTC date and time `local` can be worked out.
    pub open spec fn can_adjust(self, local: LocalDateTime) -> bool {
        self.spec_seconds() matches Some(s) ==> local.can_shift(s * 1000)
    }

    /// The date and time that a clock with this offset shows at the UTC
    /// date and time `local`.
    pub open spec fn adjusted(self, local: LocalDateTime) -> LocalDateTime {
        match self.spec_seconds() {
            Some(s) => local.shifted(s * 1000),
            None => local,
        }
    }

    /// Moves a UTC date and time on by this offset. For UTC itself the
    /// date and time come back as they are.
    pub fn adjust(self, local: LocalDateTime) -> (r: LocalDateTime)
        requires
            self.can_adjust(local),
        ensures
            r == self.adjusted(local),
            r.total_ms() == local.total_ms() + self.total_seconds() * 1000,
            self.spec_seconds() is Some ==> r.wf(),
    {
        match self.offset_seconds {
            Some(s) => local + Duration::of(s as i64),
            None => local,
        }
    }

    /// The offset of UTC itself.
    pub fn utc() -> (r: Self)
        ensures
            r.wf(),
            r.spec_seconds().is_none(),
    {
        Self { offset_seconds: None }
    }

    /// The offset that is the given number of seconds ahead of UTC, which
    /// must be less than a day, either way.
    pub fn of_seconds(seconds: i32) -> (r: Result<Self, Error>)
        ensures
            r is Ok <==> -86400 < seconds < 86400,
            r matches Ok(offset) ==> offset.wf() && offset.spec_seconds() == Some(seconds as int),
            r matches Err(e) ==> e == Error::OutOfRange,
    {
        if -86400 < seconds && seconds < 86400 {
            Ok(Self { offset_seconds: Some(seconds) })
        } else {
            Err(Error::OutOfRange)
        }
    }

    /// The offset that is the given number of hours and minutes ahead of
    /// UTC. The two must not pull in different directions; the hours
    /// must be less than 24 and the minutes less than 60, either way.
    pub fn of_hours_and_minutes(hours: i8, minutes: i8) -> (r: Result<Self, Error>)
        ensures
            r is Ok <==> !((hours > 0 && minutes < 0) || (hours < 0 && minutes > 0)) && -24 < hours
                < 24 && -60 < minutes < 60,
            r matches Ok(offset) ==> offset.wf() && offset.spec_seconds() == Some(
                hours * 3600 + minutes * 60,
            ),
            r matches Err(e) ==> e == if (hours > 0 && minutes < 0) || (hours < 0 && minutes > 0) {
                Error::SignMismatch
            } else {
                Error::OutOfRange
            },
    {
        if (hours > 0 && minutes < 0) || (hours < 0 && minutes > 0) {
            Err(Error::SignMismatch)
        } else if hours <= -24 || hours >= 24 || minutes <= -60 || minutes >= 60 {
            Err(Error::OutOfRange)
        } else {
            let hours: i32 = hours as i32;
            let minutes: i32 = minutes as i32;
            Self::of_seconds(hours * (60 * 60) + minutes * 60)
        }
    }

    /// Pairs a UTC date and time with this offset.
    pub fn transform_date(self, local: LocalDateTime) -> (r: OffsetDateTime)
        ensures
            r == (OffsetDateTime { local, offset: self }),
    {
        OffsetDateTime { local, offset: self }
    }

    /// Whether this is the offset of UTC itself, which is not the same
    /// as an offset of no seconds.
    pub fn is_utc(self) -> (r: bool)
        ensures
            r == self.spec_seconds().is_none(),
    {
        self.offset_seconds.is_none()
    }

    /// Whether the offset is behind UTC.
    pub fn is_negative(self) -> (r: bool)
        requires
            self.wf(),
        ensures
            r == (self.total_seconds() < 0),
    {
        self.hours() < 0 || self.minutes() < 0 || self.seconds() < 0
    }

    /// The whole hours of the offset, negative for one behind UTC.
    pub fn hours(self) -> (r: i8)
        requires
            self.wf(),
        ensures
            r == div_toward_zero(self.total_seconds(), 3600),
            -24 < r < 24,
    {
        match self.offset_seconds {
            Some(s) => (s / 60 / 60) as i8,
            None => 0,
        }
    }

    /// The whole minutes of the offset beyond its hours, negative for one
    /// behind UTC.
    pub fn minutes(self) -> (r: i8)
        requires
            self.wf(),
        ensures
            r == rem_toward_zero(div_toward_zero(self.total_seconds(), 60), 60),
            -60 < r < 60,
    {
        match self.offset_seconds {
            Some(s) => (s / 60 % 60) as i8,
            None => 0,
        }
    }

    /// The seconds of the offset beyond its minutes, negative for one
    /// behind UTC.
    pub fn seconds(self) -> (r: i8)
        requires
            self.wf(),
        ensures
            r == rem_toward_zero(self.total_seconds(), 60),
            -60 < r < 60,
    {
        match self.offset_seconds {
            Some(s) => (s % 60) as i8,
            None => 0,
        }
    }
}

/// A UTC date and time together with the offset of the clock that is to
/// show it. Its date and time components are those that the clock shows.
#[derive(PartialEq, Eq, Copy, Clone, Debug)]
pub struct OffsetDateTime {
    pub local: LocalDateTime,
    pub offset: Offset,
}

impl DatePiece for OffsetDateTime {
    open spec fn date_piece(&self) -> LocalDate {
        self.offset.adjusted(self.local).spec_date()
    }

    open spec fn has_date_piece(&self) -> bool {
        self.offset.can_adjust(self.local)
    }

    fn year(&self) -> (r: i64) {
        self.offset.adjust(self.local).year()
    }

    fn month(&self) -> (r: Month) {
        self.offset.adjust(self.local).month()
    }

    fn day(&self) -> (r: i8) {
        self.offset.adjust(self.local).day()
    }

    fn yearday(&self) -> (r: i16) {
        self.offset.adjust(self.local).yearday()
    }

    fn weekday(&self) -> (r: Weekday) {
        self.offset.adjust(self.local).weekday()
    }

    fn year_of_century(&self) -> (r: i64) {
        self.year() % 100
    }

    fn years_from_2000(&self) -> (r: i64) {
        self.year() - 2000
    }
}

impl TimePiece for OffsetDateTime {
    open spec fn time_piece(&self) -> LocalTime {
        self.offset.adjusted(self.local).spec_time()
    }

    open spec fn has_time_piece(&self) -> bool {
        self.offset.can_adjust(self.local)
    }

    fn hour(&self) -> (r: i8) {
        self.offset.adjust(self.local).hour()
    }

    fn minute(&self) -> (r: i8) {
        self.offset.adjust(self.local).minute()
    }

    fn second(&self) -> (r: i8) {
        self.offset.adjust(self.local).second()
    }

    fn millisecond(&self) -> (r: i16) {
        self.offset.adjust(self.local).millisecond()
    }
}

} // verus!
