//! Civil calendar arithmetic and time zone offset resolution, with
//! machine-checked contracts.
//!
//! The library converts between counts of elapsed time (seconds and days
//! since a fixed epoch) and the fields of the calendar and the clock: year,
//! month, day, day of the week, day of the year, hour, minute and second.
//! Given the table of a time zone's changes of offset, it finds the offset
//! in effect at an instant, and what a time on a wall clock comes to: one
//! instant, two, or none.
//!
//! - [`duration`] and [`instant`]: lengths of time and points in time, in
//!   seconds and milliseconds.
//! - [`cal::civil`]: the proleptic Gregorian calendar as arithmetic, which
//!   every contract of the calendar is stated over.
//! - [`cal::datetime`]: dates, times of day, and dates with times.
//! - [`cal::iter`]: the months of a year and the days of a month.
//! - [`cal::offset`]: dates and times at a fixed distance from UTC.
//! - [`cal::zone`]: tables of timespans, and the conversion of local times.
//! - [`cal::fmt`] and [`cal::parse`]: the ISO-8601 notation, written and
//!   read.
//! - [`system`]: the name of the system's time zone, from the path of its
//!   zone file.
//!
//! Leap seconds are ignored throughout.

pub mod cal;
pub mod duration;
pub mod instant;
pub mod system;

pub use cal::convenience;
pub use cal::datetime::{
    Error, LocalDate, LocalDateTime, LocalTime, Month, TimeFields, Weekday, Year, YMD,
};
pub use cal::fmt::iso::{ISOString, ISO};
pub use cal::iter::{DaySpan, MonthDays, MonthSpan, YearMonth, YearMonths};
pub use cal::offset::{Offset, OffsetDateTime};
pub use cal::zone;
pub use cal::zone::{TimeZone, ZonedDateTime};
pub use cal::{DatePiece, TimePiece};
pub use duration::Duration;
pub use instant::Instant;
