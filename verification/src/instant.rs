//! Exact points on a timeline.

use vstd::prelude::*;
use vstd::std_specs::ops::{AddSpecImpl, SubSpecImpl};

use crate::duration::{split_thousands, Duration};

verus! {

/// An **instant** is an exact point on the timeline, irrespective of time
/// zone or calendar format, with millisecond precision.
///
/// Internally, this is represented by a 64-bit integer of seconds since
/// midnight, 1st January, 1970, and a 16-bit integer of milliseconds. This
/// means that it cannot hold instants past GMT 15:30:08, Sunday 4th
/// December, 292,277,026,596 (yes, that is a year).
#[derive(PartialEq, Eq, Structural, PartialOrd, Ord, Clone, Copy, Debug)]
pub struct Instant {
    seconds: i64,
    milliseconds: i16,
}

impl Instant {
    /// The seconds since the Unix epoch.
    pub closed spec fn spec_seconds(self) -> int {
        self.seconds as int
    }

    /// The milliseconds of the second.
    pub closed spec fn spec_milliseconds(self) -> int {
        self.milliseconds as int
    }

    /// The milliseconds since the Unix epoch.
    pub open spec fn total_ms(self) -> int {
        self.spec_seconds() * 1000 + self.spec_milliseconds()
    }

    /// The milliseconds lie in `0..=999`.
    pub open spec fn wf(self) -> bool {
        0 <= self.spec_milliseconds() <= 999
    }

    /// The instant that lies `total` milliseconds after the Unix epoch:
    /// the seconds are `total / 1000` rounded down, the milliseconds what
    /// is left.
    pub closed spec fn from_total_ms(total: int) -> Instant {
        Instant { seconds: (total / 1000) as i64, milliseconds: (total % 1000) as i16 }
    }

    /// The instant with the given seconds and milliseconds, which are
    /// kept as they are.
    pub closed spec fn of_parts(seconds: int, milliseconds: int) -> Instant {
        Instant { seconds: seconds as i64, milliseconds: milliseconds as i16 }
    }

    /// What `of_parts` gives for parts that can be held.
    pub proof fn lemma_of_parts(seconds: int, milliseconds: int)
        requires
            i64::MIN <= seconds <= i64::MAX,
            i16::MIN <= milliseconds <= i16::MAX,
        ensures
            Instant::of_parts(seconds, milliseconds).spec_seconds() == seconds,
            Instant::of_parts(seconds, milliseconds).spec_milliseconds() == milliseconds,
            0 <= milliseconds <= 999 ==> Instant::of_parts(seconds, milliseconds)
                == Instant::from_total_ms(seconds * 1000 + milliseconds),
    {
    }

    /// Whether this instant moved on by `duration` can be held.
    pub open spec fn can_add(self, duration: Duration) -> bool {
        Duration::representable(self.total_ms() + duration.total_ms())
    }

    /// This instant moved on by `duration`.
    pub open spec fn plus(self, duration: Duration) -> Instant {
        Instant::from_total_ms(self.total_ms() + duration.total_ms())
    }

    /// Whether this instant moved back by `duration` can be held.
    pub open spec fn can_sub(self, duration: Duration) -> bool {
        Duration::representable(self.total_ms() - duration.total_ms())
    }

    /// This instant moved back by `duration`.
    pub open spec fn minus(self, duration: Duration) -> Instant {
        Instant::from_total_ms(self.total_ms() - duration.total_ms())
    }

    /// An instant is known by its two parts.
    pub proof fn lemma_same_parts(self, other: Instant)
        requires
            self.spec_seconds() == other.spec_seconds(),
            self.spec_milliseconds() == other.spec_milliseconds(),
        ensures
            self == other,
    {
    }

    /// What `from_total_ms` gives for a number of milliseconds that can
    /// be held.
    pub proof fn lemma_total_ms_of(total: int)
        requires
            Duration::representable(total),
        ensures
            Instant::from_total_ms(total).wf(),
            Instant::from_total_ms(total).total_ms() == total,
            Instant::from_total_ms(total).spec_seconds() == total / 1000,
            Instant::from_total_ms(total).spec_milliseconds() == total % 1000,
    {
    }

    /// Creates a new Instant set to the number of seconds since the Unix
    /// epoch, and zero milliseconds.
    pub fn at(seconds: i64) -> (r: Self)
        ensures
            r.wf(),
            r.spec_seconds() == seconds,
            r.spec_milliseconds() == 0,
    {
        Self::at_ms(seconds, 0)
    }

    /// Creates a new Instant set to the number of seconds since the
    /// Unix epoch, along with the number of milliseconds so far this
    /// second.
    pub fn at_ms(seconds: i64, milliseconds: i16) -> (r: Self)
        ensures
            r == Instant::of_parts(seconds as int, milliseconds as int),
            r.spec_seconds() == seconds,
            r.spec_milliseconds() == milliseconds,
    {
        Self { seconds, milliseconds }
    }

    /// Creates a new Instant set to the Unix epoch.
    pub fn at_epoch() -> (r: Self)
        ensures
            r.wf(),
            r.spec_seconds() == 0,
            r.spec_milliseconds() == 0,
    {
        Self::at(0)
    }

    /// Returns the number of seconds at this instant
    pub fn seconds(&self) -> (r: i64)
        ensures
            r == self.spec_seconds(),
    {
        self.seconds
    }

    /// Returns the number of milliseconds at this instant
    pub fn milliseconds(&self) -> (r: i16)
        ensures
            r == self.spec_milliseconds(),
    {
        self.milliseconds
    }

    /// The instant that has `seconds` whole seconds more than a part of
    /// `part_ms` milliseconds, which may be negative or above 999.
    fn normalised(seconds: i128, part_ms: i128) -> (r: Self)
        requires
            Duration::representable(seconds * 1000 + part_ms),
        ensures
            r == Instant::from_total_ms(seconds * 1000 + part_ms),
            r.wf(),
            r.total_ms() == seconds * 1000 + part_ms,
            r.spec_seconds() == (seconds * 1000 + part_ms) / 1000,
            r.spec_milliseconds() == (seconds * 1000 + part_ms) % 1000,
    {
        let (carry, ms) = split_thousands(part_ms);
        assert((seconds * 1000 + part_ms) / 1000 == seconds + part_ms / 1000);
        assert((seconds * 1000 + part_ms) % 1000 == part_ms % 1000);
        Self { seconds: (seconds + carry) as i64, milliseconds: ms }
    }
}

impl core::ops::Add<Duration> for Instant {
    type Output = Instant;

    /// The instant that lies `duration` after this one, with the
    /// milliseconds carried into the seconds.
    fn add(self, duration: Duration) -> (r: Instant)
        ensures
            r.wf(),
            r.total_ms() == self.total_ms() + duration.total_ms(),
            r.spec_seconds() == (self.total_ms() + duration.total_ms()) / 1000,
            r.spec_milliseconds() == (self.total_ms() + duration.total_ms()) % 1000,
    {
        let (seconds, milliseconds) = duration.lengths();
        Instant::normalised(
            self.seconds as i128 + seconds as i128,
            self.milliseconds as i128 + milliseconds as i128,
        )
    }
}

impl AddSpecImpl<Duration> for Instant {
    open spec fn obeys_add_spec() -> bool {
        true
    }

    open spec fn add_req(self, duration: Duration) -> bool {
        self.can_add(duration)
    }

    open spec fn add_spec(self, duration: Duration) -> Instant {
        self.plus(duration)
    }
}

impl core::ops::Sub<Duration> for Instant {
    type Output = Instant;

    /// The instant that lies `duration` before this one, with the
    /// milliseconds borrowed from the seconds.
    fn sub(self, duration: Duration) -> (r: Instant)
        ensures
            r.wf(),
            r.total_ms() == self.total_ms() - duration.total_ms(),
            r.spec_seconds() == (self.total_ms() - duration.total_ms()) / 1000,
            r.spec_milliseconds() == (self.total_ms() - duration.total_ms()) % 1000,
    {
        let (seconds, milliseconds) = duration.lengths();
        Instant::normalised(
            self.seconds as i128 - seconds as i128,
            self.milliseconds as i128 - milliseconds as i128,
        )
    }
}

impl SubSpecImpl<Duration> for Instant {
    open spec fn obeys_sub_spec() -> bool {
        true
    }

    open spec fn sub_req(self, duration: Duration) -> bool {
        self.can_sub(duration)
    }

    open spec fn sub_spec(self, duration: Duration) -> Instant {
        self.minus(duration)
    }
}

} // verus!
