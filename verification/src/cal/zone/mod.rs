//! Datetimes with a variable UTC offset, and time zone calculations.

use std::borrow::Cow;
use std::sync::Arc;
use vstd::prelude::*;

use self::runtime::OwnedTimeZone;
use crate::cal::datetime::{LocalDate, LocalDateTime, LocalTime, Month, Weekday};
use crate::cal::{DatePiece, TimePiece};
use crate::duration::Duration;
use crate::instant::Instant;

pub mod runtime;

verus! {

/// A copy of a timespan's abbreviation. This is `clone` of std's `Cow`:
/// a borrowed text stays the same borrowed text, an owned one is copied
/// letter for letter.
#[verifier::external_body]
fn clone_name<'a>(name: &Cow<'a, str>) -> (r: Cow<'a, str>)
    ensures
        r == *name,
{
    name.clone()
}

/// The abbreviation of a timespan as a `String`. This is `to_string` of
/// std's `Cow`, which writes out the text that it holds.
#[verifier::external_body]
fn name_to_string(name: &Cow<'_, str>) -> (r: String)
    ensures
        r@ == name@,
{
    name.to_string()
}

/// One more handle on a shared time zone. This is `clone` of std's `Arc`:
/// the new handle points to the same time zone.
#[verifier::external_body]
fn share_zone(zone: &Arc<OwnedTimeZone>) -> (r: Arc<OwnedTimeZone>)
    ensures
        r == *zone,
{
    zone.clone()
}

/// An individual timespan with a fixed offset.
#[derive(PartialEq, Debug)]
pub struct FixedTimespan<'a> {
    /// The *total* offset in effect during this timespan, in seconds. This
    /// is the sum of the standard offset from UTC (the zone's standard
    /// time), and any extra daylight-saving offset.
    pub offset: i64,
    /// Whether there was any daylight-saving offset in effect during this
    /// timespan.
    pub is_dst: bool,
    /// The abbreviation in use during this timespan, such as "GMT" or
    /// "PDT". Abbreviations are notoriously vague, and should only be used
    /// for referring to a known timezone.
    pub name: Cow<'a, str>,
}

/// A set of timespans, separated by the instances at which the timespans
/// change over. There will always be one more timespan than transitions.
#[derive(PartialEq, Debug)]
pub struct FixedTimespanSet<'a> {
    /// The first timespan, which is assumed to have been in effect up until
    /// the initial transition instant (if any). Each set has to have at
    /// least one timespan.
    pub first: FixedTimespan<'a>,
    /// The rest of the timespans, as a slice of tuples, each containing:
    ///
    /// 1. A transition instant at which the previous timespan ends and the
    ///    next one begins, stored as a Unix timestamp;
    /// 2. The actual timespan to transition into.
    pub rest: &'a [(i64, FixedTimespan<'a>)],
}

impl<'a> Clone for FixedTimespan<'a> {
    fn clone(&self) -> (r: Self)
        ensures
            r == *self,
    {
        FixedTimespan { offset: self.offset, is_dst: self.is_dst, name: clone_name(&self.name) }
    }
}

impl<'a> Clone for FixedTimespanSet<'a> {
    fn clone(&self) -> (r: Self)
        ensures
            r == *self,
    {
        FixedTimespanSet { first: self.first.clone(), rest: self.rest }
    }
}

/// The timespan in effect at some time, with the timespans on either
/// side of it, if there are any, and the instants at which it begins and
/// ends.
#[derive(PartialEq, Debug)]
pub struct Surroundings<'a> {
    /// The timespan before the current one, and the instant at which the
    /// current one begins.
    pub previous: Option<(&'a FixedTimespan<'a>, i64)>,
    /// The timespan in effect.
    pub current: &'a FixedTimespan<'a>,
    /// The instant at which the current timespan ends, and the timespan
    /// after it.
    pub next: Option<&'a (i64, FixedTimespan<'a>)>,
}

/// What a time on a wall clock comes to in a time zone: the offset from
/// UTC under which the clock shows it, the two offsets under which the
/// clock shows it twice, or nothing if the clock never shows it.
#[derive(PartialEq, Eq, Structural, Debug, Clone, Copy)]
pub enum Resolution {
    /// The clock skips the time.
    Impossible,
    /// The clock shows the time once, under this offset.
    Precise(i64),
    /// The clock shows the time twice: first under the `earlier` offset,
    /// then under the `later` one.
    Ambiguous { earlier: i64, later: i64 },
}

/// The number of transitions that lie before `time`, counted on from the
/// transition with index `from` up to the first one that does not.
pub open spec fn passed_from(rest: Seq<(i64, FixedTimespan<'_>)>, time: int, from: int) -> int
    decreases rest.len() - from,
{
    if 0 <= from < rest.len() && rest[from].0 < time {
        passed_from(rest, time, from + 1)
    } else {
        from
    }
}

/// Whether a clock that goes from one offset to another at `boundary`
/// shows the time `time` twice: the offset drops, and the time lies
/// within the hour, or whatever the drop is, that the clock repeats.
pub open spec fn in_overlap(time: int, boundary: int, before: int, after: int) -> bool {
    before > after && after <= time - boundary < before
}

/// Whether a clock that goes from one offset to another at `boundary`
/// never shows the time `time`: the offset rises, and the time lies
/// within the hour, or whatever the rise is, that the clock skips.
pub open spec fn in_gap(time: int, boundary: int, before: int, after: int) -> bool {
    before < after && before <= time - boundary < after
}

/// The instant at which one timespan gives way to the next, and the
/// offset of the timespan on the other side of it.
pub struct Boundary {
    pub at: i64,
    pub offset: i64,
}

/// What the wall-clock time `time`, written as seconds from 1970 as if
/// it were UTC, comes to in a timespan with offset `current`, given the
/// boundary at which it began and the offset before that, and the
/// boundary at which it ends and the offset after that. The boundary
/// behind is looked at first.
pub open spec fn resolution(
    previous: Option<Boundary>,
    current: i64,
    next: Option<Boundary>,
    time: int,
) -> Resolution {
    if previous matches Some(p) && in_overlap(time, p.at as int, p.offset as int, current as int) {
        Resolution::Ambiguous { earlier: previous->0.offset, later: current }
    } else if previous matches Some(p) && in_gap(
        time,
        p.at as int,
        p.offset as int,
        current as int,
    ) {
        Resolution::Impossible
    } else if next matches Some(n) && in_overlap(time, n.at as int, current as int, n.offset as int) {
        Resolution::Ambiguous { earlier: current, later: next->0.offset }
    } else if next matches Some(n) && in_gap(time, n.at as int, current as int, n.offset as int) {
        Resolution::Impossible
    } else {
        Resolution::Precise(current)
    }
}

/// A time is ambiguous only where the offset drops, and then the earlier
/// offset is the greater, so that the earlier of the two instants comes
/// first; it is impossible only where the offset rises; and where it is
/// precise, its offset is that of the timespan that was found.
pub proof fn lemma_resolution(
    previous: Option<Boundary>,
    current: i64,
    next: Option<Boundary>,
    time: int,
)
    ensures
        resolution(previous, current, next, time) matches Resolution::Ambiguous { earlier, later }
            ==> earlier > later && (later == current || earlier == current),
        resolution(previous, current, next, time) matches Resolution::Ambiguous { earlier, later }
            ==> (previous matches Some(p) && earlier == p.offset && later == current && in_overlap(
            time,
            p.at as int,
            p.offset as int,
            current as int,
        )) || (next matches Some(n) && earlier == current && later == n.offset && in_overlap(
            time,
            n.at as int,
            current as int,
            n.offset as int,
        )),
        resolution(previous, current, next, time) is Impossible ==> (previous matches Some(p)
            && in_gap(time, p.at as int, p.offset as int, current as int)) || (next matches Some(n)
            && in_gap(time, n.at as int, current as int, n.offset as int)),
        resolution(previous, current, next, time) matches Resolution::Precise(offset) ==> offset
            == current,
{
}

/// A set of timespans as a value of mathematics: the first timespan,
/// and the list of the transitions with the timespans that they begin.
pub struct Timespans<'a> {
    pub first: FixedTimespan<'a>,
    pub rest: Seq<(i64, FixedTimespan<'a>)>,
}

impl<'a> View for FixedTimespanSet<'a> {
    type V = Timespans<'a>;

    open spec fn view(&self) -> Timespans<'a> {
        Timespans { first: self.first, rest: self.rest@ }
    }
}

impl<'a> Timespans<'a> {
    /// The transitions are in strictly ascending order of their instants.
    pub open spec fn is_sorted(self) -> bool {
        forall|i: int, j: int|
            0 <= i < j < self.rest.len() ==> (#[trigger] self.rest[i]).0 < (
            #[trigger] self.rest[j]).0
    }

    /// Every transition changes the offset.
    pub open spec fn offsets_change(self) -> bool {
        &&& self.rest.len() > 0 ==> self.rest[0].1.offset != self.first.offset
        &&& forall|i: int|
            0 <= i < self.rest.len() - 1 ==> (#[trigger] self.rest[i]).1.offset != self.rest[i
                + 1].1.offset
    }

    /// The set is one that a time zone can have: its transitions are in
    /// strictly ascending order, and each of them changes the offset.
    pub open spec fn wf(self) -> bool {
        self.is_sorted() && self.offsets_change()
    }

    /// The number of transitions that lie before `time`, counted from the
    /// first one up to the first one that does not.
    pub open spec fn passed(self, time: int) -> int {
        passed_from(self.rest, time, 0)
    }

    /// The timespan after `passed` transitions.
    pub open spec fn timespan_after(self, passed: int) -> FixedTimespan<'a> {
        if passed <= 0 {
            self.first
        } else {
            self.rest[passed - 1].1
        }
    }

    /// The timespan in effect at `time`.
    pub open spec fn find(self, time: int) -> FixedTimespan<'a> {
        self.timespan_after(self.passed(time))
    }

    /// The timespan before the one in effect at `time` and the instant
    /// at which it ended, as offset and instant.
    pub open spec fn previous_of(self, time: int) -> Option<Boundary> {
        let passed = self.passed(time);
        if passed <= 0 {
            None
        } else {
            Some(Boundary { at: self.rest[passed - 1].0, offset: self.timespan_after(passed - 1).offset })
        }
    }

    /// The instant at which the timespan in effect at `time` ends and the
    /// timespan after it, as instant and offset.
    pub open spec fn next_of(self, time: int) -> Option<Boundary> {
        let passed = self.passed(time);
        if passed < self.rest.len() {
            Some(Boundary { at: self.rest[passed].0, offset: self.rest[passed].1.offset })
        } else {
            None
        }
    }

    /// What the wall-clock time `time`, written as seconds from 1970 as if
    /// it were UTC, comes to in this set of timespans.
    pub open spec fn resolve(self, time: int) -> Resolution {
        resolution(self.previous_of(time), self.find(time).offset, self.next_of(time), time)
    }

    /// Counting on from any transition gives a transition that does not
    /// lie before `time`, or the end of the list, and passes only
    /// transitions that do.
    pub proof fn lemma_passed_from(rest: Seq<(i64, FixedTimespan<'a>)>, time: int, from: int)
        requires
            0 <= from <= rest.len(),
        ensures
            from <= passed_from(rest, time, from) <= rest.len(),
            forall|i: int| from <= i < passed_from(rest, time, from) ==> (#[trigger] rest[i]).0 < time,
            passed_from(rest, time, from) < rest.len() ==> rest[passed_from(rest, time, from)].0
                >= time,
        decreases rest.len() - from,
    {
        if from < rest.len() && rest[from].0 < time {
            Self::lemma_passed_from(rest, time, from + 1);
        }
    }

    /// In a sorted set, the transitions that were passed are all those
    /// that lie before `time`: the timespan found is the one that the
    /// latest of them began.
    pub proof fn lemma_passed_sorted(self, time: int)
        requires
            self.is_sorted(),
        ensures
            0 <= self.passed(time) <= self.rest.len(),
            forall|i: int|
                0 <= i < self.rest.len() ==> ((#[trigger] self.rest[i]).0 < time <==> i
                    < self.passed(time)),
    {
        Self::lemma_passed_from(self.rest, time, 0);
        let passed = self.passed(time);
        assert forall|i: int| 0 <= i < self.rest.len() implies ((#[trigger] self.rest[i]).0 < time
            <==> i < passed) by {
            if i > passed {
                assert(self.rest[passed].0 < self.rest[i].0);
            }
        }
    }
}

impl<'a> FixedTimespanSet<'a> {
    /// The number of transitions that lie before `time`, counted from the
    /// first one up to the first one that does not.
    fn count_passed(&self, time: i64) -> (r: usize)
        ensures
            r == self@.passed(time as int),
            r <= self.rest@.len(),
    {
        let mut position: usize = 0;
        while position < self.rest.len() && self.rest[position].0 < time
            invariant
                position <= self.rest@.len(),
                passed_from(self.rest@, time as int, 0) == passed_from(
                    self.rest@,
                    time as int,
                    position as int,
                ),
            decreases self.rest@.len() - position,
        {
            position += 1;
        }
        position
    }

    /// Returns the timespan in effect at the given Unix timestamp: the
    /// one that the latest transition before `time` began, or the first
    /// one if no transition lies before `time`.
    pub fn find(&self, time: i64) -> (r: &FixedTimespan<'a>)
        ensures
            *r == self@.find(time as int),
    {
        let passed = self.count_passed(time);
        if passed == 0 {
            &self.first
        } else {
            &self.rest[passed - 1].1
        }
    }

    /// Returns the total offset from UTC, in seconds, that is in effect at
    /// the given date and time.
    pub fn offset(&self, datetime: LocalDateTime) -> (r: i64)
        requires
            datetime.has_instant(),
        ensures
            r == self@.find(datetime.timestamp()).offset,
    {
        let unix_timestamp = datetime.to_instant().seconds();
        self.find(unix_timestamp).offset
    }

    /// Returns the abbreviation that is in use at the given date and
    /// time.
    pub fn name(&self, datetime: LocalDateTime) -> (r: String)
        requires
            datetime.has_instant(),
        ensures
            r@ == self@.find(datetime.timestamp()).name@,
    {
        let unix_timestamp = datetime.to_instant().seconds();
        name_to_string(&self.find(unix_timestamp).name)
    }

    /// Whether this set has one timespan only, and so no transitions.
    pub fn is_fixed(&self) -> (r: bool)
        ensures
            r == (self.rest@.len() == 0),
    {
        self.rest.len() == 0
    }

    /// Whether the transitions are in strictly ascending order and each
    /// of them changes the offset: what a set must fulfil before local
    /// times are converted with it.
    pub fn is_well_formed(&self) -> (r: bool)
        ensures
            r == self@.wf(),
    {
        let mut index: usize = 0;
        while index < self.rest.len()
            invariant
                index <= self.rest@.len(),
                forall|i: int, j: int|
                    0 <= i < j < index ==> (#[trigger] self.rest@[i]).0 < (#[trigger] self.rest@[j]).0,
                index > 0 ==> self.rest@[0].1.offset != self.first.offset,
                forall|i: int|
                    0 <= i < index - 1 ==> (#[trigger] self.rest@[i]).1.offset != self.rest@[i
                        + 1].1.offset,
            decreases self.rest@.len() - index,
        {
            let before_offset = if index == 0 {
                self.first.offset
            } else {
                self.rest[index - 1].1.offset
            };
            if self.rest[index].1.offset == before_offset {
                proof {
                    if index > 0 {
                        assert(self.rest@[index - 1].1.offset == self.rest@[index - 1 + 1].1.offset);
                    }
                }
                return false;
            }
            if index > 0 && self.rest[index - 1].0 >= self.rest[index].0 {
                assert(!(self.rest@[index - 1].0 < self.rest@[index as int].0));
                return false;
            }
            proof {
                assert forall|i: int, j: int| 0 <= i < j < index + 1 implies (
                #[trigger] self.rest@[i]).0 < (#[trigger] self.rest@[j]).0 by {
                    if j == index && i < index - 1 {
                        assert(self.rest@[i].0 < self.rest@[index - 1].0);
                    }
                }
            }
            index += 1;
        }
        true
    }

    /// Returns the timespan in effect at the given Unix timestamp, plus,
    /// if they exist, the timespan before it with the instant at which
    /// that one ended, and the instant at which the one after it begins
    /// with that timespan.
    pub fn find_with_surroundings(&self, time: i64) -> (r: Surroundings<'_>)
        ensures
            *r.current == self@.find(time as int),
            r.previous is Some <==> self@.passed(time as int) > 0,
            r.previous matches Some(p) ==> *p.0 == self@.timespan_after(self@.passed(time as int) - 1)
                && p.1 == self.rest@[self@.passed(time as int) - 1].0,
            r.next is Some <==> self@.passed(time as int) < self.rest@.len(),
            r.next matches Some(n) ==> *n == self.rest@[self@.passed(time as int)],
            r.previous matches Some(p) ==> self@.previous_of(time as int) == Some(
                Boundary { at: p.1, offset: p.0.offset },
            ),
            r.previous is None ==> self@.previous_of(time as int).is_none(),
            r.next matches Some(n) ==> self@.next_of(time as int) == Some(
                Boundary { at: n.0, offset: n.1.offset },
            ),
            r.next is None ==> self@.next_of(time as int).is_none(),
    {
        let passed = self.count_passed(time);
        if passed > 0 {
            // There is a matching time in the `rest` list, so return that
            // time along with the two sets of details around it.
            let position = passed - 1;
            let previous_details = if position == 0 {
                &self.first
            } else {
                &self.rest[position - 1].1
            };

            Surroundings {
                previous: Some((previous_details, self.rest[position].0)),
                current: &self.rest[position].1,
                next: if position + 1 < self.rest.len() {
                    Some(&self.rest[position + 1])
                } else {
                    None
                },
            }
        } else {
            // If there is no matching time in the `rest` list, it must be
            // the `first` one.
            Surroundings {
                previous: None,
                current: &self.first,
                next: if 0 < self.rest.len() {
                    Some(&self.rest[0])
                } else {
                    None
                },
            }
        }
    }

    /// Works out what a wall-clock time comes to in this set of timespans.
    /// The time is given in seconds from 1970, as if it were UTC.
    ///
    /// The time is looked up as if it were UTC. If the timespan found
    /// began with a drop of the offset and the time lies within the
    /// stretch that the clock repeated, it is ambiguous; if it began
    /// with a rise and the time lies within the stretch that the clock
    /// skipped, it is impossible. The same is then asked of the end of
    /// the timespan. Otherwise the time is precise.
    pub fn resolve(&self, unix_timestamp: i64) -> (r: Resolution)
        requires
            self@.offsets_change(),
        ensures
            r == self@.resolve(unix_timestamp as int),
    {
        let timespans = self.find_with_surroundings(unix_timestamp);
        let current: i128 = timespans.current.offset as i128;

        if let Some((previous_zone, previous_transition_time)) = timespans.previous {
            let previous: i128 = previous_zone.offset as i128;
            let since: i128 = unix_timestamp as i128 - previous_transition_time as i128;

            // Test whether this timestamp is in the *overlap* after the
            // current timespan starts but before the previous one ends.
            if previous > current && current <= since && since < previous {
                return Resolution::Ambiguous {
                    earlier: previous_zone.offset,
                    later: timespans.current.offset,
                };
            }
            // Test whether this timestamp is in the *space* after the
            // previous timespan ends but before the current one starts.

            if previous < current && previous <= since && since < current {
                return Resolution::Impossible;
            }
        }
        if let Some(next_transition) = timespans.next {
            let next: i128 = next_transition.1.offset as i128;
            let since: i128 = unix_timestamp as i128 - next_transition.0 as i128;

            // Test whether this timestamp is in the *overlap* after the
            // next timespan starts but before the current one ends.
            if current > next && next <= since && since < current {
                return Resolution::Ambiguous {
                    earlier: timespans.current.offset,
                    later: next_transition.1.offset,
                };
            }
            // Test whether this timestamp is in the *space* after the
            // current timespan ends but before the next one starts.

            if current < next && current <= since && since < next {
                return Resolution::Impossible;
            }
        }
        Resolution::Precise(timespans.current.offset)
    }

    /// Converts a local date and time that is already, informally, in this
    /// time zone into zoned date-times, which hold it together with the
    /// offset from UTC that was found for it.
    ///
    /// There are none, one or two of them, as [`resolve`] finds for the
    /// seconds that the local date and time would have from 1970 if it
    /// were UTC.
    ///
    /// [`resolve`]: FixedTimespanSet::resolve
    pub fn convert_local(&self, local: LocalDateTime, source: &TimeZoneSource<'a>) -> (r:
        LocalTimes<'a>)
        requires
            local.has_instant(),
            self@.offsets_change(),
        ensures
            r.resolution() == self@.resolve(local.timestamp()),
            r.is_of(local, *source),
    {
        let unix_timestamp = local.to_instant().seconds();

        match self.resolve(unix_timestamp) {
            Resolution::Impossible => LocalTimes::Impossible,
            Resolution::Precise(offset) => LocalTimes::Precise(
                ZonedDateTime { adjusted: local, current_offset: offset, time_zone: source.clone() },
            ),
            Resolution::Ambiguous { earlier, later } => LocalTimes::Ambiguous {
                earlier: ZonedDateTime {
                    adjusted: local,
                    current_offset: earlier,
                    time_zone: source.clone(),
                },
                later: ZonedDateTime {
                    adjusted: local,
                    current_offset: later,
                    time_zone: source.clone(),
                },
            },
        }
    }
}

/// A time zone whose timespans are borrowed, such as one that was
/// compiled into the program.
#[derive(PartialEq, Debug)]
pub struct StaticTimeZone<'a> {
    /// This zone's name in the zoneinfo database, such as "America/New_York".
    pub name: &'a str,
    /// The set of timespans used in this time zone.
    pub fixed_timespans: FixedTimespanSet<'a>,
}

/// Where a time zone has its timespans from: a borrowed table, or a
/// shared one that was built while the program ran.
#[derive(Debug)]
pub enum TimeZoneSource<'a> {
    Static(&'a StaticTimeZone<'a>),
    Runtime(Arc<OwnedTimeZone>),
}

impl<'a> Clone for TimeZoneSource<'a> {
    fn clone(&self) -> (r: Self)
        ensures
            r == *self,
    {
        match self {
            TimeZoneSource::Static(tz) => TimeZoneSource::Static(tz),
            TimeZoneSource::Runtime(arc) => TimeZoneSource::Runtime(share_zone(arc)),
        }
    }
}

impl<'a> TimeZoneSource<'a> {
    /// The set of timespans of the time zone.
    pub open spec fn timespans(self) -> Timespans<'a> {
        match self {
            TimeZoneSource::Static(tz) => tz.fixed_timespans@,
            TimeZoneSource::Runtime(arc) => arc.fixed_timespans@,
        }
    }
}

/// A **time zone**, which here is a list of timespans, each containing a
/// fixed offset for the current location's time from UTC.
#[derive(Debug)]
pub struct TimeZone(pub TimeZoneSource<'static>);

impl Clone for TimeZone {
    fn clone(&self) -> (r: Self)
        ensures
            r == *self,
    {
        TimeZone(self.0.clone())
    }
}

impl TimeZone {
    /// The set of timespans of this time zone.
    pub open spec fn timespans(self) -> Timespans<'static> {
        self.0.timespans()
    }

    /// This zone's name in the zoneinfo database, if it has one.
    pub fn zone_name(&self) -> (r: Option<&str>)
        ensures
            match self.0 {
                TimeZoneSource::Static(tz) => r matches Some(name) && name@ == tz.name@,
                TimeZoneSource::Runtime(arc) => match arc.name {
                    Some(owned) => r matches Some(name) && name@ == owned@,
                    None => r.is_none(),
                },
            },
    {
        match &self.0 {
            TimeZoneSource::Static(tz) => Some(tz.name),
            TimeZoneSource::Runtime(arc) => match &arc.name {
                Some(name) => Some(name.as_str()),
                None => None,
            },
        }
    }

    /// Returns the total offset from UTC, in seconds, that this time zone
    /// has at the given datetime.
    pub fn offset(&self, datetime: LocalDateTime) -> (r: i64)
        requires
            datetime.has_instant(),
        ensures
            r == self.timespans().find(datetime.timestamp()).offset,
    {
        match &self.0 {
            TimeZoneSource::Static(tz) => tz.fixed_timespans.offset(datetime),
            TimeZoneSource::Runtime(arc) => arc.fixed_timespans.borrow().offset(datetime),
        }
    }

    /// Returns the time zone abbreviation that this time zone has at the
    /// given datetime. As always, abbreviations are notoriously vague, and
    /// should only be used when referring to a known timezone.
    pub fn name(&self, datetime: LocalDateTime) -> (r: String)
        requires
            datetime.has_instant(),
        ensures
            r@ == self.timespans().find(datetime.timestamp()).name@,
    {
        match &self.0 {
            TimeZoneSource::Static(tz) => tz.fixed_timespans.name(datetime),
            TimeZoneSource::Runtime(arc) => arc.fixed_timespans.borrow().name(datetime),
        }
    }

    /// Whether this time zone is "fixed": a fixed time zone has no
    /// transitions, meaning it will always be at the same offset from UTC.
    pub fn is_fixed(&self) -> (r: bool)
        ensures
            r == (self.timespans().rest.len() == 0),
    {
        match &self.0 {
            TimeZoneSource::Static(tz) => tz.fixed_timespans.is_fixed(),
            TimeZoneSource::Runtime(arc) => arc.fixed_timespans.borrow().is_fixed(),
        }
    }

    /// Converts a local datetime in UTC to a zoned datetime that uses this
    /// time zone.
    pub fn to_zoned(&self, datetime: LocalDateTime) -> (r: LocalDateTime)
        requires
            datetime.can_shift(self.timespans().find(datetime.timestamp()).offset * 1000),
        ensures
            r == datetime.shifted(self.timespans().find(datetime.timestamp()).offset * 1000),
            r.wf(),
            r.total_ms() == datetime.total_ms() + self.timespans().find(
                datetime.timestamp(),
            ).offset * 1000,
    {
        datetime + Duration::of(self.offset(datetime))
    }

    /// Converts a local datetime that is *already* informally in this time
    /// zone into a zoned datetime that actually uses this time zone.
    ///
    /// For example, say you have the current time for a time zone, but you
    /// *don't* know what the current offset from UTC is. This method
    /// computes the offset, then *subtracts* rather than adds it, resulting
    /// in a value that gets displayed as the current time. In other words,
    /// calling `hour()` or `year()` or any of the other view methods on one
    /// of the resulting values will *always* return the same as the
    /// datetime initially passed in, no matter what the current offset is.
    ///
    /// This method can return 0, 1, or 2 values, depending on whether the
    /// datetime passed in falls between two timespans (an impossible time)
    /// or overlaps two separate timespans (an ambiguous time). The result
    /// will *almost* always be precise, but there are edge cases you need
    /// to watch out for.
    pub fn convert_local(&self, local: LocalDateTime) -> (r: LocalTimes<'_>)
        requires
            local.has_instant(),
            self.timespans().offsets_change(),
        ensures
            r.resolution() == self.timespans().resolve(local.timestamp()),
            r.is_of(local, self.0),
    {
        match &self.0 {
            TimeZoneSource::Static(tz) => tz.fixed_timespans.convert_local(local, &self.0),
            TimeZoneSource::Runtime(arc) => arc.fixed_timespans.borrow().convert_local(
                local,
                &self.0,
            ),
        }
    }
}

/// The result of converting a *local* time to a *zoned* time with the same
/// time components. See `TimeZone::convert_local` for more information.
#[derive(Debug)]
pub enum LocalTimes<'a> {
    /// This local time is impossible (when a time occurs between two
    /// timespans, which should never be shown on a wall clock).
    Impossible,
    /// This local time can be defined unambiguously.
    Precise(ZonedDateTime<'a>),
    /// This local time is ambiguous (when a time overlaps two timespans,
    /// which happens twice on a wall clock rather than once).
    Ambiguous { earlier: ZonedDateTime<'a>, later: ZonedDateTime<'a> },
}

impl<'a> LocalTimes<'a> {
    /// The offsets that the zoned date-times hold.
    pub open spec fn resolution(self) -> Resolution {
        match self {
            LocalTimes::Impossible => Resolution::Impossible,
            LocalTimes::Precise(zoned) => Resolution::Precise(zoned.spec_offset()),
            LocalTimes::Ambiguous { earlier, later } => Resolution::Ambiguous {
                earlier: earlier.spec_offset(),
                later: later.spec_offset(),
            },
        }
    }

    /// Every zoned date-time holds the local date and time `local` and the
    /// time zone `source`.
    pub open spec fn is_of(self, local: LocalDateTime, source: TimeZoneSource<'a>) -> bool {
        match self {
            LocalTimes::Impossible => true,
            LocalTimes::Precise(zoned) => zoned.spec_adjusted() == local && zoned.spec_zone()
                == source,
            LocalTimes::Ambiguous { earlier, later } => {
                &&& earlier.spec_adjusted() == local
                &&& earlier.spec_zone() == source
                &&& later.spec_adjusted() == local
                &&& later.spec_zone() == source
            },
        }
    }

    /// Extracts the *precise* zoned date time, which must be present.
    ///
    /// It is almost always preferable to use pattern matching on a
    /// `LocalTimes` value and handle the impossible and ambiguous cases
    /// explicitly.
    pub fn unwrap_precise(self) -> (r: ZonedDateTime<'a>)
        requires
            self is Precise,
        ensures
            self == LocalTimes::Precise(r),
    {
        match self {
            LocalTimes::Precise(p) => p,
            LocalTimes::Impossible => vstd::pervasive::unreached(),
            LocalTimes::Ambiguous { .. } => vstd::pervasive::unreached(),
        }
    }

    /// Returns whether this local times result is impossible (when a time
    /// occurs between two timespans, which should never be shown on a wall
    /// clock).
    pub fn is_impossible(&self) -> (r: bool)
        ensures
            r == (*self is Impossible),
    {
        match *self {
            LocalTimes::Impossible => true,
            _ => false,
        }
    }

    /// Returns whether this local times result is ambiguous (when a time
    /// overlaps two timespans, which happens twice on a wall clock rather
    /// than once).
    pub fn is_ambiguous(&self) -> (r: bool)
        ensures
            r == (*self is Ambiguous),
    {
        match *self {
            LocalTimes::Ambiguous { .. } => true,
            _ => false,
        }
    }
}

/// A local date and time together with the offset from UTC that a time
/// zone has for it, and the time zone.
#[derive(Debug)]
pub struct ZonedDateTime<'a> {
    adjusted: LocalDateTime,
    current_offset: i64,
    time_zone: TimeZoneSource<'a>,
}

impl<'a> ZonedDateTime<'a> {
    /// The date and time that the wall clock shows.
    pub closed spec fn spec_adjusted(self) -> LocalDateTime {
        self.adjusted
    }

    /// The seconds by which the wall clock is ahead of UTC.
    pub closed spec fn spec_offset(self) -> i64 {
        self.current_offset
    }

    /// The time zone of the wall clock.
    pub closed spec fn spec_zone(self) -> TimeZoneSource<'a> {
        self.time_zone
    }

    /// Whether there is an instant for this zoned date-time: the date
    /// and time have one as they stand, and the instant that lies the
    /// offset before it can be held.
    pub open spec fn has_instant(self) -> bool {
        self.spec_adjusted().can_shift(-self.spec_offset() * 1000)
    }

    /// The instant at which the wall clock shows the date and time: as
    /// far before the instant at which a clock of UTC shows them as the
    /// wall clock is ahead of UTC.
    pub open spec fn instant(self) -> Instant {
        Instant::from_total_ms(self.spec_adjusted().total_ms() - self.spec_offset() * 1000)
    }

    /// Going from a zoned date-time to its instant, and from the instant
    /// back to the date and time that a clock with the same offset shows,
    /// gives the local date and time that the zoned date-time holds.
    ///
    /// This is so for every time that a clock shows from 00:00:00.000 to
    /// 23:59:59.999. The end of the day written as 24:00:00 comes back
    /// as 00:00:00 of the next day.
    pub proof fn lemma_instant_round_trip(self)
        requires
            self.has_instant(),
            self.spec_adjusted().spec_time().within_day(),
            0 <= self.spec_adjusted().spec_time()@.millisecond <= 999,
        ensures
            LocalDateTime::of_instant(self.instant()).can_shift(self.spec_offset() * 1000),
            LocalDateTime::of_instant(self.instant()).shifted(self.spec_offset() * 1000)
                == self.spec_adjusted(),
    {
        let local = self.spec_adjusted();
        let at_utc = local.total_ms() - self.spec_offset() * 1000;
        Instant::lemma_total_ms_of(at_utc);
        LocalDateTime::lemma_at_total_ms(at_utc);
        local.lemma_seconds_round_trip();
    }

    /// The instant at which the wall clock shows the date and time.
    pub fn to_instant(&self) -> (r: Instant)
        requires
            self.has_instant(),
        ensures
            r == self.instant(),
            r.wf(),
            r.total_ms() == self.spec_adjusted().total_ms() - self.spec_offset() * 1000,
    {
        let before = self.adjusted - Duration::of(self.current_offset);
        let r = before.to_instant();
        proof {
            Instant::lemma_total_ms_of(
                self.adjusted.total_ms() - self.current_offset * 1000,
            );
            r.lemma_same_parts(self.instant());
        }
        r
    }
}

impl<'a> DatePiece for ZonedDateTime<'a> {
    open spec fn date_piece(&self) -> LocalDate {
        self.spec_adjusted().spec_date()
    }

    open spec fn has_date_piece(&self) -> bool {
        true
    }

    fn year(&self) -> (r: i64) {
        self.adjusted.year()
    }

    fn month(&self) -> (r: Month) {
        self.adjusted.month()
    }

    fn day(&self) -> (r: i8) {
        self.adjusted.day()
    }

    fn yearday(&self) -> (r: i16) {
        self.adjusted.yearday()
    }

    fn weekday(&self) -> (r: Weekday) {
        self.adjusted.weekday()
    }

    fn year_of_century(&self) -> (r: i64) {
        self.year() % 100
    }

    fn years_from_2000(&self) -> (r: i64) {
        self.year() - 2000
    }
}

impl<'a> TimePiece for ZonedDateTime<'a> {
    open spec fn time_piece(&self) -> LocalTime {
        self.spec_adjusted().spec_time()
    }

    open spec fn has_time_piece(&self) -> bool {
        true
    }

    fn hour(&self) -> (r: i8) {
        self.adjusted.hour()
    }

    fn minute(&self) -> (r: i8) {
        self.adjusted.minute()
    }

    fn second(&self) -> (r: i8) {
        self.adjusted.second()
    }

    fn millisecond(&self) -> (r: i16) {
        self.adjusted.millisecond()
    }
}

/// The "type" of time that a transition is specified in.
#[derive(PartialEq, Eq, Structural, Debug, Copy, Clone)]
pub enum TimeType {
    /// Wall-clock time: a transition specified when the current time in
    /// that zone, including any daylight-saving matches, matches the
    /// transition's time spec.
    Wall,
    /// Standard Time: a transition specified when the *standard* time in
    /// that zone, which excludes any daylight-saving offset, matches the
    /// transition's time spec.
    Standard,
    /// UTC: a transition specified when the time in UTC matches the
    /// transition's time spec.
    UTC,
}

} // verus!
