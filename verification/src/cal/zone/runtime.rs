//! Time zones that are built while the program runs, and own their
//! timespans.

use vstd::prelude::*;

use crate::cal::zone::{FixedTimespan, FixedTimespanSet, Timespans};

verus! {

/// A time zone that owns its name and its timespans.
#[derive(PartialEq, Debug)]
pub struct OwnedTimeZone {
    /// This zone's name in the zoneinfo database, if it has one.
    pub name: Option<String>,
    /// The set of timespans used in this time zone.
    pub fixed_timespans: OwnedFixedTimespanSet,
}

/// A set of timespans that owns its list of transitions.
#[derive(PartialEq, Debug)]
pub struct OwnedFixedTimespanSet {
    /// The first timespan, in effect up until the first transition.
    pub first: FixedTimespan<'static>,
    /// The transition instants, each with the timespan that begins at it.
    pub rest: Vec<(i64, FixedTimespan<'static>)>,
}

impl View for OwnedFixedTimespanSet {
    type V = Timespans<'static>;

    open spec fn view(&self) -> Timespans<'static> {
        Timespans { first: self.first, rest: self.rest@ }
    }
}

impl OwnedFixedTimespanSet {
    /// The same set of timespans, with the list of transitions lent out.
    pub fn borrow(&self) -> (r: FixedTimespanSet<'_>)
        ensures
            r@ == self@,
    {
        FixedTimespanSet { first: self.first.clone(), rest: self.rest.as_slice() }
    }
}

} // verus!
