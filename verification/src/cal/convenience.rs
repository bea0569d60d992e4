//! Adds convenience functions to some structs.

use vstd::prelude::*;

use crate::cal::datetime::{LocalDate, LocalDateTime};
use crate::instant::Instant;

verus! {

/// Adds `LocalDate::today(now) -> LocalDate`.
pub trait Today {
    /// The date that a clock of UTC shows at the instant `now`, which is
    /// meant to be the reading of the system's clock.
    fn today(now: Instant) -> (r: LocalDate)
        ensures
            r.wf(),
            r == LocalDateTime::of_instant(now).spec_date(),
    ;
}

impl Today for LocalDate {
    fn today(now: Instant) -> (r: LocalDate) {
        LocalDateTime::from_instant(now).date()
    }
}

} // verus!
