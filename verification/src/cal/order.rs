//! The order of dates: by year, then by month, then by day.

use core::cmp::Ordering;
use vstd::prelude::*;
use vstd::std_specs::cmp::PartialOrdSpecImpl;

use crate::cal::civil::{
    days_before_month, days_in_month, is_leap, lemma_day_within_year, lemma_years_in_order,
};
use crate::cal::datetime::LocalDate;
use crate::cal::DatePiece;

verus! {

/// Whether one date comes before another: its year is the lesser; or the
/// years are the same and its month is the earlier; or these are the
/// same too and its day is the lesser. The day of the year and the day
/// of the week are not looked at, since they follow from the rest.
pub open spec fn comes_before(left: LocalDate, right: LocalDate) -> bool {
    ||| left@.year < right@.year
    ||| left@.year == right@.year && left@.month.number() < right@.month.number()
    ||| left@.year == right@.year && left@.month == right@.month && left@.day < right@.day
}

/// Whether one date comes before another.
fn is_before(left: &LocalDate, right: &LocalDate) -> (r: bool)
    ensures
        r == comes_before(*left, *right),
{
    if left.year() != right.year() {
        left.year() < right.year()
    } else if left.month().months_from_january() != right.month().months_from_january() {
        left.month().months_from_january() < right.month().months_from_january()
    } else {
        left.day() < right.day()
    }
}

impl PartialOrd for LocalDate {
    fn partial_cmp(&self, other: &Self) -> (r: Option<Ordering>) {
        if is_before(self, other) {
            Some(Ordering::Less)
        } else if is_before(other, self) {
            Some(Ordering::Greater)
        } else {
            Some(Ordering::Equal)
        }
    }
}

impl PartialOrdSpecImpl for LocalDate {
    open spec fn obeys_partial_cmp_spec() -> bool {
        true
    }

    open spec fn partial_cmp_spec(&self, other: &Self) -> Option<Ordering> {
        if comes_before(*self, *other) {
            Some(Ordering::Less)
        } else if comes_before(*other, *self) {
            Some(Ordering::Greater)
        } else {
            Some(Ordering::Equal)
        }
    }
}

/// A date comes before another if and only if its day does: dates are
/// in the order of their day numbers.
pub proof fn lemma_order_is_by_day_number(left: LocalDate, right: LocalDate)
    requires
        left.wf(),
        right.wf(),
    ensures
        comes_before(left, right) <==> left.day_number() < right.day_number(),
{
    lemma_day_within_year(left@.year as int, left@.month.number(), left@.day as int);
    lemma_day_within_year(right@.year as int, right@.month.number(), right@.day as int);
    if left@.year < right@.year {
        lemma_years_in_order(left@.year + 1, right@.year as int);
    } else if right@.year < left@.year {
        lemma_years_in_order(right@.year + 1, left@.year as int);
    } else {
        lemma_months_in_order(
            is_leap(left@.year as int),
            left@.month.number(),
            left@.day as int,
            right@.month.number(),
            right@.day as int,
        );
    }
}

/// Within a year, an earlier month ends before a later one begins.
proof fn lemma_months_in_order(leap: bool, m1: int, d1: int, m2: int, d2: int)
    requires
        1 <= m1 <= 12,
        1 <= m2 <= 12,
        1 <= d1 <= days_in_month(m1, leap),
        1 <= d2 <= days_in_month(m2, leap),
    ensures
        m1 < m2 ==> days_before_month(m1, leap) + d1 < days_before_month(m2, leap) + d2,
        m2 < m1 ==> days_before_month(m2, leap) + d2 < days_before_month(m1, leap) + d1,
{
}

} // verus!
