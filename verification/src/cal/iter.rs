//! Spans of months in a year and of days in a month.

use core::ops::{Range, RangeFrom, RangeFull, RangeTo};
use vstd::prelude::*;

use crate::cal::civil::{day_number, days_in_month, is_leap, is_valid_date};
use crate::cal::datetime::{Error, LocalDate, Month, Year};

verus! {

/// A range that has a beginning and no end, such as `April ..`. It is
/// std's own type, with its one public field.
#[verifier::external_type_specification]
#[verifier::reject_recursive_types(Idx)]
pub struct ExRangeFrom<Idx>(RangeFrom<Idx>);

/// A range that has an end and no beginning, such as `.. June`. It is
/// std's own type, with its one public field.
#[verifier::external_type_specification]
#[verifier::reject_recursive_types(Idx)]
pub struct ExRangeTo<Idx>(RangeTo<Idx>);

/// The range `..` of everything. It is std's own type, which has no
/// fields.
#[verifier::external_type_specification]
pub struct ExRangeFull(RangeFull);

/// The months of the year from the one that is `first` months after
/// January up to, but not including, the one that is `end` months after
/// January.
pub open spec fn months_between(first: int, end: int) -> Seq<Month> {
    Seq::new((end - first) as nat, |i: int| Month::of_number(first + i + 1))
}

/// All twelve months, from January to December.
fn all_months() -> (r: [Month; 12])
    ensures
        r@ =~= months_between(0, 12),
{
    [
        Month::January,
        Month::February,
        Month::March,
        Month::April,
        Month::May,
        Month::June,
        Month::July,
        Month::August,
        Month::September,
        Month::October,
        Month::November,
        Month::December,
    ]
}

/// The months from the one that is `first` months after January up to,
/// but not including, the one that is `end` months after January.
fn months_from_to(first: usize, end: usize) -> (r: Vec<Month>)
    requires
        first <= end <= 12,
    ensures
        r@ =~= months_between(first as int, end as int),
{
    let months = all_months();
    let mut slice: Vec<Month> = Vec::new();
    let mut index: usize = first;
    while index < end
        invariant
            first <= index <= end <= 12,
            months@ =~= months_between(0, 12),
            slice@ =~= months_between(first as int, index as int),
        decreases end - index,
    {
        slice.push(months[index]);
        index += 1;
    }
    slice
}

/// A span of months, which gets used to construct a `YearMonths` iterator.
///
/// See the `months` method of `Year` for more information.
pub trait MonthSpan {
    /// The number of months between January and the span's first month.
    spec fn first_month(&self) -> int;

    /// The number of months between January and the month at which the
    /// span stops, which it does not include: 12 for a span that runs to
    /// the end of the year.
    spec fn end_month(&self) -> int;

    /// Returns the `Month` values contained by this span, in their
    /// order. The span must not stop before it begins.
    fn get_slice(&self) -> (r: Vec<Month>)
        requires
            self.first_month() <= self.end_month(),
        ensures
            0 <= self.first_month() <= self.end_month() <= 12,
            r@ == months_between(self.first_month(), self.end_month()),
    ;
}

impl MonthSpan for RangeFull {
    open spec fn first_month(&self) -> int {
        0
    }

    open spec fn end_month(&self) -> int {
        12
    }

    fn get_slice(&self) -> (r: Vec<Month>) {
        months_from_to(0, 12)
    }
}

impl MonthSpan for RangeFrom<Month> {
    open spec fn first_month(&self) -> int {
        self.start.number() - 1
    }

    open spec fn end_month(&self) -> int {
        12
    }

    fn get_slice(&self) -> (r: Vec<Month>) {
        months_from_to(self.start.months_from_january(), 12)
    }
}

impl MonthSpan for RangeTo<Month> {
    open spec fn first_month(&self) -> int {
        0
    }

    open spec fn end_month(&self) -> int {
        self.end.number() - 1
    }

    fn get_slice(&self) -> (r: Vec<Month>) {
        months_from_to(0, self.end.months_from_january())
    }
}

impl MonthSpan for Range<Month> {
    open spec fn first_month(&self) -> int {
        self.start.number() - 1
    }

    open spec fn end_month(&self) -> int {
        self.end.number() - 1
    }

    fn get_slice(&self) -> (r: Vec<Month>) {
        months_from_to(self.start.months_from_january(), self.end.months_from_january())
    }
}

/// A month-year pair.
#[derive(PartialEq, Eq, Structural, Debug, Copy, Clone)]
pub struct YearMonth {
    pub year: Year,
    pub month: Month,
}

/// A continuous span of months in a year, which hands out its year-month
/// pairs one by one, from the front or from the back.
///
/// Use the `months` method on `Year` to create one.
#[derive(Debug)]
pub struct YearMonths {
    year: Year,
    months: Vec<Month>,
    front: usize,
    back: usize,
}

impl View for YearMonths {
    type V = Seq<YearMonth>;

    /// The year-month pairs that are still to come, in their order.
    closed spec fn view(&self) -> Seq<YearMonth> {
        Seq::new(
            (self.back - self.front) as nat,
            |i: int| YearMonth { year: self.year, month: self.months@[self.front + i] },
        )
    }
}

impl YearMonths {
    /// What is handed out lies within the months that are held.
    pub closed spec fn wf(self) -> bool {
        self.front <= self.back <= self.months@.len()
    }

    /// Hands out the first of the year-month pairs that are left, if
    /// there is one.
    pub fn next(&mut self) -> (r: Option<YearMonth>)
        requires
            old(self).wf(),
        ensures
            final(self).wf(),
            old(self)@.len() == 0 ==> r.is_none() && final(self)@ == old(self)@,
            old(self)@.len() > 0 ==> r == Some(old(self)@[0]) && final(self)@ == old(self)@.skip(1),
    {
        if self.front < self.back {
            let month = self.months[self.front];
            self.front += 1;
            assert(final(self)@ =~= old(self)@.skip(1));
            Some(YearMonth { year: self.year, month })
        } else {
            None
        }
    }

    /// Hands out the last of the year-month pairs that are left, if
    /// there is one.
    pub fn next_back(&mut self) -> (r: Option<YearMonth>)
        requires
            old(self).wf(),
        ensures
            final(self).wf(),
            old(self)@.len() == 0 ==> r.is_none() && final(self)@ == old(self)@,
            old(self)@.len() > 0 ==> r == Some(old(self)@.last()) && final(self)@ == old(
                self,
            )@.drop_last(),
    {
        if self.front < self.back {
            self.back -= 1;
            let month = self.months[self.back];
            assert(final(self)@ =~= old(self)@.drop_last());
            Some(YearMonth { year: self.year, month })
        } else {
            None
        }
    }

    /// The number of year-month pairs that are left.
    pub fn count(&self) -> (r: usize)
        requires
            self.wf(),
        ensures
            r == self@.len(),
    {
        self.back - self.front
    }

    /// All the year-month pairs that are left, in their order.
    pub fn collect(&self) -> (r: Vec<YearMonth>)
        requires
            self.wf(),
        ensures
            r@ == self@,
    {
        let mut pairs: Vec<YearMonth> = Vec::new();
        let mut index: usize = self.front;
        while index < self.back
            invariant
                self.wf(),
                self.front <= index <= self.back,
                pairs@ =~= self@.take(index - self.front),
            decreases self.back - index,
        {
            pairs.push(YearMonth { year: self.year, month: self.months[index] });
            index += 1;
        }
        assert(self@.take(self.back - self.front) =~= self@);
        pairs
    }
}

impl Year {
    /// Returns a continuous span of months in this year, as year-month
    /// pairs.
    ///
    /// This method takes one argument that can be of four different types,
    /// depending on the months you wish to go over:
    ///
    /// - The `RangeFull` type (such as `..`), which holds every month;
    /// - The `RangeFrom` type (such as `April ..`), which holds the months
    ///   starting from the month given;
    /// - The `RangeTo` type (such as `.. June`), which holds the months
    ///   stopping at *but not including* the month given;
    /// - The `Range` type (such as `April .. June`), which holds the
    ///   months starting from the left one and stopping at *but not
    ///   including* the right one. The right one must not come before
    ///   the left one.
    pub fn months<S: MonthSpan>(self, span: S) -> (r: YearMonths)
        requires
            span.first_month() <= span.end_month(),
        ensures
            r.wf(),
            r@ == months_between(span.first_month(), span.end_month()).map_values(
                |month: Month| YearMonth { year: self, month },
            ),
    {
        let months = span.get_slice();
        let back = months.len();
        let pairs = YearMonths { year: self, months, front: 0, back };
        assert(pairs@ =~= months_between(span.first_month(), span.end_month()).map_values(
            |month: Month| YearMonth { year: self, month },
        ));
        pairs
    }

    /// Returns a year-month, pairing this year with the given month.
    pub fn month(self, month: Month) -> (r: YearMonth)
        ensures
            r == (YearMonth { year: self, month }),
    {
        YearMonth { year: self, month }
    }
}

/// A span of days, which gets used to construct a `MonthDays` iterator.
pub trait DaySpan {
    /// The first day number of the span in the given month.
    spec fn first_day(&self, ym: &YearMonth) -> int;

    /// The day number at which the span stops in the given month, which
    /// it does not include.
    spec fn end_day(&self, ym: &YearMonth) -> int;

    /// Returns a `Range` of the day numbers specified for the given year-month pair.
    fn get_range(&self, ym: &YearMonth) -> (r: Range<i8>)
        ensures
            r.start == self.first_day(ym),
            r.end == self.end_day(ym),
    ;
}

impl DaySpan for RangeFull {
    open spec fn first_day(&self, ym: &YearMonth) -> int {
        1
    }

    open spec fn end_day(&self, ym: &YearMonth) -> int {
        ym.spec_day_count() + 1
    }

    fn get_range(&self, ym: &YearMonth) -> (r: Range<i8>) {
        1..ym.day_count() + 1
    }
}

impl DaySpan for RangeFrom<i8> {
    open spec fn first_day(&self, ym: &YearMonth) -> int {
        self.start as int
    }

    open spec fn end_day(&self, ym: &YearMonth) -> int {
        ym.spec_day_count() + 1
    }

    fn get_range(&self, ym: &YearMonth) -> (r: Range<i8>) {
        self.start..ym.day_count() + 1
    }
}

impl DaySpan for RangeTo<i8> {
    open spec fn first_day(&self, ym: &YearMonth) -> int {
        1
    }

    open spec fn end_day(&self, ym: &YearMonth) -> int {
        self.end as int
    }

    fn get_range(&self, ym: &YearMonth) -> (r: Range<i8>) {
        1..self.end
    }
}

impl DaySpan for Range<i8> {
    open spec fn first_day(&self, ym: &YearMonth) -> int {
        self.start as int
    }

    open spec fn end_day(&self, ym: &YearMonth) -> int {
        self.end as int
    }

    fn get_range(&self, ym: &YearMonth) -> (r: Range<i8>) {
        self.start..self.end
    }
}

/// A continuous span of days in a month, which hands out its dates one
/// by one, from the front or from the back.
///
/// Use the `days` method on `YearMonth` to create one.
#[derive(Debug)]
pub struct MonthDays {
    ym: YearMonth,
    range: Range<i8>,
}

impl YearMonth {
    /// The number of days in this month.
    pub open spec fn spec_day_count(&self) -> int {
        days_in_month(self.month.number(), is_leap(self.year.0 as int))
    }

    /// The date of the given day of this month, if the month has that
    /// day and the date can be held.
    pub open spec fn date_of(&self, day: int) -> Option<LocalDate> {
        if is_valid_date(self.year.0 as int, self.month.number(), day) && LocalDate::countable(
            day_number(self.year.0 as int, self.month.number(), day),
        ) {
            Some(LocalDate::of_day_number(day_number(self.year.0 as int, self.month.number(), day)))
        } else {
            None
        }
    }

    /// The dates of the days `first .. end` of this month, up to the first
    /// of them that has no date.
    pub open spec fn dates_between(&self, first: int, end: int) -> Seq<LocalDate>
        decreases end - first,
    {
        if first >= end {
            Seq::empty()
        } else {
            match self.date_of(first) {
                Some(date) => seq![date] + self.dates_between(first + 1, end),
                None => Seq::empty(),
            }
        }
    }

    /// Returns the number of days in this month. This can be definitely
    /// known, as the paired year determines whether it is a leap year, so
    /// there is no chance of being caught out by February.
    pub fn day_count(&self) -> (r: i8)
        ensures
            r == self.spec_day_count(),
            28 <= r <= 31,
    {
        self.month.days_in_month(self.year.is_leap_year())
    }

    /// Returns a continuous span of days in this month, as `LocalDate`
    /// values.
    ///
    /// The argument is `..` for every day of the month, or a range of day
    /// numbers with a beginning, an end that is not included, or both.
    pub fn days<S: DaySpan>(&self, span: S) -> (r: MonthDays)
        ensures
            r.year_month() == *self,
            r.first_day() == span.first_day(self),
            r.end_day() == span.end_day(self),
    {
        MonthDays { ym: *self, range: span.get_range(self) }
    }

    /// Returns a `LocalDate` based on the day of this month.
    ///
    /// This is just a short-cut for the `LocalDate::ymd` constructor.
    pub fn day(&self, day: i8) -> (r: Result<LocalDate, Error>)
        ensures
            r is Ok <==> self.date_of(day as int) is Some,
            r matches Ok(date) ==> date.wf() && Some(date) == self.date_of(day as int),
            r matches Err(e) ==> e == Error::OutOfRange,
    {
        LocalDate::ymd(self.year.0, self.month, day)
    }
}

impl MonthDays {
    /// The month whose days are handed out.
    pub closed spec fn year_month(self) -> YearMonth {
        self.ym
    }

    /// The number of the day that is handed out next from the front.
    pub closed spec fn first_day(self) -> int {
        self.range.start as int
    }

    /// The number of the day before which the days stop.
    pub closed spec fn end_day(self) -> int {
        self.range.end as int
    }

    /// Takes the first of the day numbers that are left, if there is
    /// one, and hands out its date, or nothing if the month has no such
    /// day.
    pub fn next(&mut self) -> (r: Option<LocalDate>)
        ensures
            final(self).year_month() == old(self).year_month(),
            final(self).end_day() == old(self).end_day(),
            old(self).first_day() >= old(self).end_day() ==> r.is_none() && final(self).first_day()
                == old(self).first_day(),
            old(self).first_day() < old(self).end_day() ==> r == old(self).year_month().date_of(
                old(self).first_day(),
            ) && final(self).first_day() == old(self).first_day() + 1,
    {
        if self.range.start < self.range.end {
            let day = self.range.start;
            self.range.start = day + 1;
            match LocalDate::ymd(self.ym.year.0, self.ym.month, day) {
                Ok(date) => Some(date),
                Err(_) => None,
            }
        } else {
            None
        }
    }

    /// Takes the last of the day numbers that are left, if there is one,
    /// and hands out its date, or nothing if the month has no such day.
    pub fn next_back(&mut self) -> (r: Option<LocalDate>)
        ensures
            final(self).year_month() == old(self).year_month(),
            final(self).first_day() == old(self).first_day(),
            old(self).first_day() >= old(self).end_day() ==> r.is_none() && final(self).end_day()
                == old(self).end_day(),
            old(self).first_day() < old(self).end_day() ==> r == old(self).year_month().date_of(
                old(self).end_day() - 1,
            ) && final(self).end_day() == old(self).end_day() - 1,
    {
        if self.range.start < self.range.end {
            let day = self.range.end - 1;
            self.range.end = day;
            match LocalDate::ymd(self.ym.year.0, self.ym.month, day) {
                Ok(date) => Some(date),
                Err(_) => None,
            }
        } else {
            None
        }
    }

    /// The dates that are handed out from the front until the days are
    /// used up or one of them has no date.
    pub fn collect(&self) -> (r: Vec<LocalDate>)
        ensures
            r@ == self.year_month().dates_between(self.first_day(), self.end_day()),
    {
        let mut dates: Vec<LocalDate> = Vec::new();
        let mut day: i8 = self.range.start;
        let end: i8 = self.range.end;
        let ghost whole = self.ym.dates_between(self.range.start as int, end as int);
        while day < end
            invariant
                end == self.range.end,
                self.range.start <= day,
                whole == self.ym.dates_between(self.range.start as int, end as int),
                whole == dates@ + self.ym.dates_between(day as int, end as int),
            decreases end - day,
        {
            match LocalDate::ymd(self.ym.year.0, self.ym.month, day) {
                Ok(date) => {
                    assert(dates@ + (seq![date] + self.ym.dates_between(day + 1, end as int))
                        =~= dates@.push(date) + self.ym.dates_between(day + 1, end as int));
                    dates.push(date);
                    day += 1;
                },
                Err(_) => {
                    assert(dates@ + Seq::<LocalDate>::empty() =~= dates@);
                    return dates;
                },
            }
        }
        assert(dates@ + Seq::<LocalDate>::empty() =~= dates@);
        dates
    }

    /// The number of dates that are handed out from the front until the
    /// days are used up or one of them has no date.
    pub fn count(&self) -> (r: usize)
        ensures
            r == self.year_month().dates_between(self.first_day(), self.end_day()).len(),
    {
        self.collect().len()
    }
}

} // verus!
