//! Dates, times and offsets in the ISO-8601 notation.

use vstd::prelude::*;
use vstd::string::StringExecFns;

use crate::cal::datetime::{
    div_toward_zero, rem_toward_zero, LocalDate, LocalDateTime, LocalTime,
};
use crate::cal::offset::{Offset, OffsetDateTime};
use crate::cal::{DatePiece, TimePiece};

verus! {

/// Adds one character to the end of a text. This is `push` of std's
/// `String`.
#[verifier::external_body]
pub(crate) fn push_char(text: &mut String, c: char)
    ensures
        final(text)@ == old(text)@.push(c),
{
    text.push(c)
}

/// The character that stands for the digit `digit`, from `0` to `9`.
pub open spec fn digit_char(digit: int) -> char {
    if digit <= 0 {
        '0'
    } else if digit == 1 {
        '1'
    } else if digit == 2 {
        '2'
    } else if digit == 3 {
        '3'
    } else if digit == 4 {
        '4'
    } else if digit == 5 {
        '5'
    } else if digit == 6 {
        '6'
    } else if digit == 7 {
        '7'
    } else if digit == 8 {
        '8'
    } else {
        '9'
    }
}

/// The number `number`, which is not negative, written in decimal digits
/// with no zeros in front.
pub open spec fn decimal(number: int) -> Seq<char>
    decreases number,
{
    if number < 10 {
        seq![digit_char(number)]
    } else {
        decimal(number / 10).push(digit_char(number % 10))
    }
}

/// A row of `count` zeros.
pub open spec fn zeros(count: int) -> Seq<char> {
    Seq::new(
        if count > 0 {
            count as nat
        } else {
            0
        },
        |i: int| '0',
    )
}

/// The number `number`, which is not negative, written in decimal digits
/// with zeros in front to make up `width` characters, or more characters
/// if the number needs them.
pub open spec fn padded(number: int, width: int) -> Seq<char> {
    zeros(width - decimal(number).len()) + decimal(number)
}

/// The number `number` written with a sign in front and zeros after the
/// sign to make up `width` characters, the sign included. A negative
/// number has the sign `-`; any other number has the sign `+` if `plus`
/// is set, and no sign and `width` digits if it is not.
pub open spec fn signed(number: int, width: int, plus: bool) -> Seq<char> {
    if number < 0 {
        seq!['-'] + padded(-number, width - 1)
    } else if plus {
        seq!['+'] + padded(number, width - 1)
    } else {
        padded(number, width)
    }
}

/// The character that stands for a digit.
fn digit_of(digit: u64) -> (r: char)
    requires
        digit < 10,
    ensures
        r == digit_char(digit as int),
{
    if digit == 0 {
        '0'
    } else if digit == 1 {
        '1'
    } else if digit == 2 {
        '2'
    } else if digit == 3 {
        '3'
    } else if digit == 4 {
        '4'
    } else if digit == 5 {
        '5'
    } else if digit == 6 {
        '6'
    } else if digit == 7 {
        '7'
    } else if digit == 8 {
        '8'
    } else {
        '9'
    }
}

/// The number of decimal digits of a number.
fn decimal_length(number: u64) -> (r: usize)
    ensures
        r == decimal(number as int).len(),
        1 <= r <= 20,
    decreases number,
{
    if number < 10 {
        1
    } else {
        proof {
            lemma_decimal_length(number as int);
        }
        decimal_length(number / 10) + 1
    }
}

/// A number below ten to the power of some count has at most so many
/// digits: here, 64 bits make at most 20.
proof fn lemma_decimal_length(number: int)
    requires
        0 <= number <= u64::MAX,
    ensures
        decimal(number).len() <= 20,
{
    reveal_with_fuel(decimal, 21);
}

/// Writes a number in decimal digits at the end of a text.
fn push_decimal(text: &mut String, number: u64)
    ensures
        final(text)@ == old(text)@ + decimal(number as int),
    decreases number,
{
    if number >= 10 {
        push_decimal(text, number / 10);
    }
    push_char(text, digit_of(number % 10));
    assert(final(text)@ =~= old(text)@ + decimal(number as int));
}

/// Writes a number at the end of a text with zeros in front to make up
/// `width` characters.
fn push_padded(text: &mut String, number: u64, width: usize)
    ensures
        final(text)@ == old(text)@ + padded(number as int, width as int),
{
    let length = decimal_length(number);
    let mut written: usize = 0;
    while written + length < width
        invariant
            length == decimal(number as int).len(),
            written + length <= width || written == 0,
            text@ == old(text)@ + zeros(written as int),
        decreases width - written,
    {
        push_char(text, '0');
        written += 1;
        assert(text@ =~= old(text)@ + zeros(written as int));
    }
    assert(zeros(written as int) =~= zeros(width - length));
    push_decimal(text, number);
    assert(final(text)@ =~= old(text)@ + padded(number as int, width as int));
}

/// Writes a number at the end of a text with its sign, if it has or is
/// to have one, and zeros to make up `width` characters.
fn push_signed(text: &mut String, number: i64, width: usize, plus: bool)
    requires
        width >= 1,
    ensures
        final(text)@ == old(text)@ + signed(number as int, width as int, plus),
{
    if number < 0 {
        push_char(text, '-');
        push_padded(text, (-(number as i128)) as u64, width - 1);
    } else if plus {
        push_char(text, '+');
        push_padded(text, number as u64, width - 1);
    } else {
        push_padded(text, number as u64, width);
    }
    assert(final(text)@ =~= old(text)@ + signed(number as int, width as int, plus));
}

/// The ISO-8601 notation of a value, as a text of its own.
#[derive(PartialEq, Eq, Clone, Debug)]
pub struct ISOString(String);

impl View for ISOString {
    type V = Seq<char>;

    closed spec fn view(&self) -> Seq<char> {
        self.0@
    }
}

impl ISOString {
    /// The text, as a `String`.
    pub fn to_string(&self) -> (r: String)
        ensures
            r@ == self@,
    {
        self.0.clone()
    }

    /// The text, lent out.
    pub fn as_str(&self) -> (r: &str)
        ensures
            r@ == self@,
    {
        self.0.as_str()
    }
}

/// Values that have a notation in ISO-8601.
pub trait ISO: Sized {
    /// The notation of this value.
    spec fn iso_text(&self) -> Seq<char>;

    /// Whether the value is one that can be written out.
    spec fn has_iso(&self) -> bool;

    /// Writes the notation of this value at the end of a text.
    fn fmt(&self, text: &mut String)
        requires
            self.has_iso(),
        ensures
            final(text)@ == old(text)@ + self.iso_text(),
    ;

    /// The notation of this value.
    fn iso(&self) -> (r: ISOString)
        requires
            self.has_iso(),
        ensures
            r@ == self.iso_text(),
    ;
}

/// The notation of a date: the year in at least four digits, the month
/// and the day in two, with hyphens between them. A year before 0 or
/// from 9999 on is written with its sign.
pub open spec fn date_text(year: int, month: int, day: int) -> Seq<char> {
    signed(year, if 0 <= year < 9999 { 4int } else { 5int }, !(0 <= year < 9999)) + seq!['-']
        + signed(month, 2, false) + seq!['-'] + signed(day, 2, false)
}

/// The notation of a time: the hour, the minute and the second in two
/// digits with colons between them, then a point and the millisecond in
/// three.
pub open spec fn time_text(hour: int, minute: int, second: int, millisecond: int) -> Seq<char> {
    signed(hour, 2, false) + seq![':'] + signed(minute, 2, false) + seq![':'] + signed(
        second,
        2,
        false,
    ) + seq!['.'] + signed(millisecond, 3, false)
}

/// The size of a number, without its sign.
pub open spec fn magnitude(number: int) -> int {
    if number < 0 {
        -number
    } else {
        number
    }
}

/// The notation of an offset of so many hours, minutes and seconds, which
/// all point the same way: the sign, the hours in two digits, then the
/// minutes if there are minutes or seconds, then the seconds if there are
/// seconds, with colons between them.
pub open spec fn offset_text(hours: int, minutes: int, seconds: int) -> Seq<char> {
    seq![if hours < 0 || minutes < 0 || seconds < 0 {
        '-'
    } else {
        '+'
    }] + padded(magnitude(hours), 2) + if minutes == 0 && seconds == 0 {
        Seq::<char>::empty()
    } else if seconds == 0 {
        seq![':'] + padded(magnitude(minutes), 2)
    } else {
        seq![':'] + padded(magnitude(minutes), 2) + seq![':'] + padded(magnitude(seconds), 2)
    }
}

/// Writes the notation of a date at the end of a text.
fn push_date(text: &mut String, date: &LocalDate)
    ensures
        final(text)@ == old(text)@ + date_text(
            date@.year as int,
            date@.month.number(),
            date@.day as int,
        ),
{
    let year = date.year();
    if 0 <= year && year < 9999 {
        push_signed(text, year, 4, false);
    } else {
        push_signed(text, year, 5, true);
    }
    push_char(text, '-');
    push_signed(text, date.month().months_from_january() as i64 + 1, 2, false);
    push_char(text, '-');
    push_signed(text, date.day() as i64, 2, false);
    assert(final(text)@ =~= old(text)@ + date_text(
        date@.year as int,
        date@.month.number(),
        date@.day as int,
    ));
}

/// Writes the notation of a time at the end of a text.
fn push_time(text: &mut String, time: &LocalTime)
    ensures
        final(text)@ == old(text)@ + time_text(
            time@.hour,
            time@.minute,
            time@.second,
            time@.millisecond,
        ),
{
    push_signed(text, time.hour() as i64, 2, false);
    push_char(text, ':');
    push_signed(text, time.minute() as i64, 2, false);
    push_char(text, ':');
    push_signed(text, time.second() as i64, 2, false);
    push_char(text, '.');
    push_signed(text, time.millisecond() as i64, 3, false);
    assert(final(text)@ =~= old(text)@ + time_text(
        time@.hour,
        time@.minute,
        time@.second,
        time@.millisecond,
    ));
}

/// The notation of a date and time: the date, the letter `T`, the time.
pub open spec fn date_time_text(local: LocalDateTime) -> Seq<char> {
    date_text(
        local.spec_date()@.year as int,
        local.spec_date()@.month.number(),
        local.spec_date()@.day as int,
    ) + seq!['T'] + time_text(
        local.spec_time()@.hour,
        local.spec_time()@.minute,
        local.spec_time()@.second,
        local.spec_time()@.millisecond,
    )
}

/// Writes the notation of a date and time at the end of a text.
fn push_date_time(text: &mut String, local: &LocalDateTime)
    ensures
        final(text)@ == old(text)@ + date_time_text(*local),
{
    push_date(text, &local.date());
    push_char(text, 'T');
    push_time(text, &local.time());
    assert(final(text)@ =~= old(text)@ + date_time_text(*local));
}

/// The notation of an offset: `Z` for UTC itself, else the sign with the
/// hours, minutes and seconds of the offset.
pub open spec fn offset_iso_text(offset: Offset) -> Seq<char> {
    match offset.spec_seconds() {
        None => seq!['Z'],
        Some(s) => offset_text(
            div_toward_zero(s, 3600),
            rem_toward_zero(div_toward_zero(s, 60), 60),
            rem_toward_zero(s, 60),
        ),
    }
}

/// The size of a small number, without its sign.
fn magnitude_of(number: i8) -> (r: u64)
    ensures
        r == magnitude(number as int),
{
    if number < 0 {
        (-(number as i64)) as u64
    } else {
        number as u64
    }
}

/// Writes the notation of an offset at the end of a text.
fn push_offset(text: &mut String, offset: Offset)
    requires
        offset.wf(),
    ensures
        final(text)@ == old(text)@ + offset_iso_text(offset),
{
    if offset.is_utc() {
        push_char(text, 'Z');
        assert(final(text)@ =~= old(text)@ + offset_iso_text(offset));
    } else {
        let hours = offset.hours();
        let minutes = offset.minutes();
        let seconds = offset.seconds();
        push_char(
            text,
            if offset.is_negative() {
                '-'
            } else {
                '+'
            },
        );
        push_padded(text, magnitude_of(hours), 2);
        if minutes != 0 || seconds != 0 {
            push_char(text, ':');
            push_padded(text, magnitude_of(minutes), 2);
            if seconds != 0 {
                push_char(text, ':');
                push_padded(text, magnitude_of(seconds), 2);
            }
        }
        assert(final(text)@ =~= old(text)@ + offset_iso_text(offset));
    }
}

impl ISO for LocalDate {
    open spec fn iso_text(&self) -> Seq<char> {
        date_text(self@.year as int, self@.month.number(), self@.day as int)
    }

    open spec fn has_iso(&self) -> bool {
        true
    }

    fn fmt(&self, text: &mut String) {
        push_date(text, self);
    }

    fn iso(&self) -> (r: ISOString) {
        let mut text = String::new();
        push_date(&mut text, self);
        assert(text@ =~= self.iso_text());
        ISOString(text)
    }
}

impl ISO for LocalTime {
    open spec fn iso_text(&self) -> Seq<char> {
        time_text(self@.hour, self@.minute, self@.second, self@.millisecond)
    }

    open spec fn has_iso(&self) -> bool {
        true
    }

    fn fmt(&self, text: &mut String) {
        push_time(text, self);
    }

    fn iso(&self) -> (r: ISOString) {
        let mut text = String::new();
        push_time(&mut text, self);
        assert(text@ =~= self.iso_text());
        ISOString(text)
    }
}

impl ISO for LocalDateTime {
    open spec fn iso_text(&self) -> Seq<char> {
        date_time_text(*self)
    }

    open spec fn has_iso(&self) -> bool {
        true
    }

    fn fmt(&self, text: &mut String) {
        push_date_time(text, self);
    }

    fn iso(&self) -> (r: ISOString) {
        let mut text = String::new();
        push_date_time(&mut text, self);
        assert(text@ =~= self.iso_text());
        ISOString(text)
    }
}

impl ISO for Offset {
    open spec fn iso_text(&self) -> Seq<char> {
        offset_iso_text(*self)
    }

    open spec fn has_iso(&self) -> bool {
        self.wf()
    }

    fn fmt(&self, text: &mut String) {
        push_offset(text, *self);
    }

    fn iso(&self) -> (r: ISOString) {
        let mut text = String::new();
        push_offset(&mut text, *self);
        assert(text@ =~= self.iso_text());
        ISOString(text)
    }
}

impl ISO for OffsetDateTime {
    /// The notation of the date and time as they are held, which are
    /// those of UTC, and then that of the offset.
    open spec fn iso_text(&self) -> Seq<char> {
        date_time_text(self.local) + offset_iso_text(self.offset)
    }

    open spec fn has_iso(&self) -> bool {
        self.offset.wf()
    }

    fn fmt(&self, text: &mut String) {
        push_date_time(text, &self.local);
        push_offset(text, self.offset);
        assert(final(text)@ =~= old(text)@ + self.iso_text());
    }

    fn iso(&self) -> (r: ISOString) {
        let mut text = String::new();
        push_date_time(&mut text, &self.local);
        push_offset(&mut text, self.offset);
        assert(text@ =~= self.iso_text());
        ISOString(text)
    }
}

impl LocalDate {
    /// This date as it is shown when a program is looked into: its
    /// notation, with the name of the type around it.
    pub fn debug_text(&self) -> (r: String)
        ensures
            r@ == "LocalDate("@ + self.iso_text() + ")"@,
    {
        let mut text = String::from_str("LocalDate(");
        push_date(&mut text, self);
        text.append(")");
        text
    }
}

impl LocalTime {
    /// This time as it is shown when a program is looked into: its
    /// notation, with the name of the type around it.
    pub fn debug_text(&self) -> (r: String)
        ensures
            r@ == "LocalTime("@ + self.iso_text() + ")"@,
    {
        let mut text = String::from_str("LocalTime(");
        push_time(&mut text, self);
        text.append(")");
        text
    }
}

impl LocalDateTime {
    /// This date and time as they are shown when a program is looked
    /// into: their notation, with the name of the type around it.
    pub fn debug_text(&self) -> (r: String)
        ensures
            r@ == "LocalDateTime("@ + self.iso_text() + ")"@,
    {
        let mut text = String::from_str("LocalDateTime(");
        push_date_time(&mut text, self);
        text.append(")");
        text
    }
}

impl Offset {
    /// This offset as it is shown when a program is looked into: its
    /// notation, with the name of the type around it.
    pub fn debug_text(&self) -> (r: String)
        requires
            self.wf(),
        ensures
            r@ == "Offset("@ + self.iso_text() + ")"@,
    {
        let mut text = String::from_str("Offset(");
        push_offset(&mut text, *self);
        text.append(")");
        text
    }
}

impl OffsetDateTime {
    /// This date and time with their offset as they are shown when a
    /// program is looked into: their notation, with the name of the type
    /// around it.
    pub fn debug_text(&self) -> (r: String)
        requires
            self.offset.wf(),
        ensures
            r@ == "OffsetDateTime("@ + self.iso_text() + ")"@,
    {
        let mut text = String::from_str("OffsetDateTime(");
        push_date_time(&mut text, &self.local);
        push_offset(&mut text, self.offset);
        text.append(")");
        assert(text@ =~= "OffsetDateTime("@ + self.iso_text() + ")"@);
        text
    }
}

} // verus!
