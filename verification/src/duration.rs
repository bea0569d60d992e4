//! Lengths of time on the timeline.

use vstd::prelude::*;
use vstd::std_specs::ops::{AddSpecImpl, MulSpecImpl, SubSpecImpl};

verus! {

/// A **duration** is a length of time on the timeline, irrespective of
/// time zone or calendar format, with millisecond precision.
///
/// The milliseconds part always lies in `0..=999`. A negative length has
/// a negative seconds part and a non-negative milliseconds part, so the
/// length in milliseconds is always `seconds * 1000 + milliseconds`.
#[derive(Clone, Copy, PartialEq, Eq, Structural, Debug)]
pub struct Duration {
    seconds: i64,
    milliseconds: i16,
}

/// Floor division and remainder of a wide number by one thousand.
pub(crate) fn split_thousands(n: i128) -> (r: (i128, i16))
    ensures
        r.0 == n / 1000,
        r.1 == n % 1000,
{
    let q: i128 = n / 1000;
    let m: i128 = n % 1000;
    if m < 0 {
        (q - 1, (m + 1000) as i16)
    } else {
        (q, m as i16)
    }
}

impl Duration {
    /// The seconds part.
    pub closed spec fn spec_seconds(self) -> int {
        self.seconds as int
    }

    /// The milliseconds part.
    pub closed spec fn spec_milliseconds(self) -> int {
        self.milliseconds as int
    }

    /// The whole length in milliseconds.
    pub open spec fn total_ms(self) -> int {
        self.spec_seconds() * 1000 + self.spec_milliseconds()
    }

    /// The milliseconds part lies in `0..=999`.
    pub open spec fn wf(self) -> bool {
        0 <= self.spec_milliseconds() <= 999
    }

    /// Whether a length of `total` milliseconds can be held: its whole
    /// seconds, rounded down, fit in 64 bits.
    pub open spec fn representable(total: int) -> bool {
        i64::MIN * 1000 <= total < (i64::MAX + 1) * 1000
    }

    /// The duration that is `total` milliseconds long: the seconds are
    /// `total / 1000` rounded down, the milliseconds what is left.
    pub closed spec fn from_total_ms(total: int) -> Duration {
        Duration { seconds: (total / 1000) as i64, milliseconds: (total % 1000) as i16 }
    }

    /// A well-formed duration is determined by its length in milliseconds.
    pub proof fn lemma_from_total_ms(self)
        requires
            self.wf(),
        ensures
            Duration::from_total_ms(self.total_ms()) == self,
            Duration::representable(self.total_ms()),
    {
    }

    /// What `from_total_ms` gives for a length that can be held.
    pub proof fn lemma_total_ms_of(total: int)
        requires
            Duration::representable(total),
        ensures
            Duration::from_total_ms(total).wf(),
            Duration::from_total_ms(total).total_ms() == total,
            Duration::from_total_ms(total).spec_seconds() == total / 1000,
            Duration::from_total_ms(total).spec_milliseconds() == total % 1000,
    {
    }

    /// Whether the sum of two durations can be held.
    pub open spec fn can_add(self, rhs: Duration) -> bool {
        &&& self.wf()
        &&& rhs.wf()
        &&& Duration::representable(self.total_ms() + rhs.total_ms())
    }

    /// The sum of two durations.
    pub open spec fn plus(self, rhs: Duration) -> Duration {
        Duration::from_total_ms(self.total_ms() + rhs.total_ms())
    }

    /// Whether the difference of two durations can be held.
    pub open spec fn can_sub(self, rhs: Duration) -> bool {
        &&& self.wf()
        &&& rhs.wf()
        &&& Duration::representable(self.total_ms() - rhs.total_ms())
    }

    /// The difference of two durations.
    pub open spec fn minus(self, rhs: Duration) -> Duration {
        Duration::from_total_ms(self.total_ms() - rhs.total_ms())
    }

    /// Whether this duration taken `amount` times can be held.
    pub open spec fn can_scale(self, amount: int) -> bool {
        &&& self.wf()
        &&& Duration::representable(self.total_ms() * amount)
    }

    /// This duration taken `amount` times.
    pub open spec fn times(self, amount: int) -> Duration {
        Duration::from_total_ms(self.total_ms() * amount)
    }

    /// The duration of so many whole seconds.
    pub closed spec fn of_seconds(seconds: int) -> Duration {
        Duration { seconds: seconds as i64, milliseconds: 0 }
    }

    /// What `of_seconds` gives for a number of seconds that can be held.
    pub proof fn lemma_of_seconds(seconds: int)
        requires
            i64::MIN <= seconds <= i64::MAX,
        ensures
            Duration::of_seconds(seconds).wf(),
            Duration::of_seconds(seconds).spec_seconds() == seconds,
            Duration::of_seconds(seconds).spec_milliseconds() == 0,
            Duration::of_seconds(seconds).total_ms() == seconds * 1000,
    {
    }

    /// A duration is known by its two parts.
    pub proof fn lemma_same_parts(self, other: Duration)
        requires
            self.spec_seconds() == other.spec_seconds(),
            self.spec_milliseconds() == other.spec_milliseconds(),
        ensures
            self == other,
    {
    }

    /// Create a new zero-length duration.
    pub fn zero() -> (r: Self)
        ensures
            r.wf(),
            r.spec_seconds() == 0,
            r.spec_milliseconds() == 0,
    {
        Self { seconds: 0, milliseconds: 0 }
    }

    /// Create a new duration that is the given number of seconds long.
    pub fn of(seconds: i64) -> (r: Self)
        ensures
            r == Duration::of_seconds(seconds as int),
            r.wf(),
            r.spec_seconds() == seconds,
            r.spec_milliseconds() == 0,
    {
        Self { seconds, milliseconds: 0 }
    }

    /// Create a new duration that is the given number of seconds and
    /// milliseconds long. The milliseconds must lie in `0..=999`.
    pub fn of_ms(seconds: i64, milliseconds: i16) -> (r: Self)
        requires
            0 <= milliseconds <= 999,
        ensures
            r.wf(),
            r.spec_seconds() == seconds,
            r.spec_milliseconds() == milliseconds,
    {
        Self { seconds, milliseconds }
    }

    /// Return the seconds and milliseconds portions of the duration as
    /// a 2-element tuple.
    pub fn lengths(&self) -> (r: (i64, i16))
        ensures
            r.0 == self.spec_seconds(),
            r.1 == self.spec_milliseconds(),
    {
        (self.seconds, self.milliseconds)
    }

    /// The duration that has `seconds` whole seconds more than a part of
    /// `part_ms` milliseconds, which may be negative or above 999.
    fn normalised(seconds: i128, part_ms: i128) -> (r: Self)
        requires
            Duration::representable(seconds * 1000 + part_ms),
        ensures
            r == Duration::from_total_ms(seconds * 1000 + part_ms),
            r.wf(),
            r.total_ms() == seconds * 1000 + part_ms,
    {
        let (carry, ms) = split_thousands(part_ms);
        assert((seconds * 1000 + part_ms) / 1000 == seconds + part_ms / 1000);
        assert((seconds * 1000 + part_ms) % 1000 == part_ms % 1000);
        Self { seconds: (seconds + carry) as i64, milliseconds: ms }
    }
}

impl core::ops::Add<Duration> for Duration {
    type Output = Duration;

    /// The sum of two lengths, with the milliseconds carried into the
    /// seconds.
    fn add(self, rhs: Duration) -> (r: Duration)
        ensures
            r.wf(),
            r.total_ms() == self.total_ms() + rhs.total_ms(),
            r.spec_seconds() == (self.total_ms() + rhs.total_ms()) / 1000,
            r.spec_milliseconds() == (self.total_ms() + rhs.total_ms()) % 1000,
    {
        Duration::normalised(
            self.seconds as i128 + rhs.seconds as i128,
            self.milliseconds as i128 + rhs.milliseconds as i128,
        )
    }
}

impl AddSpecImpl<Duration> for Duration {
    open spec fn obeys_add_spec() -> bool {
        true
    }

    open spec fn add_req(self, rhs: Duration) -> bool {
        self.can_add(rhs)
    }

    open spec fn add_spec(self, rhs: Duration) -> Duration {
        self.plus(rhs)
    }
}

impl core::ops::Sub<Duration> for Duration {
    type Output = Duration;

    /// The difference of two lengths, with the milliseconds borrowed
    /// from the seconds.
    fn sub(self, rhs: Duration) -> (r: Duration)
        ensures
            r.wf(),
            r.total_ms() == self.total_ms() - rhs.total_ms(),
            r.spec_seconds() == (self.total_ms() - rhs.total_ms()) / 1000,
            r.spec_milliseconds() == (self.total_ms() - rhs.total_ms()) % 1000,
    {
        Duration::normalised(
            self.seconds as i128 - rhs.seconds as i128,
            self.milliseconds as i128 - rhs.milliseconds as i128,
        )
    }
}

impl SubSpecImpl<Duration> for Duration {
    open spec fn obeys_sub_spec() -> bool {
        true
    }

    open spec fn sub_req(self, rhs: Duration) -> bool {
        self.can_sub(rhs)
    }

    open spec fn sub_spec(self, rhs: Duration) -> Duration {
        self.minus(rhs)
    }
}

impl core::ops::Mul<i64> for Duration {
    type Output = Duration;

    /// This length taken `amount` times, renormalised as a sum is.
    fn mul(self, amount: i64) -> (r: Duration)
        ensures
            r.wf(),
            r.total_ms() == self.total_ms() * amount,
            r.spec_seconds() == (self.total_ms() * amount) / 1000,
            r.spec_milliseconds() == (self.total_ms() * amount) % 1000,
    {
        proof {
            lemma_scaled_parts(self.seconds as int, self.milliseconds as int, amount as int);
        }
        Duration::normalised(
            self.seconds as i128 * amount as i128,
            self.milliseconds as i128 * amount as i128,
        )
    }
}

impl MulSpecImpl<i64> for Duration {
    open spec fn obeys_mul_spec() -> bool {
        true
    }

    open spec fn mul_req(self, amount: i64) -> bool {
        self.can_scale(amount as int)
    }

    open spec fn mul_spec(self, amount: i64) -> Duration {
        self.times(amount as int)
    }
}

/// Scaling a length scales its two parts, and the scaled parts stay well
/// inside 128 bits.
proof fn lemma_scaled_parts(s: int, ms: int, k: int)
    requires
        i64::MIN <= s <= i64::MAX,
        0 <= ms <= 999,
        i64::MIN <= k <= i64::MAX,
    ensures
        (s * 1000 + ms) * k == (s * k) * 1000 + ms * k,
        -0x4000_0000_0000_0000_0000_0000_0000_0000 <= s * k
            <= 0x4000_0000_0000_0000_0000_0000_0000_0000,
        -0x4000_0000_0000_0000_0000_0000_0000_0000 <= ms * k
            <= 0x4000_0000_0000_0000_0000_0000_0000_0000,
{
    assert((s * 1000 + ms) * k == (s * k) * 1000 + ms * k) by (nonlinear_arith);
    assert(-0x4000_0000_0000_0000_0000_0000_0000_0000 <= s * k
        <= 0x4000_0000_0000_0000_0000_0000_0000_0000) by (nonlinear_arith)
        requires
            -0x8000_0000_0000_0000 <= s <= 0x7fff_ffff_ffff_ffff,
            -0x8000_0000_0000_0000 <= k <= 0x7fff_ffff_ffff_ffff,
    ;
    assert(-0x4000_0000_0000_0000_0000_0000_0000_0000 <= ms * k
        <= 0x4000_0000_0000_0000_0000_0000_0000_0000) by (nonlinear_arith)
        requires
            0 <= ms <= 999,
            -0x8000_0000_0000_0000 <= k <= 0x7fff_ffff_ffff_ffff,
    ;
}

/// Adding a length and taking it away again gives back what one had.
pub proof fn lemma_add_then_sub(a: Duration, b: Duration)
    requires
        a.can_add(b),
    ensures
        a.plus(b).wf(),
        a.plus(b).can_sub(b),
        a.plus(b).minus(b) == a,
{
    Duration::lemma_total_ms_of(a.total_ms() + b.total_ms());
    a.lemma_from_total_ms();
}

} // verus!
