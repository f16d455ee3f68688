//! Media time in nanoseconds, time ranges, clocks and frame timing.

use std::time::Duration;
use std::time::Instant;
use vstd::prelude::*;

verus! {

/// Integer division that rounds toward zero, as Rust's `/` on signed integers does
/// (spec `/` is Euclidean; for a non-negative dividend the two agree).
pub open spec fn div_toward_zero(a: i64, b: i64) -> i64 {
    if a >= 0 {
        (a / b) as i64
    } else {
        (-((-a) / (b as int))) as i64
    }
}

/// Whether an integer fits in an `i64`.
pub open spec fn fits_i64(x: int) -> bool {
    i64::MIN <= x <= i64::MAX
}

/// A high-precision timestamp representing media time in nanoseconds.
///
/// This is the time unit used throughout the library for frame timestamps,
/// playback positions, A/V synchronization and telemetry timing.
#[derive(Debug, Clone, Copy, PartialEq, Eq, PartialOrd, Ord, Hash, Structural)]
pub struct Time(pub i64);

/// `std::time::Instant`, a monotonic clock reading; carried through without looking inside.
#[verifier::external_type_specification]
#[verifier::external_body]
pub struct ExInstant(Instant);

/// The total number of nanoseconds a `Duration` holds, as `Duration::as_nanos` returns it.
pub uninterp spec fn duration_nanos(d: Duration) -> u128;

/// `Duration::as_nanos`: the total number of nanoseconds the duration holds.
#[verifier::external_body]
pub(crate) fn duration_as_nanos(duration: &Duration) -> (nanos: u128)
    ensures
        nanos == duration_nanos(*duration),
{
    duration.as_nanos()
}

/// `Duration::from_nanos`: a duration of exactly the given number of
/// nanoseconds, which `as_nanos` gives back. A duration is whole seconds and
/// a nanosecond part below one second, so it is the only duration of that
/// many nanoseconds.
#[verifier::external_body]
fn duration_from_nanos(nanos: u64) -> (duration: Duration)
    ensures
        duration_nanos(duration) == nanos as u128,
        forall|other: Duration| #[trigger] duration_nanos(other) == nanos as u128 ==> other == duration,
{
    Duration::from_nanos(nanos)
}

/// `Instant::now`: the current monotonic instant; it depends on the time of the call.
#[verifier::external_body]
pub(crate) fn instant_now() -> (now: Instant) {
    Instant::now()
}

/// `Instant::elapsed`: the time since the instant; it depends on the time of the call.
#[verifier::external_body]
fn instant_elapsed(instant: &Instant) -> (elapsed: Duration) {
    instant.elapsed()
}

impl Time {
    /// Zero time.
    pub fn zero() -> (t: Self)
        ensures
            t.0 == 0,
    {
        Time(0)
    }

    /// Create a Time from nanoseconds.
    pub fn from_nanos(nanos: i64) -> (t: Self)
        ensures
            t.0 == nanos,
    {
        Time(nanos)
    }

    /// Create a Time from microseconds.
    pub fn from_micros(micros: i64) -> (t: Self)
        requires
            fits_i64(micros * 1_000),
        ensures
            t.0 == micros * 1_000,
    {
        Time(micros * 1_000)
    }

    /// Create a Time from milliseconds.
    pub fn from_millis(millis: i64) -> (t: Self)
        requires
            fits_i64(millis * 1_000_000),
        ensures
            t.0 == millis * 1_000_000,
    {
        Time(millis * 1_000_000)
    }

    /// Create a Time from seconds.
    pub fn from_secs(secs: i64) -> (t: Self)
        requires
            fits_i64(secs * 1_000_000_000),
        ensures
            t.0 == secs * 1_000_000_000,
    {
        Time(secs * 1_000_000_000)
    }

    /// Create a Time from a Duration: its nanoseconds, truncated to 64 bits.
    pub fn from_duration(duration: Duration) -> (t: Self)
        ensures
            t.0 == duration_nanos(duration) as i64,
    {
        let nanos = duration_as_nanos(&duration);
        Time(nanos as i64)
    }

    /// Convert to nanoseconds.
    pub fn as_nanos(&self) -> (n: i64)
        ensures
            n == self.0,
    {
        self.0
    }

    /// Convert to microseconds (rounding toward zero).
    pub fn as_micros(&self) -> (n: i64)
        ensures
            n == div_toward_zero(self.0, 1_000),
    {
        self.0 / 1_000
    }

    /// Convert to milliseconds (rounding toward zero).
    pub fn as_millis(&self) -> (n: i64)
        ensures
            n == div_toward_zero(self.0, 1_000_000),
    {
        self.0 / 1_000_000
    }

    /// Convert to seconds (rounding toward zero).
    pub fn as_secs(&self) -> (n: i64)
        ensures
            n == div_toward_zero(self.0, 1_000_000_000),
    {
        self.0 / 1_000_000_000
    }

    /// Convert to a Duration of the nanoseconds reinterpreted as unsigned.
    pub fn as_duration(&self) -> (d: Duration)
        ensures
            duration_nanos(d) == (self.0 as u64) as u128,
            forall|other: Duration| #[trigger] duration_nanos(other) == duration_nanos(d) ==> other == d,
    {
        duration_from_nanos(self.0 as u64)
    }

    /// Add two times.
    pub fn add(self, other: Self) -> (t: Self)
        requires
            fits_i64(self.0 + other.0),
        ensures
            t.0 == self.0 + other.0,
    {
        Time(self.0 + other.0)
    }

    /// Subtract two times.
    pub fn sub(self, other: Self) -> (t: Self)
        requires
            fits_i64(self.0 - other.0),
        ensures
            t.0 == self.0 - other.0,
    {
        Time(self.0 - other.0)
    }

    /// Multiply by a scalar.
    pub fn mul(self, scalar: i64) -> (t: Self)
        requires
            fits_i64(self.0 * scalar),
        ensures
            t.0 == self.0 * scalar,
    {
        Time(self.0 * scalar)
    }

    /// Divide by a scalar (rounding toward zero).
    pub fn div(self, divisor: i64) -> (t: Self)
        requires
            divisor != 0,
            !(self.0 == i64::MIN && divisor == -1),
        ensures
            t.0 == div_toward_zero(self.0, divisor),
    {
        Time(self.0 / divisor)
    }
}

impl std::ops::Add for Time {
    type Output = Time;

    fn add(self, other: Time) -> (t: Time) {
        Time(self.0 + other.0)
    }
}

impl vstd::std_specs::ops::AddSpecImpl for Time {
    open spec fn obeys_add_spec() -> bool {
        true
    }

    open spec fn add_req(self, rhs: Time) -> bool {
        fits_i64(self.0 + rhs.0)
    }

    open spec fn add_spec(self, rhs: Time) -> Time {
        Time((self.0 + rhs.0) as i64)
    }
}

impl std::ops::Sub for Time {
    type Output = Time;

    fn sub(self, other: Time) -> (t: Time) {
        Time(self.0 - other.0)
    }
}

impl vstd::std_specs::ops::SubSpecImpl for Time {
    open spec fn obeys_sub_spec() -> bool {
        true
    }

    open spec fn sub_req(self, rhs: Time) -> bool {
        fits_i64(self.0 - rhs.0)
    }

    open spec fn sub_spec(self, rhs: Time) -> Time {
        Time((self.0 - rhs.0) as i64)
    }
}

impl std::ops::AddAssign for Time {
    fn add_assign(&mut self, other: Time)
        requires
            fits_i64(old(self).0 + other.0),
        ensures
            final(self).0 == old(self).0 + other.0,
    {
        self.0 = self.0 + other.0;
    }
}

impl std::ops::SubAssign for Time {
    fn sub_assign(&mut self, other: Time)
        requires
            fits_i64(old(self).0 - other.0),
        ensures
            final(self).0 == old(self).0 - other.0,
    {
        self.0 = self.0 - other.0;
    }
}

} // verus!

verus! {

/// A time range with start and end points.
#[derive(Debug, Clone, Copy, PartialEq, Eq, Structural)]
pub struct TimeRange {
    pub start: Time,
    pub end: Time,
}

impl TimeRange {
    /// A range from `start` to `end`; the start must not come after the end.
    pub fn new(start: Time, end: Time) -> (r: Self)
        requires
            start.0 <= end.0,
        ensures
            r.start == start,
            r.end == end,
    {
        TimeRange { start, end }
    }

    /// The length of the range.
    pub fn duration(&self) -> (d: Time)
        requires
            fits_i64(self.end.0 - self.start.0),
        ensures
            d.0 == self.end.0 - self.start.0,
    {
        self.end.sub(self.start)
    }

    /// Whether `time` lies in the range, both ends included.
    pub open spec fn spans(&self, time: Time) -> bool {
        self.start.0 <= time.0 && time.0 <= self.end.0
    }

    /// Whether `time` lies in the range, both ends included.
    pub fn contains(&self, time: Time) -> (b: bool)
        ensures
            b == self.spans(time),
    {
        time.0 >= self.start.0 && time.0 <= self.end.0
    }
}

/// Clock interface for time sources: the system clock, or the audio master
/// clock that drives A/V synchronization.
pub trait Clock {
    /// The current time.
    fn now(&self) -> Time;

    /// The time since the clock's reference point.
    fn elapsed(&self) -> Time {
        self.now()
    }
}

/// System clock measuring time since its creation.
pub struct SystemClock {
    start: Instant,
}

impl SystemClock {
    /// A clock whose reference point is the moment of the call.
    pub fn new() -> Self {
        SystemClock { start: instant_now() }
    }
}

impl Default for SystemClock {
    fn default() -> Self {
        Self::new()
    }
}

impl Clock for SystemClock {
    fn now(&self) -> Time {
        Time::from_duration(instant_elapsed(&self.start))
    }

    fn elapsed(&self) -> Time {
        self.now()
    }
}

/// Frame timing information for A/V synchronization.
#[derive(Debug, Clone, Copy, PartialEq, Eq, Structural)]
pub struct FrameTiming {
    /// When this frame should be presented.
    pub presentation_time: Time,
    /// When this frame was actually presented.
    pub actual_presentation_time: Option<Time>,
    /// Frame duration.
    pub duration: Time,
}

impl FrameTiming {
    /// A frame due at `presentation_time`, not yet presented.
    pub fn new(presentation_time: Time, duration: Time) -> (f: Self)
        ensures
            f.presentation_time == presentation_time,
            f.actual_presentation_time.is_none(),
            f.duration == duration,
    {
        FrameTiming { presentation_time, actual_presentation_time: None, duration }
    }

    /// Record when the frame was actually presented.
    pub fn mark_presented(&mut self, actual_time: Time)
        ensures
            final(self).actual_presentation_time == Some(actual_time),
            final(self).presentation_time == old(self).presentation_time,
            final(self).duration == old(self).duration,
    {
        self.actual_presentation_time = Some(actual_time);
    }

    /// How late (positive) or early (negative) the frame was presented, once it has been.
    pub fn presentation_error(&self) -> (e: Option<Time>)
        requires
            self.actual_presentation_time matches Some(a) ==> fits_i64(
                a.0 - self.presentation_time.0,
            ),
        ensures
            match self.actual_presentation_time {
                Some(a) => e == Some(Time(
                    (a.0 - self.presentation_time.0) as i64,
                )),
                None => e.is_none(),
            },
    {
        match self.actual_presentation_time {
            Some(actual) => Some(actual.sub(self.presentation_time)),
            None => None,
        }
    }
}

} // verus!

verus! {

/// Law: converting a whole number of microseconds to a `Time` and back gives it back.
pub proof fn law_micros_round_trip(micros: i64)
    requires
        fits_i64(micros * 1_000),
    ensures
        div_toward_zero((micros * 1_000) as i64, 1_000) == micros,
{
    lemma_truncated_exact(micros as int, 1_000);
}

/// Law: converting a whole number of milliseconds to a `Time` and back gives it back.
pub proof fn law_millis_round_trip(millis: i64)
    requires
        fits_i64(millis * 1_000_000),
    ensures
        div_toward_zero((millis * 1_000_000) as i64, 1_000_000) == millis,
{
    lemma_truncated_exact(millis as int, 1_000_000);
}

/// Law: converting a whole number of seconds to a `Time` and back gives it back.
pub proof fn law_secs_round_trip(secs: i64)
    requires
        fits_i64(secs * 1_000_000_000),
    ensures
        div_toward_zero((secs * 1_000_000_000) as i64, 1_000_000_000) == secs,
{
    lemma_truncated_exact(secs as int, 1_000_000_000);
}

/// An exact multiple of a nonzero divisor divides back to its factor.
proof fn lemma_exact_quotient(q: int, d: int)
    requires
        d != 0,
    ensures
        (q * d) / d == q,
{
    let x = q * d;
    vstd::arithmetic::div_mod::lemma_fundamental_div_mod(x, d);
    let m = x / d - q;
    let r = x % d;
    assert(d * m == -r) by (nonlinear_arith)
        requires
            x == q * d,
            x == d * (x / d) + r,
            m == x / d - q,
    ;
    assert(0 <= r < (if d > 0 { d } else { -d })) by (nonlinear_arith)
        requires
            d != 0,
            r == x % d,
    ;
    if m >= 1 {
        if d > 0 {
            assert(d * m >= d) by (nonlinear_arith)
                requires
                    m >= 1,
                    d > 0,
            ;
        } else {
            assert(d * m <= d) by (nonlinear_arith)
                requires
                    m >= 1,
                    d < 0,
            ;
        }
    } else if m <= -1 {
        if d > 0 {
            assert(d * m <= -d) by (nonlinear_arith)
                requires
                    m <= -1,
                    d > 0,
            ;
        } else {
            assert(d * m >= -d) by (nonlinear_arith)
                requires
                    m <= -1,
                    d < 0,
            ;
        }
    }
}

/// Truncating an exact multiple divides back to its factor.
proof fn lemma_truncated_exact(q: int, d: int)
    requires
        d != 0,
        fits_i64(q * d),
        fits_i64(q),
        fits_i64(d),
    ensures
        div_toward_zero((q * d) as i64, d as i64) == q,
{
    lemma_exact_quotient(q, d);
    lemma_exact_quotient(-q, d);
    assert((-q) * d == -(q * d)) by (nonlinear_arith);
}

/// Law: a duration of at most `i64::MAX` nanoseconds keeps its nanoseconds
/// through `Time::from_duration` and back through `Time::as_duration`, and a
/// non-negative time comes back unchanged from `as_duration` and then
/// `from_duration`. (`as_duration` gives the only duration of its
/// nanoseconds, so the first round trip gives back the duration itself.)
pub proof fn law_duration_round_trip(d: Duration, t: Time)
    ensures
        duration_nanos(d) <= i64::MAX ==> ((duration_nanos(d) as i64) as u64) as u128
            == duration_nanos(d),
        t.0 >= 0 ==> (((t.0 as u64) as u128) as i64) == t.0,
{
    let n = duration_nanos(d);
    if n <= i64::MAX {
        assert(((n as i64) as u64) as u128 == n) by (bit_vector)
            requires
                n <= 0x7fff_ffff_ffff_ffffu128,
        ;
    }
    let x = t.0;
    if x >= 0 {
        assert((((x as u64) as u128) as i64) == x) by (bit_vector)
            requires
                x >= 0,
        ;
    }
}

/// Law: subtracting what was added gives back the time added to.
pub proof fn law_add_then_sub(a: Time, b: Time)
    requires
        fits_i64(a.0 + b.0),
    ensures
        fits_i64(((a.0 + b.0) as i64) - b.0),
        ((a.0 + b.0) as i64) - b.0 == a.0,
{
}

/// Law: dividing a scaled time by the same scalar gives back the unscaled time.
pub proof fn law_mul_then_div(t: Time, k: i64)
    requires
        k != 0,
        fits_i64(t.0 * k),
    ensures
        div_toward_zero((t.0 * k) as i64, k) == t.0,
{
    lemma_truncated_exact(t.0 as int, k as int);
}

/// Law: a range holds both of its ends, and its length is never negative.
pub proof fn law_range_holds_its_ends(r: TimeRange)
    requires
        r.start.0 <= r.end.0,
    ensures
        r.spans(r.start),
        r.spans(r.end),
        r.end.0 - r.start.0 >= 0,
{
}

} // verus!
