//! Stream time bases, timestamp rescaling to microseconds, and `Duration`.

use std::time::Duration;
use vstd::prelude::*;

verus! {

/// The total number of nanoseconds held by a `Duration` (the value that
/// `Duration::as_nanos` returns).
pub uninterp spec fn duration_nanos(d: Duration) -> u128;

/// `Duration::new`: a duration of `secs` seconds and `nanos` nanoseconds.
///
/// With `nanos` below one second no carry happens, so the call does not
/// panic; the duration holds exactly `secs * 10^9 + nanos` nanoseconds.
#[verifier::external_body]
pub(crate) fn duration_new(secs: u64, nanos: u32) -> (d: Duration)
    requires
        nanos < 1_000_000_000,
    ensures
        duration_nanos(d) == secs * 1_000_000_000 + nanos,
{
    Duration::new(secs, nanos)
}

/// `Duration::as_nanos`: the total number of nanoseconds of `d`.
#[verifier::external_body]
pub(crate) fn duration_as_nanos(d: Duration) -> (r: u128)
    ensures
        r == duration_nanos(d),
{
    d.as_nanos()
}

/// The duration of `nanos` nanoseconds.
pub fn duration_from_nanos(nanos: u128) -> (d: Duration)
    requires
        nanos / 1_000_000_000 <= u64::MAX,
    ensures
        duration_nanos(d) == nanos,
{
    let secs: u128 = nanos / 1_000_000_000;
    let rest: u128 = nanos % 1_000_000_000;
    duration_new(secs as u64, rest as u32)
}

/// The duration of `micros` microseconds.
pub fn duration_from_micros(micros: u64) -> (d: Duration)
    ensures
        duration_nanos(d) == micros * 1000,
{
    let nanos: u128 = micros as u128 * 1000;
    duration_from_nanos(nanos)
}

/// The whole microseconds of a duration.
pub fn duration_micros(d: Duration) -> (r: u128)
    ensures
        r == duration_nanos(d) / 1000,
{
    duration_as_nanos(d) / 1000
}

/// A rational number `num / den`, as FFmpeg's `AVRational`.
#[derive(Clone, Copy, Debug, PartialEq, Eq)]
pub struct Rational {
    pub num: i32,
    pub den: i32,
}

/// `a * b / c` rounded to the nearest integer, halfway cases away from zero
/// (FFmpeg's `av_rescale_rnd` with `AV_ROUND_NEAR_INF`), for `c > 0`, `b >= 0`.
pub open spec fn rescale_nearest(a: int, b: int, c: int) -> int {
    if a >= 0 {
        (a * b + c / 2) / c
    } else {
        -((-a * b + c / 2) / c)
    }
}

/// Whether an integer fits in `i64`.
pub open spec fn fits_i64(v: int) -> bool {
    i64::MIN <= v <= i64::MAX
}

/// The unit of a stream's timestamps: one tick lasts `num / den` seconds,
/// with `num` and `den` positive.
#[derive(Clone, Copy, Debug)]
pub struct TimeBase {
    num: i32,
    den: i32,
}

impl TimeBase {
    #[verifier::type_invariant]
    spec fn positive(self) -> bool {
        self.num > 0 && self.den > 0
    }

    /// The numerator of the tick length in seconds.
    pub closed spec fn num(self) -> int {
        self.num as int
    }

    /// The denominator of the tick length in seconds.
    pub closed spec fn den(self) -> int {
        self.den as int
    }

    /// The time of `ts` ticks in microseconds, rounded to the nearest.
    pub open spec fn micros(self, ts: int) -> int {
        rescale_nearest(ts, self.num() * 1_000_000, self.den())
    }

    /// Shows that the numerator and denominator of a time base are positive.
    pub fn positive_parts(&self) -> (r: (i32, i32))
        ensures
            r.0 == self.num(),
            r.1 == self.den(),
            r.0 > 0,
            r.1 > 0,
    {
        proof {
            use_type_invariant(self);
        }
        (self.num, self.den)
    }

    /// Makes a time base from a rational; `None` unless both parts are positive.
    pub fn try_new(r: Rational) -> (tb: Option<TimeBase>)
        ensures
            tb is Some <==> r.num > 0 && r.den > 0,
            tb matches Some(t) ==> t.num() == r.num && t.den() == r.den,
    {
        if r.num > 0 && r.den > 0 {
            Some(TimeBase { num: r.num, den: r.den })
        } else {
            None
        }
    }

    /// The time base of a stream sampled `rate` times per second: `1 / rate`.
    pub fn per_sample(rate: i32) -> (tb: TimeBase)
        requires
            rate > 0,
        ensures
            tb.num() == 1,
            tb.den() == rate,
    {
        TimeBase { num: 1, den: rate }
    }

    /// The time base as a rational number.
    pub fn as_rational(&self) -> (r: Rational)
        ensures
            r.num == self.num(),
            r.den == self.den(),
    {
        Rational { num: self.num, den: self.den }
    }

    /// Converts `ts` ticks to microseconds, rounded to the nearest (halfway
    /// away from zero); `None` when the result does not fit in `i64`.
    pub fn calc_micros(&self, ts: i64) -> (r: Option<i64>)
        ensures
            r is Some <==> fits_i64(self.micros(ts as int)),
            r matches Some(us) ==> us == self.micros(ts as int),
    {
        proof {
            use_type_invariant(self);
        }
        let b: i128 = self.num as i128 * 1_000_000;
        let c: i128 = self.den as i128;
        let a: i128 = ts as i128;
        let half: i128 = c / 2;
        assert(0 < b <= 0x7fff_ffff * 1_000_000) by (nonlinear_arith)
            requires
                b == self.num * 1_000_000,
                0 < self.num <= 0x7fff_ffff,
        ;
        let q: i128 = if a >= 0 {
            assert(0 <= a * b <= 0x8000_0000_0000_0000 * (0x7fff_ffff * 1_000_000))
                by (nonlinear_arith)
                requires
                    0 <= a <= 0x8000_0000_0000_0000,
                    0 < b <= 0x7fff_ffff * 1_000_000,
            ;
            (a * b + half) / c
        } else {
            let na: i128 = -a;
            assert(0 <= na * b <= 0x8000_0000_0000_0000 * (0x7fff_ffff * 1_000_000))
                by (nonlinear_arith)
                requires
                    0 <= na <= 0x8000_0000_0000_0000,
                    0 < b <= 0x7fff_ffff * 1_000_000,
            ;
            -((na * b + half) / c)
        };
        if q >= i64::MIN as i128 && q <= i64::MAX as i128 {
            Some(q as i64)
        } else {
            None
        }
    }

    /// Converts `ts` ticks to a duration of whole microseconds (rounded to the
    /// nearest); times before zero become zero. `None` when the microsecond
    /// count does not fit in `i64`.
    pub fn calc_duration(&self, ts: i64) -> (r: Option<Duration>)
        ensures
            r is Some <==> fits_i64(self.micros(ts as int)),
            r matches Some(d) ==> duration_nanos(d) == (if self.micros(ts as int) > 0 {
                self.micros(ts as int)
            } else {
                0
            }) * 1000,
    {
        match self.calc_micros(ts) {
            Some(us) => {
                let clamped: u64 = if us > 0 {
                    us as u64
                } else {
                    0
                };
                Some(duration_from_micros(clamped))
            },
            None => None,
        }
    }
}

/// Rounding to the nearest keeps order: later timestamps never map to
/// earlier microsecond times.
pub proof fn lemma_rescale_monotonic(a1: int, a2: int, b: int, c: int)
    requires
        a1 <= a2,
        b >= 0,
        c > 0,
    ensures
        rescale_nearest(a1, b, c) <= rescale_nearest(a2, b, c),
{
    assert(a1 * b <= a2 * b) by (nonlinear_arith)
        requires
            a1 <= a2,
            b >= 0,
    ;
    if a1 >= 0 {
        lemma_div_monotonic(a1 * b + c / 2, a2 * b + c / 2, c);
    } else if a2 < 0 {
        assert(-a2 * b <= -a1 * b) by (nonlinear_arith)
            requires
                a1 <= a2,
                b >= 0,
        ;
        lemma_div_monotonic(-a2 * b + c / 2, -a1 * b + c / 2, c);
    } else {
        assert(-a1 * b >= 0) by (nonlinear_arith)
            requires
                a1 < 0,
                b >= 0,
        ;
        assert(a2 * b >= 0) by (nonlinear_arith)
            requires
                a2 >= 0,
                b >= 0,
        ;
        lemma_div_nonneg(-a1 * b + c / 2, c);
        lemma_div_nonneg(a2 * b + c / 2, c);
    }
}

proof fn lemma_div_monotonic(x: int, y: int, c: int)
    requires
        x <= y,
        c > 0,
    ensures
        x / c <= y / c,
{
    vstd::arithmetic::div_mod::lemma_div_is_ordered(x, y, c);
}

proof fn lemma_div_nonneg(x: int, c: int)
    requires
        x >= 0,
        c > 0,
    ensures
        x / c >= 0,
{
    vstd::arithmetic::div_mod::lemma_div_pos_is_pos(x, c);
}

/// Non-negative timestamps have non-negative times.
pub proof fn lemma_rescale_nonneg(a: int, b: int, c: int)
    requires
        a >= 0,
        b >= 0,
        c > 0,
    ensures
        rescale_nearest(a, b, c) >= 0,
{
    assert(a * b >= 0) by (nonlinear_arith)
        requires
            a >= 0,
            b >= 0,
    ;
    lemma_div_nonneg(a * b + c / 2, c);
}

/// Tick zero is time zero.
pub proof fn lemma_rescale_zero(b: int, c: int)
    requires
        c > 0,
    ensures
        rescale_nearest(0, b, c) == 0,
{
    assert((c / 2) / c == 0) by (nonlinear_arith)
        requires
            c > 0,
    ;
}

} // verus!
