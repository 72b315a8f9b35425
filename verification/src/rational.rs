//! Rational numbers as FFmpeg uses them (time bases, frame rates, aspect ratios), timestamp
//! rescaling between time bases, and bit rates.

use vstd::prelude::*;
use crate::time::{Duration, NANOS_LIMIT};

verus! {

/// A rational number `num/den`, e.g. a stream time base such as `1/90000`.
#[derive(Clone, Copy, Debug, PartialEq, Eq, Structural)]
pub struct Rational {
    /// Numerator.
    pub num: i32,
    /// Denominator.
    pub den: i32,
}

/// The smallest and largest `i64`, as mathematical integers.
pub open spec fn i64_min() -> int {
    -0x8000_0000_0000_0000
}

pub open spec fn i64_max() -> int {
    0x7fff_ffff_ffff_ffff
}

/// `v` clamped into the `i64` range.
pub open spec fn saturate_i64(v: int) -> int {
    if v < i64_min() {
        i64_min()
    } else if v > i64_max() {
        i64_max()
    } else {
        v
    }
}

/// `p / q` rounded to the nearest integer, halves away from zero (`q > 0`).
pub open spec fn round_div(p: int, q: int) -> int {
    if p >= 0 {
        (2 * p + q) / (2 * q)
    } else {
        -((-2 * p + q) / (2 * q))
    }
}

/// `av_rescale_rnd(a, b, c, AV_ROUND_NEAR_INF)` for `a >= 0`: `a * b / c` rounded to the
/// nearest integer (halves up), or `i64::MIN` when that does not fit.
pub open spec fn rescale_nonneg(a: int, b: int, c: int) -> int {
    let q = (a * b + c / 2) / c;
    if q > i64_max() {
        i64_min()
    } else {
        q
    }
}

/// `av_rescale_rnd(a, b, c, AV_ROUND_NEAR_INF)`: `a * b / c` rounded to the nearest integer,
/// halves away from zero. `i64::MIN` signals an invalid divisor or a result out of range.
pub open spec fn spec_rescale(a: int, b: int, c: int) -> int {
    if c <= 0 || b < 0 {
        i64_min()
    } else if a < 0 {
        let r = rescale_nonneg(if -a > i64_max() { i64_max() } else { -a }, b, c);
        if r == i64_min() {
            i64_min()
        } else {
            -r
        }
    } else {
        rescale_nonneg(a, b, c)
    }
}

/// `av_rescale_q(a, bq, cq)`: a timestamp `a` in time base `bq` re-expressed in `cq`.
pub open spec fn spec_rescale_q(a: int, bq: Rational, cq: Rational) -> int {
    spec_rescale(a, bq.num * cq.den, cq.num * bq.den)
}

/// `a * b / c` rounded to the nearest integer with halves away from zero; `i64::MIN` when
/// `c <= 0`, `b < 0` or the result does not fit in an `i64`.
pub fn rescale_rnd(a: i64, b: i64, c: i64) -> (r: i64)
    ensures
        r == spec_rescale(a as int, b as int, c as int),
{
    if c <= 0 || b < 0 {
        return i64::MIN;
    }
    let neg = a < 0;
    let abs_a: i128 = if a < 0 {
        if a == i64::MIN {
            i64::MAX as i128
        } else {
            -(a as i128)
        }
    } else {
        a as i128
    };
    let bb: i128 = b as i128;
    let cc: i128 = c as i128;
    assert(0 <= abs_a * bb <= 0x7fff_ffff_ffff_ffff * 0x7fff_ffff_ffff_ffff) by (nonlinear_arith)
        requires
            0 <= abs_a <= 0x7fff_ffff_ffff_ffff,
            0 <= bb <= 0x7fff_ffff_ffff_ffff,
    ;
    let q: i128 = (abs_a * bb + cc / 2) / cc;
    let r: i64 = if q > i64::MAX as i128 {
        i64::MIN
    } else {
        q as i64
    };
    if neg {
        if r == i64::MIN {
            i64::MIN
        } else {
            -r
        }
    } else {
        r
    }
}

/// `av_rescale_q(a, bq, cq)`: re-express timestamp `a` from time base `bq` in time base `cq`,
/// rounding to the nearest tick.
pub fn rescale_q(a: i64, bq: Rational, cq: Rational) -> (r: i64)
    ensures
        r == spec_rescale_q(a as int, bq, cq),
{
    assert(forall|x: i32, y: i32| -0x4000_0000_0000_0000 <= #[trigger] (x * y) <= 0x4000_0000_0000_0000) by {
        assert forall|x: i32, y: i32| -0x4000_0000_0000_0000 <= #[trigger] (x * y) <= 0x4000_0000_0000_0000 by {
            assert(-0x4000_0000_0000_0000 <= x * y <= 0x4000_0000_0000_0000) by (nonlinear_arith)
                requires
                    -0x8000_0000 <= x <= 0x7fff_ffff,
                    -0x8000_0000 <= y <= 0x7fff_ffff,
            ;
        }
    }
    let b: i64 = bq.num as i64 * cq.den as i64;
    let c: i64 = cq.num as i64 * bq.den as i64;
    rescale_rnd(a, b, c)
}

/// The tick of time base `tb` nearest to `d` (halves away from zero), saturated to `i64`.
pub open spec fn spec_ts_from_nanos(nanos: nat, tb: Rational) -> int {
    saturate_i64(round_div(nanos * tb.den, tb.num * 1_000_000_000))
}

/// The span of timestamp `ts` in time base `tb`, in nanoseconds: rounded down, zero when
/// negative, capped at the largest representable duration.
pub open spec fn spec_duration_from_ts(ts: int, tb: Rational) -> nat {
    let p = ts * tb.num * 1_000_000_000;
    if p <= 0 {
        0
    } else if p / (tb.den as int) >= 18_446_744_073_709_551_616_000_000_000 {
        18_446_744_073_709_551_615_999_999_999
    } else {
        (p / (tb.den as int)) as nat
    }
}

impl Rational {
    /// `num/den`.
    pub fn new(num: i32, den: i32) -> (r: Rational)
        ensures
            r.num == num && r.den == den,
    {
        Rational { num, den }
    }

    /// `1/1`.
    pub fn one() -> (r: Rational)
        ensures
            r.num == 1 && r.den == 1,
    {
        Rational { num: 1, den: 1 }
    }

    /// `den/num`.
    pub fn invert(self) -> (r: Rational)
        ensures
            r.num == self.den && r.den == self.num,
    {
        Rational { num: self.den, den: self.num }
    }

    /// The timestamp in this time base nearest to `d` (rounding halves away from zero,
    /// saturating at the `i64` range). The time base must be positive in its numerator.
    pub fn ts_from_duration(self, d: Duration) -> (ts: i64)
        requires
            self.num > 0,
        ensures
            ts == spec_ts_from_nanos(d@, self),
    {
        let n: u128 = d.as_nanos();
        assert(-0x8000_0000 * 18_446_744_073_709_551_616_000_000_000 <= n * self.den <= 0x7fff_ffff * 18_446_744_073_709_551_616_000_000_000) by (nonlinear_arith)
            requires
                0 <= n < 18_446_744_073_709_551_616_000_000_000,
                -0x8000_0000 <= self.den <= 0x7fff_ffff,
        ;
        let p: i128 = n as i128 * self.den as i128;
        let q: i128 = self.num as i128 * 1_000_000_000;
        let v: i128 = if p >= 0 {
            (2 * p + q) / (2 * q)
        } else {
            -((-2 * p + q) / (2 * q))
        };
        proof {
            assert(v == round_div(d@ * self.den, self.num * 1_000_000_000));
            if p >= 0 {
                assert(0 <= (2 * p + q) / (2 * q) <= 2 * p + q) by (nonlinear_arith)
                    requires p >= 0, q > 0;
            } else {
                assert(0 <= (-2 * p + q) / (2 * q) <= -2 * p + q) by (nonlinear_arith)
                    requires p < 0, q > 0;
            }
        }
        if v < i64::MIN as i128 {
            i64::MIN
        } else if v > i64::MAX as i128 {
            i64::MAX
        } else {
            v as i64
        }
    }

    /// The (non-negative) span from zero to timestamp `ts` in this time base: `ts * num/den`
    /// seconds rounded down to whole nanoseconds, zero when that is negative, and capped at the
    /// largest representable duration. The denominator must be positive.
    pub fn duration_from_ts(self, ts: i64) -> (d: Duration)
        requires
            self.den > 0,
        ensures
            d@ == spec_duration_from_ts(ts as int, self),
    {
        assert(-0x8000_0000_0000_0000 * 0x8000_0000 * 1_000_000_000 <= ts * self.num * 1_000_000_000
            <= 0x8000_0000_0000_0000 * 0x8000_0000 * 1_000_000_000) by (nonlinear_arith)
            requires
                -0x8000_0000_0000_0000 <= ts <= 0x7fff_ffff_ffff_ffff,
                -0x8000_0000 <= self.num <= 0x7fff_ffff,
        ;
        let p: i128 = ts as i128 * self.num as i128 * 1_000_000_000;
        if p <= 0 {
            return Duration::zero();
        }
        let q: i128 = p / self.den as i128;
        if q >= NANOS_LIMIT as i128 {
            Duration::from_total_nanos((NANOS_LIMIT - 1) as u128)
        } else {
            Duration::from_total_nanos(q as u128)
        }
    }

    /// `true` when timestamp `ts` in this time base lies strictly after `secs` seconds
    /// (`ts * num/den > secs`). The denominator must be positive.
    pub fn ts_after_secs(self, ts: i64, secs: u64) -> (after: bool)
        requires
            self.den > 0,
        ensures
            after == (ts * self.num > secs * self.den),
    {
        assert(-0x8000_0000_0000_0000 * 0x8000_0000 <= ts * self.num <= 0x8000_0000_0000_0000 * 0x8000_0000) by (nonlinear_arith)
            requires
                -0x8000_0000_0000_0000 <= ts <= 0x7fff_ffff_ffff_ffff,
                -0x8000_0000 <= self.num <= 0x7fff_ffff,
        ;
        assert(0 <= secs * self.den <= 0xffff_ffff_ffff_ffff * 0x7fff_ffff) by (nonlinear_arith)
            requires
                0 <= secs <= 0xffff_ffff_ffff_ffff,
                0 < self.den <= 0x7fff_ffff,
        ;
        let lhs: i128 = ts as i128 * self.num as i128;
        let rhs: i128 = secs as i128 * self.den as i128;
        lhs > rhs
    }
}

/// A frame rate, stored as frames per `den` seconds.
#[derive(Clone, Copy, Debug, PartialEq, Eq, Structural)]
pub struct Framerate(pub Rational);

impl Framerate {
    /// A whole-number rate of `fps` frames per second.
    pub fn fps(fps: u32) -> (f: Framerate)
        requires
            fps <= i32::MAX,
        ensures
            f.0.num == fps && f.0.den == 1,
    {
        Framerate(Rational { num: fps as i32, den: 1 })
    }

    /// The time base matching this rate: the duration of one frame (`den/num`).
    pub fn time_base(self) -> (tb: Rational)
        ensures
            tb.num == self.0.den && tb.den == self.0.num,
    {
        self.0.invert()
    }
}

/// A target bit rate.
#[derive(Clone, Copy, Debug, PartialEq, Eq, Structural)]
pub struct Bitrate {
    bits_per_second: u64,
}

impl View for Bitrate {
    type V = nat;

    closed spec fn view(&self) -> nat {
        self.bits_per_second as nat
    }
}

impl Bitrate {
    #[verifier::type_invariant]
    spec fn within_range(self) -> bool {
        self.bits_per_second <= 4_294_967_295_000_000
    }

    /// `bps` bits per second.
    pub fn bps(bps: u32) -> (b: Bitrate)
        ensures
            b@ == bps,
    {
        Bitrate { bits_per_second: bps as u64 }
    }

    /// `kbps` kilobits (1000 bits) per second.
    pub fn kbps(kbps: u32) -> (b: Bitrate)
        ensures
            b@ == kbps * 1000,
    {
        Bitrate { bits_per_second: kbps as u64 * 1000 }
    }

    /// `mbps` megabits (1,000,000 bits) per second.
    pub fn mbps(mbps: u32) -> (b: Bitrate)
        ensures
            b@ == mbps * 1_000_000,
    {
        Bitrate { bits_per_second: mbps as u64 * 1_000_000 }
    }

    /// The rate in bits per second.
    pub fn as_bps(self) -> (v: i64)
        ensures
            v == self@,
    {
        proof {
            use_type_invariant(&self);
        }
        self.bits_per_second as i64
    }
}

/// Rescaling a timestamp into the time base it is already in leaves it unchanged, for every
/// valid (positive) time base. The one exception is `i64::MIN`, which the rescale treats as
/// `-i64::MAX` (it is the "no timestamp" sentinel, which callers never rescale).
pub proof fn lemma_rescale_same_base(a: i64, tb: Rational)
    requires
        tb.num > 0,
        tb.den > 0,
        a != i64::MIN,
    ensures
        spec_rescale_q(a as int, tb, tb) == a,
{
    let c: int = tb.num * tb.den;
    assert(c > 0) by (nonlinear_arith)
        requires
            tb.num > 0,
            tb.den > 0,
            c == tb.num * tb.den,
    ;
    let m: int = if a < 0 { -a } else { a as int };
    assert(0 <= m <= i64_max());
    assert((m * c + c / 2) / c == m) by (nonlinear_arith)
        requires
            c > 0,
            m >= 0,
    {
        assert(0 <= c / 2 < c);
        vstd::arithmetic::div_mod::lemma_fundamental_div_mod_converse(m * c + c / 2, c, m, c / 2);
    }
}

} // verus!
