//! Square roots and circular functions on fixed-point values.
//!
//! The circular functions are defined by a fixed polynomial, evaluated with
//! eighteen decimal places and rounded to the nearest raw value. Their
//! definitions below are the reference for every result in this crate that
//! depends on an angle.

use vstd::prelude::*;
use super::scalar::{div_floor, Scalar, HALF_PI_RAW, PI_RAW, SCALE, TAU_RAW};

verus! {

/// One, in the finer unit used inside the polynomial.
pub const FINE: i128 = 1_000_000_000_000_000_000;

/// Whether `r` is the square root of `x`, rounded down.
pub open spec fn is_int_sqrt(x: int, r: int) -> bool {
    0 <= r && r * r <= x < (r + 1) * (r + 1)
}

/// The square root of `x`, rounded down.
pub open spec fn int_sqrt(x: int) -> int {
    choose|r: int| is_int_sqrt(x, r)
}

/// A number has at most one rounded-down square root.
pub proof fn lemma_int_sqrt_unique(x: int, r: int, s: int)
    requires
        is_int_sqrt(x, r),
        is_int_sqrt(x, s),
    ensures
        r == s,
{
    if r < s {
        assert((r + 1) * (r + 1) <= s * s) by (nonlinear_arith)
            requires
                0 <= r,
                r + 1 <= s,
        ;
    } else if s < r {
        assert((s + 1) * (s + 1) <= r * r) by (nonlinear_arith)
            requires
                0 <= s,
                s + 1 <= r,
        ;
    }
}

/// The square root of `x`, rounded down.
pub fn isqrt(x: u128) -> (r: u64)
    ensures
        is_int_sqrt(x as int, r as int),
        r == int_sqrt(x as int),
{
    let mut lo: u128 = 0;
    let mut hi: u128 = 0x1_0000_0000_0000_0000;
    assert(0x1_0000_0000_0000_0000 * 0x1_0000_0000_0000_0000 > u128::MAX) by (nonlinear_arith);
    while hi - lo > 1
        invariant
            lo < hi <= 0x1_0000_0000_0000_0000,
            lo * lo <= x < hi * hi,
        decreases hi - lo,
    {
        let mid: u128 = lo + (hi - lo) / 2;
        assert(mid * mid <= 0xffff_ffff_ffff_ffff * 0xffff_ffff_ffff_ffff) by (nonlinear_arith)
            requires
                0 <= mid <= 0xffff_ffff_ffff_ffff,
        ;
        if mid * mid <= x {
            lo = mid;
        } else {
            hi = mid;
        }
    }
    proof {
        assert(hi == lo + 1);
        let w = int_sqrt(x as int);
        assert(is_int_sqrt(x as int, lo as int));
        lemma_int_sqrt_unique(x as int, lo as int, w);
    }
    lo as u64
}

/// One step of the nested evaluation: `1 - (y * k) / d`, in the fine unit.
pub open spec fn series_step(y: int, k: int, d: int) -> int {
    FINE - ((y * k) / (FINE as int)) / d
}

/// The cosine polynomial in `y`, the square of the angle, in the fine unit.
///
/// It is the Taylor series of the cosine up to the term of degree fourteen,
/// written in nested form.
pub open spec fn cos_series(y: int) -> int {
    let k7 = series_step(y, FINE as int, 182);
    let k6 = series_step(y, k7, 132);
    let k5 = series_step(y, k6, 90);
    let k4 = series_step(y, k5, 56);
    let k3 = series_step(y, k4, 30);
    let k2 = series_step(y, k3, 12);
    series_step(y, k2, 2)
}

/// A fine value rounded to the nearest raw value and held to `0..=SCALE`.
pub open spec fn round_to_unit(k: int) -> int {
    let q = (k + 500_000_000) / 1_000_000_000;
    if q < 0 {
        0
    } else if q > SCALE {
        SCALE as int
    } else {
        q
    }
}

/// Raw cosine of a raw angle between zero and a quarter turn.
pub open spec fn cos_quarter(x: int) -> int
    recommends
        0 <= x <= HALF_PI_RAW,
{
    round_to_unit(cos_series(x * x))
}

/// Raw cosine of any raw angle.
pub open spec fn cos_raw(x: int) -> int {
    let m = x % (TAU_RAW as int);
    let f = if m > PI_RAW {
        TAU_RAW - m
    } else {
        m
    };
    if f <= HALF_PI_RAW {
        cos_quarter(f)
    } else {
        -cos_quarter(PI_RAW - f)
    }
}

/// Raw sine of any raw angle: the cosine a quarter turn earlier.
pub open spec fn sin_raw(x: int) -> int {
    cos_raw(x - HALF_PI_RAW)
}

/// For an angle this small the cosine is exactly one.
pub proof fn lemma_cos_quarter_small(x: int)
    requires
        0 <= x <= 31_622,
    ensures
        cos_quarter(x) == SCALE,
{
    let y = x * x;
    assert(0 <= y <= 999_950_884) by (nonlinear_arith)
        requires
            0 <= x <= 31_622,
            y == x * x,
    ;
    let k7 = series_step(y, FINE as int, 182);
    let k6 = series_step(y, k7, 132);
    let k5 = series_step(y, k6, 90);
    let k4 = series_step(y, k5, 56);
    let k3 = series_step(y, k4, 30);
    let k2 = series_step(y, k3, 12);
    lemma_series_step_bounds(y, FINE as int, 182);
    lemma_series_step_bounds(y, k7, 132);
    lemma_series_step_bounds(y, k6, 90);
    lemma_series_step_bounds(y, k5, 56);
    lemma_series_step_bounds(y, k4, 30);
    lemma_series_step_bounds(y, k3, 12);
    lemma_series_step_bounds(y, k2, 2);
}

/// A step with a factor in `0..=FINE` takes off at most `y / d`.
pub proof fn lemma_series_step_bounds(y: int, k: int, d: int)
    requires
        0 <= y,
        0 <= k <= FINE,
        d >= 1,
    ensures
        FINE - y / d <= series_step(y, k, d) <= FINE,
        0 <= (y * k) / (FINE as int) <= y,
{
    let f = FINE as int;
    assert(0 <= y * k <= y * f) by (nonlinear_arith)
        requires
            0 <= y,
            0 <= k <= f,
    ;
    vstd::arithmetic::div_mod::lemma_div_is_ordered(0, y * k, f);
    vstd::arithmetic::div_mod::lemma_div_is_ordered(y * k, y * f, f);
    vstd::arithmetic::div_mod::lemma_div_multiples_vanish(y, f);
    let t = (y * k) / f;
    assert(0int / f == 0);
    assert(0 <= t <= y);
    vstd::arithmetic::div_mod::lemma_div_is_ordered(0, t, d);
    vstd::arithmetic::div_mod::lemma_div_is_ordered(t, y, d);
    assert(0int / d == 0);
}

/// One step of the nested evaluation.
fn series_step_exec(y: i128, k: i128, d: i128) -> (r: i128)
    requires
        0 <= y <= 2_500_000_000_000_000_000,
        0 <= k <= FINE,
        1 <= d <= 182,
    ensures
        r == series_step(y as int, k as int, d as int),
        FINE - y / d <= r <= FINE,
{
    proof {
        lemma_series_step_bounds(y as int, k as int, d as int);
        assert(0 <= y * k <= 2_500_000_000_000_000_000 * 1_000_000_000_000_000_000)
            by (nonlinear_arith)
            requires
                0 <= y <= 2_500_000_000_000_000_000,
                0 <= k <= 1_000_000_000_000_000_000,
        ;
    }
    let t: i128 = (y * k) / FINE;
    FINE - t / d
}

/// Raw cosine of a raw angle between zero and a quarter turn.
pub fn cos_quarter_exec(x: i64) -> (r: i64)
    requires
        0 <= x <= HALF_PI_RAW,
    ensures
        r == cos_quarter(x as int),
        0 <= r <= SCALE,
{
    let xx: i128 = x as i128;
    assert(0 <= xx * xx <= 2_500_000_000_000_000_000) by (nonlinear_arith)
        requires
            0 <= xx <= 1_570_796_327,
    ;
    let y: i128 = xx * xx;
    proof {
        vstd::arithmetic::div_mod::lemma_div_is_ordered(y as int, 2_500_000_000_000_000_000, 12);
        vstd::arithmetic::div_mod::lemma_div_is_ordered(y as int, 2_500_000_000_000_000_000, 30);
        vstd::arithmetic::div_mod::lemma_div_is_ordered(y as int, 2_500_000_000_000_000_000, 56);
        vstd::arithmetic::div_mod::lemma_div_is_ordered(y as int, 2_500_000_000_000_000_000, 90);
        vstd::arithmetic::div_mod::lemma_div_is_ordered(y as int, 2_500_000_000_000_000_000, 132);
        vstd::arithmetic::div_mod::lemma_div_is_ordered(y as int, 2_500_000_000_000_000_000, 182);
        vstd::arithmetic::div_mod::lemma_div_is_ordered(y as int, 2_500_000_000_000_000_000, 2);
    }
    let k7: i128 = series_step_exec(y, FINE, 182);
    let k6: i128 = series_step_exec(y, k7, 132);
    let k5: i128 = series_step_exec(y, k6, 90);
    let k4: i128 = series_step_exec(y, k5, 56);
    let k3: i128 = series_step_exec(y, k4, 30);
    let k2: i128 = series_step_exec(y, k3, 12);
    let k1: i128 = series_step_exec(y, k2, 2);
    let q: i128 = div_floor(k1 + 500_000_000, 1_000_000_000);
    if q < 0 {
        0
    } else if q > SCALE as i128 {
        SCALE
    } else {
        q as i64
    }
}

/// Raw cosine of any raw angle.
pub fn cos_raw_exec(x: i128) -> (r: i64)
    requires
        i64::MIN - HALF_PI_RAW <= x <= i64::MAX,
    ensures
        r == cos_raw(x as int),
        -SCALE <= r <= SCALE,
{
    let q: i128 = div_floor(x, TAU_RAW as i128);
    proof {
        vstd::arithmetic::div_mod::lemma_fundamental_div_mod(x as int, TAU_RAW as int);
        vstd::arithmetic::div_mod::lemma_mod_bound(x as int, TAU_RAW as int);
        assert(-0x1_0000_0000_0000_0000 <= (x as int) / (TAU_RAW as int) <= 0x1_0000_0000_0000_0000)
            by (nonlinear_arith)
            requires
                -0x1_0000_0000_0000_0000 <= x <= 0x1_0000_0000_0000_0000,
        ;
        assert(-0x1_0000_0000_0000_0000 * 6_283_185_308 <= q * 6_283_185_308
            <= 0x1_0000_0000_0000_0000 * 6_283_185_308) by (nonlinear_arith)
            requires
                -0x1_0000_0000_0000_0000 <= q <= 0x1_0000_0000_0000_0000,
        ;
    }
    let m: i128 = x - q * TAU_RAW as i128;
    assert(m == (x as int) % (TAU_RAW as int)) by (nonlinear_arith)
        requires
            m == x - q * TAU_RAW,
            q == (x as int) / (TAU_RAW as int),
            x == TAU_RAW * ((x as int) / (TAU_RAW as int)) + (x as int) % (TAU_RAW as int),
    ;
    let f: i128 = if m > PI_RAW as i128 {
        TAU_RAW as i128 - m
    } else {
        m
    };
    if f <= HALF_PI_RAW as i128 {
        cos_quarter_exec(f as i64)
    } else {
        -cos_quarter_exec((PI_RAW as i128 - f) as i64)
    }
}

impl Scalar {
    /// The cosine of the value, taken as an angle in radians.
    pub open spec fn spec_cos(self) -> Scalar {
        Scalar { raw: cos_raw(self@) as i64 }
    }

    /// The cosine of the value, taken as an angle in radians.
    #[verifier::when_used_as_spec(spec_cos)]
    pub fn cos(self) -> (r: Scalar)
        ensures
            r == self.spec_cos(),
    {
        Scalar { raw: cos_raw_exec(self.raw as i128) }
    }

    /// The sine of the value, taken as an angle in radians.
    pub open spec fn spec_sin(self) -> Scalar {
        Scalar { raw: sin_raw(self@) as i64 }
    }

    /// The sine of the value, taken as an angle in radians.
    #[verifier::when_used_as_spec(spec_sin)]
    pub fn sin(self) -> (r: Scalar)
        ensures
            r == self.spec_sin(),
    {
        Scalar { raw: cos_raw_exec(self.raw as i128 - HALF_PI_RAW as i128) }
    }
}

} // verus!
