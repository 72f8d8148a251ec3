//! Fixed-point scalars with nine decimal places.

use vstd::prelude::*;

verus! {

/// Number of raw units that make up the value one.
pub const SCALE: i64 = 1_000_000_000;

/// Raw value of the constant pi.
pub const PI_RAW: i64 = 3_141_592_654;

/// Raw value of a full turn; exactly twice [`PI_RAW`].
pub const TAU_RAW: i64 = 6_283_185_308;

/// Raw value of a quarter turn; exactly half of [`PI_RAW`].
pub const HALF_PI_RAW: i64 = 1_570_796_327;

/// The nearest representable raw value: `x` itself where it fits, else the
/// bound it exceeds.
pub open spec fn clamp(x: int) -> int {
    if x < i64::MIN {
        i64::MIN as int
    } else if x > i64::MAX {
        i64::MAX as int
    } else {
        x
    }
}

/// Quotient of `x` by a positive `d`, rounded toward zero.
pub open spec fn trunc_div(x: int, d: int) -> int
    recommends
        d > 0,
{
    if x >= 0 {
        x / d
    } else {
        -((-x) / d)
    }
}

/// The sign of a number.
#[derive(Clone, Copy, Debug, PartialEq, Eq, Hash, Structural)]
pub enum Sign {
    /// Less than zero
    Negative,
    /// Exactly zero
    Zero,
    /// Greater than zero
    Positive,
}

/// A fixed-point number: `raw` counts units of `1 / SCALE`.
///
/// Arithmetic saturates at the bounds of the raw value and never fails.
#[derive(Clone, Copy, Debug, PartialEq, Eq, Hash, PartialOrd, Ord, Structural)]
pub struct Scalar {
    /// The value in units of `1 / SCALE`
    pub raw: i64,
}

impl View for Scalar {
    type V = int;

    open spec fn view(&self) -> int {
        self.raw as int
    }
}

/// The scalar whose raw value is `clamp(x)`.
pub open spec fn scalar_of(x: int) -> Scalar {
    Scalar { raw: clamp(x) as i64 }
}

/// Quotient of `x` by a positive `d`, rounded toward zero.
pub fn div_toward_zero(x: i128, d: i128) -> (q: i128)
    requires
        d > 0,
        x > i128::MIN,
    ensures
        q == trunc_div(x as int, d as int),
{
    if x >= 0 {
        x / d
    } else {
        let y: i128 = -x;
        assert(0 <= (y as int) / (d as int) <= y) by (nonlinear_arith)
            requires
                d > 0,
                y >= 0,
        ;
        -(y / d)
    }
}

/// Quotient of `x` by a positive `d`, rounded down.
pub fn div_floor(x: i128, d: i128) -> (q: i128)
    requires
        d > 0,
        x > i128::MIN,
    ensures
        q == (x as int) / (d as int),
        x >= 0 ==> 0 <= q <= x,
        x < 0 ==> x <= q < 0,
{
    if x >= 0 {
        assert(0 <= (x as int) / (d as int) <= x) by (nonlinear_arith)
            requires
                d > 0,
                x >= 0,
        ;
        x / d
    } else {
        let y: i128 = -x;
        let q: i128 = y / d;
        let m: i128 = y % d;
        proof {
            vstd::arithmetic::div_mod::lemma_fundamental_div_mod(y as int, d as int);
            assert(0 <= (y as int) / (d as int) <= y) by (nonlinear_arith)
                requires
                    d > 0,
                    y >= 0,
            ;
            vstd::arithmetic::div_mod::lemma_mod_bound(y as int, d as int);
            assert(q >= 0 && (m == 0 ==> q >= 1) && (m != 0 ==> q + 1 <= y)) by (nonlinear_arith)
                requires
                    y == d * q + m,
                    0 <= m < d,
                    y > 0,
                    d > 0,
                    q == (y as int) / (d as int),
                    0 <= (y as int) / (d as int),
            ;
            if m == 0 {
                assert(x == d * (-q) + 0) by (nonlinear_arith)
                    requires
                        y == d * q + m,
                        m == 0,
                        x == -y,
                ;
                vstd::arithmetic::div_mod::lemma_fundamental_div_mod_converse(
                    x as int,
                    d as int,
                    -q as int,
                    0,
                );
            } else {
                assert(x == d * (-q - 1) + (d - m)) by (nonlinear_arith)
                    requires
                        y == d * q + m,
                        x == -y,
                ;
                vstd::arithmetic::div_mod::lemma_fundamental_div_mod_converse(
                    x as int,
                    d as int,
                    (-q - 1) as int,
                    (d - m) as int,
                );
            }
        }
        if m == 0 {
            -q
        } else {
            -q - 1
        }
    }
}

/// Quotient of `x` by a positive `d`, rounded up.
pub fn div_ceil(x: i128, d: i128) -> (q: i128)
    requires
        d > 0,
        x > i128::MIN,
    ensures
        q == -((-(x as int)) / (d as int)),
        x > 0 ==> 0 < q <= x,
        x <= 0 ==> x <= q <= 0,
{
    let f: i128 = div_floor(-x, d);
    -f
}

impl Scalar {
    /// The scalar with the given raw value.
    pub fn from_raw(raw: i64) -> (r: Scalar)
        ensures
            r.raw == raw,
    {
        Scalar { raw }
    }

    /// The scalar nearest to a wide raw value.
    pub fn saturate(x: i128) -> (r: Scalar)
        ensures
            r == scalar_of(x as int),
    {
        if x < i64::MIN as i128 {
            Scalar { raw: i64::MIN }
        } else if x > i64::MAX as i128 {
            Scalar { raw: i64::MAX }
        } else {
            Scalar { raw: x as i64 }
        }
    }

    /// The scalar with the whole-number value `n`.
    pub open spec fn spec_from_int(n: i64) -> Scalar {
        scalar_of(n * SCALE)
    }

    /// The scalar with the whole-number value `n`.
    #[verifier::when_used_as_spec(spec_from_int)]
    pub fn from_int(n: i64) -> (r: Scalar)
        ensures
            r == Self::spec_from_int(n),
    {
        assert(-0x8000_0000_0000_0000 * 1_000_000_000 <= n * 1_000_000_000
            <= 0x8000_0000_0000_0000 * 1_000_000_000) by (nonlinear_arith)
            requires
                -0x8000_0000_0000_0000 <= n <= 0x8000_0000_0000_0000,
        ;
        Self::saturate(n as i128 * SCALE as i128)
    }

    /// The value zero.
    pub open spec fn spec_zero() -> Scalar {
        Scalar { raw: 0 }
    }

    /// The value zero.
    #[verifier::when_used_as_spec(spec_zero)]
    pub fn zero() -> (r: Scalar)
        ensures
            r == Self::spec_zero(),
    {
        Scalar { raw: 0 }
    }

    /// The value one.
    pub open spec fn spec_one() -> Scalar {
        Scalar { raw: SCALE }
    }

    /// The value one.
    #[verifier::when_used_as_spec(spec_one)]
    pub fn one() -> (r: Scalar)
        ensures
            r == Self::spec_one(),
    {
        Scalar { raw: SCALE }
    }

    /// Half a turn, in radians.
    pub open spec fn spec_pi() -> Scalar {
        Scalar { raw: PI_RAW }
    }

    /// Half a turn, in radians.
    #[verifier::when_used_as_spec(spec_pi)]
    pub fn pi() -> (r: Scalar)
        ensures
            r == Self::spec_pi(),
    {
        Scalar { raw: PI_RAW }
    }

    /// A full turn, in radians.
    pub open spec fn spec_tau() -> Scalar {
        Scalar { raw: TAU_RAW }
    }

    /// A full turn, in radians.
    #[verifier::when_used_as_spec(spec_tau)]
    pub fn tau() -> (r: Scalar)
        ensures
            r == Self::spec_tau(),
    {
        Scalar { raw: TAU_RAW }
    }

    /// Saturating sum.
    pub open spec fn spec_add(self, other: Scalar) -> Scalar {
        scalar_of(self@ + other@)
    }

    /// Saturating sum.
    #[verifier::when_used_as_spec(spec_add)]
    pub fn add(self, other: Scalar) -> (r: Scalar)
        ensures
            r == self.spec_add(other),
    {
        Self::saturate(self.raw as i128 + other.raw as i128)
    }

    /// Saturating difference.
    pub open spec fn spec_sub(self, other: Scalar) -> Scalar {
        scalar_of(self@ - other@)
    }

    /// Saturating difference.
    #[verifier::when_used_as_spec(spec_sub)]
    pub fn sub(self, other: Scalar) -> (r: Scalar)
        ensures
            r == self.spec_sub(other),
    {
        Self::saturate(self.raw as i128 - other.raw as i128)
    }

    /// Saturating negation.
    pub open spec fn spec_neg(self) -> Scalar {
        scalar_of(-self@)
    }

    /// Saturating negation.
    #[verifier::when_used_as_spec(spec_neg)]
    pub fn neg(self) -> (r: Scalar)
        ensures
            r == self.spec_neg(),
    {
        Self::saturate(-(self.raw as i128))
    }

    /// Saturating absolute value.
    pub open spec fn spec_abs(self) -> Scalar {
        if self@ < 0 {
            self.spec_neg()
        } else {
            self
        }
    }

    /// Saturating absolute value.
    #[verifier::when_used_as_spec(spec_abs)]
    pub fn abs(self) -> (r: Scalar)
        ensures
            r == self.spec_abs(),
    {
        if self.raw < 0 {
            self.neg()
        } else {
            self
        }
    }

    /// Saturating product, rounded toward zero.
    pub open spec fn spec_mul(self, other: Scalar) -> Scalar {
        scalar_of(trunc_div(self@ * other@, SCALE as int))
    }

    /// Saturating product, rounded toward zero.
    #[verifier::when_used_as_spec(spec_mul)]
    pub fn mul(self, other: Scalar) -> (r: Scalar)
        ensures
            r == self.spec_mul(other),
    {
        let a: i128 = self.raw as i128;
        let b: i128 = other.raw as i128;
        assert(-0x4000_0000_0000_0000_0000_0000_0000_0000 <= a * b
            <= 0x4000_0000_0000_0000_0000_0000_0000_0000) by (nonlinear_arith)
            requires
                -0x8000_0000_0000_0000 <= a <= 0x8000_0000_0000_0000,
                -0x8000_0000_0000_0000 <= b <= 0x8000_0000_0000_0000,
        ;
        Self::saturate(div_toward_zero(a * b, SCALE as i128))
    }

    /// Saturating quotient, rounded toward zero; `None` for a zero divisor.
    pub open spec fn spec_checked_div(self, other: Scalar) -> Option<Scalar> {
        if other@ == 0 {
            None
        } else if other@ > 0 {
            Some(scalar_of(trunc_div(self@ * SCALE, other@)))
        } else {
            Some(scalar_of(trunc_div(-(self@ * SCALE), -other@)))
        }
    }

    /// Saturating quotient, rounded toward zero; `None` for a zero divisor.
    #[verifier::when_used_as_spec(spec_checked_div)]
    pub fn checked_div(self, other: Scalar) -> (r: Option<Scalar>)
        ensures
            r == self.spec_checked_div(other),
    {
        let a: i128 = self.raw as i128;
        let b: i128 = other.raw as i128;
        assert(-0x8000_0000_0000_0000 * 1_000_000_000 <= a * 1_000_000_000
            <= 0x8000_0000_0000_0000 * 1_000_000_000) by (nonlinear_arith)
            requires
                -0x8000_0000_0000_0000 <= a <= 0x8000_0000_0000_0000,
        ;
        if b == 0 {
            None
        } else if b > 0 {
            Some(Self::saturate(div_toward_zero(a * SCALE as i128, b)))
        } else {
            Some(Self::saturate(div_toward_zero(-(a * SCALE as i128), -b)))
        }
    }

    /// Half of the value, rounded toward zero.
    pub open spec fn spec_half(self) -> Scalar {
        scalar_of(trunc_div(self@, 2))
    }

    /// Half of the value, rounded toward zero.
    #[verifier::when_used_as_spec(spec_half)]
    pub fn half(self) -> (r: Scalar)
        ensures
            r == self.spec_half(),
    {
        Self::saturate(div_toward_zero(self.raw as i128, 2))
    }

    /// The sign of the value.
    pub open spec fn spec_sign(self) -> Sign {
        if self@ < 0 {
            Sign::Negative
        } else if self@ == 0 {
            Sign::Zero
        } else {
            Sign::Positive
        }
    }

    /// The sign of the value.
    #[verifier::when_used_as_spec(spec_sign)]
    pub fn sign(self) -> (r: Sign)
        ensures
            r == self.spec_sign(),
    {
        if self.raw < 0 {
            Sign::Negative
        } else if self.raw == 0 {
            Sign::Zero
        } else {
            Sign::Positive
        }
    }

    /// Whether the value is less than `other`.
    pub open spec fn spec_lt(self, other: Scalar) -> bool {
        self@ < other@
    }

    /// Whether the value is less than `other`.
    #[verifier::when_used_as_spec(spec_lt)]
    pub fn lt(self, other: Scalar) -> (r: bool)
        ensures
            r == self.spec_lt(other),
    {
        self.raw < other.raw
    }

    /// Whether the value is at most `other`.
    pub open spec fn spec_le(self, other: Scalar) -> bool {
        self@ <= other@
    }

    /// Whether the value is at most `other`.
    #[verifier::when_used_as_spec(spec_le)]
    pub fn le(self, other: Scalar) -> (r: bool)
        ensures
            r == self.spec_le(other),
    {
        self.raw <= other.raw
    }

    /// Whether the value is greater than zero.
    pub open spec fn spec_is_positive(self) -> bool {
        self@ > 0
    }

    /// Whether the value is greater than zero.
    #[verifier::when_used_as_spec(spec_is_positive)]
    pub fn is_positive(self) -> (r: bool)
        ensures
            r == self.spec_is_positive(),
    {
        self.raw > 0
    }

    /// The larger of two values.
    pub open spec fn spec_max(self, other: Scalar) -> Scalar {
        if self@ >= other@ {
            self
        } else {
            other
        }
    }

    /// The larger of two values.
    #[verifier::when_used_as_spec(spec_max)]
    pub fn max(self, other: Scalar) -> (r: Scalar)
        ensures
            r == self.spec_max(other),
    {
        if self.raw >= other.raw {
            self
        } else {
            other
        }
    }

    /// The smaller of two values.
    pub open spec fn spec_min(self, other: Scalar) -> Scalar {
        if self@ <= other@ {
            self
        } else {
            other
        }
    }

    /// The smaller of two values.
    #[verifier::when_used_as_spec(spec_min)]
    pub fn min(self, other: Scalar) -> (r: Scalar)
        ensures
            r == self.spec_min(other),
    {
        if self.raw <= other.raw {
            self
        } else {
            other
        }
    }
}

} // verus!
