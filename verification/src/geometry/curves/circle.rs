//! How finely a circle is cut into straight pieces.
//!
//! A circle of radius `r` that is replaced by a regular polygon of `n`
//! corners leaves the polygon by `r * (1 - cos(pi / n))` at most, in the
//! middle of an edge. The number of corners is the least one, from three up,
//! for which that deviation is within the tolerance. The corners lie at the
//! whole multiples of the increment, a full turn divided by that number, so
//! that they do not depend on where an approximation starts or ends.

use vstd::prelude::*;
use crate::geometry::boundary::CurveBoundary;
use crate::geometry::tolerance::Tolerance;
use crate::math::circle::Circle;
use crate::math::point::Point;
use crate::math::scalar::{div_ceil, div_floor, Scalar, PI_RAW, SCALE, TAU_RAW};
use crate::math::trig::{cos_quarter, cos_quarter_exec, lemma_cos_quarter_small};

verus! {

/// No circle is cut into more corners than this: from here on the deviation
/// is zero in every raw unit.
pub const MAX_VERTICES: i64 = 99_349;

/// How far a regular polygon of `n` corners, inscribed in a circle of the
/// raw radius `radius`, leaves the circle; in raw units, rounded down.
pub open spec fn chord_deviation(radius: int, n: int) -> int
    recommends
        n >= 3,
{
    (radius * (SCALE - cos_quarter(PI_RAW as int / n))) / (SCALE as int)
}

/// Whether `n` is the least number of corners, from three up, with which a
/// polygon stays within `tolerance` of a circle of radius `radius`.
pub open spec fn is_vertex_count(radius: int, tolerance: int, n: int) -> bool {
    &&& 3 <= n
    &&& chord_deviation(radius, n) <= tolerance
    &&& forall|m: int| 3 <= m < n ==> chord_deviation(radius, m) > tolerance
}

/// The number of corners for a circle of radius `radius` at `tolerance`.
pub open spec fn vertex_count(radius: int, tolerance: int) -> int {
    choose|n: int| is_vertex_count(radius, tolerance, n)
}

/// The raw angle between two neighbouring corners.
pub open spec fn increment_for(radius: int, tolerance: int) -> int {
    TAU_RAW as int / vertex_count(radius, tolerance)
}

/// There is at most one least number of corners.
pub proof fn lemma_vertex_count_unique(radius: int, tolerance: int, n: int, m: int)
    requires
        is_vertex_count(radius, tolerance, n),
        is_vertex_count(radius, tolerance, m),
    ensures
        n == m,
{
}

/// With the largest number of corners the deviation is zero.
pub proof fn lemma_deviation_vanishes(radius: int)
    ensures
        chord_deviation(radius, MAX_VERTICES as int) == 0,
{
    assert(PI_RAW as int / MAX_VERTICES as int == 31_621);
    lemma_cos_quarter_small(31_621);
    assert(radius * (SCALE - cos_quarter(31_621)) == 0) by (nonlinear_arith)
        requires
            SCALE - cos_quarter(31_621) == 0,
    ;
}

/// Every radius has a number of corners at every tolerance that is not
/// negative, and it is at most [`MAX_VERTICES`].
pub proof fn lemma_vertex_count_exists(radius: int, tolerance: int)
    requires
        tolerance >= 0,
    ensures
        is_vertex_count(radius, tolerance, vertex_count(radius, tolerance)),
        3 <= vertex_count(radius, tolerance) <= MAX_VERTICES,
{
    lemma_vertex_search(radius, tolerance, 3);
    let n = vertex_count(radius, tolerance);
    lemma_deviation_vanishes(radius);
    if n > MAX_VERTICES {
        assert(chord_deviation(radius, MAX_VERTICES as int) > tolerance);
    }
}

/// Searching upward from `n` finds the number of corners.
proof fn lemma_vertex_search(radius: int, tolerance: int, n: int)
    requires
        tolerance >= 0,
        3 <= n <= MAX_VERTICES,
        forall|m: int| 3 <= m < n ==> chord_deviation(radius, m) > tolerance,
    ensures
        is_vertex_count(radius, tolerance, vertex_count(radius, tolerance)),
    decreases MAX_VERTICES - n,
{
    if chord_deviation(radius, n) <= tolerance {
        assert(is_vertex_count(radius, tolerance, n));
    } else {
        lemma_deviation_vanishes(radius);
        lemma_vertex_search(radius, tolerance, n + 1);
    }
}

/// A smaller tolerance never asks for fewer corners.
pub proof fn lemma_vertex_count_monotonic(radius: int, finer: int, coarser: int)
    requires
        0 <= finer <= coarser,
    ensures
        vertex_count(radius, finer) >= vertex_count(radius, coarser),
{
    lemma_vertex_count_exists(radius, finer);
    lemma_vertex_count_exists(radius, coarser);
}

/// A smaller tolerance never gives a larger increment.
pub proof fn lemma_increment_monotonic(radius: int, finer: int, coarser: int)
    requires
        0 <= finer <= coarser,
    ensures
        increment_for(radius, finer) <= increment_for(radius, coarser),
{
    lemma_vertex_count_monotonic(radius, finer, coarser);
    lemma_vertex_count_exists(radius, finer);
    lemma_vertex_count_exists(radius, coarser);
    vstd::arithmetic::div_mod::lemma_div_is_ordered_by_denominator(
        TAU_RAW as int,
        vertex_count(radius, coarser),
        vertex_count(radius, finer),
    );
}

/// The index of the first corner after the parameter `low`.
pub open spec fn first_index(low: int, increment: int) -> int {
    low / increment + 1
}

/// The index of the last corner before the parameter `high`.
pub open spec fn last_index(high: int, increment: int) -> int {
    -((-high) / increment) - 1
}

/// How many corners lie strictly between the parameters `a` and `b`.
pub open spec fn polyline_len(a: int, b: int, increment: int) -> nat {
    let first = first_index(if a <= b { a } else { b }, increment);
    let last = last_index(if a <= b { b } else { a }, increment);
    if last >= first {
        (last - first + 1) as nat
    } else {
        0
    }
}

/// The raw parameter of the `k`-th corner on the way from `a` to `b`.
pub open spec fn polyline_param(a: int, b: int, increment: int, k: int) -> int {
    if a <= b {
        (first_index(a, increment) + k) * increment
    } else {
        (last_index(a, increment) - k) * increment
    }
}

/// The raw parameters of the corners strictly between `a` and `b`, in the
/// order in which the way from `a` to `b` passes them.
pub open spec fn polyline_params(a: int, b: int, increment: int) -> Seq<int> {
    Seq::new(polyline_len(a, b, increment), |k: int| polyline_param(a, b, increment, k))
}

/// The corners strictly between `a` and `b` as points on the curve.
pub open spec fn polyline_points(a: int, b: int, increment: int) -> Seq<Point<1>> {
    Seq::new(
        polyline_len(a, b, increment),
        |k: int| Point::<1>::from_t(Scalar { raw: polyline_param(a, b, increment, k) as i64 }),
    )
}

/// The corner with an index from `first_index(low)` on lies after `low`, the
/// one with an index up to `last_index(high)` before `high`.
pub proof fn lemma_index_inside(low: int, high: int, increment: int, i: int)
    requires
        increment > 0,
    ensures
        i >= first_index(low, increment) ==> i * increment > low,
        i <= last_index(high, increment) ==> i * increment < high,
        i * increment > low ==> i >= first_index(low, increment),
        i * increment < high ==> i <= last_index(high, increment),
{
    vstd::arithmetic::div_mod::lemma_fundamental_div_mod(low, increment);
    vstd::arithmetic::div_mod::lemma_mod_bound(low, increment);
    vstd::arithmetic::div_mod::lemma_fundamental_div_mod(-high, increment);
    vstd::arithmetic::div_mod::lemma_mod_bound(-high, increment);
    let ql = low / increment;
    let qh = (-high) / increment;
    if i >= ql + 1 {
        assert(i * increment >= (ql + 1) * increment) by (nonlinear_arith)
            requires
                i >= ql + 1,
                increment > 0,
        ;
        assert((ql + 1) * increment == increment * ql + increment) by (nonlinear_arith);
    } else {
        assert(i * increment <= ql * increment) by (nonlinear_arith)
            requires
                i <= ql,
                increment > 0,
        ;
        assert(ql * increment == increment * ql) by (nonlinear_arith);
    }
    if i <= -qh - 1 {
        assert(i * increment <= (-qh - 1) * increment) by (nonlinear_arith)
            requires
                i <= -qh - 1,
                increment > 0,
        ;
        assert((-qh - 1) * increment == -(increment * qh) - increment) by (nonlinear_arith);
    } else {
        assert(i * increment >= (-qh) * increment) by (nonlinear_arith)
            requires
                i >= -qh,
                increment > 0,
        ;
        assert((-qh) * increment == -(increment * qh)) by (nonlinear_arith);
    }
}

/// Every corner that is returned lies strictly between the two ends of the
/// boundary.
pub proof fn lemma_polyline_inside(a: int, b: int, increment: int, k: int)
    requires
        increment > 0,
        0 <= k < polyline_len(a, b, increment),
    ensures
        a <= b ==> a < polyline_param(a, b, increment, k) < b,
        a > b ==> b < polyline_param(a, b, increment, k) < a,
{
    if a <= b {
        lemma_index_inside(a, b, increment, first_index(a, increment) + k);
    } else {
        lemma_index_inside(b, a, increment, last_index(a, increment) - k);
    }
}

/// Every corner strictly between the two ends of the boundary is returned.
pub proof fn lemma_polyline_complete(a: int, b: int, increment: int, i: int)
    requires
        increment > 0,
        a < i * increment < b || b < i * increment < a,
    ensures
        polyline_params(a, b, increment).contains(i * increment),
{
    let s = polyline_params(a, b, increment);
    if a <= b {
        lemma_index_inside(a, b, increment, i);
        let k = i - first_index(a, increment);
        assert(s[k] == i * increment);
    } else {
        lemma_index_inside(b, a, increment, i);
        let k = last_index(a, increment) - i;
        assert(s[k] == i * increment);
    }
}

/// Travelling the boundary the other way gives the same corners in the
/// opposite order.
pub proof fn lemma_polyline_reverse(a: int, b: int, increment: int)
    requires
        increment > 0,
    ensures
        polyline_params(b, a, increment) == polyline_params(a, b, increment).reverse(),
        polyline_points(b, a, increment) == polyline_points(a, b, increment).reverse(),
{
    let n = polyline_len(a, b, increment);
    assert(polyline_len(b, a, increment) == n);
    if a == b {
        lemma_polyline_empty(a, increment);
    } else {
        assert forall|k: int| 0 <= k < n implies polyline_param(b, a, increment, k)
            == polyline_param(a, b, increment, n - 1 - k) by {
            let first = first_index(if a <= b { a } else { b }, increment);
            let last = last_index(if a <= b { b } else { a }, increment);
            assert(last - first + 1 == n);
            if a < b {
                assert(last - k == first + (n - 1 - k));
            } else {
                assert(first + k == last - (n - 1 - k));
            }
        }
    }
    assert(polyline_params(b, a, increment) =~= polyline_params(a, b, increment).reverse());
    assert(polyline_points(b, a, increment) =~= polyline_points(a, b, increment).reverse());
}

/// A boundary whose two ends are the same has no corners inside.
pub proof fn lemma_polyline_empty(a: int, increment: int)
    requires
        increment > 0,
    ensures
        polyline_len(a, a, increment) == 0,
        polyline_params(a, a, increment) == Seq::<int>::empty(),
        polyline_points(a, a, increment) == Seq::<Point<1>>::empty(),
{
    let first = first_index(a, increment);
    let last = last_index(a, increment);
    if last >= first {
        lemma_index_inside(a, a, increment, first);
    }
    assert(polyline_params(a, a, increment) =~= Seq::<int>::empty());
    assert(polyline_points(a, a, increment) =~= Seq::<Point<1>>::empty());
}

/// The parameter of the last corner at or before the parameter `t`.
pub open spec fn bracket_low(t: int, increment: int) -> int {
    (t / increment) * increment
}

/// The parameter of the first corner at or after the parameter `t`.
pub open spec fn bracket_high(t: int, increment: int) -> int {
    (-((-t) / increment)) * increment
}

/// All parameters strictly between two neighbouring corners have those two
/// corners as their bracket.
pub proof fn lemma_bracket_between(t: int, increment: int, i: int)
    requires
        increment > 0,
        i * increment < t < (i + 1) * increment,
    ensures
        bracket_low(t, increment) == i * increment,
        bracket_high(t, increment) == (i + 1) * increment,
{
    lemma_index_inside(t, t, increment, i);
    lemma_index_inside(t, t, increment, i + 1);
    lemma_index_inside(t, t, increment, t / increment);
    lemma_index_inside(t, t, increment, t / increment + 1);
    lemma_index_inside(t, t, increment, -((-t) / increment));
    lemma_index_inside(t, t, increment, -((-t) / increment) - 1);
}

/// Two parameters strictly between the same two neighbouring corners have
/// the same bracket.
pub proof fn lemma_bracket_deterministic(s: int, t: int, increment: int, i: int)
    requires
        increment > 0,
        i * increment < s < (i + 1) * increment,
        i * increment < t < (i + 1) * increment,
    ensures
        bracket_low(s, increment) == bracket_low(t, increment),
        bracket_high(s, increment) == bracket_high(t, increment),
{
    lemma_bracket_between(s, increment, i);
    lemma_bracket_between(t, increment, i);
}

/// The deviation of a polygon of `n` corners from a circle of radius
/// `radius`.
fn chord_deviation_exec(radius: i64, n: i64) -> (r: i64)
    requires
        3 <= n <= MAX_VERTICES,
    ensures
        r == chord_deviation(radius as int, n as int),
{
    proof {
        vstd::arithmetic::div_mod::lemma_div_is_ordered_by_denominator(PI_RAW as int, 3, n as int);
        vstd::arithmetic::div_mod::lemma_div_pos_is_pos(PI_RAW as int, n as int);
        assert(PI_RAW as int / 3 == 1_047_197_551);
    }
    let x: i64 = PI_RAW / n;
    let c: i64 = cos_quarter_exec(x);
    let gap: i128 = (SCALE - c) as i128;
    assert(-0x8000_0000_0000_0000 * 1_000_000_000 <= radius * gap <= 0x8000_0000_0000_0000
        * 1_000_000_000) by (nonlinear_arith)
        requires
            -0x8000_0000_0000_0000 <= radius <= 0x8000_0000_0000_0000,
            0 <= gap <= 1_000_000_000,
    ;
    let d: i128 = div_floor(radius as i128 * gap, SCALE as i128);
    assert(-0x8000_0000_0000_0000 <= d <= 0x8000_0000_0000_0000 - 1) by (nonlinear_arith)
        requires
            d == (radius * gap) / 1_000_000_000,
            -0x8000_0000_0000_0000 <= radius <= 0x8000_0000_0000_0000 - 1,
            0 <= gap <= 1_000_000_000,
    ;
    d as i64
}

/// The spacing of the corners on one circle at one tolerance.
#[derive(Clone, Copy, Debug, PartialEq, Eq)]
pub struct CircleApproxParams {
    increment: Scalar,
}

impl CircleApproxParams {
    #[verifier::type_invariant]
    spec fn positive(self) -> bool {
        self.increment@ > 0
    }

    /// The angle between two neighbouring corners.
    pub closed spec fn spec_increment(&self) -> Scalar {
        self.increment
    }

    /// The number of corners into which a circle of radius `radius` is cut
    /// at `tolerance`: the least one, from three up, that keeps the polygon
    /// within the tolerance.
    pub fn num_vertices(radius: Scalar, tolerance: Tolerance) -> (n: i64)
        ensures
            is_vertex_count(radius@, tolerance.inner()@, n as int),
            n == vertex_count(radius@, tolerance.inner()@),
            3 <= n <= MAX_VERTICES,
    {
        let t: i64 = tolerance.inner().raw;
        let mut n: i64 = 3;
        while n < MAX_VERTICES && chord_deviation_exec(radius.raw, n) > t
            invariant
                3 <= n <= MAX_VERTICES,
                forall|m: int| 3 <= m < n ==> chord_deviation(radius@, m) > t,
            decreases MAX_VERTICES - n,
        {
            n += 1;
        }
        proof {
            lemma_deviation_vanishes(radius@);
            assert(is_vertex_count(radius@, t as int, n as int));
            lemma_vertex_count_exists(radius@, t as int);
            lemma_vertex_count_unique(radius@, t as int, n as int, vertex_count(radius@, t as int));
        }
        n
    }

    /// The spacing for `circle` at `tolerance`: a full turn divided by the
    /// number of corners.
    pub fn new<const D: usize>(circle: &Circle<D>, tolerance: Tolerance) -> (r: Self)
        ensures
            r.increment()@ == increment_for(circle.radius()@, tolerance.inner()@),
            r.increment()@ > 0,
    {
        let n: i64 = Self::num_vertices(circle.radius(), tolerance);
        proof {
            vstd::arithmetic::div_mod::lemma_div_is_ordered_by_denominator(
                TAU_RAW as int,
                n as int,
                MAX_VERTICES as int,
            );
            assert(TAU_RAW as int / MAX_VERTICES as int == 63_243);
        }
        CircleApproxParams { increment: Scalar { raw: TAU_RAW / n } }
    }

    /// The angle between two neighbouring corners; always greater than zero.
    #[verifier::when_used_as_spec(spec_increment)]
    pub fn increment(&self) -> (r: Scalar)
        ensures
            r == self.spec_increment(),
            r@ > 0,
    {
        proof {
            use_type_invariant(self);
        }
        self.increment
    }

    /// The corners strictly inside `boundary`, in the order in which the way
    /// from its first end to its second passes them. The two ends are never
    /// among them.
    pub fn approx_circle(&self, boundary: CurveBoundary) -> (r: Vec<Point<1>>)
        ensures
            r@ == polyline_points(boundary.start()@, boundary.end()@, self.increment()@),
            forall|k: int| 0 <= k < r.len() ==> boundary.low() < (#[trigger] r[k]).t()@ < boundary.high(),
    {
        let inc: i128 = self.increment().raw as i128;
        let a: i128 = boundary.start().raw as i128;
        let b: i128 = boundary.end().raw as i128;
        let forward = a <= b;
        let first: i128 = div_floor(if forward { a } else { b }, inc) + 1;
        let last: i128 = div_ceil(if forward { b } else { a }, inc) - 1;
        let ghost want = polyline_points(a as int, b as int, inc as int);
        let mut out: Vec<Point<1>> = Vec::new();
        let count: i128 = if last >= first {
            last - first + 1
        } else {
            0
        };
        let mut k: i128 = 0;
        while k < count
            invariant
                inc > 0,
                inc == self.increment()@,
                a == boundary.start()@,
                b == boundary.end()@,
                forward == (a <= b),
                first == first_index(if forward { a as int } else { b as int }, inc as int),
                last == last_index(if forward { b as int } else { a as int }, inc as int),
                want == polyline_points(a as int, b as int, inc as int),
                count == want.len(),
                0 <= k <= count,
                -0x1_0000_0000_0000_0000 <= first <= 0x1_0000_0000_0000_0000,
                -0x1_0000_0000_0000_0000 <= last <= 0x1_0000_0000_0000_0000,
                out@ == want.take(k as int),
            decreases count - k,
        {
            let i: i128 = if forward {
                first + k
            } else {
                last - k
            };
            proof {
                lemma_polyline_inside(a as int, b as int, inc as int, k as int);
            }
            out.push(Point::from_t(Scalar { raw: (i * inc) as i64 }));
            proof {
                assert(want.take(k + 1) =~= want.take(k as int).push(want[k as int]));
            }
            k += 1;
        }
        proof {
            assert(want.take(k as int) =~= want);
            assert forall|j: int| 0 <= j < out.len() implies boundary.low() < (#[trigger] out[j]).t()@
                < boundary.high() by {
                lemma_polyline_inside(a as int, b as int, inc as int, j);
            }
        }
        out
    }
}

} // verus!
