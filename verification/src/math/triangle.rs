//! Triangles and boxes.

use vstd::prelude::*;
use super::point::{Point, Vector};
use super::scalar::{div_toward_zero, scalar_of, trunc_div, Scalar};

verus! {

/// The largest raw value that the three weights of a point in a triangle
/// may add up to.
pub const MAX_WEIGHT_SUM: i64 = 0x4000_0000_0000_0000;

/// Whether `weights` are the weights of a point in a triangle: three
/// numbers, none below zero, that add up to more than zero and to at most
/// [`MAX_WEIGHT_SUM`]. Only their proportions count.
pub open spec fn weights_valid(weights: Seq<Scalar>) -> bool {
    &&& weights.len() == 3
    &&& weights[0]@ >= 0
    &&& weights[1]@ >= 0
    &&& weights[2]@ >= 0
    &&& 0 < weights[0]@ + weights[1]@ + weights[2]@ <= MAX_WEIGHT_SUM
}

/// The mean of `a`, `b` and `c`, weighted with `weights` and rounded toward
/// zero.
pub open spec fn weighted_mean(a: Scalar, b: Scalar, c: Scalar, weights: Seq<Scalar>) -> Scalar {
    scalar_of(
        trunc_div(
            weights[0]@ * a@ + weights[1]@ * b@ + weights[2]@ * c@,
            weights[0]@ + weights[1]@ + weights[2]@,
        ),
    )
}

/// The point that weighs the corners `a`, `b` and `c` with `weights`: in
/// every coordinate the weighted mean of the three corners.
pub open spec fn barycentric_point(
    a: Seq<Scalar>,
    b: Seq<Scalar>,
    c: Seq<Scalar>,
    weights: Seq<Scalar>,
) -> Seq<Scalar> {
    Seq::new(a.len(), |i: int| weighted_mean(a[i], b[i], c[i], weights))
}

/// The weighted mean of three equal values is that value.
pub proof fn lemma_mean_of_equal(a: Scalar, weights: Seq<Scalar>)
    requires
        weights_valid(weights),
    ensures
        weighted_mean(a, a, a, weights) == a,
{
    let w = weights[0]@ + weights[1]@ + weights[2]@;
    let x = a@;
    assert(weights[0]@ * x + weights[1]@ * x + weights[2]@ * x == w * x) by (nonlinear_arith)
        requires
            w == weights[0]@ + weights[1]@ + weights[2]@,
    ;
    if x >= 0 {
        assert(w * x >= 0) by (nonlinear_arith)
            requires
                w > 0,
                x >= 0,
        ;
        vstd::arithmetic::div_mod::lemma_div_multiples_vanish(x, w);
        assert(w * x == x * w) by (nonlinear_arith);
    } else {
        assert(w * x < 0) by (nonlinear_arith)
            requires
                w > 0,
                x < 0,
        ;
        vstd::arithmetic::div_mod::lemma_div_multiples_vanish(-x, w);
        assert(-(w * x) == (-x) * w) by (nonlinear_arith);
    }
}

/// The mean of `a`, `b` and `c`, weighted with `weights`.
fn weighted_mean_exec(a: Scalar, b: Scalar, c: Scalar, weights: &[Scalar; 3]) -> (r: Scalar)
    requires
        weights_valid(weights@),
    ensures
        r == weighted_mean(a, b, c, weights@),
{
    let wa: i128 = weights[0].raw as i128;
    let wb: i128 = weights[1].raw as i128;
    let wc: i128 = weights[2].raw as i128;
    let x: i128 = a.raw as i128;
    let y: i128 = b.raw as i128;
    let z: i128 = c.raw as i128;
    assert(-0x4000_0000_0000_0000 * 0x8000_0000_0000_0000 <= wa * x <= 0x4000_0000_0000_0000
        * 0x8000_0000_0000_0000) by (nonlinear_arith)
        requires
            0 <= wa <= 0x4000_0000_0000_0000,
            -0x8000_0000_0000_0000 <= x <= 0x8000_0000_0000_0000,
    ;
    assert(-0x4000_0000_0000_0000 * 0x8000_0000_0000_0000 <= wb * y <= 0x4000_0000_0000_0000
        * 0x8000_0000_0000_0000) by (nonlinear_arith)
        requires
            0 <= wb <= 0x4000_0000_0000_0000,
            -0x8000_0000_0000_0000 <= y <= 0x8000_0000_0000_0000,
    ;
    assert(-0x4000_0000_0000_0000 * 0x8000_0000_0000_0000 <= wc * z <= 0x4000_0000_0000_0000
        * 0x8000_0000_0000_0000) by (nonlinear_arith)
        requires
            0 <= wc <= 0x4000_0000_0000_0000,
            -0x8000_0000_0000_0000 <= z <= 0x8000_0000_0000_0000,
    ;
    // With weights that add up to at most the bound, the three products add
    // up to at most the bound times the largest coordinate.
    assert(-0x4000_0000_0000_0000 * 0x8000_0000_0000_0000 <= wa * x + wb * y + wc * z
        <= 0x4000_0000_0000_0000 * 0x8000_0000_0000_0000) by (nonlinear_arith)
        requires
            0 <= wa,
            0 <= wb,
            0 <= wc,
            wa + wb + wc <= 0x4000_0000_0000_0000,
            -0x8000_0000_0000_0000 <= x <= 0x8000_0000_0000_0000,
            -0x8000_0000_0000_0000 <= y <= 0x8000_0000_0000_0000,
            -0x8000_0000_0000_0000 <= z <= 0x8000_0000_0000_0000,
    ;
    let first: i128 = wa * x;
    let both: i128 = first + wb * y;
    Scalar::saturate(div_toward_zero(both + wc * z, wa + wb + wc))
}

/// A triangle, given by its three corners.
#[derive(Clone, Copy, Debug, PartialEq, Eq, Hash, PartialOrd, Ord)]
pub struct Triangle<const D: usize> {
    /// The corners
    pub points: [Point<D>; 3],
}

impl<const D: usize> Triangle<D> {
    /// The triangle with the corners `a`, `b` and `c`.
    pub fn from_points(a: Point<D>, b: Point<D>, c: Point<D>) -> (r: Self)
        ensures
            r.points@ == seq![a, b, c],
    {
        let r = Triangle { points: [a, b, c] };
        assert(r.points@ =~= seq![a, b, c]);
        r
    }

    /// The point of the triangle's plane that weighs the three corners with
    /// the three `weights`: in every coordinate the weighted mean of the
    /// corners.
    pub fn point_from_barycentric_coords(&self, weights: [Scalar; 3]) -> (r: Point<D>)
        requires
            weights_valid(weights@),
        ensures
            r@ == barycentric_point(
                self.points[0]@,
                self.points[1]@,
                self.points[2]@,
                weights@,
            ),
    {
        let a = &self.points[0].coords;
        let b = &self.points[1].coords;
        let c = &self.points[2].coords;
        let mut out = self.points[0].coords;
        let mut i: usize = 0;
        while i < D
            invariant
                i <= D,
                weights_valid(weights@),
                forall|j: int| 0 <= j < i ==> out[j] == weighted_mean(a[j], b[j], c[j], weights@),
            decreases D - i,
        {
            out[i] = weighted_mean_exec(a[i], b[i], c[i], &weights);
            i += 1;
        }
        assert(out@ =~= barycentric_point(a@, b@, c@, weights@));
        Point { coords: out }
    }
}

/// A box with sides along the axes, given by two opposite corners.
#[derive(Clone, Copy, Debug, PartialEq, Eq, Hash, PartialOrd, Ord)]
pub struct Aabb<const D: usize> {
    /// The corner with the smallest coordinates
    pub min: Point<D>,
    /// The corner with the largest coordinates
    pub max: Point<D>,
}

/// The smaller of the two values in every coordinate.
pub open spec fn coords_min(a: Seq<Scalar>, b: Seq<Scalar>) -> Seq<Scalar> {
    Seq::new(a.len(), |i: int| a[i].min(b[i]))
}

/// The larger of the two values in every coordinate.
pub open spec fn coords_max(a: Seq<Scalar>, b: Seq<Scalar>) -> Seq<Scalar> {
    Seq::new(a.len(), |i: int| a[i].max(b[i]))
}

/// The sense in which a cycle goes round.
#[derive(Clone, Copy, Debug, PartialEq, Eq, Hash, Structural)]
pub enum Winding {
    /// Counter-clockwise
    Ccw,
    /// Clockwise
    Cw,
}

/// The cross product of two vectors of the plane.
pub open spec fn cross2d(a: Seq<Scalar>, b: Seq<Scalar>) -> Scalar {
    a[0].mul(b[1]).sub(a[1].mul(b[0]))
}

impl Vector<2> {
    /// The cross product with `other`: above zero where `other` points to
    /// the left of this vector.
    pub fn cross2d(&self, other: &Vector<2>) -> (r: Scalar)
        ensures
            r == cross2d(self@, other@),
    {
        self.components[0].mul(other.components[1]).sub(
            self.components[1].mul(other.components[0]),
        )
    }
}

impl<const D: usize> Aabb<D> {
    /// The smallest box that holds the points `a` and `b`.
    pub fn from_two_points(a: Point<D>, b: Point<D>) -> (r: Self)
        ensures
            r.min@ == coords_min(a@, b@),
            r.max@ == coords_max(a@, b@),
    {
        let mut low = a.coords;
        let mut high = a.coords;
        let mut i: usize = 0;
        while i < D
            invariant
                i <= D,
                forall|j: int| 0 <= j < i ==> low[j] == a.coords[j].min(b.coords[j]),
                forall|j: int| 0 <= j < i ==> high[j] == a.coords[j].max(b.coords[j]),
            decreases D - i,
        {
            low[i] = a.coords[i].min(b.coords[i]);
            high[i] = a.coords[i].max(b.coords[i]);
            i += 1;
        }
        assert(low@ =~= coords_min(a@, b@));
        assert(high@ =~= coords_max(a@, b@));
        Aabb { min: Point { coords: low }, max: Point { coords: high } }
    }

    /// The box between the corners `min` and `max`.
    pub fn from_corners(min: Point<D>, max: Point<D>) -> (r: Self)
        ensures
            r.min == min,
            r.max == max,
    {
        Aabb { min, max }
    }
}

} // verus!
