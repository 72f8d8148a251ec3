//! Circles of any dimension.

use vstd::prelude::*;
use super::point::{coords_add, coords_magnitude, coords_scale, Point, Vector};
use super::scalar::Scalar;

verus! {

/// The point at angle `t` of the circle around `center` spanned by `a` and `b`.
pub open spec fn circle_point(
    center: Seq<Scalar>,
    a: Seq<Scalar>,
    b: Seq<Scalar>,
    t: Scalar,
) -> Seq<Scalar> {
    coords_add(coords_add(center, coords_scale(a, t.cos())), coords_scale(b, t.sin()))
}

/// A circle: the points `center + a * cos(t) + b * sin(t)`.
///
/// `a` and `b` are meant to be perpendicular and of equal length; the length
/// of `a` is the radius.
#[derive(Clone, Copy, Debug, PartialEq, Eq, Hash, PartialOrd, Ord)]
pub struct Circle<const D: usize> {
    /// The centre
    pub center: Point<D>,
    /// From the centre to the point at angle zero
    pub a: Vector<D>,
    /// From the centre to the point at a quarter turn
    pub b: Vector<D>,
}

impl<const D: usize> Circle<D> {
    /// The circle around `center` spanned by `a` and `b`.
    pub fn new(center: Point<D>, a: Vector<D>, b: Vector<D>) -> (r: Self)
        ensures
            r.center == center,
            r.a == a,
            r.b == b,
    {
        Circle { center, a, b }
    }

    /// The centre.
    pub fn center(&self) -> (r: Point<D>)
        ensures
            r == self.center,
    {
        self.center
    }

    /// The vector from the centre to the point at angle zero.
    pub fn a(&self) -> (r: Vector<D>)
        ensures
            r == self.a,
    {
        self.a
    }

    /// The vector from the centre to the point at a quarter turn.
    pub fn b(&self) -> (r: Vector<D>)
        ensures
            r == self.b,
    {
        self.b
    }

    /// The radius.
    pub open spec fn spec_radius(&self) -> Scalar {
        coords_magnitude(self.a@)
    }

    /// The radius: the length of `a`.
    #[verifier::when_used_as_spec(spec_radius)]
    pub fn radius(&self) -> (r: Scalar)
        ensures
            r == self.spec_radius(),
            r@ >= 0,
    {
        self.a.magnitude()
    }

    /// The coordinates of the point at angle `t`.
    pub open spec fn point_coords(&self, t: Scalar) -> Seq<Scalar> {
        circle_point(self.center@, self.a@, self.b@, t)
    }

    /// The point of the circle at the curve parameter `point`, an angle in
    /// radians.
    pub fn point_from_circle_coords(&self, point: Point<1>) -> (r: Point<D>)
        ensures
            r@ == self.point_coords(point.t()),
    {
        let t = point.t();
        self.center.add_vector(self.a.scale(t.cos())).add_vector(self.b.scale(t.sin()))
    }
}

impl Circle<2> {
    /// The circle in the plane around `center` with the given radius.
    pub fn from_center_and_radius(center: Point<2>, radius: Scalar) -> (r: Self)
        ensures
            r.center == center,
            r.a@ == seq![radius, Scalar::zero()],
            r.b@ == seq![Scalar::zero(), radius],
    {
        let a = Vector { components: [radius, Scalar::zero()] };
        let b = Vector { components: [Scalar::zero(), radius] };
        assert(a@ =~= seq![radius, Scalar::zero()]);
        assert(b@ =~= seq![Scalar::zero(), radius]);
        Circle { center, a, b }
    }
}

} // verus!
