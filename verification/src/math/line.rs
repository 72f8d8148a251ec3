//! Straight lines of any dimension.

use vstd::prelude::*;
use super::point::{coords_add, coords_quotient, coords_scale, coords_sub, Point, Vector};
use super::scalar::Scalar;

verus! {

/// The point at parameter `t` of the line through `origin` along `direction`.
pub open spec fn line_point(origin: Seq<Scalar>, direction: Seq<Scalar>, t: Scalar) -> Seq<Scalar> {
    coords_add(origin, coords_scale(direction, t))
}

/// An unbounded straight line: the points `origin + direction * t`.
#[derive(Clone, Copy, Debug, PartialEq, Eq, Hash, PartialOrd, Ord)]
pub struct Line<const D: usize> {
    /// The point at parameter zero
    pub origin: Point<D>,
    /// The displacement per unit of the parameter
    pub direction: Vector<D>,
}

impl<const D: usize> Line<D> {
    /// The line through `origin` along `direction`.
    pub fn from_origin_and_direction(origin: Point<D>, direction: Vector<D>) -> (r: Self)
        ensures
            r.origin == origin,
            r.direction == direction,
    {
        Line { origin, direction }
    }

    /// The line that is at `a` for parameter zero and at `b` for parameter one.
    pub fn from_points(a: Point<D>, b: Point<D>) -> (r: Self)
        ensures
            r.origin == a,
            r.direction@ == coords_sub(b@, a@),
    {
        Line { origin: a, direction: b.sub_point(a) }
    }

    /// The line that is at `a` for the parameter `a_line` and at `b` for the
    /// parameter `b_line`; none if the two parameters are the same.
    pub fn from_points_with_line_coords(
        a_line: Point<1>,
        a: Point<D>,
        b_line: Point<1>,
        b: Point<D>,
    ) -> (r: Option<Self>)
        ensures
            r is None <==> b_line.t().sub(a_line.t())@ == 0,
            r is Some ==> {
                let direction = coords_quotient(coords_sub(b@, a@), b_line.t().sub(a_line.t()));
                &&& r->Some_0.direction@ == direction
                &&& r->Some_0.origin@ == coords_add(a@, coords_scale(direction, a_line.t().neg()))
            },
    {
        match b.sub_point(a).checked_div(b_line.t().sub(a_line.t())) {
            Some(direction) => {
                let origin = a.add_vector(direction.scale(a_line.t().neg()));
                Some(Line { origin, direction })
            },
            None => None,
        }
    }

    /// The point at parameter zero.
    pub fn origin(&self) -> (r: Point<D>)
        ensures
            r == self.origin,
    {
        self.origin
    }

    /// The displacement per unit of the parameter.
    pub fn direction(&self) -> (r: Vector<D>)
        ensures
            r == self.direction,
    {
        self.direction
    }

    /// The coordinates of the point at parameter `t`.
    pub open spec fn point_coords(&self, t: Scalar) -> Seq<Scalar> {
        line_point(self.origin@, self.direction@, t)
    }

    /// The point of the line at the curve parameter `point`.
    pub fn point_from_line_coords(&self, point: Point<1>) -> (r: Point<D>)
        ensures
            r@ == self.point_coords(point.t()),
    {
        self.origin.add_vector(self.direction.scale(point.t()))
    }
}

} // verus!
