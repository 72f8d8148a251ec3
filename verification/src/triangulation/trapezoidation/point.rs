//! Points of the plane, ordered from bottom to top.

use vstd::prelude::*;
use crate::math::scalar::Scalar;

verus! {

/// How a point lies to another one. Points are ordered by height, and at
/// the same height from left to right, so that no two different points are
/// level.
#[derive(Clone, Copy, Debug, PartialEq, Eq, Hash, Structural)]
pub enum Relation {
    /// The point comes before the other one
    Below,
    /// The point comes after the other one
    Above,
}

/// A point of the plane.
#[derive(Clone, Copy, Debug, PartialEq, Eq, Hash, PartialOrd, Ord, Structural)]
pub struct Point {
    /// How far to the right the point is
    pub x: Scalar,
    /// How high the point is
    pub y: Scalar,
}

impl Point {
    /// The point with the coordinates `x` and `y`.
    pub fn new(x: Scalar, y: Scalar) -> (r: Self)
        ensures
            r.x == x,
            r.y == y,
    {
        Point { x, y }
    }

    /// Whether the point comes before `other`: it is lower, or as high and
    /// further left.
    pub open spec fn is_below(&self, other: &Point) -> bool {
        self.y@ < other.y@ || (self.y@ == other.y@ && self.x@ < other.x@)
    }

    /// How the point lies to `other`.
    pub open spec fn spec_relation_to(&self, other: &Point) -> Option<Relation> {
        if self.is_below(other) {
            Some(Relation::Below)
        } else if other.is_below(self) {
            Some(Relation::Above)
        } else {
            None
        }
    }

    /// How the point lies to `other`: below or above it, or neither, which
    /// is the case only for the same point.
    #[verifier::when_used_as_spec(spec_relation_to)]
    pub fn relation_to(&self, other: &Point) -> (r: Option<Relation>)
        ensures
            r == self.spec_relation_to(other),
            r is None <==> *self == *other,
    {
        if self.y.raw < other.y.raw || (self.y.raw == other.y.raw && self.x.raw < other.x.raw) {
            Some(Relation::Below)
        } else if other.y.raw < self.y.raw || (other.y.raw == self.y.raw && other.x.raw
            < self.x.raw) {
            Some(Relation::Above)
        } else {
            None
        }
    }
}

} // verus!
