//! Straight segments of the plane, and on which side of one a point lies.

use vstd::prelude::*;
use super::point::Point;

verus! {

/// The side of a segment on which a point lies, seen from the lower end of
/// the segment towards the upper one.
#[derive(Clone, Copy, Debug, PartialEq, Eq, Hash, Structural)]
pub enum Relation {
    /// The point lies to the left of the segment
    Left,
    /// The point lies to the right of the segment
    Right,
}

/// A segment between two different points, the lower one first.
#[derive(Clone, Copy, Debug, PartialEq, Eq, Hash)]
pub struct Segment {
    lower: Point,
    upper: Point,
}

/// Twice the area of the triangle `lower`, `upper`, `point`, with a sign:
/// above zero where the three turn left, below zero where they turn right.
pub open spec fn turn(lower: Point, upper: Point, point: Point) -> int {
    (upper.x@ - lower.x@) * (point.y@ - lower.y@) - (upper.y@ - lower.y@) * (point.x@ - lower.x@)
}

/// Whether the product `a * b` is greater than (1), equal to (0) or less
/// than (-1) the product `c * d`.
fn compare_products(a: i128, b: i128, c: i128, d: i128) -> (r: i8)
    requires
        -0xffff_ffff_ffff_ffff <= a <= 0xffff_ffff_ffff_ffff,
        -0xffff_ffff_ffff_ffff <= b <= 0xffff_ffff_ffff_ffff,
        -0xffff_ffff_ffff_ffff <= c <= 0xffff_ffff_ffff_ffff,
        -0xffff_ffff_ffff_ffff <= d <= 0xffff_ffff_ffff_ffff,
    ensures
        r == 1 <==> a * b > c * d,
        r == 0 <==> a * b == c * d,
        r == -1 <==> a * b < c * d,
{
    let (first_sign, first_size) = signed_product(a, b);
    let (second_sign, second_size) = signed_product(c, d);
    if first_sign != second_sign {
        if first_sign > second_sign {
            1
        } else {
            -1
        }
    } else if first_size == second_size {
        0
    } else if (first_size > second_size) == (first_sign > 0) {
        1
    } else {
        -1
    }
}

/// The sign and the size of the product `a * b`.
fn signed_product(a: i128, b: i128) -> (r: (i8, u128))
    requires
        -0xffff_ffff_ffff_ffff <= a <= 0xffff_ffff_ffff_ffff,
        -0xffff_ffff_ffff_ffff <= b <= 0xffff_ffff_ffff_ffff,
    ensures
        -1 <= r.0 <= 1,
        r.0 == 1 ==> a * b == r.1 && r.1 > 0,
        r.0 == -1 ==> a * b == -r.1 && r.1 > 0,
        r.0 == 0 ==> a * b == 0 && r.1 == 0,
{
    let size_a: u128 = if a < 0 {
        (-a) as u128
    } else {
        a as u128
    };
    let size_b: u128 = if b < 0 {
        (-b) as u128
    } else {
        b as u128
    };
    assert(size_a * size_b <= 0xffff_ffff_ffff_ffff * 0xffff_ffff_ffff_ffff) by (nonlinear_arith)
        requires
            0 <= size_a <= 0xffff_ffff_ffff_ffff,
            0 <= size_b <= 0xffff_ffff_ffff_ffff,
    ;
    let size: u128 = size_a * size_b;
    if a == 0 || b == 0 {
        assert(a * b == 0 && size == 0) by (nonlinear_arith)
            requires
                a == 0 || b == 0,
                size == size_a * size_b,
                size_a == 0 || size_b == 0,
        ;
        (0, size)
    } else if (a < 0) == (b < 0) {
        assert(a * b == size && size > 0) by (nonlinear_arith)
            requires
                size == size_a * size_b,
                (a < 0 && b < 0 && size_a == -a && size_b == -b) || (a > 0 && b > 0 && size_a == a
                    && size_b == b),
        ;
        (1, size)
    } else {
        assert(a * b == -size && size > 0) by (nonlinear_arith)
            requires
                size == size_a * size_b,
                (a < 0 && b > 0 && size_a == -a && size_b == b) || (a > 0 && b < 0 && size_a == a
                    && size_b == -b),
        ;
        (-1, size)
    }
}

impl Segment {
    /// The lower end.
    pub closed spec fn spec_lower(&self) -> Point {
        self.lower
    }

    /// The upper end.
    pub closed spec fn spec_upper(&self) -> Point {
        self.upper
    }

    /// The segment between `a` and `b`; none if the two are the same point.
    pub fn new(a: Point, b: Point) -> (r: Option<Self>)
        ensures
            r is None <==> a == b,
            a.is_below(&b) ==> r->Some_0.lower() == a && r->Some_0.upper() == b,
            b.is_below(&a) ==> r->Some_0.lower() == b && r->Some_0.upper() == a,
    {
        match a.relation_to(&b) {
            Some(super::point::Relation::Below) => Some(Segment { lower: a, upper: b }),
            Some(super::point::Relation::Above) => Some(Segment { lower: b, upper: a }),
            None => None,
        }
    }

    /// The lower end.
    #[verifier::when_used_as_spec(spec_lower)]
    pub fn lower(&self) -> (r: Point)
        ensures
            r == self.spec_lower(),
    {
        self.lower
    }

    /// The upper end.
    #[verifier::when_used_as_spec(spec_upper)]
    pub fn upper(&self) -> (r: Point)
        ensures
            r == self.spec_upper(),
    {
        self.upper
    }

    /// The side of the segment on which `point` lies.
    pub open spec fn spec_relation_from_point(&self, point: &Point) -> Option<Relation> {
        if !(self.lower().is_below(point) && point.is_below(&self.upper())) {
            None
        } else if turn(self.lower(), self.upper(), *point) > 0 {
            Some(Relation::Left)
        } else if turn(self.lower(), self.upper(), *point) < 0 {
            Some(Relation::Right)
        } else {
            None
        }
    }

    /// The side of the segment on which `point` lies. There is none where
    /// the point is not between the two ends in the order of the points, or
    /// lies on the segment.
    #[verifier::when_used_as_spec(spec_relation_from_point)]
    pub fn relation_from_point(&self, point: &Point) -> (r: Option<Relation>)
        ensures
            r == self.spec_relation_from_point(point),
    {
        let after_lower = matches!(
            self.lower.relation_to(point),
            Some(super::point::Relation::Below)
        );
        let before_upper = matches!(
            point.relation_to(&self.upper),
            Some(super::point::Relation::Below)
        );
        if !(after_lower && before_upper) {
            return None;
        }
        let ux: i128 = self.upper.x.raw as i128 - self.lower.x.raw as i128;
        let uy: i128 = self.upper.y.raw as i128 - self.lower.y.raw as i128;
        let px: i128 = point.x.raw as i128 - self.lower.x.raw as i128;
        let py: i128 = point.y.raw as i128 - self.lower.y.raw as i128;
        let side = compare_products(ux, py, uy, px);
        if side > 0 {
            Some(Relation::Left)
        } else if side < 0 {
            Some(Relation::Right)
        } else {
            None
        }
    }
}

} // verus!
