//! Affine maps of space.

use vstd::prelude::*;
use super::circle::Circle;
use super::line::Line;
use super::point::{coords_add, Point, Vector};
use super::scalar::Scalar;

verus! {

/// The product of the matrix row `row` with the column `v`.
pub open spec fn row_product(row: Seq<Scalar>, v: Seq<Scalar>) -> Scalar {
    row[0].mul(v[0]).add(row[1].mul(v[1])).add(row[2].mul(v[2]))
}

/// The product of the matrix with the rows `rows` with the column `v`.
pub open spec fn matrix_product(rows: Seq<[Scalar; 3]>, v: Seq<Scalar>) -> Seq<Scalar> {
    seq![row_product(rows[0]@, v), row_product(rows[1]@, v), row_product(rows[2]@, v)]
}

/// An affine map of space: a matrix applied to a point or vector, and for a
/// point a translation added after it.
#[derive(Clone, Copy, Debug, PartialEq, Eq, Hash)]
pub struct Transform {
    /// The rows of the matrix
    pub rows: [[Scalar; 3]; 3],
    /// The translation
    pub offset: Vector<3>,
}

impl Transform {
    /// The map that changes nothing.
    pub fn identity() -> (r: Self)
        ensures
            r.rows == Self::identity_rows(),
            r.offset@ == seq![Scalar::zero(), Scalar::zero(), Scalar::zero()],
    {
        let zero = Scalar::zero();
        let offset = Vector { components: [zero, zero, zero] };
        assert(offset@ =~= seq![zero, zero, zero]);
        Self::translation(offset)
    }

    /// The map that moves every point by `offset`.
    pub fn translation(offset: Vector<3>) -> (r: Self)
        ensures
            r.rows == Self::identity_rows(),
            r.offset == offset,
    {
        let one = Scalar::one();
        let zero = Scalar::zero();
        let rows = [[one, zero, zero], [zero, one, zero], [zero, zero, one]];
        assert(rows@ =~= Self::identity_rows()@);
        Transform { rows, offset }
    }

    /// The rows of the matrix that changes nothing.
    pub open spec fn identity_rows() -> [[Scalar; 3]; 3] {
        [
            [Scalar::one(), Scalar::zero(), Scalar::zero()],
            [Scalar::zero(), Scalar::one(), Scalar::zero()],
            [Scalar::zero(), Scalar::zero(), Scalar::one()],
        ]
    }

    /// The components of the image of the vector `v`.
    pub open spec fn vector_image(&self, v: Seq<Scalar>) -> Seq<Scalar> {
        matrix_product(self.rows@, v)
    }

    /// The coordinates of the image of the point `p`.
    pub open spec fn point_image(&self, p: Seq<Scalar>) -> Seq<Scalar> {
        coords_add(matrix_product(self.rows@, p), self.offset@)
    }

    /// The product of one row of the matrix with `v`.
    fn row_times(&self, i: usize, v: &[Scalar; 3]) -> (r: Scalar)
        requires
            i < 3,
        ensures
            r == row_product(self.rows[i as int]@, v@),
    {
        let row = &self.rows[i];
        row[0].mul(v[0]).add(row[1].mul(v[1])).add(row[2].mul(v[2]))
    }

    /// The image of a vector: the matrix applied to it.
    pub fn transform_vector(&self, v: &Vector<3>) -> (r: Vector<3>)
        ensures
            r@ == self.vector_image(v@),
    {
        let c = &v.components;
        let r = Vector {
            components: [self.row_times(0, c), self.row_times(1, c), self.row_times(2, c)],
        };
        assert(r@ =~= self.vector_image(v@));
        r
    }

    /// The image of a point: the matrix applied to it, then the translation.
    pub fn transform_point(&self, p: &Point<3>) -> (r: Point<3>)
        ensures
            r@ == self.point_image(p@),
    {
        let c = &p.coords;
        let moved = Vector {
            components: [self.row_times(0, c), self.row_times(1, c), self.row_times(2, c)],
        };
        assert(moved@ =~= matrix_product(self.rows@, p@));
        moved.add(self.offset).to_point()
    }

    /// The image of a circle.
    pub fn transform_circle(&self, circle: &Circle<3>) -> (r: Circle<3>)
        ensures
            r.center@ == self.point_image(circle.center@),
            r.a@ == self.vector_image(circle.a@),
            r.b@ == self.vector_image(circle.b@),
    {
        Circle {
            center: self.transform_point(&circle.center),
            a: self.transform_vector(&circle.a),
            b: self.transform_vector(&circle.b),
        }
    }

    /// The image of a line.
    pub fn transform_line(&self, line: &Line<3>) -> (r: Line<3>)
        ensures
            r.origin@ == self.point_image(line.origin@),
            r.direction@ == self.vector_image(line.direction@),
    {
        Line {
            origin: self.transform_point(&line.origin),
            direction: self.transform_vector(&line.direction),
        }
    }
}

} // verus!
