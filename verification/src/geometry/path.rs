//! The two kinds of curve that the kernel knows.

use vstd::prelude::*;
use crate::math::circle::Circle;
use crate::math::line::Line;
use crate::math::point::{lemma_point2_of, point2_of, Point};
use crate::math::scalar::Scalar;
use crate::math::transform::Transform;

verus! {

/// A curve: a circle or a straight line. `Path<2>` is a curve on a surface,
/// `Path<3>` a curve in space.
#[derive(Clone, Copy, Debug, PartialEq, Eq, Hash, PartialOrd, Ord)]
pub enum Path<const D: usize> {
    /// A circle
    Circle(Circle<D>),
    /// A straight line
    Line(Line<D>),
}

/// A curve on a surface.
pub type SurfacePath = Path<2>;

/// A curve in space.
pub type GlobalPath = Path<3>;

impl<const D: usize> Path<D> {
    /// The coordinates of the point at parameter `t`.
    pub open spec fn point_coords(&self, t: Scalar) -> Seq<Scalar> {
        match self {
            Path::Circle(circle) => circle.point_coords(t),
            Path::Line(line) => line.point_coords(t),
        }
    }

    /// The line that is at `a` for parameter zero and at `b` for parameter one.
    pub fn line_from_points(a: Point<D>, b: Point<D>) -> (r: Self)
        ensures
            r is Line,
            r->Line_0.origin == a,
            r->Line_0.direction@ == crate::math::point::coords_sub(b@, a@),
    {
        Path::Line(Line::from_points(a, b))
    }

    /// The point of the curve at the curve parameter `point`.
    pub fn point_from_path_coords(&self, point: Point<1>) -> (r: Point<D>)
        ensures
            r@ == self.point_coords(point.t()),
    {
        match self {
            Path::Circle(circle) => circle.point_from_circle_coords(point),
            Path::Line(line) => line.point_from_line_coords(point),
        }
    }
}

/// The surface point at the parameter `point` of the curve `path`.
pub open spec fn surface_point_on(path: &Path<2>, point: Point<1>) -> Point<2> {
    point2_of(path.point_coords(point.t()))
}

impl Path<2> {
    /// The surface point of the curve at the curve parameter `point`.
    pub fn surface_point(&self, point: Point<1>) -> (r: Point<2>)
        ensures
            r == surface_point_on(self, point),
    {
        let r = self.point_from_path_coords(point);
        proof {
            lemma_point2_of(r);
        }
        r
    }
}

impl Path<3> {
    /// The coordinates that define the image of the curve under `transform`:
    /// its centre or origin, then its one or two vectors.
    pub open spec fn image(&self, transform: &Transform) -> Seq<Seq<Scalar>> {
        match self {
            Path::Circle(circle) => seq![
                transform.point_image(circle.center@),
                transform.vector_image(circle.a@),
                transform.vector_image(circle.b@),
            ],
            Path::Line(line) => seq![
                transform.point_image(line.origin@),
                transform.vector_image(line.direction@),
            ],
        }
    }

    /// The coordinates that define the curve: its centre or origin, then its
    /// one or two vectors.
    pub open spec fn definition(&self) -> Seq<Seq<Scalar>> {
        match self {
            Path::Circle(circle) => seq![circle.center@, circle.a@, circle.b@],
            Path::Line(line) => seq![line.origin@, line.direction@],
        }
    }

    /// The image of the curve under `transform`: a curve of the same kind
    /// whose points and vectors are the images of this one's.
    pub fn transform(self, transform: &Transform) -> (r: Self)
        ensures
            r is Circle <==> self is Circle,
            r.definition() == self.image(transform),
    {
        match self {
            Path::Circle(circle) => {
                let r = Path::Circle(transform.transform_circle(&circle));
                assert(r.definition() =~= self.image(transform));
                r
            },
            Path::Line(line) => {
                let r = Path::Line(transform.transform_line(&line));
                assert(r.definition() =~= self.image(transform));
                r
            },
        }
    }
}

} // verus!
