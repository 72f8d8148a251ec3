//! Builder for half-edges.

use vstd::prelude::*;
use crate::geometry::boundary::CurveBoundary;
use crate::geometry::path::Path;
use crate::geometry::store::HalfEdgeGeom;
use crate::math::line::Line;
use crate::math::point::{coords_add, coords_quotient, coords_scale, coords_sub, Point};
use crate::math::scalar::Scalar;
use crate::storage::{Handle, Objects};
use crate::topology::{Curve, HalfEdge, Vertex};

verus! {

/// Builder API for half-edges
pub struct HalfEdgeBuilder {
    curve: Path<2>,
    boundary: [Point<1>; 2],
    start_vertex: Option<Handle<Vertex>>,
    global_form: Option<Handle<Curve>>,
}

impl HalfEdgeBuilder {
    /// The path of the half-edge on its surface.
    pub closed spec fn curve(&self) -> Path<2> {
        self.curve
    }

    /// The two ends of the half-edge on its path.
    pub closed spec fn boundary(&self) -> [Point<1>; 2] {
        self.boundary
    }

    /// The vertex at which the half-edge is to start, if one was named.
    pub closed spec fn start_vertex(&self) -> Option<Handle<Vertex>> {
        self.start_vertex
    }

    /// The curve in space that the half-edge is to lie on, if one was named.
    pub closed spec fn global_form(&self) -> Option<Handle<Curve>> {
        self.global_form
    }

    /// Create an instance of `HalfEdgeBuilder`
    pub fn new(curve: Path<2>, boundary: [Point<1>; 2]) -> (r: Self)
        ensures
            r.curve() == curve,
            r.boundary() == boundary,
            r.start_vertex() is None,
            r.global_form() is None,
    {
        HalfEdgeBuilder { curve, boundary, start_vertex: None, global_form: None }
    }

    /// Create a line segment between two surface points. The segment is at
    /// the first point for the first parameter of `boundary` and at the
    /// second point for the second one; without a boundary these are zero
    /// and one. The two parameters must differ.
    pub fn line_segment(points_surface: [Point<2>; 2], boundary: Option<[Point<1>; 2]>) -> (r:
        Self)
        requires
            boundary is Some ==> boundary->Some_0[1].t().sub(boundary->Some_0[0].t())@ != 0,
        ensures
            r.start_vertex() is None,
            r.global_form() is None,
            r.boundary()@ == line_segment_boundary(boundary),
            r.curve() is Line,
            ({
                let ends = line_segment_boundary(boundary);
                let direction = coords_quotient(
                    coords_sub(points_surface[1]@, points_surface[0]@),
                    ends[1].t().sub(ends[0].t()),
                );
                &&& r.curve()->Line_0.direction@ == direction
                &&& r.curve()->Line_0.origin@ == coords_add(
                    points_surface[0]@,
                    coords_scale(direction, ends[0].t().neg()),
                )
            }),
    {
        let ghost given = boundary;
        let boundary = match boundary {
            Some(boundary) => boundary,
            None => [Point::from_t(Scalar::zero()), Point::from_t(Scalar::one())],
        };
        assert(boundary@ =~= line_segment_boundary(given));
        let line = Line::from_points_with_line_coords(
            boundary[0],
            points_surface[0],
            boundary[1],
            points_surface[1],
        ).unwrap();
        Self::new(Path::Line(line), boundary)
    }

    /// Build the half-edge with a specific start vertex
    pub fn with_start_vertex(self, start_vertex: Handle<Vertex>) -> (r: Self)
        ensures
            r.curve() == self.curve(),
            r.boundary() == self.boundary(),
            r.start_vertex() == Some(start_vertex),
            r.global_form() == self.global_form(),
    {
        let mut builder = self;
        builder.start_vertex = Some(start_vertex);
        builder
    }

    /// Build the half-edge with a specific global form: the curve in space
    /// that it shares with its sibling.
    pub fn with_global_form(self, global_form: Handle<Curve>) -> (r: Self)
        ensures
            r.curve() == self.curve(),
            r.boundary() == self.boundary(),
            r.start_vertex() == self.start_vertex(),
            r.global_form() == Some(global_form),
    {
        let mut builder = self;
        builder.global_form = Some(global_form);
        builder
    }

    /// Build the half-edge and its geometry. A start vertex or a curve that
    /// was not named is made anew in `objects`, the vertex first.
    pub fn build(self, objects: &mut Objects) -> (r: (HalfEdge, HalfEdgeGeom))
        requires
            old(objects).next_id() < u64::MAX - 1,
        ensures
            r.1.path == self.curve(),
            r.1.boundary.inner == self.boundary(),
            r.0.start_vertex().id() == match self.start_vertex() {
                Some(vertex) => vertex.id(),
                None => old(objects).next_id(),
            },
            r.0.curve().id() == match self.global_form() {
                Some(curve) => curve.id(),
                None => (old(objects).next_id() + if self.start_vertex() is None {
                    1int
                } else {
                    0int
                }) as u64,
            },
            final(objects).next_id() == old(objects).next_id() + (if self.start_vertex() is None {
                1int
            } else {
                0int
            }) + (if self.global_form() is None {
                1int
            } else {
                0int
            }),
    {
        let start_vertex = match self.start_vertex {
            Some(vertex) => vertex,
            None => objects.insert(Vertex {  }),
        };
        let curve = match self.global_form {
            Some(curve) => curve,
            None => objects.insert(Curve {  }),
        };
        (
            HalfEdge::new(curve, start_vertex),
            HalfEdgeGeom { path: self.curve, boundary: CurveBoundary { inner: self.boundary } },
        )
    }
}

/// The two ends of a line segment on its line: those of `boundary`, or zero
/// and one where there is none.
pub open spec fn line_segment_boundary(boundary: Option<[Point<1>; 2]>) -> Seq<Point<1>> {
    match boundary {
        Some(boundary) => boundary@,
        None => seq![Point::<1>::from_t(Scalar::zero()), Point::<1>::from_t(Scalar::one())],
    }
}

} // verus!
