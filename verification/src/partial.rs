//! Objects that are not complete yet.

use vstd::prelude::*;
use crate::geometry::boundary::CurveBoundary;
use crate::geometry::path::{surface_point_on, Path};
use crate::geometry::store::HalfEdgeGeom;
use crate::math::point::Point;
use crate::math::scalar::Scalar;
use crate::storage::{Handle, Objects};
use crate::topology::{Curve, HalfEdge, Vertex};

verus! {

/// An object that is built up piece by piece.
pub trait PartialObject: Sized {
    /// The object when it is complete
    type Full;

    /// Whether the partial object is complete enough to be built.
    spec fn complete(&self) -> bool;

    /// Whether `full` is the object that the partial object stands for.
    spec fn stands_for(&self, full: &Self::Full) -> bool;

    /// The partial object that stands for `full`.
    fn from_full(full: &Self::Full) -> (r: Self)
        ensures
            r.complete(),
            r.stands_for(full),
    ;

    /// The complete object. The partial object must be complete.
    fn build(self) -> (r: Self::Full)
        requires
            self.complete(),
        ensures
            self.stands_for(&r),
    ;
}

/// The path of a half-edge that may not be known in full yet.
#[derive(Clone, Copy, Debug)]
pub enum MaybeCurve {
    /// The path is known
    Defined(Path<2>),
    /// The path is a circle of which only the radius is known
    UndefinedCircle {
        /// The radius of the circle
        radius: Scalar,
    },
    /// The path is a line of which nothing is known
    UndefinedLine,
}

/// A partial half-edge
#[derive(Clone, Copy, Debug)]
pub struct PartialHalfEdge {
    /// The curve that the half-edge is defined in
    pub curve: Option<MaybeCurve>,
    /// The boundary of the half-edge on the curve
    pub boundary: [Option<Point<1>>; 2],
    /// The surface vertex where the half-edge starts
    pub start_vertex: Handle<Vertex>,
    /// The global form of the half-edge
    pub global_form: Handle<Curve>,
}

impl PartialHalfEdge {
    /// The surface position where the half-edge starts, as far as it is
    /// known.
    pub open spec fn spec_start_position(&self) -> Option<Point<2>> {
        match (self.boundary[0], self.curve) {
            (Some(start), Some(MaybeCurve::Defined(curve))) => Some(
                surface_point_on(&curve, start),
            ),
            _ => None,
        }
    }

    /// Compute the surface position where the half-edge starts. It is known
    /// where the start of the boundary and the path are known.
    #[verifier::when_used_as_spec(spec_start_position)]
    pub fn start_position(&self) -> (r: Option<Point<2>>)
        ensures
            r == self.spec_start_position(),
    {
        // Computing the surface position from the curve position is fine.
        // The half-edge "owns" its start position: nothing else computes
        // it from slightly different data.
        let start = self.boundary[0];
        match start {
            Some(start) => match self.curve {
                Some(MaybeCurve::Defined(curve)) => Some(curve.surface_point(start)),
                _ => None,
            },
            None => None,
        }
    }
}

impl PartialHalfEdge {
    /// A partial half-edge of which nothing is known. Its start vertex and
    /// its global form are made anew in `objects`, the vertex first.
    pub fn new(objects: &mut Objects) -> (r: Self)
        requires
            old(objects).next_id() < u64::MAX - 1,
        ensures
            r.curve is None,
            r.boundary[0] is None,
            r.boundary[1] is None,
            r.start_vertex.id() == old(objects).next_id(),
            r.global_form.id() == old(objects).next_id() + 1,
            final(objects).next_id() == old(objects).next_id() + 2,
    {
        let start_vertex = objects.insert(Vertex {  });
        let global_form = objects.insert(Curve {  });
        PartialHalfEdge { curve: None, boundary: [None, None], start_vertex, global_form }
    }
}

impl PartialObject for PartialHalfEdge {
    type Full = (HalfEdge, HalfEdgeGeom);

    open spec fn complete(&self) -> bool {
        &&& self.curve matches Some(MaybeCurve::Defined(_))
        &&& self.boundary[0] is Some
        &&& self.boundary[1] is Some
    }

    open spec fn stands_for(&self, full: &(HalfEdge, HalfEdgeGeom)) -> bool {
        &&& self.curve == Some(MaybeCurve::Defined(full.1.path))
        &&& self.boundary[0] == Some(full.1.boundary.inner[0])
        &&& self.boundary[1] == Some(full.1.boundary.inner[1])
        &&& self.start_vertex.id() == full.0.start_vertex().id()
        &&& self.global_form.id() == full.0.curve().id()
    }

    fn from_full(full: &(HalfEdge, HalfEdgeGeom)) -> (r: Self) {
        PartialHalfEdge {
            curve: Some(MaybeCurve::Defined(full.1.path)),
            boundary: [Some(full.1.boundary.inner[0]), Some(full.1.boundary.inner[1])],
            start_vertex: *full.0.start_vertex(),
            global_form: *full.0.curve(),
        }
    }

    fn build(self) -> (r: (HalfEdge, HalfEdgeGeom)) {
        let path = match self.curve {
            Some(MaybeCurve::Defined(path)) => path,
            _ => vstd::pervasive::unreached(),
        };
        let start = self.boundary[0].unwrap();
        let end = self.boundary[1].unwrap();
        (
            HalfEdge::new(self.global_form, self.start_vertex),
            HalfEdgeGeom { path, boundary: CurveBoundary::from_points(start, end) },
        )
    }
}

/// A partial global edge
#[derive(Clone, Copy, Debug)]
pub struct PartialGlobalEdge {}

impl PartialObject for PartialGlobalEdge {
    type Full = Curve;

    open spec fn complete(&self) -> bool {
        true
    }

    open spec fn stands_for(&self, full: &Curve) -> bool {
        true
    }

    fn from_full(full: &Curve) -> (r: Self) {
        PartialGlobalEdge {  }
    }

    fn build(self) -> (r: Curve) {
        Curve {  }
    }
}

} // verus!
