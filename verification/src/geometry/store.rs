//! Where the objects of a shape lie: the geometry that was defined for them.

use std::collections::BTreeMap;
use vstd::prelude::*;
use crate::geometry::boundary::CurveBoundary;
use crate::geometry::curve::CurveGeom;
use crate::geometry::path::{surface_point_on, Path};
use crate::geometry::surface::SweptCurve;
use crate::math::point::Point;
use crate::storage::{Handle, ObjectId};
use crate::topology::{Curve, HalfEdge, Surface};

verus! {

broadcast use vstd::laws_cmp::group_laws_cmp;

/// The geometric definition of a half-edge: its path on the surface and the
/// stretch of that path which it covers.
#[derive(Clone, Copy, Debug, PartialEq, Eq, Hash, PartialOrd, Ord)]
pub struct HalfEdgeGeom {
    /// The path that the half-edge lies on, in surface coordinates
    pub path: Path<2>,
    /// The stretch of the path that the half-edge covers
    pub boundary: CurveBoundary,
}

impl HalfEdgeGeom {
    /// The surface point at which the half-edge starts.
    pub open spec fn spec_start_position(&self) -> Point<2> {
        surface_point_on(&self.path, self.boundary.inner[0])
    }

    /// The surface point at which the half-edge starts: the point of its
    /// path at the first end of its boundary.
    #[verifier::when_used_as_spec(spec_start_position)]
    pub fn start_position(&self) -> (r: Point<2>)
        ensures
            r == self.spec_start_position(),
    {
        self.path.surface_point(self.boundary.inner[0])
    }
}

/// The geometric definition of a surface.
pub type SurfaceGeom = SweptCurve;

/// The geometry of the objects of a shape, by the identity of the object.
pub struct Geometry {
    curve: BTreeMap<ObjectId, CurveGeom>,
    half_edge: BTreeMap<ObjectId, HalfEdgeGeom>,
    surface: BTreeMap<ObjectId, SurfaceGeom>,
}

impl Geometry {
    /// The definitions of the curves: for every curve, its path on every
    /// surface that it was defined on.
    pub closed spec fn curves(&self) -> Map<ObjectId, Map<ObjectId, Path<2>>> {
        Map::new(
            |id: ObjectId| self.curve@.contains_key(id),
            |id: ObjectId| self.curve@[id]@,
        )
    }

    /// The definitions of the half-edges.
    pub closed spec fn half_edges(&self) -> Map<ObjectId, HalfEdgeGeom> {
        self.half_edge@
    }

    /// The definitions of the surfaces.
    pub closed spec fn surfaces(&self) -> Map<ObjectId, SurfaceGeom> {
        self.surface@
    }

    /// A geometry in which nothing is defined.
    pub fn new() -> (r: Self)
        ensures
            r.curves() == Map::<ObjectId, Map<ObjectId, Path<2>>>::empty(),
            r.half_edges() == Map::<ObjectId, HalfEdgeGeom>::empty(),
            r.surfaces() == Map::<ObjectId, SurfaceGeom>::empty(),
    {
        let r = Geometry {
            curve: BTreeMap::new(),
            half_edge: BTreeMap::new(),
            surface: BTreeMap::new(),
        };
        assert(r.curves() =~= Map::<ObjectId, Map<ObjectId, Path<2>>>::empty());
        r
    }

    /// The definition of a curve, if it has one.
    pub fn of_curve(&self, curve: &Handle<Curve>) -> (r: Option<&CurveGeom>)
        ensures
            r is Some <==> self.curves().contains_key(curve.id()),
            r is Some ==> r->Some_0@ == self.curves()[curve.id()],
    {
        let id = curve.id();
        self.curve.get(&id)
    }

    /// The definition of a half-edge, if it has one.
    pub fn of_half_edge(&self, half_edge: &Handle<HalfEdge>) -> (r: Option<HalfEdgeGeom>)
        ensures
            r == if self.half_edges().contains_key(half_edge.id()) {
                Some(self.half_edges()[half_edge.id()])
            } else {
                None
            },
    {
        let id = half_edge.id();
        match self.half_edge.get(&id) {
            Some(geometry) => Some(*geometry),
            None => None,
        }
    }

    /// The definition of a surface, if it has one.
    pub fn of_surface(&self, surface: &Handle<Surface>) -> (r: Option<SurfaceGeom>)
        ensures
            r == if self.surfaces().contains_key(surface.id()) {
                Some(self.surfaces()[surface.id()])
            } else {
                None
            },
    {
        let id = surface.id();
        match self.surface.get(&id) {
            Some(geometry) => Some(*geometry),
            None => None,
        }
    }

    /// Defines the curve; a definition that it had before is replaced.
    pub fn define_curve_inner(&mut self, curve: &Handle<Curve>, geometry: CurveGeom)
        ensures
            final(self).curves() == old(self).curves().insert(curve.id(), geometry@),
            final(self).half_edges() == old(self).half_edges(),
            final(self).surfaces() == old(self).surfaces(),
    {
        self.curve.insert(curve.id(), geometry);
        assert(self.curves() =~= old(self).curves().insert(curve.id(), geometry@));
    }

    /// Defines the half-edge; a definition that it had before is replaced.
    pub fn define_half_edge_inner(&mut self, half_edge: &Handle<HalfEdge>, geometry: HalfEdgeGeom)
        ensures
            final(self).half_edges() == old(self).half_edges().insert(half_edge.id(), geometry),
            final(self).curves() == old(self).curves(),
            final(self).surfaces() == old(self).surfaces(),
    {
        self.half_edge.insert(half_edge.id(), geometry);
    }

    /// Defines the surface; a definition that it had before is replaced.
    pub fn define_surface_inner(&mut self, surface: &Handle<Surface>, geometry: SurfaceGeom)
        ensures
            final(self).surfaces() == old(self).surfaces().insert(surface.id(), geometry),
            final(self).curves() == old(self).curves(),
            final(self).half_edges() == old(self).half_edges(),
    {
        self.surface.insert(surface.id(), geometry);
    }
}

} // verus!
