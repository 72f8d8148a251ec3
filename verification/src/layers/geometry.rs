//! The layer that holds the geometry of a shape.

use vstd::prelude::*;
use crate::geometry::curve::CurveGeom;
use crate::geometry::store::{Geometry, HalfEdgeGeom, SurfaceGeom};
use crate::layers::{lemma_evolve_one, Command, Event, Layer};
use crate::storage::Handle;
use crate::topology::{Curve, HalfEdge, Surface};

verus! {

impl Layer<Geometry> {
    /// Define the geometry of the provided curve
    pub fn define_curve(&mut self, curve: Handle<Curve>, geometry: CurveGeom)
        ensures
            final(self).state().curves() == old(self).state().curves().insert(
                curve.id(),
                geometry@,
            ),
            final(self).state().half_edges() == old(self).state().half_edges(),
            final(self).state().surfaces() == old(self).state().surfaces(),
    {
        let mut events = Vec::new();
        let command = DefineCurve { curve, geometry };
        self.process(command, &mut events);
        proof {
            assert(events@ =~= seq![command]);
            lemma_evolve_one(command, *old(self).state(), *self.state());
        }
    }

    /// Define the geometry of the provided half-edge
    pub fn define_half_edge(&mut self, half_edge: Handle<HalfEdge>, geometry: HalfEdgeGeom)
        ensures
            final(self).state().half_edges() == old(self).state().half_edges().insert(
                half_edge.id(),
                geometry,
            ),
            final(self).state().curves() == old(self).state().curves(),
            final(self).state().surfaces() == old(self).state().surfaces(),
    {
        let mut events = Vec::new();
        let command = DefineHalfEdge { half_edge, geometry };
        self.process(command, &mut events);
        proof {
            assert(events@ =~= seq![command]);
            lemma_evolve_one(command, *old(self).state(), *self.state());
        }
    }

    /// Define the geometry of the provided surface
    pub fn define_surface(&mut self, surface: Handle<Surface>, geometry: SurfaceGeom)
        ensures
            final(self).state().surfaces() == old(self).state().surfaces().insert(
                surface.id(),
                geometry,
            ),
            final(self).state().curves() == old(self).state().curves(),
            final(self).state().half_edges() == old(self).state().half_edges(),
    {
        let mut events = Vec::new();
        let command = DefineSurface { surface, geometry };
        self.process(command, &mut events);
        proof {
            assert(events@ =~= seq![command]);
            lemma_evolve_one(command, *old(self).state(), *self.state());
        }
    }
}

/// Define the geometry of a curve
pub struct DefineCurve {
    curve: Handle<Curve>,
    geometry: CurveGeom,
}

impl Command<Geometry> for DefineCurve {
    type Result = ();

    type Event = Self;

    open spec fn decided(self, state: &Geometry) -> Seq<Self> {
        seq![self]
    }

    open spec fn outcome(self, state: &Geometry) -> () {
        ()
    }

    fn decide(self, state: &Geometry, events: &mut Vec<Self>) -> (r: ()) {
        events.push(self);
        assert(events@ =~= old(events)@ + seq![self]);
    }
}

impl Event<Geometry> for DefineCurve {
    closed spec fn evolves(&self, before: &Geometry, after: &Geometry) -> bool {
        &&& after.curves() == before.curves().insert(self.curve.id(), self.geometry@)
        &&& after.half_edges() == before.half_edges()
        &&& after.surfaces() == before.surfaces()
    }

    fn evolve(&self, state: &mut Geometry) {
        state.define_curve_inner(&self.curve, self.geometry.duplicate());
    }
}

/// Define the geometry of a half-edge
pub struct DefineHalfEdge {
    half_edge: Handle<HalfEdge>,
    geometry: HalfEdgeGeom,
}

impl Command<Geometry> for DefineHalfEdge {
    type Result = ();

    type Event = Self;

    open spec fn decided(self, state: &Geometry) -> Seq<Self> {
        seq![self]
    }

    open spec fn outcome(self, state: &Geometry) -> () {
        ()
    }

    fn decide(self, state: &Geometry, events: &mut Vec<Self>) -> (r: ()) {
        events.push(self);
        assert(events@ =~= old(events)@ + seq![self]);
    }
}

impl Event<Geometry> for DefineHalfEdge {
    closed spec fn evolves(&self, before: &Geometry, after: &Geometry) -> bool {
        &&& after.half_edges() == before.half_edges().insert(self.half_edge.id(), self.geometry)
        &&& after.curves() == before.curves()
        &&& after.surfaces() == before.surfaces()
    }

    fn evolve(&self, state: &mut Geometry) {
        state.define_half_edge_inner(&self.half_edge, self.geometry);
    }
}

/// Define the geometry of a surface
pub struct DefineSurface {
    surface: Handle<Surface>,
    geometry: SurfaceGeom,
}

impl Command<Geometry> for DefineSurface {
    type Result = ();

    type Event = Self;

    open spec fn decided(self, state: &Geometry) -> Seq<Self> {
        seq![self]
    }

    open spec fn outcome(self, state: &Geometry) -> () {
        ()
    }

    fn decide(self, state: &Geometry, events: &mut Vec<Self>) -> (r: ()) {
        events.push(self);
        assert(events@ =~= old(events)@ + seq![self]);
    }
}

impl Event<Geometry> for DefineSurface {
    closed spec fn evolves(&self, before: &Geometry, after: &Geometry) -> bool {
        &&& after.surfaces() == before.surfaces().insert(self.surface.id(), self.geometry)
        &&& after.curves() == before.curves()
        &&& after.half_edges() == before.half_edges()
    }

    fn evolve(&self, state: &mut Geometry) {
        state.define_surface_inner(&self.surface, self.geometry);
    }
}

} // verus!
