//! The objects that make up the boundary of a shape. They hold how they are
//! connected; where they lie is held by the geometry.

use vstd::prelude::*;
use crate::algorithms::approx::cycle::all_defined;
use crate::geometry::store::{Geometry, HalfEdgeGeom};
use crate::math::point::Point;
use crate::math::scalar::Scalar;
use crate::math::triangle::{cross2d, Winding};
use crate::storage::{Handle, ObjectId};

verus! {

/// A point where edges meet.
#[derive(Clone, Copy, Debug)]
pub struct Vertex {}

/// A curve that edges lie on.
#[derive(Clone, Copy, Debug)]
pub struct Curve {}

/// A surface that faces lie on.
#[derive(Clone, Copy, Debug)]
pub struct Surface {}

/// One of the two sides of an edge: a directed stretch of a curve that
/// starts at a vertex.
#[derive(Clone, Copy, Debug)]
pub struct HalfEdge {
    curve: Handle<Curve>,
    start_vertex: Handle<Vertex>,
}

impl HalfEdge {
    /// The curve that the half-edge lies on.
    pub closed spec fn spec_curve(&self) -> &Handle<Curve> {
        &self.curve
    }

    /// The vertex at which the half-edge starts.
    pub closed spec fn spec_start_vertex(&self) -> &Handle<Vertex> {
        &self.start_vertex
    }

    /// The half-edge on `curve` that starts at `start_vertex`.
    pub fn new(curve: Handle<Curve>, start_vertex: Handle<Vertex>) -> (r: Self)
        ensures
            *r.curve() == curve,
            *r.start_vertex() == start_vertex,
    {
        HalfEdge { curve, start_vertex }
    }

    /// The curve that the half-edge lies on.
    #[verifier::when_used_as_spec(spec_curve)]
    pub fn curve(&self) -> (r: &Handle<Curve>)
        ensures
            r == self.spec_curve(),
    {
        &self.curve
    }

    /// The vertex at which the half-edge starts.
    #[verifier::when_used_as_spec(spec_start_vertex)]
    pub fn start_vertex(&self) -> (r: &Handle<Vertex>)
        ensures
            r == self.spec_start_vertex(),
    {
        &self.start_vertex
    }
}

/// A cycle of connected half-edges on a surface: each one ends where the
/// next one starts, and the last one ends where the first one starts.
#[derive(Clone, Debug)]
pub struct Cycle {
    surface: Handle<Surface>,
    half_edges: Vec<Handle<HalfEdge>>,
}

impl Cycle {
    /// The surface that the cycle is in.
    pub closed spec fn spec_surface(&self) -> &Handle<Surface> {
        &self.surface
    }

    /// The half-edges that make up the cycle, in order.
    pub closed spec fn spec_half_edges(&self) -> Seq<Handle<HalfEdge>> {
        self.half_edges@
    }

    /// The cycle on `surface` that the given half-edges make up, in their
    /// order. There must be at least one.
    pub fn new(surface: Handle<Surface>, half_edges: Vec<Handle<HalfEdge>>) -> (r: Self)
        requires
            half_edges.len() > 0,
        ensures
            *r.surface() == surface,
            r.spec_half_edges() == half_edges@,
    {
        Cycle { surface, half_edges }
    }

    /// Access the surface that this cycle is in
    #[verifier::when_used_as_spec(spec_surface)]
    pub fn surface(&self) -> (r: &Handle<Surface>)
        ensures
            r == self.spec_surface(),
    {
        &self.surface
    }

    /// Access the half-edges that make up the cycle
    pub fn half_edges(&self) -> (r: &Vec<Handle<HalfEdge>>)
        ensures
            r@ == self.spec_half_edges(),
    {
        &self.half_edges
    }

    /// The winding of the cycle with the half-edge definitions `defined`,
    /// where it has one.
    ///
    /// A cycle of fewer than three half-edges is made of circles, and goes
    /// round as its first one does. Any other cycle is taken as the polygon
    /// of the points at which its half-edges start.
    pub open spec fn spec_winding(&self, defined: Map<ObjectId, HalfEdgeGeom>) -> Option<Winding> {
        let half_edges = self.spec_half_edges();
        if half_edges.len() == 0 {
            None
        } else if half_edges.len() < 3 {
            let first = defined[half_edges[0].id()];
            match first.path {
                crate::geometry::path::Path::Circle(circle) => {
                    let edge_direction_positive = first.boundary.start()@ < first.boundary.end()@;
                    let cross_positive = cross2d(circle.a@, circle.b@)@ > 0;
                    if edge_direction_positive == cross_positive {
                        Some(Winding::Ccw)
                    } else {
                        Some(Winding::Cw)
                    }
                },
                crate::geometry::path::Path::Line(_) => None,
            }
        } else {
            let sum = polygon_sum(start_positions(half_edges, defined));
            if sum@ > 0 {
                Some(Winding::Cw)
            } else if sum@ < 0 {
                Some(Winding::Ccw)
            } else {
                None
            }
        }
    }

    /// Indicate the cycle's winding, assuming a right-handed coordinate
    /// system
    ///
    /// Please note that this is not *the* winding of the cycle, only one of
    /// the two possible windings, depending on the direction you look at the
    /// surface that the cycle is defined on from.
    ///
    /// Every half-edge of the cycle must be defined in `geometry`, and the
    /// cycle must have a winding.
    pub fn winding(&self, geometry: &Geometry) -> (r: Winding)
        requires
            all_defined(self.spec_half_edges(), geometry.half_edges()),
            self.spec_winding(geometry.half_edges()) is Some,
        ensures
            Some(r) == self.spec_winding(geometry.half_edges()),
    {
        // The cycle could be made up of one or two circles. If that is the
        // case, the winding of the cycle is determined by the winding of the
        // first circle.
        if self.half_edges.len() < 3 {
            let first = geometry.of_half_edge(&self.half_edges[0]).unwrap();
            let edge_direction_positive = first.boundary.start().lt(first.boundary.end());
            match first.path {
                crate::geometry::path::Path::Circle(circle) => {
                    let cross_positive = circle.a().cross2d(&circle.b()).is_positive();
                    if edge_direction_positive == cross_positive {
                        return Winding::Ccw;
                    } else {
                        return Winding::Cw;
                    }
                },
                crate::geometry::path::Path::Line(_) => vstd::pervasive::unreached(),
            }
        }
        // Now that we got the special case out of the way, we can treat the
        // cycle as a polygon.

        let n = self.half_edges.len();
        let ghost positions = start_positions(self.half_edges@, geometry.half_edges());
        let mut sum = Scalar::zero();
        let mut previous = start_of(geometry, &self.half_edges[0]);
        let mut i: usize = 1;
        proof {
            assert(positions.take(1).len() == 1);
        }
        while i < n
            invariant
                n == self.half_edges.len(),
                1 <= i <= n,
                all_defined(self.half_edges@, geometry.half_edges()),
                positions == start_positions(self.half_edges@, geometry.half_edges()),
                positions.len() == n,
                previous == positions[i - 1],
                sum == polygon_sum(positions.take(i as int)),
            decreases n - i,
        {
            let next = start_of(geometry, &self.half_edges[i]);
            proof {
                let done = positions.take(i + 1);
                assert(done.drop_last() =~= positions.take(i as int));
                assert(done[done.len() - 2] == previous);
                assert(done.last() == next);
            }
            sum = sum.add(next.u().sub(previous.u()).mul(next.v().add(previous.v())));
            previous = next;
            i += 1;
        }
        assert(positions.take(n as int) =~= positions);

        if sum.is_positive() {
            Winding::Cw
        } else {
            Winding::Ccw
        }
    }
}

/// The surface points at which the half-edges start.
pub open spec fn start_positions(
    half_edges: Seq<Handle<HalfEdge>>,
    defined: Map<ObjectId, HalfEdgeGeom>,
) -> Seq<Point<2>> {
    Seq::new(half_edges.len(), |i: int| defined[half_edges[i].id()].start_position())
}

/// The sum over every two neighbouring points `a`, `b` of the sequence of
/// `(b.u - a.u) * (b.v + a.v)`: above zero where the points go round
/// clockwise.
pub open spec fn polygon_sum(positions: Seq<Point<2>>) -> Scalar
    decreases positions.len(),
{
    if positions.len() < 2 {
        Scalar::zero()
    } else {
        let a = positions[positions.len() - 2];
        let b = positions.last();
        polygon_sum(positions.drop_last()).add(b.u().sub(a.u()).mul(b.v().add(a.v())))
    }
}

/// The surface point at which a half-edge starts that is defined in
/// `geometry`.
fn start_of(geometry: &Geometry, half_edge: &Handle<HalfEdge>) -> (r: Point<2>)
    requires
        geometry.half_edges().contains_key(half_edge.id()),
    ensures
        r == geometry.half_edges()[half_edge.id()].start_position(),
{
    geometry.of_half_edge(half_edge).unwrap().start_position()
}

/// A part of a surface: the inside of one cycle, without the insides of
/// some others.
#[derive(Clone, Debug)]
pub struct Region {
    cycles: Vec<Cycle>,
}

impl Region {
    /// All the cycles of the region: the outer one, then the inner ones.
    pub closed spec fn spec_all_cycles(&self) -> Seq<Cycle> {
        self.cycles@
    }

    /// The region inside `exterior` and outside all of `interiors`.
    pub fn new(exterior: Cycle, interiors: Vec<Cycle>) -> (r: Self)
        ensures
            r.spec_all_cycles() == seq![exterior] + interiors@,
    {
        let mut cycles: Vec<Cycle> = Vec::new();
        cycles.push(exterior);
        let mut interiors = interiors;
        cycles.append(&mut interiors);
        Region { cycles }
    }

    /// All the cycles of the region: the outer one, then the inner ones.
    pub fn all_cycles(&self) -> (r: &Vec<Cycle>)
        ensures
            r@ == self.spec_all_cycles(),
    {
        &self.cycles
    }
}

/// A face of a shape: a region of a surface.
#[derive(Clone, Debug)]
pub struct Face {
    surface: Handle<Surface>,
    region: Region,
}

impl Face {
    /// The surface that the face lies on.
    pub closed spec fn spec_surface(&self) -> &Handle<Surface> {
        &self.surface
    }

    /// The region of the surface that the face covers.
    pub closed spec fn spec_region(&self) -> &Region {
        &self.region
    }

    /// The face that covers `region` on `surface`.
    pub fn new(surface: Handle<Surface>, region: Region) -> (r: Self)
        ensures
            *r.surface() == surface,
            *r.region() == region,
    {
        Face { surface, region }
    }

    /// The surface that the face lies on.
    #[verifier::when_used_as_spec(spec_surface)]
    pub fn surface(&self) -> (r: &Handle<Surface>)
        ensures
            r == self.spec_surface(),
    {
        &self.surface
    }

    /// The region of the surface that the face covers.
    #[verifier::when_used_as_spec(spec_region)]
    pub fn region(&self) -> (r: &Region)
        ensures
            r == self.spec_region(),
    {
        &self.region
    }
}

/// A connected set of faces.
#[derive(Clone, Debug)]
pub struct Shell {
    faces: Vec<Face>,
}

impl Shell {
    /// The faces of the shell, in order.
    pub closed spec fn spec_faces(&self) -> Seq<Face> {
        self.faces@
    }

    /// The shell made of `faces`.
    pub fn new(faces: Vec<Face>) -> (r: Self)
        ensures
            r.spec_faces() == faces@,
    {
        Shell { faces }
    }

    /// The faces of the shell, in order.
    pub fn faces(&self) -> (r: &Vec<Face>)
        ensures
            r@ == self.spec_faces(),
    {
        &self.faces
    }
}

/// The cycles of the faces, one face after the other.
pub open spec fn cycles_of_faces(faces: Seq<Face>) -> Seq<Cycle>
    decreases faces.len(),
{
    if faces.len() == 0 {
        Seq::empty()
    } else {
        cycles_of_faces(faces.drop_last()) + faces.last().region().spec_all_cycles()
    }
}

/// The half-edges of the cycles, one cycle after the other.
pub open spec fn half_edges_of_cycles(cycles: Seq<Cycle>) -> Seq<Handle<HalfEdge>>
    decreases cycles.len(),
{
    if cycles.len() == 0 {
        Seq::empty()
    } else {
        half_edges_of_cycles(cycles.drop_last()) + cycles.last().spec_half_edges()
    }
}

impl Shell {
    /// All the cycles of the shell.
    pub open spec fn spec_all_cycles(&self) -> Seq<Cycle> {
        cycles_of_faces(self.spec_faces())
    }

    /// All the half-edges of the shell.
    pub open spec fn spec_all_half_edges(&self) -> Seq<Handle<HalfEdge>> {
        half_edges_of_cycles(self.spec_all_cycles())
    }

    /// All the cycles of the shell: those of its first face, then those of
    /// its second one, and so on.
    pub fn all_cycles(&self) -> (r: Vec<&Cycle>)
        ensures
            r.len() == self.spec_all_cycles().len(),
            forall|k: int| 0 <= k < r.len() ==> *(#[trigger] r[k]) == self.spec_all_cycles()[k],
    {
        let faces = &self.faces;
        let mut out: Vec<&Cycle> = Vec::new();
        let mut i: usize = 0;
        proof {
            assert(faces@.take(0) =~= Seq::<Face>::empty());
        }
        while i < faces.len()
            invariant
                i <= faces.len(),
                out.len() == cycles_of_faces(faces@.take(i as int)).len(),
                forall|k: int|
                    0 <= k < out.len() ==> *(#[trigger] out[k]) == cycles_of_faces(
                        faces@.take(i as int),
                    )[k],
            decreases faces.len() - i,
        {
            let cycles = faces[i].region().all_cycles();
            let ghost before = cycles_of_faces(faces@.take(i as int));
            let mut j: usize = 0;
            while j < cycles.len()
                invariant
                    j <= cycles.len(),
                    out.len() == before.len() + j,
                    forall|k: int| 0 <= k < before.len() ==> *(#[trigger] out[k]) == before[k],
                    forall|k: int| 0 <= k < j ==> *(#[trigger] out[before.len() + k]) == cycles[k],
                decreases cycles.len() - j,
            {
                out.push(&cycles[j]);
                j += 1;
            }
            proof {
                assert(faces@.take(i + 1).drop_last() =~= faces@.take(i as int));
                assert(faces@.take(i + 1).last() == faces[i as int]);
                let after = cycles_of_faces(faces@.take(i + 1));
                assert(after == before + cycles@);
                assert forall|k: int| 0 <= k < out.len() implies *(#[trigger] out[k])
                    == after[k] by {
                    if k >= before.len() {
                        assert(*out[before.len() + (k - before.len())] == cycles[k - before.len()]);
                    }
                }
            }
            i += 1;
        }
        assert(faces@.take(faces.len() as int) =~= faces@);
        out
    }

    /// All the half-edges of the shell: those of its first cycle, then those
    /// of its second one, and so on.
    pub fn all_half_edges(&self) -> (r: Vec<Handle<HalfEdge>>)
        ensures
            r@ == self.spec_all_half_edges(),
    {
        let cycles = self.all_cycles();
        let ghost all = self.spec_all_cycles();
        let mut out: Vec<Handle<HalfEdge>> = Vec::new();
        let mut i: usize = 0;
        proof {
            assert(all.take(0) =~= Seq::<Cycle>::empty());
        }
        while i < cycles.len()
            invariant
                i <= cycles.len(),
                cycles.len() == all.len(),
                forall|k: int| 0 <= k < cycles.len() ==> *(#[trigger] cycles[k]) == all[k],
                out@ == half_edges_of_cycles(all.take(i as int)),
            decreases cycles.len() - i,
        {
            let half_edges = cycles[i].half_edges();
            let ghost before = out@;
            let mut j: usize = 0;
            while j < half_edges.len()
                invariant
                    j <= half_edges.len(),
                    out@ == before + half_edges@.take(j as int),
                decreases half_edges.len() - j,
            {
                out.push(half_edges[j]);
                assert(before + half_edges@.take(j + 1) =~= (before + half_edges@.take(
                    j as int,
                )).push(half_edges[j as int]));
                j += 1;
            }
            proof {
                assert(half_edges@.take(half_edges.len() as int) =~= half_edges@);
                assert(all.take(i + 1).drop_last() =~= all.take(i as int));
                assert(all.take(i + 1).last() == all[i as int]);
            }
            i += 1;
        }
        assert(all.take(cycles.len() as int) =~= all);
        out
    }
}

} // verus!
