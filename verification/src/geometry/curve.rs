//! The uniform way in which every kind of curve is approximated.

use std::collections::BTreeMap;
use vstd::prelude::*;
use crate::geometry::boundary::CurveBoundary;
use crate::geometry::curves::circle::{
    bracket_high,
    bracket_low,
    increment_for,
    lemma_bracket_deterministic,
    lemma_polyline_empty,
    lemma_polyline_reverse,
    lemma_vertex_count_exists,
    polyline_points,
    CircleApproxParams,
    MAX_VERTICES,
};
use crate::geometry::path::Path;
use crate::geometry::tolerance::Tolerance;
use crate::math::circle::Circle;
use crate::math::line::Line;
use crate::math::point::{coords_add, Point};
use crate::math::scalar::{div_ceil, div_floor, scalar_of, Scalar, TAU_RAW};
use crate::storage::{Handle, ObjectId};
use crate::topology::Surface;

verus! {

broadcast use vstd::laws_cmp::group_laws_cmp;

/// The geometric definition of a curve, in 2D surface coordinates
#[derive(Clone, Copy, Debug, PartialEq, Eq, Hash, PartialOrd, Ord)]
pub struct LocalCurveGeom {
    /// The path that defines the curve on its surface
    pub path: Path<2>,
}

/// The geometric definition of a curve: its path on every surface that it
/// is defined on, by the identity of the surface.
#[derive(Debug)]
pub struct CurveGeom {
    /// The local definitions of the curve geometry
    pub definitions: BTreeMap<ObjectId, LocalCurveGeom>,
}

impl View for CurveGeom {
    type V = Map<ObjectId, Path<2>>;

    open spec fn view(&self) -> Map<ObjectId, Path<2>> {
        Map::new(
            |id: ObjectId| self.definitions@.contains_key(id),
            |id: ObjectId| self.definitions@[id].path,
        )
    }
}

impl CurveGeom {
    /// A curve that is defined on no surface.
    pub fn new() -> (r: Self)
        ensures
            r@ == Map::<ObjectId, Path<2>>::empty(),
    {
        let r = CurveGeom { definitions: BTreeMap::new() };
        assert(r@ =~= Map::<ObjectId, Path<2>>::empty());
        r
    }

    /// The same curve, defined on `surface` by `path` as well; a definition
    /// that it had there before is replaced.
    pub fn add_definition(self, surface: &Handle<Surface>, path: Path<2>) -> (r: Self)
        ensures
            r@ == self@.insert(surface.id(), path),
    {
        let mut definitions = self.definitions;
        definitions.insert(surface.id(), LocalCurveGeom { path });
        let r = CurveGeom { definitions };
        assert(r@ =~= self@.insert(surface.id(), path));
        r
    }

    /// Return the local definition on the provided surface
    pub fn local_on(&self, surface: &Handle<Surface>) -> (r: Option<&LocalCurveGeom>)
        ensures
            r is Some <==> self@.contains_key(surface.id()),
            r is Some ==> r->Some_0.path == self@[surface.id()],
    {
        let id = surface.id();
        self.definitions.get(&id)
    }

    /// A copy of the definition.
    pub fn duplicate(&self) -> (r: Self)
        ensures
            r@ == self@,
    {
        let r = CurveGeom { definitions: self.definitions.clone() };
        assert(r@ =~= self@);
        r
    }
}

/// The geometric definition of a curve
///
/// A curve is represented by its polyline, which can be local to a surface
/// or global, in space. This enum distinguishes between the two cases.
#[derive(Clone, Copy, Debug)]
#[allow(inconsistent_fields)]
pub enum CurveGeom2 {
    /// The curve is defined locally on a surface
    Surface {
        /// The geometric representation of the curve
        geometry: Path<2>,
        /// The surface that the curve geometry is defined on
        surface: Handle<Surface>,
    },
    /// The curve is defined globally in 3D space
    Global {
        /// The geometric representation of the curve
        geometry: Path<3>,
    },
}

/// A curve that can be replaced by a polyline.
///
/// For one curve and one tolerance the polyline is always the same: neither
/// the points that are asked for nor the order of the questions change it.
pub trait GenPolyline<const D: usize> {
    /// The coordinates of the origin of the curve.
    spec fn origin_coords(&self) -> Seq<Scalar>;

    /// The origin of the curve, a point that callers measure from.
    fn origin(&self) -> (r: Point<D>)
        ensures
            r@ == self.origin_coords(),
    ;

    /// The coordinates of the two ends of the piece of the polyline that
    /// stands for the curve at `point`.
    spec fn segment_coords(&self, point: Point<1>, tolerance: Tolerance) -> (
        Seq<Scalar>,
        Seq<Scalar>,
    );

    /// The two ends of the piece of the polyline that stands for the curve
    /// at `point`. For a curve that is straight already, both are the point
    /// of the curve at `point`.
    fn line_segment_at(&self, point: Point<1>, tolerance: Tolerance) -> (r: [Point<D>; 2])
        ensures
            (r[0]@, r[1]@) == self.segment_coords(point, tolerance),
    ;

    /// The corners of the polyline strictly inside `boundary`, in the order
    /// of travel.
    spec fn polyline(&self, boundary: CurveBoundary, tolerance: Tolerance) -> Seq<Point<1>>;

    /// The corners of the polyline strictly inside `boundary`, in the order
    /// in which the way from its first end to its second passes them. The
    /// ends of the boundary are never among them.
    fn generate_polyline(&self, boundary: CurveBoundary, tolerance: Tolerance) -> (r: Vec<
        Point<1>,
    >)
        ensures
            r@ == self.polyline(boundary, tolerance),
            forall|k: int|
                0 <= k < r.len() ==> boundary.low() < (#[trigger] r[k]).t()@ < boundary.high(),
    ;
}

/// The parameters of the two corners that bracket the parameter `t` on a
/// circle with the given increment.
pub open spec fn circle_bracket(t: int, increment: int) -> (Scalar, Scalar) {
    (scalar_of(bracket_low(t, increment)), scalar_of(bracket_high(t, increment)))
}

impl<const D: usize> GenPolyline<D> for Circle<D> {
    open spec fn origin_coords(&self) -> Seq<Scalar> {
        coords_add(self.center@, self.a@)
    }

    fn origin(&self) -> (r: Point<D>) {
        self.center.add_vector(self.a)
    }

    open spec fn segment_coords(&self, point: Point<1>, tolerance: Tolerance) -> (
        Seq<Scalar>,
        Seq<Scalar>,
    ) {
        let increment = increment_for(self.radius()@, tolerance.inner()@);
        let bracket = circle_bracket(point.t()@, increment);
        (self.point_coords(bracket.0), self.point_coords(bracket.1))
    }

    fn line_segment_at(&self, point: Point<1>, tolerance: Tolerance) -> (r: [Point<D>; 2]) {
        let params = CircleApproxParams::new(self, tolerance);
        let inc: i128 = params.increment().raw as i128;
        let t: i128 = point.t().raw as i128;
        // Where `point` is on the circle, in units of the increment, rounded
        // down and up: the two corners next to it.
        let below: i128 = div_floor(t, inc);
        let above: i128 = div_ceil(t, inc);
        assert(-0x8000_0000_0000_0000 * 0x8000_0000_0000_0000 <= below * inc
            <= 0x8000_0000_0000_0000 * 0x8000_0000_0000_0000) by (nonlinear_arith)
            requires
                -0x8000_0000_0000_0000 <= below <= 0x8000_0000_0000_0000,
                0 < inc <= 0x8000_0000_0000_0000,
        ;
        assert(-0x8000_0000_0000_0000 * 0x8000_0000_0000_0000 <= above * inc
            <= 0x8000_0000_0000_0000 * 0x8000_0000_0000_0000) by (nonlinear_arith)
            requires
                -0x8000_0000_0000_0000 <= above <= 0x8000_0000_0000_0000,
                0 < inc <= 0x8000_0000_0000_0000,
        ;
        let low = Point::from_t(Scalar::saturate(below * inc));
        let high = Point::from_t(Scalar::saturate(above * inc));
        [self.point_from_circle_coords(low), self.point_from_circle_coords(high)]
    }

    open spec fn polyline(&self, boundary: CurveBoundary, tolerance: Tolerance) -> Seq<Point<1>> {
        polyline_points(
            boundary.start()@,
            boundary.end()@,
            increment_for(self.radius()@, tolerance.inner()@),
        )
    }

    fn generate_polyline(&self, boundary: CurveBoundary, tolerance: Tolerance) -> (r: Vec<
        Point<1>,
    >) {
        let params = CircleApproxParams::new(self, tolerance);
        params.approx_circle(boundary)
    }
}

impl<const D: usize> GenPolyline<D> for Line<D> {
    open spec fn origin_coords(&self) -> Seq<Scalar> {
        self.origin@
    }

    fn origin(&self) -> (r: Point<D>) {
        self.origin
    }

    open spec fn segment_coords(&self, point: Point<1>, tolerance: Tolerance) -> (
        Seq<Scalar>,
        Seq<Scalar>,
    ) {
        (self.point_coords(point.t()), self.point_coords(point.t()))
    }

    fn line_segment_at(&self, point: Point<1>, tolerance: Tolerance) -> (r: [Point<D>; 2]) {
        // A line needs no approximation: the piece collapses into the point.
        let on_line = self.point_from_line_coords(point);
        [on_line, on_line]
    }

    open spec fn polyline(&self, boundary: CurveBoundary, tolerance: Tolerance) -> Seq<Point<1>> {
        Seq::empty()
    }

    fn generate_polyline(&self, boundary: CurveBoundary, tolerance: Tolerance) -> (r: Vec<
        Point<1>,
    >) {
        Vec::new()
    }
}

impl<const D: usize> GenPolyline<D> for Path<D> {
    open spec fn origin_coords(&self) -> Seq<Scalar> {
        match self {
            Path::Circle(circle) => circle.origin_coords(),
            Path::Line(line) => line.origin_coords(),
        }
    }

    fn origin(&self) -> (r: Point<D>) {
        match self {
            Path::Circle(circle) => circle.origin(),
            Path::Line(line) => line.origin(),
        }
    }

    open spec fn segment_coords(&self, point: Point<1>, tolerance: Tolerance) -> (
        Seq<Scalar>,
        Seq<Scalar>,
    ) {
        match self {
            Path::Circle(circle) => circle.segment_coords(point, tolerance),
            Path::Line(line) => line.segment_coords(point, tolerance),
        }
    }

    fn line_segment_at(&self, point: Point<1>, tolerance: Tolerance) -> (r: [Point<D>; 2]) {
        match self {
            Path::Circle(circle) => circle.line_segment_at(point, tolerance),
            Path::Line(line) => line.line_segment_at(point, tolerance),
        }
    }

    open spec fn polyline(&self, boundary: CurveBoundary, tolerance: Tolerance) -> Seq<Point<1>> {
        match self {
            Path::Circle(circle) => circle.polyline(boundary, tolerance),
            Path::Line(line) => line.polyline(boundary, tolerance),
        }
    }

    fn generate_polyline(&self, boundary: CurveBoundary, tolerance: Tolerance) -> (r: Vec<
        Point<1>,
    >) {
        match self {
            Path::Circle(circle) => circle.generate_polyline(boundary, tolerance),
            Path::Line(line) => line.generate_polyline(boundary, tolerance),
        }
    }
}

/// The increment of a circle is greater than zero at every tolerance.
pub proof fn lemma_increment_positive<const D: usize>(circle: Circle<D>, tolerance: Tolerance)
    requires
        tolerance.wf(),
    ensures
        increment_for(circle.radius()@, tolerance.inner()@) > 0,
{
    lemma_vertex_count_exists(circle.radius()@, tolerance.inner()@);
    vstd::arithmetic::div_mod::lemma_div_is_ordered_by_denominator(
        TAU_RAW as int,
        crate::geometry::curves::circle::vertex_count(circle.radius()@, tolerance.inner()@),
        MAX_VERTICES as int,
    );
    assert(TAU_RAW as int / MAX_VERTICES as int == 63_243);
}

/// For one circle and one tolerance, two parameters strictly between the
/// same two neighbouring corners of the polyline give the same piece of it.
pub proof fn lemma_circle_segment_deterministic<const D: usize>(
    circle: Circle<D>,
    tolerance: Tolerance,
    first: Point<1>,
    second: Point<1>,
    corner: int,
)
    requires
        tolerance.wf(),
        ({
            let increment = increment_for(circle.radius()@, tolerance.inner()@);
            &&& corner * increment < first.t()@ < (corner + 1) * increment
            &&& corner * increment < second.t()@ < (corner + 1) * increment
        }),
    ensures
        circle.segment_coords(first, tolerance) == circle.segment_coords(second, tolerance),
{
    lemma_increment_positive(circle, tolerance);
    lemma_bracket_deterministic(
        first.t()@,
        second.t()@,
        increment_for(circle.radius()@, tolerance.inner()@),
        corner,
    );
}

/// Travelling a boundary the other way gives the same corners in the
/// opposite order.
pub proof fn lemma_polyline_reversed<const D: usize>(
    path: Path<D>,
    boundary: CurveBoundary,
    tolerance: Tolerance,
)
    requires
        tolerance.wf(),
    ensures
        path.polyline(boundary.reverse(), tolerance) == path.polyline(boundary, tolerance).reverse(),
{
    match path {
        Path::Circle(circle) => {
            lemma_increment_positive(circle, tolerance);
            lemma_polyline_reverse(
                boundary.start()@,
                boundary.end()@,
                increment_for(circle.radius()@, tolerance.inner()@),
            );
        },
        Path::Line(line) => {
            assert(Seq::<Point<1>>::empty().reverse() =~= Seq::<Point<1>>::empty());
        },
    }
}

/// A boundary whose two ends are the same has no corners inside.
pub proof fn lemma_polyline_of_empty_boundary<const D: usize>(
    path: Path<D>,
    boundary: CurveBoundary,
    tolerance: Tolerance,
)
    requires
        tolerance.wf(),
        boundary.start() == boundary.end(),
    ensures
        path.polyline(boundary, tolerance) == Seq::<Point<1>>::empty(),
{
    match path {
        Path::Circle(circle) => {
            lemma_increment_positive(circle, tolerance);
            lemma_polyline_empty(
                boundary.start()@,
                increment_for(circle.radius()@, tolerance.inner()@),
            );
        },
        Path::Line(line) => {},
    }
}

/// A line needs no approximation: the piece of its polyline at a parameter
/// is the point of the line there, twice, and no corner lies inside any
/// boundary, whatever the tolerance.
pub proof fn lemma_line_degenerate<const D: usize>(
    line: Line<D>,
    point: Point<1>,
    boundary: CurveBoundary,
    tolerance: Tolerance,
)
    ensures
        line.segment_coords(point, tolerance).0 == line.point_coords(point.t()),
        line.segment_coords(point, tolerance).1 == line.point_coords(point.t()),
        line.polyline(boundary, tolerance) == Seq::<Point<1>>::empty(),
        Path::Line(line).segment_coords(point, tolerance) == line.segment_coords(point, tolerance),
        Path::Line(line).polyline(boundary, tolerance) == Seq::<Point<1>>::empty(),
{
}

} // verus!
