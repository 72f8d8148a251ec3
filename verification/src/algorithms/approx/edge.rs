//! Edge approximation
//!
//! The approximation of a half-edge is its first vertex, followed by the
//! approximation of its curve. The second vertex is left out: half-edge
//! approximations are put together into cycle approximations, where the
//! second vertex of one half-edge is the first of the next.

use vstd::prelude::*;
use crate::algorithms::approx::curve::{
    consistent,
    curve_approx,
    curve_cache_after,
    curve_points,
    global_point,
    lemma_cache_answers_again,
    lemma_cache_stays_consistent,
    CurveApproxCache,
    CurveKey,
};
use crate::algorithms::approx::vertex::{vertex_cache_after, vertex_position, VertexApproxCache};
use crate::algorithms::approx::ApproxPoint;
use crate::geometry::path::surface_point_on;
use crate::geometry::store::{Geometry, HalfEdgeGeom};
use crate::geometry::surface::SweptCurve;
use crate::geometry::tolerance::Tolerance;
use crate::math::point::Point;
use crate::storage::{Handle, ObjectId};
use crate::topology::HalfEdge;

verus! {

/// An approximation of a half-edge
#[derive(Debug, PartialEq, Eq, Hash, PartialOrd, Ord)]
pub struct HalfEdgeApprox {
    /// The points that approximate the half-edge
    pub points: Vec<ApproxPoint<2>>,
}

impl View for HalfEdgeApprox {
    type V = Seq<ApproxPoint<2>>;

    open spec fn view(&self) -> Seq<ApproxPoint<2>> {
        self.points@
    }
}

/// Cache for half-edge approximations: the positions of the vertices and
/// the approximations of the curves that were met so far.
pub struct HalfEdgeApproxCache {
    start_position: VertexApproxCache,
    curve: CurveApproxCache,
}

/// What a cache for half-edge approximations holds.
pub struct CacheContents {
    /// The position in space of every vertex that was met
    pub vertices: Map<ObjectId, Point<3>>,
    /// The approximation of every stretch of a curve that was met
    pub curves: Map<CurveKey, Seq<ApproxPoint<1>>>,
}

impl View for HalfEdgeApproxCache {
    type V = CacheContents;

    closed spec fn view(&self) -> CacheContents {
        CacheContents { vertices: self.start_position@, curves: self.curve@ }
    }
}

impl HalfEdgeApproxCache {
    /// A cache that holds nothing.
    pub fn new() -> (r: Self)
        ensures
            r@.vertices == Map::<ObjectId, Point<3>>::empty(),
            r@.curves == Map::<CurveKey, Seq<ApproxPoint<1>>>::empty(),
    {
        HalfEdgeApproxCache { start_position: VertexApproxCache::new(), curve: CurveApproxCache::new() }
    }

    /// The position that is held for a vertex, if there is one.
    pub fn start_position(&self, vertex: ObjectId) -> (r: Option<Point<3>>)
        ensures
            r == if self@.vertices.contains_key(vertex) {
                Some(self@.vertices[vertex])
            } else {
                None
            },
    {
        self.start_position.get_by_id(vertex)
    }
}

/// The point of a half-edge approximation for the point `point` of the
/// approximation of its curve: the same point in space, and where the path
/// of the half-edge is on the surface at that curve parameter.
pub open spec fn on_surface(geometry: &HalfEdgeGeom, point: ApproxPoint<1>) -> ApproxPoint<2> {
    ApproxPoint {
        local_form: surface_point_on(&geometry.path, point.local_form),
        global_form: point.global_form,
    }
}

/// The approximation of the curve of a half-edge, worked out afresh.
pub open spec fn fresh_curve(
    geometry: &HalfEdgeGeom,
    surface: &SweptCurve,
    tolerance: Tolerance,
) -> Seq<ApproxPoint<1>> {
    curve_points(&geometry.path, surface, geometry.boundary, tolerance)
}

/// The position in space of the start of a half-edge, worked out afresh.
pub open spec fn fresh_start(
    geometry: &HalfEdgeGeom,
    surface: &SweptCurve,
    tolerance: Tolerance,
) -> Point<3> {
    global_point(surface, geometry.start_position(), tolerance)
}

/// The approximation of a half-edge with a cache that holds `cache`: the
/// start of the half-edge, then the points of its curve. The position of
/// the start and the points of the curve are those of the cache where it
/// has them.
pub open spec fn half_edge_approx(
    cache: CacheContents,
    half_edge: &HalfEdge,
    geometry: &HalfEdgeGeom,
    surface: &SweptCurve,
    tolerance: Tolerance,
) -> Seq<ApproxPoint<2>> {
    let first = ApproxPoint {
        local_form: geometry.start_position(),
        global_form: vertex_position(
            cache.vertices,
            half_edge.start_vertex().id(),
            fresh_start(geometry, surface, tolerance),
        ),
    };
    let rest = curve_approx(
        cache.curves,
        half_edge.curve().id(),
        geometry.boundary,
        fresh_curve(geometry, surface, tolerance),
    );
    seq![first] + rest.map_values(|point: ApproxPoint<1>| on_surface(geometry, point))
}

/// What the cache holds after the approximation of a half-edge: what it
/// held before, and what had to be worked out for the half-edge.
pub open spec fn cache_after(
    cache: CacheContents,
    half_edge: &HalfEdge,
    geometry: &HalfEdgeGeom,
    surface: &SweptCurve,
    tolerance: Tolerance,
) -> CacheContents {
    CacheContents {
        vertices: vertex_cache_after(
            cache.vertices,
            half_edge.start_vertex().id(),
            fresh_start(geometry, surface, tolerance),
        ),
        curves: curve_cache_after(
            cache.curves,
            half_edge.curve().id(),
            geometry.boundary,
            fresh_curve(geometry, surface, tolerance),
        ),
    }
}

/// The approximation of `half_edge` on `surface`: the start of the
/// half-edge, then the points of its curve strictly inside its boundary.
/// The end of the half-edge is left out.
///
/// The position of the start vertex and the points of the curve come from
/// `cache` where it has them; else they are worked out and kept in it. The
/// half-edge must be defined in `geometry`.
pub fn approx_with_cache(
    half_edge: &Handle<HalfEdge>,
    surface: &SweptCurve,
    tolerance: Tolerance,
    cache: &mut HalfEdgeApproxCache,
    geometry: &Geometry,
) -> (r: HalfEdgeApprox)
    requires
        geometry.half_edges().contains_key(half_edge.id()),
    ensures
        r@ == half_edge_approx(
            old(cache)@,
            half_edge.get(),
            &geometry.half_edges()[half_edge.id()],
            surface,
            tolerance,
        ),
        final(cache)@ == cache_after(
            old(cache)@,
            half_edge.get(),
            &geometry.half_edges()[half_edge.id()],
            surface,
            tolerance,
        ),
{
    let geom = geometry.of_half_edge(half_edge).unwrap();
    let start_vertex = half_edge.get().start_vertex();

    let start_position_surface = geom.start_position();
    let start_position = match cache.start_position.get(start_vertex) {
        Some(position) => position,
        None => {
            let position_global = surface.point_from_surface_coords(
                start_position_surface,
                tolerance,
            );
            proof {
                crate::math::point::lemma_point3_of(position_global);
            }
            cache.start_position.insert(start_vertex, position_global)
        },
    };
    let ghost vertices = cache.start_position@;
    assert(vertices =~= vertex_cache_after(
        old(cache)@.vertices,
        start_vertex.id(),
        fresh_start(&geom, surface, tolerance),
    ));

    let first = ApproxPoint::new(start_position_surface, start_position);

    let approx = crate::algorithms::approx::curve::approx_with_cache(
        half_edge.get().curve(),
        &geom.path,
        surface,
        geom.boundary,
        tolerance,
        &mut cache.curve,
    );

    let ghost want = half_edge_approx(old(cache)@, half_edge.get(), &geom, surface, tolerance);
    let n = approx.inner.len();
    let mut points: Vec<ApproxPoint<2>> = Vec::new();
    points.push(first);
    assert(points@ =~= want.take(1));
    let mut i: usize = 0;
    while i < n
        invariant
            n == approx.inner.len(),
            i <= n,
            want.len() == n + 1,
            forall|k: int| 0 <= k < n ==> want[k + 1] == on_surface(&geom, #[trigger] approx.inner[k]),
            points@ == want.take(i + 1),
        decreases n - i,
    {
        let point = approx.inner[i];
        let point_surface = geom.path.surface_point(point.local_form);
        points.push(ApproxPoint::new(point_surface, point.global_form));
        assert(want.take(i + 2) =~= want.take(i + 1).push(want[i + 1]));
        i += 1;
    }
    assert(want.take(n + 1) =~= want);
    assert(cache@ == cache_after(old(cache)@, half_edge.get(), &geom, surface, tolerance));

    HalfEdgeApprox { points }
}

/// Whether `later` holds all that `earlier` holds, unchanged.
pub open spec fn holds_all_of(later: CacheContents, earlier: CacheContents) -> bool {
    &&& forall|vertex: ObjectId| #[trigger]
        earlier.vertices.contains_key(vertex) ==> later.vertices.contains_key(vertex)
            && later.vertices[vertex] == earlier.vertices[vertex]
    &&& forall|key: CurveKey| #[trigger]
        earlier.curves.contains_key(key) ==> later.curves.contains_key(key) && later.curves[key]
            == earlier.curves[key]
}

/// The approximation of a half-edge changes nothing that the cache holds,
/// and leaves the position of the start vertex in it: the one that the
/// approximation starts with.
pub proof fn lemma_cache_only_grows(
    cache: CacheContents,
    half_edge: &HalfEdge,
    geometry: &HalfEdgeGeom,
    surface: &SweptCurve,
    tolerance: Tolerance,
)
    ensures
        holds_all_of(cache_after(cache, half_edge, geometry, surface, tolerance), cache),
        cache_after(cache, half_edge, geometry, surface, tolerance).vertices.contains_key(
            half_edge.start_vertex().id(),
        ),
        cache_after(cache, half_edge, geometry, surface, tolerance).vertices[half_edge.start_vertex().id()]
            == half_edge_approx(cache, half_edge, geometry, surface, tolerance)[0].global_form,
{
}

/// A half-edge that starts at a vertex whose position the cache holds
/// starts at that position in space, whatever its own geometry would give
/// for it.
pub proof fn lemma_held_vertex_is_used(
    cache: CacheContents,
    half_edge: &HalfEdge,
    geometry: &HalfEdgeGeom,
    surface: &SweptCurve,
    tolerance: Tolerance,
)
    requires
        cache.vertices.contains_key(half_edge.start_vertex().id()),
    ensures
        half_edge_approx(cache, half_edge, geometry, surface, tolerance)[0].global_form
            == cache.vertices[half_edge.start_vertex().id()],
{
}

/// Two half-edges that start at the same vertex and are approximated one
/// after the other through the same cache start at the same point in space,
/// whatever their own geometry would give for it.
pub proof fn lemma_shared_start_vertex(
    cache: CacheContents,
    first: &HalfEdge,
    first_geometry: &HalfEdgeGeom,
    first_surface: &SweptCurve,
    second: &HalfEdge,
    second_geometry: &HalfEdgeGeom,
    second_surface: &SweptCurve,
    tolerance: Tolerance,
)
    requires
        first.start_vertex().id() == second.start_vertex().id(),
    ensures
        half_edge_approx(
            cache_after(cache, first, first_geometry, first_surface, tolerance),
            second,
            second_geometry,
            second_surface,
            tolerance,
        )[0].global_form == half_edge_approx(
            cache,
            first,
            first_geometry,
            first_surface,
            tolerance,
        )[0].global_form,
{
}

/// Two half-edges on the same curve that cover the same stretch of it in
/// opposite directions, approximated one after the other through the same
/// cache, have the same points in space on the curve, in opposite order.
pub proof fn lemma_shared_curve(
    cache: CacheContents,
    first: &HalfEdge,
    first_geometry: &HalfEdgeGeom,
    first_surface: &SweptCurve,
    second: &HalfEdge,
    second_geometry: &HalfEdgeGeom,
    second_surface: &SweptCurve,
    tolerance: Tolerance,
)
    requires
        consistent(cache.curves),
        first.curve().id() == second.curve().id(),
        second_geometry.boundary == first_geometry.boundary.reverse(),
        first_geometry.boundary.start() != first_geometry.boundary.end(),
    ensures
        ({
            let a = half_edge_approx(cache, first, first_geometry, first_surface, tolerance);
            let b = half_edge_approx(
                cache_after(cache, first, first_geometry, first_surface, tolerance),
                second,
                second_geometry,
                second_surface,
                tolerance,
            );
            &&& a.len() == b.len()
            &&& forall|k: int|
                1 <= k < a.len() ==> (#[trigger] b[k]).global_form == a[a.len() - k].global_form
        }),
{
    let id = first.curve().id();
    let fresh = fresh_curve(first_geometry, first_surface, tolerance);
    let other = fresh_curve(second_geometry, second_surface, tolerance);
    lemma_cache_answers_again(cache.curves, id, first_geometry.boundary, fresh, other);
    let there = curve_approx(cache.curves, id, first_geometry.boundary, fresh);
    let back = curve_approx(
        curve_cache_after(cache.curves, id, first_geometry.boundary, fresh),
        id,
        second_geometry.boundary,
        other,
    );
    assert(back == there.reverse());
    let a = half_edge_approx(cache, first, first_geometry, first_surface, tolerance);
    let b = half_edge_approx(
        cache_after(cache, first, first_geometry, first_surface, tolerance),
        second,
        second_geometry,
        second_surface,
        tolerance,
    );
    assert(a.len() == there.len() + 1);
    assert(b.len() == back.len() + 1);
    assert forall|k: int| 1 <= k < a.len() implies (#[trigger] b[k]).global_form == a[a.len()
        - k].global_form by {
        assert(b[k] == on_surface(second_geometry, back[k - 1]));
        assert(back[k - 1] == there[there.len() - k]);
        assert(a[a.len() - k] == on_surface(first_geometry, there[there.len() - k]));
    }
}

/// A cache that answers alike for both directions of travel still does so
/// after the approximation of a half-edge.
pub proof fn lemma_cache_after_consistent(
    cache: CacheContents,
    half_edge: &HalfEdge,
    geometry: &HalfEdgeGeom,
    surface: &SweptCurve,
    tolerance: Tolerance,
)
    requires
        consistent(cache.curves),
    ensures
        consistent(cache_after(cache, half_edge, geometry, surface, tolerance).curves),
{
    lemma_cache_stays_consistent(
        cache.curves,
        half_edge.curve().id(),
        geometry.boundary,
        fresh_curve(geometry, surface, tolerance),
    );
}

} // verus!
