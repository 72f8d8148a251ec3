//! Approximation of a stretch of a curve on a surface.

pub mod points;

use std::collections::BTreeMap;
use vstd::prelude::*;
use crate::algorithms::approx::curve::points::CurveApproxPoints;
use crate::algorithms::approx::ApproxPoint;
use crate::geometry::boundary::CurveBoundary;
use crate::geometry::curve::GenPolyline;
use crate::geometry::path::{surface_point_on, Path};
use crate::geometry::surface::SweptCurve;
use crate::geometry::tolerance::Tolerance;
use crate::geometry::util::tri_mesh::surface_point;
use crate::math::point::{lemma_point3_of, point3_of, Point};
use crate::storage::{Handle, ObjectId};
use crate::topology::Curve;

verus! {

broadcast use vstd::laws_cmp::group_laws_cmp;

/// What a stretch of a curve is kept under: the identity of the curve and
/// the raw values of the two ends of the stretch, in the order of travel.
pub type CurveKey = (ObjectId, i64, i64);

/// The key for the stretch `boundary` of the curve `id`.
pub open spec fn curve_key(id: ObjectId, boundary: CurveBoundary) -> CurveKey {
    (id, boundary.start().raw, boundary.end().raw)
}

/// The approximation that a cache gives for a stretch of a curve: the one
/// kept for the stretch; else the one kept for the same stretch travelled
/// the other way, turned round; else none.
pub open spec fn cached_curve(
    cache: Map<CurveKey, Seq<ApproxPoint<1>>>,
    id: ObjectId,
    boundary: CurveBoundary,
) -> Option<Seq<ApproxPoint<1>>> {
    if cache.contains_key(curve_key(id, boundary)) {
        Some(cache[curve_key(id, boundary)])
    } else if cache.contains_key(curve_key(id, boundary.reverse())) {
        Some(cache[curve_key(id, boundary.reverse())].reverse())
    } else {
        None
    }
}

/// The point in space that stands for the surface point `point`.
pub open spec fn global_point(surface: &SweptCurve, point: Point<2>, tolerance: Tolerance) -> Point<
    3,
> {
    point3_of(surface_point(surface, point, tolerance))
}

/// The approximation point for the curve parameter `point`: the parameter
/// itself, and where the curve is there in space.
pub open spec fn curve_point(
    path: &Path<2>,
    surface: &SweptCurve,
    point: Point<1>,
    tolerance: Tolerance,
) -> ApproxPoint<1> {
    ApproxPoint {
        local_form: point,
        global_form: global_point(surface, surface_point_on(path, point), tolerance),
    }
}

/// The approximation of the stretch `boundary` of the curve `path` on
/// `surface`, worked out afresh: one point for every corner of the polyline
/// of the curve strictly inside the stretch.
pub open spec fn curve_points(
    path: &Path<2>,
    surface: &SweptCurve,
    boundary: CurveBoundary,
    tolerance: Tolerance,
) -> Seq<ApproxPoint<1>> {
    path.polyline(boundary, tolerance).map_values(
        |point: Point<1>| curve_point(path, surface, point, tolerance),
    )
}

/// The approximation of a stretch of a curve as a cache answers for it, with
/// `fresh` at hand in case the cache has none.
pub open spec fn curve_approx(
    cache: Map<CurveKey, Seq<ApproxPoint<1>>>,
    id: ObjectId,
    boundary: CurveBoundary,
    fresh: Seq<ApproxPoint<1>>,
) -> Seq<ApproxPoint<1>> {
    match cached_curve(cache, id, boundary) {
        Some(held) => held,
        None => fresh,
    }
}

/// The cache after it has answered for a stretch of a curve with `fresh` at
/// hand: `fresh` is kept where the cache had no answer, and nothing else
/// changes.
pub open spec fn curve_cache_after(
    cache: Map<CurveKey, Seq<ApproxPoint<1>>>,
    id: ObjectId,
    boundary: CurveBoundary,
    fresh: Seq<ApproxPoint<1>>,
) -> Map<CurveKey, Seq<ApproxPoint<1>>> {
    if cached_curve(cache, id, boundary) is Some {
        cache
    } else {
        cache.insert(curve_key(id, boundary), fresh)
    }
}

/// Whether the cache answers alike for both directions of travel: where it
/// keeps a stretch under both of its directions, one of the two
/// approximations is the other turned round.
pub open spec fn consistent(cache: Map<CurveKey, Seq<ApproxPoint<1>>>) -> bool {
    forall|id: ObjectId, a: i64, b: i64|
        a != b && #[trigger] cache.contains_key((id, a, b)) && #[trigger] cache.contains_key(
            (id, b, a),
        ) ==> cache[(id, b, a)] == cache[(id, a, b)].reverse()
}

/// A cache that answers alike for both directions of travel still does so
/// after it has answered for one more stretch.
pub proof fn lemma_cache_stays_consistent(
    cache: Map<CurveKey, Seq<ApproxPoint<1>>>,
    id: ObjectId,
    boundary: CurveBoundary,
    fresh: Seq<ApproxPoint<1>>,
)
    requires
        consistent(cache),
    ensures
        consistent(curve_cache_after(cache, id, boundary, fresh)),
{
    boundary.lemma_reverse_twice();
}

/// What a cache has answered for a stretch, it answers again, and for the
/// same stretch travelled the other way it answers with the same points in
/// the opposite order.
pub proof fn lemma_cache_answers_again(
    cache: Map<CurveKey, Seq<ApproxPoint<1>>>,
    id: ObjectId,
    boundary: CurveBoundary,
    fresh: Seq<ApproxPoint<1>>,
    other: Seq<ApproxPoint<1>>,
)
    requires
        consistent(cache),
    ensures
        curve_approx(curve_cache_after(cache, id, boundary, fresh), id, boundary, other)
            == curve_approx(cache, id, boundary, fresh),
        boundary.start() != boundary.end() ==> curve_approx(
            curve_cache_after(cache, id, boundary, fresh),
            id,
            boundary.reverse(),
            other,
        ) == curve_approx(cache, id, boundary, fresh).reverse(),
{
    boundary.lemma_reverse_twice();
    let held = curve_approx(cache, id, boundary, fresh);
    assert(held.reverse().reverse() =~= held);
    if cache.contains_key(curve_key(id, boundary)) {
    } else if cache.contains_key(curve_key(id, boundary.reverse())) {
        let kept = cache[curve_key(id, boundary.reverse())];
        assert(kept.reverse().reverse() =~= kept);
    } else {
    }
}

/// The approximations that were worked out for stretches of curves. What is
/// in it is never changed or taken out.
pub struct CurveApproxCache {
    inner: BTreeMap<CurveKey, CurveApproxPoints>,
}

impl View for CurveApproxCache {
    type V = Map<CurveKey, Seq<ApproxPoint<1>>>;

    closed spec fn view(&self) -> Map<CurveKey, Seq<ApproxPoint<1>>> {
        Map::new(|key: CurveKey| self.inner@.contains_key(key), |key: CurveKey| self.inner@[key]@)
    }
}

impl CurveApproxCache {
    /// A cache that holds nothing.
    pub fn new() -> (r: Self)
        ensures
            r@ == Map::<CurveKey, Seq<ApproxPoint<1>>>::empty(),
    {
        let r = CurveApproxCache { inner: BTreeMap::new() };
        assert(r@ =~= Map::<CurveKey, Seq<ApproxPoint<1>>>::empty());
        r
    }

    /// The approximation that is held for the stretch `boundary` of the
    /// curve, or for the same stretch travelled the other way; that one is
    /// handed out turned round.
    pub fn get(&self, handle: &Handle<Curve>, boundary: CurveBoundary) -> (r: Option<
        CurveApproxPoints,
    >)
        ensures
            match r {
                Some(points) => cached_curve(self@, handle.id(), boundary) == Some(points@),
                None => cached_curve(self@, handle.id(), boundary) is None,
            },
    {
        let key: CurveKey = (handle.id(), boundary.start().raw, boundary.end().raw);
        if let Some(held) = self.inner.get(&key) {
            return Some(held.duplicate());
        }
        let reversed = boundary.reverse();
        let key: CurveKey = (handle.id(), reversed.start().raw, reversed.end().raw);
        if let Some(held) = self.inner.get(&key) {
            let mut turned = held.duplicate();
            turned.reverse();
            return Some(turned);
        }
        None
    }

    /// Holds `approx` for the stretch `boundary` of the curve unless the
    /// cache has an answer for that stretch already, and returns the answer
    /// that it has afterwards.
    pub fn insert(
        &mut self,
        handle: &Handle<Curve>,
        boundary: CurveBoundary,
        approx: CurveApproxPoints,
    ) -> (r: CurveApproxPoints)
        ensures
            r@ == curve_approx(old(self)@, handle.id(), boundary, approx@),
            final(self)@ == curve_cache_after(old(self)@, handle.id(), boundary, approx@),
    {
        match self.get(handle, boundary) {
            Some(held) => held,
            None => {
                let key: CurveKey = (handle.id(), boundary.start().raw, boundary.end().raw);
                let kept = approx.duplicate();
                self.inner.insert(key, approx);
                assert(self@ =~= curve_cache_after(old(self)@, handle.id(), boundary, kept@));
                kept
            },
        }
    }
}

/// The approximation of the stretch `boundary` of the curve `path` on
/// `surface`, worked out afresh.
pub fn approx_curve(
    path: &Path<2>,
    surface: &SweptCurve,
    boundary: CurveBoundary,
    tolerance: Tolerance,
) -> (r: CurveApproxPoints)
    ensures
        r@ == curve_points(path, surface, boundary, tolerance),
{
    let params = path.generate_polyline(boundary, tolerance);
    let n = params.len();
    let ghost want = curve_points(path, surface, boundary, tolerance);
    let mut points: Vec<ApproxPoint<1>> = Vec::new();
    let mut i: usize = 0;
    while i < n
        invariant
            n == params.len(),
            i <= n,
            params@ == path.polyline(boundary, tolerance),
            want == curve_points(path, surface, boundary, tolerance),
            points@ == want.take(i as int),
        decreases n - i,
    {
        let point_curve = params[i];
        let point_surface = path.surface_point(point_curve);
        let point_global = surface.point_from_surface_coords(point_surface, tolerance);
        proof {
            lemma_point3_of(point_global);
        }
        points.push(ApproxPoint::new(point_curve, point_global));
        assert(want.take(i + 1) =~= want.take(i as int).push(want[i as int]));
        i += 1;
    }
    assert(want.take(n as int) =~= want);
    CurveApproxPoints::from_points(points)
}

/// The approximation of the stretch `boundary` of `curve`, whose path on
/// `surface` is `path`: from the cache where it has an answer, else worked
/// out afresh and kept in the cache.
pub fn approx_with_cache(
    curve: &Handle<Curve>,
    path: &Path<2>,
    surface: &SweptCurve,
    boundary: CurveBoundary,
    tolerance: Tolerance,
    cache: &mut CurveApproxCache,
) -> (r: CurveApproxPoints)
    ensures
        r@ == curve_approx(
            old(cache)@,
            curve.id(),
            boundary,
            curve_points(path, surface, boundary, tolerance),
        ),
        final(cache)@ == curve_cache_after(
            old(cache)@,
            curve.id(),
            boundary,
            curve_points(path, surface, boundary, tolerance),
        ),
{
    match cache.get(curve, boundary) {
        Some(approx) => approx,
        None => {
            let approx = approx_curve(path, surface, boundary, tolerance);
            cache.insert(curve, boundary, approx)
        },
    }
}

} // verus!
