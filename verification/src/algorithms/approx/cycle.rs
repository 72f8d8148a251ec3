//! Cycle approximation
//!
//! The approximation of a cycle is the approximations of its half-edges, one
//! after the other, all through the same cache. As every half-edge leaves
//! out its end, no vertex of the cycle comes twice.

use vstd::prelude::*;
use crate::algorithms::approx::edge::{
    cache_after,
    half_edge_approx,
    holds_all_of,
    lemma_cache_only_grows,
    CacheContents,
    HalfEdgeApprox,
    HalfEdgeApproxCache,
};
use crate::algorithms::approx::ApproxPoint;
use crate::geometry::store::{Geometry, HalfEdgeGeom};
use crate::geometry::surface::SweptCurve;
use crate::geometry::tolerance::Tolerance;
use crate::storage::{Handle, ObjectId};
use crate::topology::{Cycle, HalfEdge};

verus! {

/// An approximation of a cycle
#[derive(Debug, PartialEq, Eq, Hash, PartialOrd, Ord)]
pub struct CycleApprox {
    /// The approximations of the half-edges of the cycle, in order
    pub half_edges: Vec<HalfEdgeApprox>,
}

impl View for CycleApprox {
    type V = Seq<Seq<ApproxPoint<2>>>;

    open spec fn view(&self) -> Seq<Seq<ApproxPoint<2>>> {
        Seq::new(self.half_edges@.len(), |i: int| self.half_edges@[i]@)
    }
}

/// All the points of the given approximations, one approximation after the
/// other.
pub open spec fn all_points(parts: Seq<Seq<ApproxPoint<2>>>) -> Seq<ApproxPoint<2>>
    decreases parts.len(),
{
    if parts.len() == 0 {
        Seq::empty()
    } else {
        all_points(parts.drop_last()) + parts.last()
    }
}

/// Whether every one of the half-edges is defined in a geometry with the
/// half-edge definitions `defined`.
pub open spec fn all_defined(
    half_edges: Seq<Handle<HalfEdge>>,
    defined: Map<ObjectId, HalfEdgeGeom>,
) -> bool {
    forall|i: int| 0 <= i < half_edges.len() ==> defined.contains_key((#[trigger] half_edges[i]).id())
}

/// What the cache holds after the half-edges were approximated through it,
/// one after the other.
pub open spec fn cache_after_all(
    cache: CacheContents,
    half_edges: Seq<Handle<HalfEdge>>,
    defined: Map<ObjectId, HalfEdgeGeom>,
    surface: &SweptCurve,
    tolerance: Tolerance,
) -> CacheContents
    decreases half_edges.len(),
{
    if half_edges.len() == 0 {
        cache
    } else {
        cache_after(
            cache_after_all(cache, half_edges.drop_last(), defined, surface, tolerance),
            half_edges.last().get(),
            &defined[half_edges.last().id()],
            surface,
            tolerance,
        )
    }
}

/// The approximations of the half-edges, approximated one after the other
/// through a cache that holds `cache` at the start.
pub open spec fn cycle_approx(
    cache: CacheContents,
    half_edges: Seq<Handle<HalfEdge>>,
    defined: Map<ObjectId, HalfEdgeGeom>,
    surface: &SweptCurve,
    tolerance: Tolerance,
) -> Seq<Seq<ApproxPoint<2>>> {
    Seq::new(
        half_edges.len(),
        |i: int|
            half_edge_approx(
                cache_after_all(cache, half_edges.take(i), defined, surface, tolerance),
                half_edges[i].get(),
                &defined[half_edges[i].id()],
                surface,
                tolerance,
            ),
    )
}

/// The approximation of any number of half-edges changes nothing that the
/// cache holds.
pub proof fn lemma_cache_only_grows_all(
    cache: CacheContents,
    half_edges: Seq<Handle<HalfEdge>>,
    defined: Map<ObjectId, HalfEdgeGeom>,
    surface: &SweptCurve,
    tolerance: Tolerance,
)
    ensures
        holds_all_of(cache_after_all(cache, half_edges, defined, surface, tolerance), cache),
    decreases half_edges.len(),
{
    if half_edges.len() > 0 {
        lemma_cache_only_grows_all(cache, half_edges.drop_last(), defined, surface, tolerance);
        lemma_cache_only_grows(
            cache_after_all(cache, half_edges.drop_last(), defined, surface, tolerance),
            half_edges.last().get(),
            &defined[half_edges.last().id()],
            surface,
            tolerance,
        );
    }
}

/// Where two half-edges of a cycle start at the same vertex, both start at
/// the same point in space.
pub proof fn lemma_cycle_shares_vertices(
    cache: CacheContents,
    half_edges: Seq<Handle<HalfEdge>>,
    defined: Map<ObjectId, HalfEdgeGeom>,
    surface: &SweptCurve,
    tolerance: Tolerance,
    first: int,
    second: int,
)
    requires
        0 <= first < second < half_edges.len(),
        half_edges[first].get().start_vertex().id() == half_edges[second].get().start_vertex().id(),
    ensures
        cycle_approx(cache, half_edges, defined, surface, tolerance)[first][0].global_form
            == cycle_approx(cache, half_edges, defined, surface, tolerance)[second][0].global_form,
{
    let vertex = half_edges[first].get().start_vertex().id();
    let before_first = cache_after_all(cache, half_edges.take(first), defined, surface, tolerance);
    let after_first = cache_after_all(
        cache,
        half_edges.take(first + 1),
        defined,
        surface,
        tolerance,
    );
    let before_second = cache_after_all(
        cache,
        half_edges.take(second),
        defined,
        surface,
        tolerance,
    );
    assert(half_edges.take(first + 1).drop_last() =~= half_edges.take(first));
    assert(half_edges.take(first + 1).last() == half_edges[first]);
    lemma_cache_only_grows(
        before_first,
        half_edges[first].get(),
        &defined[half_edges[first].id()],
        surface,
        tolerance,
    );
    // what follows the first half-edge, up to the second one, starts from
    // the cache that the first one has left
    lemma_cache_after_all_split(cache, half_edges.take(second), defined, surface, tolerance, first + 1);
    assert(half_edges.take(second).take(first + 1) =~= half_edges.take(first + 1));
    lemma_cache_only_grows_all(
        after_first,
        half_edges.take(second).skip(first + 1),
        defined,
        surface,
        tolerance,
    );
    assert(before_second.vertices.contains_key(vertex));
}

/// Approximating half-edges one after the other is approximating the first
/// `n` of them, and then the others through the cache that those have left.
pub proof fn lemma_cache_after_all_split(
    cache: CacheContents,
    half_edges: Seq<Handle<HalfEdge>>,
    defined: Map<ObjectId, HalfEdgeGeom>,
    surface: &SweptCurve,
    tolerance: Tolerance,
    n: int,
)
    requires
        0 <= n <= half_edges.len(),
    ensures
        cache_after_all(cache, half_edges, defined, surface, tolerance) == cache_after_all(
            cache_after_all(cache, half_edges.take(n), defined, surface, tolerance),
            half_edges.skip(n),
            defined,
            surface,
            tolerance,
        ),
    decreases half_edges.len() - n,
{
    if n == half_edges.len() {
        assert(half_edges.take(n) =~= half_edges);
        assert(half_edges.skip(n) =~= Seq::<Handle<HalfEdge>>::empty());
    } else {
        let shorter = half_edges.drop_last();
        lemma_cache_after_all_split(cache, shorter, defined, surface, tolerance, n);
        assert(shorter.take(n) =~= half_edges.take(n));
        assert(half_edges.skip(n).drop_last() =~= shorter.skip(n));
        assert(half_edges.skip(n).last() == half_edges.last());
    }
}

impl CycleApprox {
    /// All the points of the approximation, in the order of the cycle.
    pub fn points(&self) -> (r: Vec<ApproxPoint<2>>)
        ensures
            r@ == all_points(self@),
    {
        let n = self.half_edges.len();
        let mut out: Vec<ApproxPoint<2>> = Vec::new();
        let mut i: usize = 0;
        proof {
            assert(self@.take(0) =~= Seq::<Seq<ApproxPoint<2>>>::empty());
        }
        while i < n
            invariant
                n == self.half_edges.len(),
                i <= n,
                out@ == all_points(self@.take(i as int)),
            decreases n - i,
        {
            let part = &self.half_edges[i].points;
            let m = part.len();
            let ghost before = out@;
            let mut j: usize = 0;
            while j < m
                invariant
                    m == part.len(),
                    j <= m,
                    out@ == before + part@.take(j as int),
                decreases m - j,
            {
                out.push(part[j]);
                assert(part@.take(j + 1) =~= part@.take(j as int).push(part[j as int]));
                assert(before + part@.take(j + 1) =~= (before + part@.take(j as int)).push(
                    part[j as int],
                ));
                j += 1;
            }
            proof {
                assert(part@.take(m as int) =~= part@);
                assert(self@.take(i + 1).drop_last() =~= self@.take(i as int));
                assert(self@.take(i + 1).last() == part@);
            }
            i += 1;
        }
        assert(self@.take(n as int) =~= self@);
        out
    }
}

/// The approximation of `cycle` on `surface`: the approximations of its
/// half-edges in order, each one worked out through `cache` as the ones
/// before it have left it. Every half-edge of the cycle must be defined in
/// `geometry`.
pub fn approx_with_cache(
    cycle: &Cycle,
    surface: &SweptCurve,
    tolerance: Tolerance,
    cache: &mut HalfEdgeApproxCache,
    geometry: &Geometry,
) -> (r: CycleApprox)
    requires
        all_defined(cycle.spec_half_edges(), geometry.half_edges()),
    ensures
        r@ == cycle_approx(
            old(cache)@,
            cycle.spec_half_edges(),
            geometry.half_edges(),
            surface,
            tolerance,
        ),
        final(cache)@ == cache_after_all(
            old(cache)@,
            cycle.spec_half_edges(),
            geometry.half_edges(),
            surface,
            tolerance,
        ),
{
    let half_edges = cycle.half_edges();
    let n = half_edges.len();
    let ghost want = cycle_approx(old(cache)@, half_edges@, geometry.half_edges(), surface, tolerance);
    let mut parts: Vec<HalfEdgeApprox> = Vec::new();
    let mut i: usize = 0;
    proof {
        assert(half_edges@.take(0) =~= Seq::<Handle<HalfEdge>>::empty());
    }
    while i < n
        invariant
            n == half_edges.len(),
            i <= n,
            all_defined(half_edges@, geometry.half_edges()),
            want == cycle_approx(old(cache)@, half_edges@, geometry.half_edges(), surface, tolerance),
            parts.len() == i,
            forall|k: int| 0 <= k < i ==> (#[trigger] parts[k])@ == want[k],
            cache@ == cache_after_all(
                old(cache)@,
                half_edges@.take(i as int),
                geometry.half_edges(),
                surface,
                tolerance,
            ),
        decreases n - i,
    {
        let part = crate::algorithms::approx::edge::approx_with_cache(
            &half_edges[i],
            surface,
            tolerance,
            cache,
            geometry,
        );
        proof {
            assert(half_edges@.take(i + 1).drop_last() =~= half_edges@.take(i as int));
            assert(half_edges@.take(i + 1).last() == half_edges[i as int]);
        }
        parts.push(part);
        i += 1;
    }
    assert(half_edges@.take(n as int) =~= half_edges@);
    let r = CycleApprox { half_edges: parts };
    assert(r@ =~= want);
    r
}

} // verus!
