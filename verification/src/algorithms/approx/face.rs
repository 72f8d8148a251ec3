//! Face approximation
//!
//! The approximation of a face is the approximations of its cycles, the
//! outer one first, all through the same cache.

use vstd::prelude::*;
use crate::algorithms::approx::cycle::{
    all_defined,
    cache_after_all,
    cycle_approx,
    CycleApprox,
};
use crate::algorithms::approx::edge::{CacheContents, HalfEdgeApproxCache};
use crate::algorithms::approx::ApproxPoint;
use crate::geometry::store::{Geometry, HalfEdgeGeom};
use crate::geometry::surface::SweptCurve;
use crate::geometry::tolerance::Tolerance;
use crate::storage::ObjectId;
use crate::topology::{Cycle, Face};

verus! {

/// An approximation of a face
#[derive(Debug, PartialEq, Eq, Hash, PartialOrd, Ord)]
pub struct FaceApprox {
    /// The approximations of the cycles of the face, the outer one first
    pub cycles: Vec<CycleApprox>,
}

impl View for FaceApprox {
    type V = Seq<Seq<Seq<ApproxPoint<2>>>>;

    open spec fn view(&self) -> Seq<Seq<Seq<ApproxPoint<2>>>> {
        Seq::new(self.cycles@.len(), |i: int| self.cycles@[i]@)
    }
}

/// Whether every half-edge of every one of the cycles is defined in a
/// geometry with the half-edge definitions `defined`.
pub open spec fn all_cycles_defined(cycles: Seq<Cycle>, defined: Map<ObjectId, HalfEdgeGeom>) -> bool {
    forall|i: int|
        0 <= i < cycles.len() ==> all_defined((#[trigger] cycles[i]).spec_half_edges(), defined)
}

/// What the cache holds after the cycles were approximated through it, one
/// after the other.
pub open spec fn cache_after_cycles(
    cache: CacheContents,
    cycles: Seq<Cycle>,
    defined: Map<ObjectId, HalfEdgeGeom>,
    surface: &SweptCurve,
    tolerance: Tolerance,
) -> CacheContents
    decreases cycles.len(),
{
    if cycles.len() == 0 {
        cache
    } else {
        cache_after_all(
            cache_after_cycles(cache, cycles.drop_last(), defined, surface, tolerance),
            cycles.last().spec_half_edges(),
            defined,
            surface,
            tolerance,
        )
    }
}

/// The approximations of the cycles, approximated one after the other
/// through a cache that holds `cache` at the start.
pub open spec fn face_approx(
    cache: CacheContents,
    cycles: Seq<Cycle>,
    defined: Map<ObjectId, HalfEdgeGeom>,
    surface: &SweptCurve,
    tolerance: Tolerance,
) -> Seq<Seq<Seq<ApproxPoint<2>>>> {
    Seq::new(
        cycles.len(),
        |i: int|
            cycle_approx(
                cache_after_cycles(cache, cycles.take(i), defined, surface, tolerance),
                cycles[i].spec_half_edges(),
                defined,
                surface,
                tolerance,
            ),
    )
}

/// The approximation of `face`: the approximations of its cycles, the outer
/// one first, each one worked out through `cache` as the ones before it
/// have left it. The surface of the face and every half-edge of its cycles
/// must be defined in `geometry`.
pub fn approx_with_cache(
    face: &Face,
    tolerance: Tolerance,
    cache: &mut HalfEdgeApproxCache,
    geometry: &Geometry,
) -> (r: FaceApprox)
    requires
        geometry.surfaces().contains_key(face.surface().id()),
        all_cycles_defined(face.region().spec_all_cycles(), geometry.half_edges()),
    ensures
        r@ == face_approx(
            old(cache)@,
            face.region().spec_all_cycles(),
            geometry.half_edges(),
            &geometry.surfaces()[face.surface().id()],
            tolerance,
        ),
        final(cache)@ == cache_after_cycles(
            old(cache)@,
            face.region().spec_all_cycles(),
            geometry.half_edges(),
            &geometry.surfaces()[face.surface().id()],
            tolerance,
        ),
{
    let surface = geometry.of_surface(face.surface()).unwrap();
    let cycles = face.region().all_cycles();
    let n = cycles.len();
    let ghost want = face_approx(old(cache)@, cycles@, geometry.half_edges(), &surface, tolerance);
    let mut parts: Vec<CycleApprox> = Vec::new();
    let mut i: usize = 0;
    proof {
        assert(cycles@.take(0) =~= Seq::<Cycle>::empty());
    }
    while i < n
        invariant
            n == cycles.len(),
            i <= n,
            all_cycles_defined(cycles@, geometry.half_edges()),
            want == face_approx(old(cache)@, cycles@, geometry.half_edges(), &surface, tolerance),
            parts.len() == i,
            forall|k: int| 0 <= k < i ==> (#[trigger] parts[k])@ == want[k],
            cache@ == cache_after_cycles(
                old(cache)@,
                cycles@.take(i as int),
                geometry.half_edges(),
                &surface,
                tolerance,
            ),
        decreases n - i,
    {
        let part = crate::algorithms::approx::cycle::approx_with_cache(
            &cycles[i],
            &surface,
            tolerance,
            cache,
            geometry,
        );
        proof {
            assert(cycles@.take(i + 1).drop_last() =~= cycles@.take(i as int));
            assert(cycles@.take(i + 1).last() == cycles[i as int]);
        }
        parts.push(part);
        i += 1;
    }
    assert(cycles@.take(n as int) =~= cycles@);
    let r = FaceApprox { cycles: parts };
    assert(r@ =~= want);
    r
}

} // verus!
