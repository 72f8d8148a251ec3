//! The two half-edges of an edge: each is the sibling of the other.

use vstd::prelude::*;
use crate::geometry::store::Geometry;
use crate::storage::{Handle, ObjectId};
use crate::topology::{Cycle, HalfEdge, Shell};

verus! {

/// The place of the first half-edge with the identity `id` in `cycle`, or
/// the length of `cycle` if there is none.
pub open spec fn place_in(cycle: Seq<Handle<HalfEdge>>, id: ObjectId) -> int
    decreases cycle.len(),
{
    if cycle.len() == 0 {
        0
    } else if cycle[0].id() == id {
        0
    } else {
        1 + place_in(cycle.drop_first(), id)
    }
}

/// The place found is within the cycle, or at its end; the half-edge at it
/// has the identity looked for, and none before it has.
pub proof fn lemma_place_in(cycle: Seq<Handle<HalfEdge>>, id: ObjectId)
    ensures
        0 <= place_in(cycle, id) <= cycle.len(),
        place_in(cycle, id) < cycle.len() ==> cycle[place_in(cycle, id)].id() == id,
        forall|k: int| 0 <= k < place_in(cycle, id) ==> (#[trigger] cycle[k]).id() != id,
    decreases cycle.len(),
{
    if cycle.len() > 0 && cycle[0].id() != id {
        lemma_place_in(cycle.drop_first(), id);
        assert forall|k: int| 0 <= k < place_in(cycle, id) implies (#[trigger] cycle[k]).id()
            != id by {
            if k > 0 {
                assert(cycle[k] == cycle.drop_first()[k - 1]);
            }
        }
    }
}

/// The identity of the vertex at which the half-edge with the identity `id`
/// ends in `cycle`: the one at which the next half-edge of the cycle starts,
/// which after the last one is the first. None if the half-edge is not in
/// the cycle.
pub open spec fn end_vertex_in(cycle: Seq<Handle<HalfEdge>>, id: ObjectId) -> Option<ObjectId> {
    let place = place_in(cycle, id);
    if place < cycle.len() {
        Some(cycle[if place + 1 == cycle.len() { 0 } else { place + 1 }].get().start_vertex().id())
    } else {
        None
    }
}

/// The end vertex of the half-edge in the first of the cycles that it is
/// in.
pub open spec fn end_vertex_in_cycles(cycles: Seq<Cycle>, id: ObjectId) -> Option<ObjectId>
    decreases cycles.len(),
{
    if cycles.len() == 0 {
        None
    } else {
        match end_vertex_in(cycles[0].spec_half_edges(), id) {
            Some(vertex) => Some(vertex),
            None => end_vertex_in_cycles(cycles.drop_first(), id),
        }
    }
}

/// The identities of the two vertices that bound `half_edge` among the
/// cycles `cycles`: where it starts and where it ends. None if the half-edge
/// is in none of the cycles.
pub open spec fn bounding_vertices(cycles: Seq<Cycle>, half_edge: &Handle<HalfEdge>) -> Option<
    (ObjectId, ObjectId),
> {
    match end_vertex_in_cycles(cycles, half_edge.id()) {
        Some(end) => Some((half_edge.get().start_vertex().id(), end)),
        None => None,
    }
}

/// Whether `a` and `b` are siblings among the cycles `cycles`: they lie on
/// the same curve, both are in one of the cycles, and each starts where the
/// other ends.
pub open spec fn siblings(cycles: Seq<Cycle>, a: &Handle<HalfEdge>, b: &Handle<HalfEdge>) -> bool {
    &&& a.get().curve().id() == b.get().curve().id()
    &&& bounding_vertices(cycles, a) is Some
    &&& bounding_vertices(cycles, b) is Some
    &&& bounding_vertices(cycles, a)->Some_0.0 == bounding_vertices(cycles, b)->Some_0.1
    &&& bounding_vertices(cycles, a)->Some_0.1 == bounding_vertices(cycles, b)->Some_0.0
}

/// The end vertex of the half-edge with the identity `id` in `cycle`.
fn end_vertex_of(cycle: &Cycle, id: ObjectId) -> (r: Option<ObjectId>)
    ensures
        r == end_vertex_in(cycle.spec_half_edges(), id),
{
    let half_edges = cycle.half_edges();
    let n = half_edges.len();
    let mut i: usize = 0;
    proof {
        lemma_place_in(half_edges@, id);
    }
    while i < n
        invariant
            n == half_edges.len(),
            half_edges@ == cycle.spec_half_edges(),
            i <= n,
            i <= place_in(half_edges@, id) <= n,
        decreases n - i,
    {
        proof {
            lemma_place_in(half_edges@, id);
        }
        if half_edges[i].id() == id {
            let next: usize = if i + 1 == n {
                0
            } else {
                i + 1
            };
            return Some(half_edges[next].get().start_vertex().id());
        }
        i += 1;
    }
    None
}

/// The end vertex of the half-edge with the identity `id` in the shell.
fn end_vertex_in_shell(shell: &Shell, id: ObjectId) -> (r: Option<ObjectId>)
    ensures
        r == end_vertex_in_cycles(shell.spec_all_cycles(), id),
{
    let cycles = shell.all_cycles();
    let ghost all = shell.spec_all_cycles();
    let n = cycles.len();
    let mut i: usize = 0;
    proof {
        assert(all.skip(0) =~= all);
    }
    while i < n
        invariant
            n == cycles.len(),
            n == all.len(),
            all == shell.spec_all_cycles(),
            i <= n,
            forall|k: int| 0 <= k < n ==> *(#[trigger] cycles[k]) == all[k],
            end_vertex_in_cycles(all, id) == end_vertex_in_cycles(all.skip(i as int), id),
        decreases n - i,
    {
        let found = end_vertex_of(cycles[i], id);
        proof {
            assert(*cycles[i as int] == all[i as int]);
            assert(all.skip(i as int)[0] == all[i as int]);
            assert(all.skip(i as int).drop_first() =~= all.skip(i + 1));
            assert(end_vertex_in_cycles(all.skip(i as int), id) == match found {
                Some(vertex) => Some(vertex),
                None => end_vertex_in_cycles(all.skip(i + 1), id),
            });
        }
        if found.is_some() {
            return found;
        }
        i += 1;
    }
    None
}

/// Queries related to the sibling of a half-edge
pub trait SiblingOfHalfEdge {
    /// Whether `a` and `b` are siblings in the object.
    spec fn spec_are_siblings(&self, a: &Handle<HalfEdge>, b: &Handle<HalfEdge>) -> bool;

    /// The half-edges of the object, in the order in which a search goes
    /// through them.
    spec fn spec_half_edges(&self) -> Seq<Handle<HalfEdge>>;

    /// Indicate whether the provided half-edges are siblings
    fn are_siblings(&self, a: &Handle<HalfEdge>, b: &Handle<HalfEdge>, geometry: &Geometry) -> (r:
        bool)
        ensures
            r == self.spec_are_siblings(a, b),
    ;

    /// Retrieve the sibling of this half-edge
    ///
    /// Returns `None`, if the provided half-edge is not part of the object
    /// this method is called on, or if the provided half-edge has no sibling
    /// within the object. Else the first sibling is returned.
    fn get_sibling_of(&self, half_edge: &Handle<HalfEdge>, geometry: &Geometry) -> (r: Option<
        Handle<HalfEdge>,
    >)
        ensures
            match r {
                Some(sibling) => exists|k: int|
                    {
                        &&& 0 <= k < self.spec_half_edges().len()
                        &&& #[trigger] self.spec_half_edges()[k] == sibling
                        &&& self.spec_are_siblings(half_edge, &sibling)
                        &&& forall|j: int|
                            0 <= j < k ==> !self.spec_are_siblings(
                                half_edge,
                                &#[trigger] self.spec_half_edges()[j],
                            )
                    },
                None => forall|k: int|
                    0 <= k < self.spec_half_edges().len() ==> !self.spec_are_siblings(
                        half_edge,
                        &#[trigger] self.spec_half_edges()[k],
                    ),
            },
    ;
}

impl SiblingOfHalfEdge for Shell {
    open spec fn spec_are_siblings(&self, a: &Handle<HalfEdge>, b: &Handle<HalfEdge>) -> bool {
        siblings(self.spec_all_cycles(), a, b)
    }

    open spec fn spec_half_edges(&self) -> Seq<Handle<HalfEdge>> {
        self.spec_all_half_edges()
    }

    fn are_siblings(&self, a: &Handle<HalfEdge>, b: &Handle<HalfEdge>, geometry: &Geometry) -> (r:
        bool) {
        let same_curve = a.get().curve().id() == b.get().curve().id();
        let same_vertices = {
            let a_end = match end_vertex_in_shell(self, a.id()) {
                Some(end) => end,
                None => {
                    return false;
                },
            };
            let b_end = match end_vertex_in_shell(self, b.id()) {
                Some(end) => end,
                None => {
                    return false;
                },
            };
            a.get().start_vertex().id() == b_end && a_end == b.get().start_vertex().id()
        };
        same_curve && same_vertices
    }

    fn get_sibling_of(&self, half_edge: &Handle<HalfEdge>, geometry: &Geometry) -> (r: Option<
        Handle<HalfEdge>,
    >) {
        let half_edges = self.all_half_edges();
        let mut k: usize = 0;
        while k < half_edges.len()
            invariant
                k <= half_edges.len(),
                half_edges@ == self.spec_half_edges(),
                forall|j: int|
                    0 <= j < k ==> !self.spec_are_siblings(
                        half_edge,
                        &#[trigger] self.spec_half_edges()[j],
                    ),
            decreases half_edges.len() - k,
        {
            if self.are_siblings(half_edge, &half_edges[k], geometry) {
                return Some(half_edges[k]);
            }
            k += 1;
        }
        None
    }
}

} // verus!
