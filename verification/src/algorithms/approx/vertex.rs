//! Where the vertices of a shape lie in space.

use std::collections::BTreeMap;
use vstd::prelude::*;
use crate::math::point::Point;
use crate::storage::{Handle, ObjectId};
use crate::topology::Vertex;

verus! {

broadcast use vstd::laws_cmp::group_laws_cmp;

/// The positions in space that were worked out for vertices, by the
/// identity of the vertex. What is in it is never changed or taken out.
pub struct VertexApproxCache {
    inner: BTreeMap<ObjectId, Point<3>>,
}

impl View for VertexApproxCache {
    type V = Map<ObjectId, Point<3>>;

    closed spec fn view(&self) -> Map<ObjectId, Point<3>> {
        self.inner@
    }
}

impl VertexApproxCache {
    /// A cache that holds nothing.
    pub fn new() -> (r: Self)
        ensures
            r@ == Map::<ObjectId, Point<3>>::empty(),
    {
        VertexApproxCache { inner: BTreeMap::new() }
    }

    /// The position that is held for the vertex, if there is one.
    pub fn get(&self, handle: &Handle<Vertex>) -> (r: Option<Point<3>>)
        ensures
            r == if self@.contains_key(handle.id()) {
                Some(self@[handle.id()])
            } else {
                None
            },
    {
        self.get_by_id(handle.id())
    }

    /// The position that is held for the vertex with the identity `id`, if
    /// there is one.
    pub fn get_by_id(&self, id: ObjectId) -> (r: Option<Point<3>>)
        ensures
            r == if self@.contains_key(id) {
                Some(self@[id])
            } else {
                None
            },
    {
        match self.inner.get(&id) {
            Some(position) => Some(*position),
            None => None,
        }
    }

    /// Holds `position` for the vertex unless a position is held for it
    /// already, and returns the one that is held afterwards.
    pub fn insert(&mut self, handle: &Handle<Vertex>, position: Point<3>) -> (r: Point<3>)
        ensures
            final(self)@ == vertex_cache_after(old(self)@, handle.id(), position),
            r == vertex_position(old(self)@, handle.id(), position),
            r == final(self)@[handle.id()],
    {
        let id = handle.id();
        match self.inner.get(&id) {
            Some(held) => {
                let held = *held;
                held
            },
            None => {
                self.inner.insert(id, position);
                position
            },
        }
    }
}

/// The position of a vertex for which `fresh` was worked out: the one that
/// the cache holds if it holds one, else `fresh`.
pub open spec fn vertex_position(
    cache: Map<ObjectId, Point<3>>,
    id: ObjectId,
    fresh: Point<3>,
) -> Point<3> {
    if cache.contains_key(id) {
        cache[id]
    } else {
        fresh
    }
}

/// The cache after the vertex was looked up with the position `fresh` at
/// hand.
pub open spec fn vertex_cache_after(
    cache: Map<ObjectId, Point<3>>,
    id: ObjectId,
    fresh: Point<3>,
) -> Map<ObjectId, Point<3>> {
    if cache.contains_key(id) {
        cache
    } else {
        cache.insert(id, fresh)
    }
}

} // verus!
