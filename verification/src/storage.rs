//! Handles: how the kernel refers to the objects of a shape.

use vstd::prelude::*;
use vstd::std_specs::cmp::PartialEqSpecImpl;

verus! {

/// The identity of an object. Two handles refer to the same object exactly
/// when their identities are equal.
pub type ObjectId = u64;

/// A reference to an object of a shape. It carries the identity under which
/// the object is stored, and the object as it was when it was stored.
///
/// Handles are compared and used as keys by identity, never by what the
/// object holds.
#[derive(Clone, Copy, Debug)]
pub struct Handle<T> {
    id: ObjectId,
    object: T,
}

impl<T> Handle<T> {
    /// The identity of the object.
    pub closed spec fn spec_id(&self) -> ObjectId {
        self.id
    }

    /// The object.
    pub closed spec fn spec_get(&self) -> &T {
        &self.object
    }

    /// The handle for `object`, stored under the identity `id`.
    pub fn new(id: ObjectId, object: T) -> (r: Self)
        ensures
            r.id() == id,
            *r.get() == object,
    {
        Handle { id, object }
    }

    /// The identity of the object.
    #[verifier::when_used_as_spec(spec_id)]
    pub fn id(&self) -> (r: ObjectId)
        ensures
            r == self.spec_id(),
    {
        self.id
    }

    /// The object.
    #[verifier::when_used_as_spec(spec_get)]
    pub fn get(&self) -> (r: &T)
        ensures
            r == self.spec_get(),
    {
        &self.object
    }
}

impl<T> PartialEq for Handle<T> {
    fn eq(&self, other: &Self) -> (r: bool) {
        self.id == other.id
    }
}

impl<T> PartialEqSpecImpl for Handle<T> {
    open spec fn obeys_eq_spec() -> bool {
        true
    }

    open spec fn eq_spec(&self, other: &Self) -> bool {
        self.id() == other.id()
    }
}

/// The store that hands out identities: every object that is inserted gets
/// the next one.
#[derive(Debug)]
pub struct Objects {
    next_id: ObjectId,
}

impl Objects {
    /// The identity that the next object will get. Every handle that the
    /// store has handed out has a smaller one.
    pub closed spec fn spec_next_id(&self) -> ObjectId {
        self.next_id
    }

    /// A store that has handed out no identity yet.
    pub fn new() -> (r: Self)
        ensures
            r.next_id() == 0,
    {
        Objects { next_id: 0 }
    }

    /// The identity that the next object will get.
    #[verifier::when_used_as_spec(spec_next_id)]
    pub fn next_id(&self) -> (r: ObjectId)
        ensures
            r == self.spec_next_id(),
    {
        self.next_id
    }

    /// Stores `object` under the next identity and returns the handle for
    /// it. The store must have an identity left.
    pub fn insert<T>(&mut self, object: T) -> (r: Handle<T>)
        requires
            old(self).next_id() < u64::MAX,
        ensures
            r.id() == old(self).next_id(),
            *r.get() == object,
            final(self).next_id() == old(self).next_id() + 1,
    {
        let id = self.next_id;
        self.next_id = id + 1;
        Handle { id, object }
    }
}

} // verus!
