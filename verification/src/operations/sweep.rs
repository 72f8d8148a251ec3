//! Sweep objects along a path to create new objects
//!
//! A sweep takes every object of a shape to a new object. The cache records
//! which new object a swept one has given, so that what two swept objects
//! share is swept once.

use std::collections::BTreeMap;
use vstd::prelude::*;
use crate::storage::{Handle, ObjectId};
use crate::topology::{Curve, Vertex};

verus! {

broadcast use vstd::laws_cmp::group_laws_cmp;

/// A cache used for sweeping
pub struct SweepCache {
    /// Cache for curves
    pub curves: BTreeMap<ObjectId, Handle<Curve>>,
    /// Cache for vertices
    pub vertices: BTreeMap<ObjectId, Handle<Vertex>>,
}

impl Default for SweepCache {
    fn default() -> (r: Self)
        ensures
            r.curves@ == Map::<ObjectId, Handle<Curve>>::empty(),
            r.vertices@ == Map::<ObjectId, Handle<Vertex>>::empty(),
    {
        SweepCache { curves: BTreeMap::new(), vertices: BTreeMap::new() }
    }
}

} // verus!
