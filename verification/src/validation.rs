//! Infrastructure for validating shapes
//!
//! Validation enforces constraints on shapes and the objects that make them
//! up:
//!
//! - **Coherence:** Local forms of objects must be consistent with their
//!   canonical forms.
//! - **Geometric:** Object-specific constraints; edges or faces might not be
//!   allowed to intersect, for example.
//! - **Structural:** All other objects that an object references must be
//!   part of the same shape.
//! - **Uniqueness:** Objects within a shape must be unique.

use vstd::prelude::*;
use crate::math::scalar::Scalar;
use crate::storage::{Handle, ObjectId};
use crate::topology::{Curve, Cycle, HalfEdge, Surface, Vertex};

verus! {

/// Raw value of the least distance between distinct objects, half a
/// millionth.
pub const DISTINCT_MIN_DISTANCE_RAW: i64 = 500;

/// Configuration required for the validation process
#[derive(Debug, Clone, Copy)]
pub struct ValidationConfig {
    /// The minimum distance between distinct objects
    ///
    /// Objects whose distance is less than the value defined in this field,
    /// are considered identical.
    pub distinct_min_distance: Scalar,
    /// The maximum distance between identical objects
    ///
    /// Objects that are considered identical might still have a distance
    /// between them. If that distance is more than the one defined in this
    /// field, they can not be considered identical.
    pub identical_max_distance: Scalar,
}

impl Default for ValidationConfig {
    fn default() -> (r: Self)
        ensures
            r.distinct_min_distance@ == DISTINCT_MIN_DISTANCE_RAW,
            r.identical_max_distance@ == 0,
    {
        ValidationConfig {
            distinct_min_distance: Scalar { raw: DISTINCT_MIN_DISTANCE_RAW },
            identical_max_distance: Scalar { raw: 0 },
        }
    }
}

/// Configuration required for the validation process
pub type Config = ValidationConfig;

/// Wrapper around an object that indicates the object has been validated
pub struct Validated<T>(T);

impl<T> Validated<T> {
    /// The object that has been validated.
    pub closed spec fn spec_inner(&self) -> &T {
        &self.0
    }

    /// Consume this instance of `Validated` and return the wrapped object
    pub fn into_inner(self) -> (r: T)
        ensures
            r == *self.inner(),
    {
        self.0
    }

    /// The object that has been validated.
    #[verifier::when_used_as_spec(spec_inner)]
    pub fn inner(&self) -> (r: &T)
        ensures
            r == self.spec_inner(),
    {
        &self.0
    }
}

/// Objects that a shape refers to but does not hold.
#[derive(Debug)]
pub struct StructuralIssues {
    /// The curve that an edge refers to
    pub missing_curve: Option<ObjectId>,
    /// The vertices that an edge refers to
    pub missing_vertices: Vec<ObjectId>,
    /// The edges that a cycle refers to
    pub missing_edges: Vec<ObjectId>,
    /// The surface that a face refers to
    pub missing_surface: Option<ObjectId>,
    /// The cycles that a face refers to
    pub missing_cycles: Vec<ObjectId>,
}

/// An error that can occur during a validation
#[derive(Debug)]
pub enum ValidationError {
    /// Coherence validation failed
    Coherence,
    /// Geometric validation failed
    Geometric,
    /// Structural validation failed
    Structure(StructuralIssues),
    /// Uniqueness validation failed
    Uniqueness,
}

/// Whether `id` is among `ids`.
fn holds(ids: &Vec<ObjectId>, id: ObjectId) -> (r: bool)
    ensures
        r == ids@.contains(id),
{
    let n = ids.len();
    let mut i: usize = 0;
    while i < n
        invariant
            n == ids.len(),
            i <= n,
            forall|k: int| 0 <= k < i ==> ids[k] != id,
        decreases n - i,
    {
        if ids[i] == id {
            return true;
        }
        i += 1;
    }
    false
}

impl ValidationError {
    /// Indicate whether validation found a missing curve
    pub fn missing_curve(&self, curve: &Handle<Curve>) -> (r: bool)
        ensures
            r == (self is Structure && self->Structure_0.missing_curve == Some(curve.id())),
    {
        if let ValidationError::Structure(issues) = self {
            return match issues.missing_curve {
                Some(id) => id == curve.id(),
                None => false,
            };
        }
        false
    }

    /// Indicate whether validation found a missing vertex
    pub fn missing_vertex(&self, vertex: &Handle<Vertex>) -> (r: bool)
        ensures
            r == (self is Structure && self->Structure_0.missing_vertices@.contains(vertex.id())),
    {
        if let ValidationError::Structure(issues) = self {
            return holds(&issues.missing_vertices, vertex.id());
        }
        false
    }

    /// Indicate whether validation found a missing edge
    pub fn missing_edge(&self, edge: &Handle<HalfEdge>) -> (r: bool)
        ensures
            r == (self is Structure && self->Structure_0.missing_edges@.contains(edge.id())),
    {
        if let ValidationError::Structure(issues) = self {
            return holds(&issues.missing_edges, edge.id());
        }
        false
    }

    /// Indicate whether validation found a missing surface
    pub fn missing_surface(&self, surface: &Handle<Surface>) -> (r: bool)
        ensures
            r == (self is Structure && self->Structure_0.missing_surface == Some(surface.id())),
    {
        if let ValidationError::Structure(issues) = self {
            return match issues.missing_surface {
                Some(id) => id == surface.id(),
                None => false,
            };
        }
        false
    }

    /// Indicate whether validation found a missing cycle
    pub fn missing_cycle(&self, cycle: &Handle<Cycle>) -> (r: bool)
        ensures
            r == (self is Structure && self->Structure_0.missing_cycles@.contains(cycle.id())),
    {
        if let ValidationError::Structure(issues) = self {
            return holds(&issues.missing_cycles, cycle.id());
        }
        false
    }
}

/// Validate the given shape. No constraint is enforced yet: every shape is
/// handed back as validated.
pub fn validate<T>(shape: T, config: &Config) -> (r: Result<Validated<T>, ValidationError>)
    ensures
        r is Ok,
        *r->Ok_0.inner() == shape,
{
    Ok(Validated(shape))
}

} // verus!
