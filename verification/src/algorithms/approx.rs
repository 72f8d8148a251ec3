//! Approximation of a shape by points, within a tolerance.
//!
//! Every level of a shape has a cache of what was worked out for it. One
//! cache is handed down through the approximation of a whole shape, so that
//! what two parts of the shape share is worked out once and is the same in
//! both.

pub mod curve;
pub mod cycle;
pub mod edge;
pub mod face;
pub mod vertex;

use vstd::prelude::*;
use crate::math::point::Point;

verus! {

/// A point of an approximation, in two forms: where it lies on the object
/// that is approximated, and where it lies in space.
#[derive(Clone, Copy, Debug, PartialEq, Eq, Hash, PartialOrd, Ord)]
pub struct ApproxPoint<const D: usize> {
    /// The point in the coordinates of the object
    pub local_form: Point<D>,
    /// The point in space
    pub global_form: Point<3>,
}

impl<const D: usize> ApproxPoint<D> {
    /// The point with the two given forms.
    pub fn new(local_form: Point<D>, global_form: Point<3>) -> (r: Self)
        ensures
            r.local_form == local_form,
            r.global_form == global_form,
    {
        ApproxPoint { local_form, global_form }
    }
}

} // verus!
