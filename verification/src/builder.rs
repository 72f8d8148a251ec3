//! Builders: shorter ways to make the objects of a shape.

pub mod edge;
pub mod surface;
