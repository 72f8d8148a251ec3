//! Approximation of single edges in space, as points and segments.

pub mod approximation;
pub mod edges;
