//! Operations that make shapes.

pub mod geometry;
pub mod model;
pub mod sweep;
