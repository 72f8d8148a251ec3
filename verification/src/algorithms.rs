//! What the kernel computes from a shape.

pub mod approx;
pub mod bounding_volume;
