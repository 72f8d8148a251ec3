//! Fixed-point numbers and the small amount of linear algebra built on them.

pub mod circle;
pub mod line;
pub mod point;
pub mod scalar;
pub mod transform;
pub mod triangle;
pub mod trig;
