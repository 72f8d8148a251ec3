//! What is particular to each kind of curve.

pub mod circle;
