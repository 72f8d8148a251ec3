//! Cutting a polygon into triangles.

pub mod trapezoidation;
