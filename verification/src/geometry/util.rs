//! Helpers that work on any surface.

pub mod tri_mesh;
