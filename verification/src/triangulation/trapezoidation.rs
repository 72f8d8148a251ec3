//! The search structure that finds the region of the plane a point is in.

pub mod find_region_for_point;
pub mod graph;
pub mod ids;
pub mod point;
pub mod segment;
