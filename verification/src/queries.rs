//! Questions about how the objects of a shape are connected.

pub mod sibling_of_half_edge;
