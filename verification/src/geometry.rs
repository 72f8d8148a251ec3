//! Curves, surfaces and what is needed to approximate them.

pub mod boundary;
pub mod curve;
pub mod curves;
pub mod path;
pub mod store;
pub mod surface;
pub mod tolerance;
pub mod util;
