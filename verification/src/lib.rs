//! Tolerance-bounded approximation of curves and swept surfaces for a
//! boundary-representation modelling kernel.
//!
//! All numbers are fixed-point [`math::scalar::Scalar`] values, so every
//! result is an exact function of its inputs and equal inputs give equal
//! outputs.

pub mod algorithms;
pub mod builder;
pub mod geometry;
pub mod kernel;
pub mod layers;
pub mod math;
pub mod operations;
pub mod partial;
pub mod queries;
pub mod storage;
pub mod topology;
pub mod triangulation;
pub mod validation;
