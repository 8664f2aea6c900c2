//! Utility for modelling graph computation.

pub mod error;
pub mod graph;
pub mod keys;
pub mod schema;
pub mod value;
