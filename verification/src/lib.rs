//! Typed dataflow graphs and the decisions of the engine that executes them.
//!
//! The crate has two halves. [`graph`] holds the data model: the catalog of node
//! templates with their typed properties, and the validated construction of a
//! concrete graph from that catalog. [`engine`] holds the execution side: the
//! messages that workers exchange, the built-in catalog, and the routing of fired
//! events to downstream commands.

pub mod engine;
pub mod graph;
