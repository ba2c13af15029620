//! Knowledge-graph traversal.

pub mod traversal;
