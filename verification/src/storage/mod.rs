//! What the storage layer decides on its own: how identifiers are read,
//! written and resolved, and how index definitions are read.

pub mod ids;
pub mod related;
