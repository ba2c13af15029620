//! Request-handling rules of the tool server.

pub mod logic;
