//! A persistent memory service for AI agents: validated record identifiers,
//! code indexing (file selection, chunking, symbol extraction), knowledge
//! graph traversal and the bookkeeping around background embedding.

pub mod text;
pub mod numfmt;
pub mod digest;
pub mod types;
pub mod embedding;
pub mod server;
pub mod storage;
pub mod codebase;
pub mod config;
pub mod graph;
pub mod lifecycle;
