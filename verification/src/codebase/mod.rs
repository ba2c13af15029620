//! Code indexing: which files to index, how they are cut into chunks, which
//! symbols and references they define, and how an indexing run proceeds.

pub mod chunker;
pub mod indexer;
pub mod parser;
pub mod relations;
pub mod scanner;
pub mod watcher;
