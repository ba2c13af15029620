//! Code-index records: languages, chunk kinds, chunks and index status.

use vstd::prelude::*;

verus! {

/// The kind of a code chunk.
#[derive(Clone, Copy, Debug, PartialEq, Eq, Structural)]
pub enum ChunkType {
    Function,
    Class,
    Struct,
    Module,
    Impl,
    Other,
}

impl Default for ChunkType {
    fn default() -> (r: Self)
        ensures
            r == ChunkType::Other,
    {
        ChunkType::Other
    }
}

impl ChunkType {
    /// The stored (lower-case) name.
    pub fn as_str(&self) -> (r: &'static str)
        ensures
            r@ == match self {
                ChunkType::Function => "function"@,
                ChunkType::Class => "class"@,
                ChunkType::Struct => "struct"@,
                ChunkType::Module => "module"@,
                ChunkType::Impl => "impl"@,
                ChunkType::Other => "other"@,
            },
    {
        match self {
            ChunkType::Function => "function",
            ChunkType::Class => "class",
            ChunkType::Struct => "struct",
            ChunkType::Module => "module",
            ChunkType::Impl => "impl",
            ChunkType::Other => "other",
        }
    }
}

/// A source language the indexer knows.
#[derive(Clone, Copy, Debug, PartialEq, Eq, Structural)]
pub enum Language {
    Rust,
    Python,
    JavaScript,
    TypeScript,
    Go,
    Java,
    Dart,
    Unknown,
}

impl Default for Language {
    fn default() -> (r: Self)
        ensures
            r == Language::Unknown,
    {
        Language::Unknown
    }
}

impl Language {
    /// The stored (lower-case) name.
    pub fn as_str(&self) -> (r: &'static str)
        ensures
            r@ == match self {
                Language::Rust => "rust"@,
                Language::Python => "python"@,
                Language::JavaScript => "javascript"@,
                Language::TypeScript => "typescript"@,
                Language::Go => "go"@,
                Language::Java => "java"@,
                Language::Dart => "dart"@,
                Language::Unknown => "unknown"@,
            },
    {
        match self {
            Language::Rust => "rust",
            Language::Python => "python",
            Language::JavaScript => "javascript",
            Language::TypeScript => "typescript",
            Language::Go => "go",
            Language::Java => "java",
            Language::Dart => "dart",
            Language::Unknown => "unknown",
        }
    }
}

/// The state of a project's index.
#[derive(Clone, Copy, Debug, PartialEq, Eq, Structural)]
pub enum IndexState {
    Indexing,
    EmbeddingPending,
    Completed,
    Failed,
}

impl IndexState {
    /// The stored (lower-case) name, as `Display` renders it.
    pub fn as_str(&self) -> (r: &'static str)
        ensures
            r@ == match self {
                IndexState::Indexing => "indexing"@,
                IndexState::EmbeddingPending => "embeddingpending"@,
                IndexState::Completed => "completed"@,
                IndexState::Failed => "failed"@,
            },
    {
        match self {
            IndexState::Indexing => "indexing",
            IndexState::EmbeddingPending => "embeddingpending",
            IndexState::Completed => "completed",
            IndexState::Failed => "failed",
        }
    }
}

/// A piece of a source file, as stored for vector and keyword search.
#[derive(Clone, Debug)]
pub struct CodeChunk {
    pub file_path: String,
    pub content: String,
    pub language: Language,
    pub start_line: u32,
    pub end_line: u32,
    pub chunk_type: ChunkType,
    pub name: Option<String>,
    pub content_hash: String,
    pub project_id: Option<String>,
}

/// Progress and outcome of indexing one project.
#[derive(Clone, Debug)]
pub struct IndexStatus {
    pub project_id: String,
    pub status: IndexState,
    pub total_files: u32,
    pub indexed_files: u32,
    pub total_chunks: u32,
    pub total_symbols: u32,
    pub failed_files: Vec<String>,
    pub started_at: i64,
    pub completed_at: Option<i64>,
    pub error_message: Option<String>,
}

impl IndexStatus {
    /// A copy of this status, field by field.
    pub fn clone_status(&self) -> (r: IndexStatus)
        ensures
            r.project_id == self.project_id,
            r.status == self.status,
            r.total_files == self.total_files,
            r.indexed_files == self.indexed_files,
            r.total_chunks == self.total_chunks,
            r.total_symbols == self.total_symbols,
            r.failed_files@ == self.failed_files@,
            r.started_at == self.started_at,
            r.completed_at == self.completed_at,
            r.error_message == self.error_message,
    {
        let failed_files = self.failed_files.clone();
        proof {
            assert(failed_files@ =~= self.failed_files@);
        }
        let error_message = match &self.error_message {
            Some(m) => Some(m.clone()),
            None => None,
        };
        IndexStatus {
            project_id: self.project_id.clone(),
            status: self.status,
            total_files: self.total_files,
            indexed_files: self.indexed_files,
            total_chunks: self.total_chunks,
            total_symbols: self.total_symbols,
            failed_files,
            started_at: self.started_at,
            completed_at: self.completed_at,
            error_message,
        }
    }

    /// A fresh status for a project whose indexing starts at `started_at`
    /// (seconds since the Unix epoch): state `Indexing`, all counts zero.
    pub fn new(project_id: String, started_at: i64) -> (r: IndexStatus)
        ensures
            r.project_id@ == project_id@,
            r.status == IndexState::Indexing,
            r.total_files == 0,
            r.indexed_files == 0,
            r.total_chunks == 0,
            r.total_symbols == 0,
            r.failed_files@.len() == 0,
            r.started_at == started_at,
            r.completed_at is None,
            r.error_message is None,
    {
        IndexStatus {
            project_id,
            status: IndexState::Indexing,
            total_files: 0,
            indexed_files: 0,
            total_chunks: 0,
            total_symbols: 0,
            failed_files: Vec::new(),
            started_at,
            completed_at: None,
            error_message: None,
        }
    }
}

} // verus!
