//! Embedding bookkeeping: the state of a record's vector and the kinds of
//! records that get embedded.

use vstd::prelude::*;
use crate::text::{str_eq, to_lowercase, unicode_lowercase};

verus! {

/// Whether a record's embedding is missing, queued, current or outdated.
#[derive(Clone, Copy, Debug, PartialEq, Eq, Structural)]
pub enum EmbeddingState {
    Unset,
    Pending,
    Ready,
    Stale,
}

impl Default for EmbeddingState {
    fn default() -> (r: Self)
        ensures
            r == EmbeddingState::Unset,
    {
        EmbeddingState::Unset
    }
}

/// The state a name denotes after lower-casing; unknown names give `Unset` (stored as "none").
pub open spec fn embedding_state_named(lower: Seq<char>) -> EmbeddingState {
    if lower == "pending"@ {
        EmbeddingState::Pending
    } else if lower == "ready"@ {
        EmbeddingState::Ready
    } else if lower == "stale"@ {
        EmbeddingState::Stale
    } else {
        EmbeddingState::Unset
    }
}

impl EmbeddingState {
    /// The stored name, as `Display` renders it.
    pub fn as_str(&self) -> (r: &'static str)
        ensures
            r@ == match self {
                EmbeddingState::Unset => "none"@,
                EmbeddingState::Pending => "pending"@,
                EmbeddingState::Ready => "ready"@,
                EmbeddingState::Stale => "stale"@,
            },
    {
        match self {
            EmbeddingState::Unset => "none",
            EmbeddingState::Pending => "pending",
            EmbeddingState::Ready => "ready",
            EmbeddingState::Stale => "stale",
        }
    }

    /// Reads a state name case-insensitively; any other text reads as `Unset`.
    pub fn parse_name(s: &str) -> (r: EmbeddingState)
        ensures
            r == embedding_state_named(unicode_lowercase(s@)),
    {
        let lower = to_lowercase(s);
        let l = lower.as_str();
        if str_eq(l, "pending") {
            EmbeddingState::Pending
        } else if str_eq(l, "ready") {
            EmbeddingState::Ready
        } else if str_eq(l, "stale") {
            EmbeddingState::Stale
        } else {
            EmbeddingState::Unset
        }
    }
}

impl std::str::FromStr for EmbeddingState {
    type Err = ();

    fn from_str(s: &str) -> (r: Result<Self, Self::Err>)
        ensures
            r == Ok::<EmbeddingState, ()>(embedding_state_named(unicode_lowercase(s@))),
    {
        Ok(EmbeddingState::parse_name(s))
    }
}

/// The kind of record an embedding is computed for.
#[derive(Clone, Copy, Debug, PartialEq, Eq, Structural)]
pub enum EmbedTarget {
    Memory,
    Entity,
    CodeChunk,
    Symbol,
}

impl EmbedTarget {
    /// Queue priority: memories and entities before code.
    pub fn priority(&self) -> (r: u8)
        ensures
            r == match self {
                EmbedTarget::Memory | EmbedTarget::Entity => 10u8,
                EmbedTarget::CodeChunk | EmbedTarget::Symbol => 5u8,
            },
    {
        match self {
            EmbedTarget::Memory => 10,
            EmbedTarget::Entity => 10,
            EmbedTarget::CodeChunk => 5,
            EmbedTarget::Symbol => 5,
        }
    }
}

} // verus!
