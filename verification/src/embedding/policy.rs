//! When to embed inline and when to hand the work to the background queue.

use vstd::prelude::*;
use crate::types::EmbedTarget;

verus! {

/// Memories and entities shorter than this many bytes are embedded inline.
pub const SYNC_THRESHOLD: usize = 4096;

/// Where an embedding is computed.
#[derive(Clone, Copy, Debug, PartialEq, Eq, Structural)]
pub enum EmbedStrategy {
    Sync,
    Async,
}

/// The embedding scheduling rule.
pub struct EmbeddingPolicy;

impl EmbeddingPolicy {
    /// Short memories and entities are embedded inline; long ones, and all
    /// code chunks and symbols, go to the background queue.
    pub fn decide(target: EmbedTarget, content_len: usize) -> (r: EmbedStrategy)
        ensures
            r == match target {
                EmbedTarget::Memory | EmbedTarget::Entity => if content_len < SYNC_THRESHOLD {
                    EmbedStrategy::Sync
                } else {
                    EmbedStrategy::Async
                },
                EmbedTarget::CodeChunk | EmbedTarget::Symbol => EmbedStrategy::Async,
            },
    {
        match target {
            EmbedTarget::Memory | EmbedTarget::Entity => {
                if content_len < SYNC_THRESHOLD {
                    EmbedStrategy::Sync
                } else {
                    EmbedStrategy::Async
                }
            },
            EmbedTarget::CodeChunk | EmbedTarget::Symbol => EmbedStrategy::Async,
        }
    }
}

} // verus!
