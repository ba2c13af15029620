//! Deciding how a record's text gets its embedding.

use vstd::prelude::*;
use vstd::utf8::encode_utf8;
use crate::digest::content_hash_text;
use crate::embedding::hasher::ContentHasher;
use crate::embedding::policy::{EmbedStrategy, EmbeddingPolicy, SYNC_THRESHOLD};
use crate::types::EmbedTarget;

verus! {

/// How a record's embedding is to be obtained.
pub enum EmbedPlan {
    /// The text is what was embedded before: keep the embedding.
    Unchanged,
    /// Embed now, then store the vector with this content hash.
    Now { content_hash: String },
    /// Queue the text for the background worker; store this content hash.
    Queue { content_hash: String },
}

/// The strategy for a text of `len` bytes going to `target`.
pub open spec fn strategy_for(target: EmbedTarget, len: nat) -> EmbedStrategy {
    match target {
        EmbedTarget::Memory | EmbedTarget::Entity => if len < SYNC_THRESHOLD {
            EmbedStrategy::Sync
        } else {
            EmbedStrategy::Async
        },
        EmbedTarget::CodeChunk | EmbedTarget::Symbol => EmbedStrategy::Async,
    }
}

/// Plans the embedding of a record's content: nothing when its content
/// hash equals the stored one, otherwise embedding now or in the
/// background as the policy says for the target and the text's length.
pub fn plan_embedding(target: EmbedTarget, content: &str, old_content_hash: Option<&str>) -> (r: EmbedPlan)
    requires
        encode_utf8(content@).len() <= usize::MAX,
    ensures
        r is Unchanged <==> (old_content_hash matches Some(h) && h@ == content_hash_text(content@)),
        r matches EmbedPlan::Now { content_hash } ==> {
            &&& content_hash@ == content_hash_text(content@)
            &&& strategy_for(target, encode_utf8(content@).len()) == EmbedStrategy::Sync
        },
        r matches EmbedPlan::Queue { content_hash } ==> {
            &&& content_hash@ == content_hash_text(content@)
            &&& strategy_for(target, encode_utf8(content@).len()) == EmbedStrategy::Async
        },
{
    if !ContentHasher::needs_reembed(old_content_hash, content) {
        return EmbedPlan::Unchanged;
    }
    let content_hash = ContentHasher::hash(content);
    match EmbeddingPolicy::decide(target, content.len()) {
        EmbedStrategy::Sync => EmbedPlan::Now { content_hash },
        EmbedStrategy::Async => EmbedPlan::Queue { content_hash },
    }
}

} // verus!
