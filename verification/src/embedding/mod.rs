//! Embedding configuration and the decisions around computing embeddings:
//! which model, when to embed inline, when content has changed, how cached
//! vectors are keyed, and which model-cache artifacts are stale.

pub mod cache;
pub mod cleanup;
pub mod completion_monitor;
pub mod config;
pub mod coordinator;
pub mod hasher;
pub mod loading;
pub mod metrics;
pub mod policy;
pub mod worker;

pub use cache::{cache_key, CacheStats, EmbeddingCache};
pub use cleanup::{CleanupConfig, CleanupResult};
pub use config::{EmbeddingConfig, ModelType};
pub use hasher::ContentHasher;
pub use loading::LoadingPhase;
pub use metrics::EmbeddingMetrics;
pub use policy::{EmbedStrategy, EmbeddingPolicy};
