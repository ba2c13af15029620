use memory_mcp::embedding::cleanup::{
    classify_blob, cleanup_applies, is_lock_stale_by_age, model_cache_dir_name, should_remove_lock,
    BlobAction,
};
use memory_mcp::embedding::{
    cache_key, CleanupConfig, CleanupResult, ContentHasher, EmbedStrategy, EmbeddingMetrics,
    EmbeddingPolicy, ModelType,
};
use memory_mcp::types::EmbedTarget;

#[test]
fn test_hash_deterministic() {
    let h1 = ContentHasher::hash("hello");
    let h2 = ContentHasher::hash("hello");
    assert_eq!(h1, h2);
}

#[test]
fn fingerprints_are_64_lower_case_hex_digits() {
    for text in ["", "hello", "ünïcödé\n"] {
        let h = ContentHasher::hash(text);
        assert_eq!(h.len(), 64);
        assert!(h.chars().all(|c| c.is_ascii_digit() || ('a'..='f').contains(&c)));
    }
}

#[test]
fn test_needs_reembed_none() {
    assert!(ContentHasher::needs_reembed(None, "content"));
}

#[test]
fn test_needs_reembed_same() {
    let hash = ContentHasher::hash("content");
    assert!(!ContentHasher::needs_reembed(Some(&hash), "content"));
}

#[test]
fn test_needs_reembed_different() {
    let hash = ContentHasher::hash("old");
    assert!(ContentHasher::needs_reembed(Some(&hash), "new"));
}

#[test]
fn content_hash_is_blake3_hex() {
    assert_eq!(
        ContentHasher::hash("hello"),
        blake3::hash(b"hello").to_hex().to_string()
    );
    assert_eq!(ContentHasher::hash("").len(), 64);
}

#[test]
fn test_memory_small_sync() {
    assert_eq!(EmbeddingPolicy::decide(EmbedTarget::Memory, 100), EmbedStrategy::Sync);
}

#[test]
fn test_memory_large_async() {
    assert_eq!(EmbeddingPolicy::decide(EmbedTarget::Memory, 5000), EmbedStrategy::Async);
}

#[test]
fn test_code_always_async() {
    assert_eq!(EmbeddingPolicy::decide(EmbedTarget::CodeChunk, 10), EmbedStrategy::Async);
}

#[test]
fn policy_threshold_edges() {
    assert_eq!(EmbeddingPolicy::decide(EmbedTarget::Entity, 4095), EmbedStrategy::Sync);
    assert_eq!(EmbeddingPolicy::decide(EmbedTarget::Entity, 4096), EmbedStrategy::Async);
    assert_eq!(EmbeddingPolicy::decide(EmbedTarget::Symbol, 0), EmbedStrategy::Async);
    assert_eq!(EmbedTarget::Memory.priority(), 10);
    assert_eq!(EmbedTarget::Symbol.priority(), 5);
}

#[test]
fn cache_key_normalizes_text() {
    assert_eq!(cache_key("  Hello  ", "m"), cache_key("hello", "m"));
    assert_ne!(cache_key("hello", "m1"), cache_key("hello", "m2"));
    assert_eq!(cache_key("Hi", "m"), blake3::hash(b"hi:m").to_hex().to_string());
}

#[test]
fn metrics_count_and_wrap() {
    let mut m = EmbeddingMetrics::new();
    m.inc_queue();
    m.inc_queue();
    m.dec_queue();
    assert_eq!(m.get_queue_depth(), 1);
    m.inc_processed(3);
    m.inc_failed(2);
    assert_eq!(m.processed_total, 3);
    assert_eq!(m.failed_total, 2);
    let mut z = EmbeddingMetrics::new();
    z.dec_queue();
    assert_eq!(z.get_queue_depth(), usize::MAX);
}

#[test]
fn cleanup_rules() {
    assert!(!cleanup_applies(ModelType::Mock));
    assert!(cleanup_applies(ModelType::E5Multi));
    assert_eq!(model_cache_dir_name(ModelType::E5Multi), "models--intfloat--multilingual-e5-base");
    assert_eq!(classify_blob("abc.lock"), BlobAction::CheckLock);
    assert_eq!(classify_blob("model.safetensors.incomplete"), BlobAction::RemoveIncomplete);
    assert_eq!(classify_blob("model.safetensors"), BlobAction::Keep);
    let cfg = CleanupConfig::default();
    assert_eq!(cfg.stale_threshold_secs, 300);
    assert!(is_lock_stale_by_age(Some(600_000_000_000), 300));
    assert!(!is_lock_stale_by_age(Some(300_000_000_000), 300));
    assert!(!is_lock_stale_by_age(None, 300));
    let no_flock = CleanupConfig { stale_threshold_secs: 300, use_flock: false };
    assert!(!should_remove_lock(false, &no_flock, true));
    assert!(should_remove_lock(false, &cfg, true));
    assert!(should_remove_lock(true, &no_flock, false));
    let r = CleanupResult::default();
    assert!(r.is_empty());
}
