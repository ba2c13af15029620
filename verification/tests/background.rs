use memory_mcp::codebase::watcher::{should_watch, Debouncer, DEBOUNCE_MS, IDLE_POLL_MS, PENDING_POLL_MS};
use memory_mcp::digest::hash_hex;
use memory_mcp::embedding::worker::{
    batch_full, batch_replies, cache_keys, fill_misses, misses_of, WORKER_BATCH_SIZE,
};
use memory_mcp::embedding::worker::{model_record_action, store_key};

#[test]
fn batches_fill_at_thirty_two() {
    assert_eq!(WORKER_BATCH_SIZE, 32);
    assert!(!batch_full(31));
    assert!(batch_full(32));
}

#[test]
fn store_keys_are_content_hashes() {
    let texts = vec!["alpha".to_string(), "beta".to_string()];
    let keys = cache_keys(&texts);
    assert_eq!(keys, vec![hash_hex("alpha"), hash_hex("beta")]);
}

#[test]
fn fresh_vectors_fill_the_misses_in_order() {
    let found = vec![Some(vec![1.0f32]), None, Some(vec![3.0]), None];
    let misses = misses_of(&found);
    assert_eq!(misses, vec![1, 3]);
    let filled = fill_misses(found, &misses, vec![vec![2.0], vec![4.0]]);
    assert_eq!(filled, vec![Some(vec![1.0]), Some(vec![2.0]), Some(vec![3.0]), Some(vec![4.0])]);
}

#[test]
fn a_failed_embedding_leaves_the_misses_empty() {
    let found: Vec<Option<u8>> = vec![None, Some(7), None];
    let misses = misses_of(&found);
    let filled = fill_misses(found, &misses, Vec::new());
    assert_eq!(filled, vec![None, Some(7), None]);
    let short = fill_misses(vec![None, None], &vec![0, 1], vec![5u8]);
    assert_eq!(short, vec![Some(5), None]);
}

#[test]
fn a_batch_answers_every_request_once() {
    let r = batch_replies(vec![Some(1u8), None, None, Some(4)], Some(vec![2, 3]));
    assert_eq!(r.replies, vec![Some(1), Some(2), Some(3), Some(4)]);
    assert_eq!(r.stored, vec![1, 2]);
    let failed = batch_replies(vec![Some(1u8), None], None);
    assert_eq!(failed.replies, vec![Some(1), None]);
    assert!(failed.stored.is_empty());
    let hits_only = batch_replies(vec![Some(9u8)], Some(Vec::new()));
    assert_eq!(hits_only.replies, vec![Some(9)]);
}

#[test]
fn changes_are_handed_over_after_a_quiet_period() {
    let mut d = Debouncer::new();
    assert_eq!(d.poll_ms(), IDLE_POLL_MS);
    d.record("src/a.rs".to_string(), 1000);
    d.record("src/b.rs".to_string(), 1500);
    d.record("src/a.rs".to_string(), 1600);
    assert_eq!(d.poll_ms(), PENDING_POLL_MS);
    assert!(d.take_due(1600 + DEBOUNCE_MS - 1).is_none());
    assert_eq!(d.pending.len(), 2);
    let due = d.take_due(1600 + DEBOUNCE_MS).unwrap();
    assert_eq!(due, vec!["src/a.rs".to_string(), "src/b.rs".to_string()]);
    assert!(d.last_event_ms.is_none());
    assert!(d.take_due(100_000).is_none());
}

#[test]
fn cancelling_drops_pending_changes() {
    let mut d = Debouncer::new();
    d.record("x.py".to_string(), 5);
    assert_eq!(d.cancel(), 1);
    assert!(d.pending.is_empty());
}

#[test]
fn only_code_outside_ignored_directories_is_watched() {
    assert!(should_watch("/p/src/main.rs"));
    assert!(!should_watch("/p/target/debug/build.rs"));
    assert!(!should_watch("/p/.git/HEAD"));
    assert!(!should_watch("/p/README.md"));
}

#[test]
fn the_store_keys_by_model_and_notes_model_changes() {
    assert_eq!(store_key("qwen3", "abc"), "qwen3:abc");
    assert_eq!(model_record_action(None, "m1"), (true, false));
    assert_eq!(model_record_action(Some("m1"), "m1"), (false, false));
    assert_eq!(model_record_action(Some("m0"), "m1"), (true, true));
}
