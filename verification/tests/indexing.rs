use memory_mcp::codebase::chunker::create_chunk;
use memory_mcp::codebase::indexer::{
    failed_status, needs_reindex, plan_reindex, push_batched, IncrementalRun,
    IndexRun, INDEX_BATCH_SIZE,
};
use memory_mcp::digest::hash_hex;
use memory_mcp::types::{ChunkType, IndexState, IndexStatus, Language};

fn chunk(i: usize) -> memory_mcp::types::CodeChunk {
    create_chunk(&format!("chunk number {}", i), "f.rs", "p", Language::Rust, 1, 1, ChunkType::Other)
}

#[test]
fn batches_are_full_and_keep_order() {
    let mut buffer: Vec<u32> = (0..15).collect();
    let batches = push_batched(&mut buffer, (15..45).collect());
    assert_eq!(batches.len(), 2);
    assert!(batches.iter().all(|b| b.len() == INDEX_BATCH_SIZE));
    assert_eq!(batches[0], (0..20).collect::<Vec<u32>>());
    assert_eq!(batches[1], (20..40).collect::<Vec<u32>>());
    assert_eq!(buffer, (40..45).collect::<Vec<u32>>());
}

#[test]
fn no_batch_until_the_buffer_fills() {
    let mut buffer: Vec<u32> = Vec::new();
    assert!(push_batched(&mut buffer, vec![1, 2, 3]).is_empty());
    assert_eq!(buffer, vec![1, 2, 3]);
}

#[test]
fn a_run_over_many_small_files() {
    // 150 one-function files, as a full run over a fresh project sees them.
    let mut run = IndexRun::start("test_project".to_string(), 100, 150);
    assert_eq!(run.status.total_files, 150);
    let mut stored_chunks = 0;
    let mut reports = 0;
    for i in 0..150 {
        let work = run.index_file(&format!("file_{}.rs", i), &format!("fn test_{}() {{}}", i), "test_project");
        assert_eq!(work.file_hash, hash_hex(&format!("fn test_{}() {{}}", i)));
        stored_chunks += work.chunk_batches.iter().map(|b| b.len()).sum::<usize>();
        if run.progress_due() {
            reports += 1;
        }
    }
    assert_eq!(run.status.indexed_files, 150);
    assert_eq!(run.status.total_chunks, 150);
    assert_eq!(run.status.total_symbols, 150);
    assert_eq!(reports, 15);
    assert_eq!(stored_chunks, 140);
    let (status, rest_chunks, rest_symbols, refs) = run.finish(200);
    assert_eq!(status.status, IndexState::EmbeddingPending);
    assert_eq!(status.completed_at, Some(200));
    assert_eq!(rest_chunks.map(|c| c.len()), Some(10));
    assert_eq!(rest_symbols.map(|s| s.len()), Some(10));
    assert!(refs.is_empty());
}

#[test]
fn chunks_per_file_are_capped() {
    let mut run = IndexRun::start("p".to_string(), 0, 1);
    let chunks: Vec<_> = (0..60).map(chunk).collect();
    let (batches, symbol_batches) = run.add_file_results(chunks, Vec::new(), Vec::new());
    assert_eq!(batches.len(), 2);
    assert!(symbol_batches.is_empty());
    assert_eq!(run.status.total_chunks, 50);
    assert_eq!(run.chunk_buffer.len(), 10);
    assert_eq!(run.chunk_buffer[9].content, "chunk number 49");
}

#[test]
fn skipped_and_unreadable_files_count_as_done() {
    let mut run = IndexRun::start("p".to_string(), 0, 2);
    run.skip_file();
    run.read_failed("bad.rs".to_string());
    assert_eq!(run.status.indexed_files, 2);
    assert_eq!(run.status.failed_files, vec!["bad.rs".to_string()]);
    let (status, c, s, _) = run.finish(5);
    assert!(c.is_none() && s.is_none());
    assert_eq!(status.indexed_files, 2);
}

#[test]
fn failure_keeps_the_stored_counts() {
    let mut stored = IndexStatus::new("p".to_string(), 1);
    stored.total_files = 7;
    let st = failed_status(Some(stored), "p".to_string(), "disk full".to_string(), 9);
    assert_eq!(st.status, IndexState::Failed);
    assert_eq!(st.total_files, 7);
    assert_eq!(st.started_at, 1);
    assert_eq!(st.error_message.as_deref(), Some("disk full"));
    assert_eq!(st.completed_at, Some(9));
    let fresh = failed_status(None, "q".to_string(), "boom".to_string(), 3);
    assert_eq!(fresh.project_id, "q");
    assert_eq!(fresh.total_files, 0);
}

#[test]
fn unchanged_files_are_not_reindexed() {
    let content = "fn a() {}\n";
    let h = hash_hex(content);
    assert!(!needs_reindex(Some(h.as_str()), h.as_str()));
    assert!(needs_reindex(None, h.as_str()));
    assert!(needs_reindex(Some("other"), h.as_str()));
    assert!(plan_reindex("a.rs", content, "p", Some(h.as_str())).is_none());
    let plan = plan_reindex("a.rs", content, "p", Some("stale")).unwrap();
    assert_eq!(plan.file_hash, h);
    assert_eq!(plan.chunks.len(), 1);
    assert_eq!(plan.symbols.len(), 1);
    assert_eq!(plan.symbols[0].name, "a");
}

#[test]
fn incremental_run_counts_reindexed_and_removed_files() {
    let content = "fn a() {}\n";
    let h = hash_hex(content);
    let mut run = IncrementalRun::new();
    run.path_removed(Some(2));
    run.path_removed(Some(0));
    run.path_removed(None);
    run.path_unreadable();
    assert!(run.path_read("a.rs", content, "p", Some(h.as_str())).is_none());
    let plan = run.path_read("b.rs", content, "p", None).unwrap();
    assert_eq!(plan.file_hash, h);
    assert_eq!(run.handled, 6);
    assert_eq!(run.finish(), 2);
}
