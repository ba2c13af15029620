use memory_mcp::embedding::completion_monitor::{CompletionMonitor, EmbeddingCounts, MonitorAction};
use memory_mcp::types::{IndexState, IndexStatus};

fn status(state: IndexState, indexed: u32, total: u32) -> IndexStatus {
    let mut s = IndexStatus::new("proj".to_string(), 1);
    s.status = state;
    s.indexed_files = indexed;
    s.total_files = total;
    s
}

fn counts(tc: u32, ts: u32, ec: u32, es: u32) -> EmbeddingCounts {
    EmbeddingCounts { total_chunks: tc, total_symbols: ts, embedded_chunks: ec, embedded_symbols: es }
}

#[test]
fn stalled_indexing_fails_after_thirty_looks() {
    let mut m = CompletionMonitor::new();
    let st = status(IndexState::Indexing, 3, 10);
    for _ in 0..29 {
        assert!(matches!(m.check_and_complete_project("proj", &st), MonitorAction::Nothing));
    }
    match m.check_and_complete_project("proj", &st) {
        MonitorAction::MarkFailed(s) => {
            assert_eq!(s.status, IndexState::Failed);
            assert_eq!(s.error_message.as_deref(), Some("Indexing stalled at 3/10 files for >300s"));
            assert_eq!(s.indexed_files, 3);
        }
        _ => panic!("expected the run to be marked failed"),
    }
    // The counter starts over afterwards.
    assert!(matches!(m.check_and_complete_project("proj", &st), MonitorAction::Nothing));
}

#[test]
fn indexing_progress_resets_the_stall_counter() {
    let mut m = CompletionMonitor::new();
    for i in 0..100 {
        let st = status(IndexState::Indexing, i / 20, 10);
        assert!(matches!(m.check_and_complete_project("proj", &st), MonitorAction::Nothing));
    }
}

#[test]
fn waiting_runs_need_their_counts() {
    let mut m = CompletionMonitor::new();
    let st = status(IndexState::EmbeddingPending, 10, 10);
    assert!(matches!(m.check_and_complete_project("proj", &st), MonitorAction::CountEmbeddings));
    let done = m.complete_with_counts("proj", &st, counts(5, 7, 5, 9)).unwrap();
    assert_eq!(done.status, IndexState::Completed);
    assert_eq!((done.total_chunks, done.total_symbols), (5, 7));
    assert_eq!(done.indexed_files, 10);
}

#[test]
fn empty_projects_are_not_completed_by_counts() {
    let mut m = CompletionMonitor::new();
    let st = status(IndexState::EmbeddingPending, 0, 0);
    assert!(m.complete_with_counts("proj", &st, counts(0, 0, 0, 0)).is_none());
}

#[test]
fn stuck_embeddings_complete_after_six_looks() {
    let mut m = CompletionMonitor::new();
    let st = status(IndexState::EmbeddingPending, 4, 4);
    for _ in 0..5 {
        assert!(m.complete_with_counts("proj", &st, counts(10, 10, 3, 4)).is_none());
    }
    let done = m.complete_with_counts("proj", &st, counts(10, 10, 3, 4)).unwrap();
    assert_eq!(done.status, IndexState::Completed);
    assert_eq!(done.total_chunks, 10);
}

#[test]
fn embedding_progress_resets_the_stuck_counter() {
    let mut m = CompletionMonitor::new();
    let st = status(IndexState::EmbeddingPending, 4, 4);
    for i in 0..20 {
        assert!(m.complete_with_counts("proj", &st, counts(100, 100, i, 0)).is_none());
    }
}

#[test]
fn finished_runs_need_nothing() {
    let mut m = CompletionMonitor::new();
    let st = status(IndexState::Completed, 4, 4);
    assert!(matches!(m.check_and_complete_project("proj", &st), MonitorAction::Nothing));
    let st = status(IndexState::Failed, 4, 4);
    assert!(matches!(m.check_and_complete_project("proj", &st), MonitorAction::Nothing));
}
