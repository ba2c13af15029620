use memory_mcp::codebase::relations::{RelationOutcome, RelationStats};
use memory_mcp::config::AppConfig;
use memory_mcp::embedding::loading::{
    load_error_message, service_state, ModelLoading, ServiceState, STATUS_ERROR, STATUS_LOADING, STATUS_READY,
};
use memory_mcp::embedding::ModelType;
use memory_mcp::embedding::LoadingPhase;
use memory_mcp::lifecycle::{ComponentHealth, HealthStatus, ShutdownPriority};
use memory_mcp::server::logic::{
    index_request, merge_live_progress, progress_text, related_query, retry_after_seconds,
    IndexRequest, MAX_RELATED_DEPTH,
};
use memory_mcp::types::{Direction, IndexState, IndexStatus};
use memory_mcp::server::logic::{list_window, requested_memory_type, updated_memory_type};
use memory_mcp::types::MemoryType;
use memory_mcp::digest::hash_hex;
use memory_mcp::embedding::coordinator::{plan_embedding, EmbedPlan};
use memory_mcp::types::EmbedTarget;

#[test]
fn index_requests_do_not_start_a_second_run() {
    assert_eq!(index_request(Some(IndexState::Indexing)), IndexRequest::AlreadyIndexing);
    assert_eq!(index_request(Some(IndexState::Completed)), IndexRequest::Start);
    assert_eq!(index_request(None), IndexRequest::Start);
}

#[test]
fn live_counters_raise_reported_progress() {
    let mut s = IndexStatus::new("p".to_string(), 0);
    s.indexed_files = 5;
    s.total_files = 40;
    let m = merge_live_progress(s, 9, 0);
    assert_eq!((m.indexed_files, m.total_files), (9, 40));
    let m = merge_live_progress(m, 3, 50);
    assert_eq!((m.indexed_files, m.total_files), (9, 50));
    let mut done = IndexStatus::new("p".to_string(), 0);
    done.status = IndexState::Completed;
    let m = merge_live_progress(done, 99, 99);
    assert_eq!((m.indexed_files, m.total_files), (0, 0));
}

#[test]
fn progress_reads_as_files() {
    assert_eq!(progress_text(3, 12), "3/12 files");
}

#[test]
fn related_walks_are_bounded() {
    assert_eq!(related_query(None, None), (1, Direction::Outgoing));
    assert_eq!(related_query(Some(7), Some("IN")), (MAX_RELATED_DEPTH, Direction::Incoming));
    assert_eq!(related_query(Some(2), Some("both")), (2, Direction::Both));
    assert_eq!(related_query(Some(0), Some("sideways")), (0, Direction::Outgoing));
}

#[test]
fn loading_clients_retry_soon() {
    assert_eq!(retry_after_seconds(None), 5);
    assert_eq!(retry_after_seconds(Some(3)), 3);
    assert_eq!(retry_after_seconds(Some(120)), 10);
    assert_eq!(LoadingPhase::FetchingWeights.message(), "Fetching model weights...");
    assert_eq!(LoadingPhase::WarmingUp.name(), "warming_up");
    assert_eq!(load_error_message(None), "Unknown error");
    assert_eq!(load_error_message(Some("no disk".to_string())), "no disk");
}

#[test]
fn relation_outcomes_are_counted() {
    let mut s = RelationStats::default();
    assert!(!s.worth_reporting());
    s.record(RelationOutcome::Created);
    s.record(RelationOutcome::Unresolved);
    s.record(RelationOutcome::Unresolved);
    let mut total = RelationStats::default();
    total.add(&s);
    total.add(&s);
    assert_eq!((total.created, total.failed, total.unresolved), (2, 0, 4));
    assert!(total.worth_reporting());
}

#[test]
fn shutdown_priorities_order_by_rank() {
    assert_eq!(ShutdownPriority::default(), ShutdownPriority::Normal);
    assert_eq!(
        (ShutdownPriority::First.value(), ShutdownPriority::Normal.value(), ShutdownPriority::Last.value()),
        (0, 50, 100)
    );
    assert!(ShutdownPriority::First < ShutdownPriority::Normal && ShutdownPriority::Normal < ShutdownPriority::Last);
    assert!(matches!(ComponentHealth::default().status, HealthStatus::Healthy));
}

#[test]
fn configuration_defaults() {
    let c = AppConfig::with_data_dir("/tmp/data".to_string());
    assert_eq!(c.data_dir, "/tmp/data");
    assert_eq!((c.model.as_str(), c.cache_size, c.batch_size, c.timeout_ms), ("qwen3", 1000, 8, 30000));
    assert_eq!(c.log_level, "info");
    let d = AppConfig::default();
    assert!(d.data_dir.ends_with("memory-mcp"));
    assert_eq!(d.cache_size, 1000);
}

#[test]
fn memory_requests_name_types_loosely() {
    assert_eq!(requested_memory_type(None), MemoryType::Semantic);
    assert_eq!(requested_memory_type(Some("EPISODIC")), MemoryType::Episodic);
    assert_eq!(requested_memory_type(Some("dream")), MemoryType::Semantic);
    assert_eq!(updated_memory_type(Some("procedural")), Some(MemoryType::Procedural));
    assert_eq!(updated_memory_type(Some("dream")), None);
    assert_eq!(list_window(None, None), (20, 0));
    assert_eq!(list_window(Some(500), Some(40)), (100, 40));
}

#[test]
fn embedding_plans_follow_hash_and_policy() {
    let text = "a short note";
    let h = hash_hex(text);
    assert!(matches!(plan_embedding(EmbedTarget::Memory, text, Some(h.as_str())), EmbedPlan::Unchanged));
    match plan_embedding(EmbedTarget::Memory, text, Some("old")) {
        EmbedPlan::Now { content_hash } => assert_eq!(content_hash, h),
        _ => panic!("short memories are embedded inline"),
    }
    assert!(matches!(plan_embedding(EmbedTarget::Symbol, text, None), EmbedPlan::Queue { .. }));
    let long = "x".repeat(5000);
    assert!(matches!(plan_embedding(EmbedTarget::Entity, &long, None), EmbedPlan::Queue { .. }));
}

#[test]
fn status_codes_name_service_states() {
    assert_eq!(service_state(0), ServiceState::Loading);
    assert_eq!(service_state(1), ServiceState::Ready);
    assert_eq!(service_state(2), ServiceState::Error);
    assert_eq!(service_state(9), ServiceState::Error);
}

#[test]
fn model_loading_goes_through_its_phases() {
    assert_eq!(ModelLoading::start(ModelType::Mock).status, STATUS_READY);
    let mut l = ModelLoading::start(ModelType::E5Small);
    assert_eq!(l.status, STATUS_LOADING);
    let order = [
        LoadingPhase::FetchingConfig,
        LoadingPhase::FetchingTokenizer,
        LoadingPhase::FetchingWeights,
        LoadingPhase::LoadingModel,
        LoadingPhase::WarmingUp,
    ];
    for p in order {
        l.advance();
        assert_eq!(l.phase, p);
        assert_eq!(l.status, STATUS_LOADING);
    }
    l.advance();
    assert_eq!(l.status, STATUS_READY);
    l.fail("late".to_string());
    assert_eq!(l.status, STATUS_READY);
    let mut f = ModelLoading::start(ModelType::BgeM3);
    f.advance();
    f.fail("no network".to_string());
    assert_eq!(f.status, STATUS_ERROR);
    assert_eq!(f.error_message.as_deref(), Some("no network"));
    assert_eq!(f.phase, LoadingPhase::FetchingConfig);
}
