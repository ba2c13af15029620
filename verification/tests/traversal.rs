use memory_mcp::graph::traversal::{
    clamp_depth, direct_result, record_key, BfsTraversal, TraversalConfig, TraversalResult,
    TraversalStrategy,
};
use memory_mcp::types::{RecordId, RecordIdKey};

const EDGES: [(&str, &str); 5] = [("a", "b"), ("a", "c"), ("b", "d"), ("c", "d"), ("d", "a")];

/// Outgoing neighbours of a batch, keyed as the storage would key them.
fn neighbours(batch: &[String]) -> (Vec<(String, String)>, Vec<(String, (String, String))>) {
    let mut nodes = Vec::new();
    let mut edges = Vec::new();
    for id in batch {
        for (from, to) in EDGES.iter() {
            if from == id {
                nodes.push((to.to_string(), to.to_string()));
                edges.push((format!("{}->{}", from, to), (from.to_string(), to.to_string())));
            }
        }
    }
    (nodes, edges)
}

fn run(depth: usize, config: TraversalConfig) -> TraversalResult<String, (String, String)> {
    let mut t = BfsTraversal::start("a".to_string(), clamp_depth(depth, &config), config);
    while let Some(batch) = t.next_request() {
        let (nodes, edges) = neighbours(&batch);
        t.absorb(nodes, edges);
    }
    t.finish()
}

#[test]
fn default_limits() {
    let c = TraversalConfig::default();
    assert_eq!((c.max_depth, c.max_entities_per_level, c.max_total_entities), (5, 100, 1000));
    assert_eq!(clamp_depth(0, &c), 1);
    assert_eq!(clamp_depth(3, &c), 3);
    assert_eq!(clamp_depth(10, &c), 5);
}

#[test]
fn bfs_reports_each_node_and_edge_once() {
    let r = run(3, TraversalConfig::default());
    assert_eq!(r.strategy_used, TraversalStrategy::Bfs);
    assert_eq!(r.entities, vec!["b", "c", "d"]);
    assert_eq!(r.relations.len(), 5);
    assert_eq!(r.depth_reached, 3);
    assert!(!r.truncated);
    assert_eq!(r.deferred_count, 0);
}

#[test]
fn bfs_stops_early_when_the_graph_runs_out() {
    let r = run(5, TraversalConfig::default());
    // Level 4 asks about nothing new: the frontier after level 3 is empty.
    assert_eq!(r.depth_reached, 3);
    assert_eq!(r.entities.len(), 3);
}

#[test]
fn bfs_stops_at_the_node_limit() {
    let cfg = TraversalConfig { max_depth: 5, max_entities_per_level: 100, max_total_entities: 2 };
    let r = run(3, cfg);
    assert_eq!(r.entities, vec!["b", "c"]);
    assert!(r.truncated);
    assert_eq!(r.deferred_count, 2);
    assert_eq!(r.depth_reached, 1);
}

#[test]
fn bfs_with_a_zero_node_limit_keeps_the_first_node() {
    let cfg = TraversalConfig { max_depth: 5, max_entities_per_level: 100, max_total_entities: 0 };
    let r = run(3, cfg);
    assert_eq!(r.entities, vec!["b"]);
    assert_eq!(r.relations.len(), 2);
    assert!(r.truncated);
    assert_eq!(r.deferred_count, 1);
    assert_eq!(r.depth_reached, 1);
}

#[test]
fn bfs_defers_beyond_the_level_limit() {
    let cfg = TraversalConfig { max_depth: 5, max_entities_per_level: 1, max_total_entities: 1000 };
    let r = run(3, cfg);
    assert!(r.truncated);
    assert_eq!(r.deferred_count, 1);
    assert_eq!(r.entities, vec!["b", "c", "d"]);
}

#[test]
fn depth_one_is_a_direct_lookup() {
    let r = direct_result(vec!["b".to_string()], vec![1u8, 2]);
    assert_eq!(r.strategy_used, TraversalStrategy::Direct);
    assert_eq!(r.depth_reached, 1);
    assert!(!r.truncated);
    assert_eq!(r.relations, vec![1, 2]);
}

#[test]
fn record_keys_as_text() {
    let id = Some(RecordId { table: "entity".to_string(), key: RecordIdKey::String("x1".to_string()) });
    assert_eq!(record_key(&id), "x1");
    assert_eq!(record_key(&None), "");
    let n = Some(RecordId { table: "entity".to_string(), key: RecordIdKey::Number(-4) });
    assert_eq!(record_key(&n), "Number(-4)");
}
