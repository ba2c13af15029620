use memory_mcp::server::logic::{normalize_limit, DEFAULT_LIMIT, MAX_LIMIT};

#[test]
fn test_normalize_limit() {
    assert_eq!(normalize_limit(None), DEFAULT_LIMIT);
    assert_eq!(normalize_limit(Some(10)), 10);
    assert_eq!(normalize_limit(Some(50)), 50);
    assert_eq!(normalize_limit(Some(100)), 100);
    assert_eq!(normalize_limit(Some(101)), MAX_LIMIT);
    assert_eq!(normalize_limit(Some(1000)), MAX_LIMIT);
}
