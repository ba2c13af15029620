use memory_mcp::types::{things_from_ids, ThingId, ThingIdErrorKind};

#[test]
fn test_valid_thing_id() {
    let thing = ThingId::new("entities", "abc123").unwrap();
    assert_eq!(thing.as_str(), "entities:abc123");
    assert_eq!(thing.table(), "entities");
    assert_eq!(thing.id(), "abc123");
}

#[test]
fn test_valid_with_underscore_and_hyphen() {
    let thing = ThingId::new("code_symbols", "abc-123_def").unwrap();
    assert_eq!(thing.as_str(), "code_symbols:abc-123_def");
}

#[test]
fn test_parse_valid() {
    let thing = ThingId::parse("relations:xyz789").unwrap();
    assert_eq!(thing.table(), "relations");
    assert_eq!(thing.id(), "xyz789");
}

#[test]
fn test_invalid_table_sql_injection() {
    let result = ThingId::new("entities; DROP TABLE--", "id");
    assert!(result.is_err());
}

#[test]
fn test_invalid_id_sql_injection() {
    let result = ThingId::new("entities", "id'; DELETE FROM entities--");
    assert!(result.is_err());
}

#[test]
fn test_invalid_empty_table() {
    let result = ThingId::new("", "id");
    assert!(result.is_err());
}

#[test]
fn test_invalid_empty_id() {
    let result = ThingId::new("table", "");
    assert!(result.is_err());
}

#[test]
fn test_invalid_special_chars() {
    assert!(ThingId::new("table", "id\"test").is_err());
    assert!(ThingId::new("table", "id'test").is_err());
    assert!(ThingId::new("table", "id;test").is_err());
    assert!(ThingId::new("table", "id/test").is_err());
    assert!(ThingId::new("table", "id\\test").is_err());
}

#[test]
fn test_parse_invalid_format() {
    assert!(ThingId::parse("no_colon").is_err());
    assert!(ThingId::parse("").is_err());
}

#[test]
fn test_display() {
    let thing = ThingId::new("memories", "test123").unwrap();
    assert_eq!(thing.to_string(), "memories:test123");
}

#[test]
fn error_kinds_follow_check_order() {
    assert_eq!(ThingId::new("", "").unwrap_err().kind, ThingIdErrorKind::EmptyTable);
    assert_eq!(ThingId::new("t", "").unwrap_err().kind, ThingIdErrorKind::EmptyId);
    let e = ThingId::new("9table", "bad id").unwrap_err();
    assert_eq!(e.kind, ThingIdErrorKind::InvalidTable);
    assert_eq!(e.subject, "9table");
    let e = ThingId::new("table", "bad id").unwrap_err();
    assert_eq!(e.kind, ThingIdErrorKind::InvalidId);
    assert_eq!(e.subject, "bad id");
    assert_eq!(
        e.message(),
        "Invalid ID 'bad id': must contain only alphanumeric characters, underscores, and hyphens"
    );
    let e = ThingId::parse("no_colon").unwrap_err();
    assert_eq!(e.kind, ThingIdErrorKind::InvalidFormat);
    assert_eq!(e.message(), "Invalid Thing format 'no_colon': expected 'table:id'");
    assert_eq!(ThingId::new("", "x").unwrap_err().message(), "Table name cannot be empty");
}

#[test]
fn table_may_start_with_underscore_but_not_digit() {
    assert!(ThingId::new("_t1", "x").is_ok());
    assert!(ThingId::new("1t", "x").is_err());
    assert!(ThingId::new("t-1", "x").is_err());
}

#[test]
fn parse_splits_at_first_colon_only() {
    // The id part may not hold a second colon.
    assert!(ThingId::parse("a:b:c").is_err());
    assert_eq!(ThingId::parse("a:b:c").unwrap_err().kind, ThingIdErrorKind::InvalidId);
}

#[test]
fn parse_gives_back_what_new_joined() {
    let t = ThingId::new("code_symbols", "ab-12_x").unwrap();
    let p = ThingId::parse(t.as_str()).unwrap();
    assert_eq!(p.table(), "code_symbols");
    assert_eq!(p.id(), "ab-12_x");
    assert_eq!(p, t);
}

#[test]
fn to_thing_and_batch_conversion() {
    let t = ThingId::new("entities", "abc").unwrap().to_thing();
    assert_eq!(t.table, "entities");
    assert_eq!(memory_mcp::types::record_key_to_string(&t.key), "abc");
    let ids = vec!["a".to_string(), "b-2".to_string()];
    let things = things_from_ids("entities", &ids).unwrap();
    assert_eq!(things.len(), 2);
    assert_eq!(memory_mcp::types::record_key_to_string(&things[1].key), "b-2");
    let bad = vec!["ok".to_string(), "no good".to_string(), "x;y".to_string()];
    let e = things_from_ids("entities", &bad).unwrap_err();
    assert_eq!(e.subject, "no good");
}
