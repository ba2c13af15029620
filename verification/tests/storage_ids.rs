use memory_mcp::digest::hash_hex;
use memory_mcp::storage::ids::{
    extract_dimension, id_from_seed, id_part, index_needs_rebuild, parse_thing, parse_usize, related_symbol_ids,
    split_at_first_colon, symbol_thing_for, thing_to_text,
};
use memory_mcp::storage::related::{clamp_related_depth, related_symbols_within};
use memory_mcp::types::{CodeRelationType, Direction, RecordId, RecordIdKey, SymbolRelation, ThingIdErrorKind};

fn thing(table: &str, key: &str) -> RecordId {
    RecordId::new(table.to_string(), key.to_string())
}

fn rel(from: &str, to: &str) -> SymbolRelation {
    SymbolRelation::new(thing("code_symbols", from), thing("code_symbols", to), CodeRelationType::Calls, "f.rs".to_string(), 3)
}

#[test]
fn things_split_at_the_first_colon() {
    assert_eq!(split_at_first_colon("a:b:c"), Some(("a".to_string(), "b:c".to_string())));
    assert_eq!(split_at_first_colon("abc"), None);
    let t = parse_thing("memories:xyz").unwrap();
    assert_eq!(t.table, "memories");
    assert_eq!(t.key, RecordIdKey::String("xyz".to_string()));
    assert_eq!(parse_thing("plain").unwrap_err(), "Invalid thing ID format: plain");
}

#[test]
fn symbol_ids_default_to_the_symbol_table() {
    let t = symbol_thing_for("abc123").unwrap();
    assert_eq!(thing_to_text(&t), "code_symbols:abc123");
    let t = symbol_thing_for("other_table:k-1").unwrap();
    assert_eq!(t.table, "other_table");
    let e = symbol_thing_for("bad table:x").unwrap_err();
    assert_eq!(e.kind, ThingIdErrorKind::InvalidTable);
    let e = symbol_thing_for("code_symbols:").unwrap_err();
    assert_eq!(e.kind, ThingIdErrorKind::EmptyId);
}

#[test]
fn related_ids_follow_the_direction() {
    let center = thing("code_symbols", "a");
    let rels = vec![rel("a", "b"), rel("c", "a")];
    assert_eq!(related_symbol_ids(&rels, Direction::Outgoing, &center), vec!["code_symbols:b", "code_symbols:a"]);
    assert_eq!(related_symbol_ids(&rels, Direction::Incoming, &center), vec!["code_symbols:a", "code_symbols:c"]);
    assert_eq!(related_symbol_ids(&rels, Direction::Both, &center), vec!["code_symbols:b", "code_symbols:c"]);
    assert_eq!(id_part("code_symbols:b"), "b");
    assert_eq!(id_part("b"), "b");
}

#[test]
fn seeded_ids_are_digest_prefixes() {
    let id = id_from_seed("seed-1");
    assert_eq!(id.len(), 20);
    assert_eq!(id, hash_hex("seed-1")[..20].to_string());
}

#[test]
fn dimensions_are_read_from_index_definitions() {
    let def = "DEFINE INDEX idx ON memories FIELDS embedding HNSW DIMENSION 768 DIST COSINE";
    assert_eq!(extract_dimension(def), Some(768));
    assert_eq!(extract_dimension("HNSW DIMENSION   +384\tTYPE F32"), Some(384));
    assert_eq!(extract_dimension("no dimension here"), None);
    assert_eq!(extract_dimension("DIMENSION abc"), None);
    assert_eq!(extract_dimension("DIMENSION "), None);
    assert_eq!(extract_dimension("DIMENSION 12DIMENSION 13"), Some(12));
}

#[test]
fn numbers_parse_as_usize_does() {
    let p = |s: &str| parse_usize(&s.chars().collect());
    assert_eq!(p("0"), Some(0));
    assert_eq!(p("+7"), Some(7));
    assert_eq!(p("+"), None);
    assert_eq!(p(""), None);
    assert_eq!(p("-1"), None);
    assert_eq!(p("18446744073709551615"), Some(usize::MAX));
    assert_eq!(p("18446744073709551616"), None);
    for s in ["0", "42", "+3", "x", "99999999999999999999", "1_0"] {
        assert_eq!(p(s), s.parse::<usize>().ok());
    }
}

#[test]
fn vector_indexes_are_rebuilt_only_on_a_dimension_change() {
    let def = "DEFINE INDEX idx_memories_vec ON memories FIELDS embedding HNSW DIMENSION 384";
    assert!(index_needs_rebuild(Some(def), 768));
    assert!(!index_needs_rebuild(Some(def), 384));
    assert!(!index_needs_rebuild(Some("no size"), 768));
    assert!(!index_needs_rebuild(None, 768));
}

#[test]
fn related_symbols_are_found_level_by_level() {
    let center = thing("code_symbols", "a");
    // a -> b -> c -> d, a -> c, d -> a, e -> a
    let rels = vec![rel("a", "b"), rel("b", "c"), rel("c", "d"), rel("a", "c"), rel("d", "a"), rel("e", "a")];
    assert_eq!(clamp_related_depth(0), 1);
    assert_eq!(clamp_related_depth(9), 3);
    assert_eq!(related_symbols_within(&rels, Direction::Outgoing, &center, 1), vec!["code_symbols:b", "code_symbols:c"]);
    assert_eq!(
        related_symbols_within(&rels, Direction::Outgoing, &center, 2),
        vec!["code_symbols:b", "code_symbols:c", "code_symbols:d"]
    );
    assert_eq!(related_symbols_within(&rels, Direction::Incoming, &center, 1), vec!["code_symbols:d", "code_symbols:e"]);
    assert_eq!(
        related_symbols_within(&rels, Direction::Incoming, &center, 3),
        vec!["code_symbols:d", "code_symbols:e", "code_symbols:c", "code_symbols:b"]
    );
    assert_eq!(
        related_symbols_within(&rels, Direction::Both, &center, 1),
        vec!["code_symbols:b", "code_symbols:c", "code_symbols:d", "code_symbols:e"]
    );
}
