use std::collections::hash_map::DefaultHasher;
use std::hash::{Hash, Hasher};
use memory_mcp::types::record_key_to_string;
use memory_mcp::types::safe_thing::{reference_thing, symbol_hash, symbol_relation_thing, symbol_thing};
use memory_mcp::types::RecordIdKey;

#[test]
fn test_symbol_thing_with_colons() {
    let thing = symbol_thing("project", "file.rs", "std::io::Read", 42);
    assert_eq!(thing.table.as_str(), "code_symbols");
    assert!(record_key_to_string(&thing.key).chars().all(|c| c.is_ascii_hexdigit()));
}

#[test]
fn test_symbol_thing_deterministic() {
    let thing1 = symbol_thing("p", "f.rs", "func", 10);
    let thing2 = symbol_thing("p", "f.rs", "func", 10);
    assert_eq!(record_key_to_string(&thing1.key), record_key_to_string(&thing2.key));
}

#[test]
fn test_symbol_thing_different_for_different_inputs() {
    let thing1 = symbol_thing("p", "f.rs", "func1", 10);
    let thing2 = symbol_thing("p", "f.rs", "func2", 10);
    assert_ne!(record_key_to_string(&thing1.key), record_key_to_string(&thing2.key));
}

#[test]
fn test_symbol_thing_different_lines() {
    let thing1 = symbol_thing("p", "f.rs", "func", 10);
    let thing2 = symbol_thing("p", "f.rs", "func", 20);
    assert_ne!(record_key_to_string(&thing1.key), record_key_to_string(&thing2.key));
}

#[test]
fn test_symbol_hash_length() {
    let hash = symbol_hash("project", "file.rs", "symbol", 1);
    assert_eq!(hash.len(), 16);
}

#[test]
fn test_special_characters_in_name() {
    let names = vec![
        "std::io::Read",
        "crate::module::func",
        "fn<T>",
        "impl Trait for Type",
        "async fn",
        "struct::method",
        "mod::inner::deep::func",
        "a'b",
        "a\"b",
        "a;b",
        "a/b",
        "a\\b",
    ];

    for name in names {
        let thing = symbol_thing("p", "f.rs", name, 1);
        assert!(record_key_to_string(&thing.key).chars().all(|c| c.is_ascii_hexdigit()));
    }
}

#[test]
fn test_reference_thing() {
    let thing = reference_thing("project", "file.rs", "caller_func", 100);
    assert_eq!(thing.table.as_str(), "code_symbols");
}

#[test]
fn symbol_hash_matches_std_default_hasher() {
    let mut h = DefaultHasher::new();
    "proj".hash(&mut h);
    "src/lib.rs".hash(&mut h);
    "main".hash(&mut h);
    7u32.hash(&mut h);
    assert_eq!(symbol_hash("proj", "src/lib.rs", "main", 7), format!("{:016x}", h.finish()));
    let t = symbol_relation_thing("proj", "src/lib.rs", "main", 7);
    assert_eq!(record_key_to_string(&t.key), format!("{:016x}", h.finish()));
}

#[test]
fn numeric_keys_render_in_debug_form() {
    assert_eq!(record_key_to_string(&RecordIdKey::Number(42)), "Number(42)");
    assert_eq!(record_key_to_string(&RecordIdKey::Number(-7)), "Number(-7)");
    assert_eq!(record_key_to_string(&RecordIdKey::Number(i64::MIN)), format!("{:?}", RecordIdKey::Number(i64::MIN)));
    assert_eq!(record_key_to_string(&RecordIdKey::String("k".to_string())), "k");
}
