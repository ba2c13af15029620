use memory_mcp::codebase::parser::languages::{
    definition_query, extract_signature_text, extract_until_body_start, relation_type_for,
    symbol_type_for, GoSupport, JavaSupport, PythonSupport, RustSupport, TypeScriptSupport,
};
use memory_mcp::codebase::scanner::{
    detect_language, is_code_file, is_ignored_file, is_ignored_path, project_id_for,
};
use memory_mcp::types::{CodeRelationType, Language, SymbolType};

#[test]
fn ignored_files() {
    assert!(is_ignored_file("/repo/node_modules/x/index.js"));
    assert!(is_ignored_file("/repo/Target/debug/main.rs"));
    assert!(is_ignored_file("/repo/src/.hidden.rs"));
    assert!(is_ignored_file("/repo/Cargo.lock"));
    assert!(is_ignored_file("/repo/lib/model.g.dart"));
    assert!(is_ignored_file("/repo/web/app.min.js"));
    assert!(!is_ignored_file("/repo/src/main.rs"));
    assert!(!is_ignored_file("/repo/src/builder.rs"));
}

#[test]
fn code_files_and_languages() {
    assert!(is_code_file("src/main.rs"));
    assert!(is_code_file("A/B.TSX"));
    assert!(!is_code_file("README.md"));
    assert!(!is_code_file("Makefile"));
    assert_eq!(detect_language("x/y.py"), Language::Python);
    assert_eq!(detect_language("x/y.JSX"), Language::JavaScript);
    assert_eq!(detect_language("x/y.ts"), Language::TypeScript);
    assert_eq!(detect_language("x/y.java"), Language::Java);
    assert_eq!(detect_language("x/y.dart"), Language::Dart);
    assert_eq!(detect_language("x/y.c"), Language::Unknown);
    assert_eq!(detect_language("x/y"), Language::Unknown);
}

#[test]
fn ignored_watch_paths() {
    assert!(is_ignored_path("/p/.git/config"));
    assert!(is_ignored_path("/p/node_modules/a.js"));
    assert!(is_ignored_path("/p/target/a.rs"));
    assert!(!is_ignored_path("/p/src/a.rs"));
    assert_eq!(project_id_for("/home/u/my_project"), "my_project");
    assert_eq!(project_id_for("/"), "unknown");
}

#[test]
fn capture_kinds_map_per_language() {
    assert_eq!(RustSupport.map_symbol_type("impl"), SymbolType::Class);
    assert_eq!(RustSupport.map_symbol_type("trait"), SymbolType::Trait);
    assert_eq!(RustSupport.map_symbol_type("whatever"), SymbolType::Function);
    assert_eq!(PythonSupport.map_symbol_type("class"), SymbolType::Class);
    assert_eq!(TypeScriptSupport.map_symbol_type("interface"), SymbolType::Interface);
    assert_eq!(GoSupport.map_symbol_type("class"), SymbolType::Class);
    assert_eq!(JavaSupport.map_symbol_type("enum"), SymbolType::Enum);
    assert_eq!(JavaSupport.map_relation_type("import"), CodeRelationType::Imports);
    assert_eq!(relation_type_for(Language::Go, "method_call"), CodeRelationType::Calls);
    assert_eq!(symbol_type_for(Language::Dart, "class"), SymbolType::Function);
    assert!(definition_query(Language::Dart).is_none());
    assert!(definition_query(Language::Rust).unwrap().contains("function_item"));
}

#[test]
fn declaration_headers() {
    assert_eq!(extract_until_body_start("fn foo(a: i32,\n  b: i32) -> i32 {\n body }"), "fn foo(a: i32, b: i32) -> i32");
    assert_eq!(extract_until_body_start("fn f(x: [u8; 2]) { }"), "fn f(x: [u8; 2])");
    assert_eq!(extract_until_body_start("struct S;"), "struct S;");
    assert_eq!(extract_until_body_start("   {"), "");
    assert_eq!(extract_signature_text("{ body }"), None);
    let long = format!("fn {}()", "a".repeat(600));
    assert_eq!(extract_signature_text(&long).unwrap().chars().count(), 500);
}

#[test]
fn plain_paths_follow_their_last_piece() {
    assert!(!is_code_file("home/.bashrc"));
    assert!(is_code_file("a/b.RS"));
    assert!(!is_code_file("a/b.rs/.."));
    assert_eq!(detect_language("lib/x.tsx"), Language::TypeScript);
    assert!(is_ignored_path("../a.rs"));
    assert!(is_ignored_path("p/.cache/a.rs"));
    assert!(!is_ignored_path("./src/a.rs"));
    assert!(is_ignored_file("app/.env"));
    assert!(!is_ignored_file("app/env.rs"));
    assert_eq!(project_id_for("work/proj"), "proj");
}

#[test]
fn paths_are_read_as_path_components() {
    assert!(is_code_file("src/lib.rs/."));
    assert!(is_code_file("src//lib.rs//"));
    assert!(!is_code_file("src/lib.rs/.."));
    assert_eq!(detect_language("./pkg/main.go/"), Language::Go);
    assert_eq!(detect_language("/"), Language::Unknown);
    assert_eq!(project_id_for("work/proj/"), "proj");
    assert_eq!(project_id_for("/"), "unknown");
    assert_eq!(project_id_for("work/.."), "unknown");
    assert!(is_ignored_file("app/.env/."));
    assert!(!is_ignored_file("."));
}
