use memory_mcp::codebase::parser::extractor::{
    references_from_captures, signature_of, symbols_from_captures, Extractor, RawCapture,
};
use memory_mcp::codebase::parser::CodeParser;
use memory_mcp::types::{Language, SymbolType};

fn capture(name: &str, text: Option<&str>, row: usize, parent: Option<&str>) -> RawCapture {
    RawCapture {
        capture_name: name.to_string(),
        text: text.map(|t| t.to_string()),
        start_row: row,
        end_row: row + 2,
        column: 4,
        parent_text: parent.map(|p| p.to_string()),
    }
}

#[test]
fn test_parser_crash() {
    let content = "fn test() {}";
    let (symbols, _) = CodeParser::parse_file("test.rs", content, "test");
    assert!(!symbols.is_empty());
}

#[test]
fn test_rust_call_extraction() {
    let content = r#"
fn main() {
    let x = foo();
    bar(x);
}

fn foo() -> i32 { 42 }
fn bar(x: i32) {}
"#;
    let (symbols, refs) = CodeParser::parse_file("test.rs", content, "test");

    // Should have 3 functions: main, foo, bar
    assert_eq!(symbols.len(), 3, "Expected 3 symbols");

    // Should have calls: main->foo, main->bar
    let calls: Vec<_> = refs.iter().filter(|r| r.name == "foo" || r.name == "bar").collect();
    assert!(calls.len() >= 2, "Expected at least 2 calls, got {}", calls.len());
}

#[test]
fn rust_symbols_carry_lines_kinds_and_signatures() {
    let content = "struct Point {\n    x: i32,\n}\n\nfn origin() -> Point {\n    Point { x: 0 }\n}\n";
    let (symbols, _) = CodeParser::parse_file("geo.rs", content, "proj");
    assert_eq!(symbols.len(), 2);
    assert_eq!(symbols[0].name, "Point");
    assert_eq!(symbols[0].symbol_type, SymbolType::Struct);
    assert_eq!((symbols[0].start_line, symbols[0].end_line), (1, 1));
    assert_eq!(symbols[0].signature.as_deref(), Some("struct Point {"));
    assert_eq!(symbols[1].name, "origin");
    assert_eq!(symbols[1].symbol_type, SymbolType::Function);
    assert_eq!(symbols[1].start_line, 5);
    assert_eq!(symbols[1].signature.as_deref(), Some("fn origin() -> Point {"));
    assert_eq!(symbols[1].file_path, "geo.rs");
    assert_eq!(symbols[1].project_id, "proj");
}

#[test]
fn python_classes_and_functions() {
    let content = "class Greeter:\n    def greet(self):\n        print('hi')\n";
    let (symbols, refs) = CodeParser::parse_file("g.py", content, "p");
    let names: Vec<&str> = symbols.iter().map(|s| s.name.as_str()).collect();
    assert_eq!(names, vec!["Greeter", "greet"]);
    assert_eq!(symbols[0].symbol_type, SymbolType::Class);
    assert!(refs.iter().any(|r| r.name == "print" && r.line == 3));
}

#[test]
fn unsupported_languages_yield_nothing() {
    assert!(Extractor::new(Language::Unknown).is_none());
    assert!(Extractor::new(Language::Dart).is_none());
    let (s, r) = CodeParser::parse_file("notes.md", "# fn main() {}", "p");
    assert!(s.is_empty() && r.is_empty());
}

#[test]
fn captures_become_symbols_in_order() {
    let long = "x".repeat(300);
    let caps = vec![
        capture("function", Some("run"), 9, Some("fn run() {\n    go();\n}")),
        capture("function", None, 1, None),
        capture("struct", Some("S"), 0, Some(&long)),
        capture("impl", Some("S"), 3, None),
    ];
    let symbols = symbols_from_captures(&caps, Language::Rust, "a.rs", "p");
    assert_eq!(symbols.len(), 3);
    assert_eq!(symbols[0].name, "run");
    assert_eq!((symbols[0].start_line, symbols[0].end_line), (10, 12));
    assert_eq!(symbols[0].signature.as_deref(), Some("fn run() {"));
    assert_eq!(symbols[1].symbol_type, SymbolType::Struct);
    assert_eq!(symbols[1].signature.as_ref().map(|s| s.len()), Some(200));
    assert_eq!(symbols[2].symbol_type, SymbolType::Class);
    assert!(symbols[2].signature.is_none());
}

#[test]
fn captures_become_references() {
    let caps = vec![
        capture("call", Some("foo"), 4, None),
        capture("call", None, 5, None),
        capture("import", Some("bar"), usize::MAX, None),
    ];
    let refs = references_from_captures(&caps, "b.rs");
    assert_eq!(refs.len(), 2);
    assert_eq!((refs[0].name.as_str(), refs[0].line, refs[0].column), ("foo", 5, 4));
    assert_eq!(refs[1].name, "bar");
    assert_eq!(refs[1].file_path, "b.rs");
}

#[test]
fn signatures_keep_the_first_line() {
    assert_eq!(signature_of("fn a() {\n}"), "fn a() {");
    assert_eq!(signature_of(""), "");
    assert_eq!(signature_of("line\r\nrest"), "line");
    assert_eq!(signature_of(&"é".repeat(250)).chars().count(), 200);
}
