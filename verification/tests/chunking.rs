use memory_mcp::codebase::chunker::{
    chunk_by_structure, chunk_content, chunk_file, chunks_from_nodes, detect_chunk_type,
    split_large_node, SyntaxNode,
};
use memory_mcp::digest::hash_hex;
use memory_mcp::types::{ChunkType, Language};

#[test]
fn structure_packs_small_paragraphs_into_one_chunk() {
    let content = "first paragraph here\n\nsecond paragraph here";
    let chunks = chunk_by_structure(content, "notes.txt", "proj", Language::Unknown);
    assert_eq!(chunks.len(), 1);
    let c = &chunks[0];
    assert_eq!(c.content, content);
    assert_eq!(c.start_line, 1);
    // Each paragraph advances the counter by its lines plus one.
    assert_eq!(c.end_line, 5);
    assert_eq!(c.chunk_type, ChunkType::Other);
    assert_eq!(c.file_path, "notes.txt");
    assert_eq!(c.project_id.as_deref(), Some("proj"));
    assert!(c.name.is_none());
    assert_eq!(c.content_hash, hash_hex(content));
    assert_eq!(c.language, Language::Unknown);
}

#[test]
fn structure_drops_a_short_remainder() {
    assert!(chunk_by_structure("tiny", "a.txt", "p", Language::Unknown).is_empty());
    assert!(chunk_by_structure("", "a.txt", "p", Language::Unknown).is_empty());
    // Exactly ten bytes is kept.
    assert_eq!(chunk_by_structure("0123456789", "a.txt", "p", Language::Unknown).len(), 1);
}

#[test]
fn structure_flushes_before_overflowing() {
    let a = "a".repeat(3000);
    let b = "b".repeat(3000);
    let content = format!("{}\n\n{}", a, b);
    let chunks = chunk_by_structure(&content, "big.txt", "p", Language::Unknown);
    assert_eq!(chunks.len(), 2);
    assert_eq!(chunks[0].content, a);
    assert_eq!((chunks[0].start_line, chunks[0].end_line), (1, 2));
    assert_eq!(chunks[1].content, b);
    assert_eq!((chunks[1].start_line, chunks[1].end_line), (3, 5));
    // No text is lost: the chunks joined by blank lines give the file back.
    assert_eq!(format!("{}\n\n{}", chunks[0].content, chunks[1].content), content);
}

#[test]
fn structure_keeps_an_oversized_paragraph_whole() {
    let a = "x".repeat(5000);
    let chunks = chunk_by_structure(&a, "big.txt", "p", Language::Unknown);
    assert_eq!(chunks.len(), 1);
    assert_eq!(chunks[0].content.len(), 5000);
}

#[test]
fn structure_counts_multibyte_text_in_bytes() {
    // 1500 three-byte characters are 4500 bytes: two paragraphs of them
    // cannot share a chunk.
    let a = "€".repeat(1500);
    let content = format!("{}\n\n{}", a, a);
    let chunks = chunk_by_structure(&content, "u.txt", "p", Language::Unknown);
    assert_eq!(chunks.len(), 2);
}

#[test]
fn large_node_is_cut_into_line_runs() {
    let lines: Vec<String> = (0..400).map(|i| format!("line number {}", i)).collect();
    let text = lines.join("\n");
    let chunks = split_large_node(&text, "f.rs", "p", Language::Rust, 10);
    assert_eq!(chunks.len(), 3);
    assert_eq!((chunks[0].start_line, chunks[0].end_line), (10, 160));
    assert_eq!((chunks[1].start_line, chunks[1].end_line), (160, 310));
    assert_eq!((chunks[2].start_line, chunks[2].end_line), (310, 410));
    assert_eq!(chunks[0].content, lines[0..150].join("\n"));
    assert_eq!(chunks[2].content, lines[300..400].join("\n"));
    assert!(chunks.iter().all(|c| c.chunk_type == ChunkType::Other));
}

#[test]
fn node_kinds_map_to_chunk_types() {
    assert_eq!(detect_chunk_type("function_item"), ChunkType::Function);
    assert_eq!(detect_chunk_type("method_definition"), ChunkType::Function);
    assert_eq!(detect_chunk_type("class_declaration"), ChunkType::Class);
    assert_eq!(detect_chunk_type("trait_item"), ChunkType::Class);
    assert_eq!(detect_chunk_type("module"), ChunkType::Module);
    assert_eq!(detect_chunk_type("use_declaration"), ChunkType::Other);
}

#[test]
fn nodes_become_chunks_in_order() {
    let nodes = vec![
        SyntaxNode {
            text: "use x;".to_string(),
            start_row: 0,
            end_row: 0,
            kind: "use_declaration".to_string(),
        },
        SyntaxNode {
            text: "fn main() {\n    run();\n}".to_string(),
            start_row: 2,
            end_row: 4,
            kind: "function_item".to_string(),
        },
    ];
    let chunks = chunks_from_nodes(&nodes, "m.rs", "p", Language::Rust);
    assert_eq!(chunks.len(), 1);
    assert_eq!(chunks[0].chunk_type, ChunkType::Function);
    assert_eq!((chunks[0].start_line, chunks[0].end_line), (3, 5));
    assert_eq!(chunks[0].content, "fn main() {\n    run();\n}");
}

#[test]
fn rust_source_is_cut_along_top_level_items() {
    let src = "fn main() {\n    println!(\"hi\");\n}\n\nstruct Point {\n    x: i32,\n}\n";
    let chunks = chunk_content(src, "main.rs", "p", Language::Rust);
    assert_eq!(chunks.len(), 2);
    assert_eq!(chunks[0].chunk_type, ChunkType::Function);
    assert_eq!((chunks[0].start_line, chunks[0].end_line), (1, 3));
    assert_eq!(chunks[1].chunk_type, ChunkType::Class);
    assert_eq!((chunks[1].start_line, chunks[1].end_line), (5, 7));
    assert_eq!(chunks[1].content, "struct Point {\n    x: i32,\n}");
}

#[test]
fn unsupported_language_falls_back_to_paragraphs() {
    let src = "# Title\n\nSome words in a document.";
    let chunks = chunk_content(src, "README.md", "p", Language::Unknown);
    assert_eq!(chunks.len(), 1);
    assert_eq!(chunks[0].chunk_type, ChunkType::Other);
    assert_eq!(chunks[0].content, src);
}

#[test]
fn blank_files_have_no_chunks() {
    assert!(chunk_file("a.rs", "   \n\t\n", "p").is_empty());
    assert!(chunk_file("a.rs", "\u{3000}\u{85}\r\n", "p").is_empty());
    let chunks = chunk_file("src/lib.rs", "pub fn answer() -> u32 {\n    42\n}\n", "p");
    assert_eq!(chunks.len(), 1);
    assert_eq!(chunks[0].language, Language::Rust);
    assert_eq!(chunks[0].file_path, "src/lib.rs");
}
