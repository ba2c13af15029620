//! Cutting source files into chunks for vector and keyword search.
//!
//! Files in a language with a grammar are cut along the top-level nodes of
//! their syntax tree; a node too long for one chunk is cut into runs of at
//! most `MAX_CHUNK_LINES` lines.  Other files, and files whose tree yields
//! nothing, are cut at blank lines into paragraphs that are packed greedily
//! into chunks of at most `MAX_CHUNK_CHARS` bytes.  Pieces shorter than
//! `MIN_CHUNK_CHARS` bytes are dropped.
//!
//! Line numbers are `u32` and wrap around past `u32::MAX`, as the
//! arithmetic they come from does in a release build.

use vstd::prelude::*;
use vstd::utf8::{encode_scalar, encode_utf8};
use crate::digest::{content_hash_text, hash_hex};
use crate::text::{chars_of, lines_of, std_lines, str_eq, string_of, trim, unicode_trim};
use crate::types::{ChunkType, CodeChunk, Language};
use super::scanner::{detect_language, detected_language};
use super::parser::languages::has_support;
use super::parser::syntax::{
    grammar_of, load_grammar, nodes_agree, parse_top_level, tree_sitter_top_level,
};

verus! {

/// Longest chunk, in bytes.
pub const MAX_CHUNK_CHARS: usize = 4000;
/// Shortest chunk kept, in bytes.
pub const MIN_CHUNK_CHARS: usize = 10;
/// Most lines in one piece of an oversized syntax node.
pub const MAX_CHUNK_LINES: usize = 150;

/// The length in bytes of the UTF-8 encoding of a text.
pub open spec fn blen(s: Seq<char>) -> nat {
    encode_utf8(s).len()
}

/// A chunk as content, first line, last line and kind.
pub type ChunkDesc = (Seq<char>, u32, u32, ChunkType);

/// `c` is the chunk `d` of file `file_path` in project `project_id`.
pub open spec fn chunk_matches(
    c: CodeChunk,
    d: ChunkDesc,
    file_path: Seq<char>,
    project_id: Seq<char>,
    language: Language,
) -> bool {
    &&& c.content@ == d.0
    &&& c.start_line == d.1
    &&& c.end_line == d.2
    &&& c.chunk_type == d.3
    &&& c.file_path@ == file_path
    &&& c.project_id is Some
    &&& c.project_id->0@ == project_id
    &&& c.language == language
    &&& c.name is None
    &&& c.content_hash@ == content_hash_text(d.0)
}

/// `cs` are exactly the chunks `ds`, in order.
pub open spec fn chunks_described(
    cs: Seq<CodeChunk>,
    ds: Seq<ChunkDesc>,
    file_path: Seq<char>,
    project_id: Seq<char>,
    language: Language,
) -> bool {
    &&& cs.len() == ds.len()
    &&& forall|k: int|
        0 <= k < cs.len() ==> chunk_matches(#[trigger] cs[k], ds[k], file_path, project_id, language)
}

/// The pieces of `s` between occurrences of a blank line (`\n\n`), matched
/// left to right without overlap, as `str::split("\n\n")` yields them.
pub open spec fn split_paragraphs(s: Seq<char>) -> Seq<Seq<char>>
    decreases s.len(),
{
    if s.len() == 0 {
        seq![seq![]]
    } else if s.len() >= 2 && s[0] == '\n' && s[1] == '\n' {
        seq![seq![]] + split_paragraphs(s.subrange(2, s.len() as int))
    } else {
        let rest = split_paragraphs(s.subrange(1, s.len() as int));
        rest.update(0, seq![s[0]] + rest[0])
    }
}

/// `split_paragraphs` always yields at least one piece.
pub proof fn lemma_split_paragraphs_nonempty(s: Seq<char>)
    ensures
        split_paragraphs(s).len() >= 1,
    decreases s.len(),
{
    if s.len() >= 2 && s[0] == '\n' && s[1] == '\n' {
        lemma_split_paragraphs_nonempty(s.subrange(2, s.len() as int));
    } else if s.len() > 0 {
        lemma_split_paragraphs_nonempty(s.subrange(1, s.len() as int));
    }
}

/// The number of lines of a text, as `str::lines().count()` gives it.
pub open spec fn line_count(s: Seq<char>) -> nat {
    std_lines(s).len()
}

/// Packing state: chunks emitted, the chunk being filled, its first line,
/// and the line counter.
pub type PackState = (Seq<ChunkDesc>, Seq<char>, u32, u32);

/// One paragraph of greedy packing.  When the paragraph would push a
/// non-empty chunk past `MAX_CHUNK_CHARS` bytes, that chunk is emitted
/// (ending one line before the counter) and a new one starts at the
/// counter.  The paragraph is then appended, after a blank line unless the
/// chunk is empty, and the counter moves past its lines and the blank line.
pub open spec fn pack_step(st: PackState, para: Seq<char>) -> PackState {
    let flush = blen(st.1) + blen(para) > MAX_CHUNK_CHARS && st.1.len() > 0;
    let end = if st.3 >= 1 {
        (st.3 - 1) as u32
    } else {
        0u32
    };
    let chunks = if flush {
        st.0.push((st.1, st.2, end, ChunkType::Other))
    } else {
        st.0
    };
    let cur = if flush {
        Seq::<char>::empty()
    } else {
        st.1
    };
    let start = if flush {
        st.3
    } else {
        st.2
    };
    let joined = (if cur.len() > 0 {
        cur + seq!['\n', '\n']
    } else {
        cur
    }) + para;
    (chunks, joined, start, st.3.wrapping_add((line_count(para) as u32).wrapping_add(1)))
}

/// Greedy packing of a sequence of paragraphs, from line 1.
pub open spec fn pack(paras: Seq<Seq<char>>) -> PackState
    decreases paras.len(),
{
    if paras.len() == 0 {
        (seq![], seq![], 1u32, 1u32)
    } else {
        pack_step(pack(paras.drop_last()), paras.last())
    }
}

/// The chunks of a file cut at blank lines: the packed chunks, and the last
/// chunk being filled when it has at least `MIN_CHUNK_CHARS` bytes (ending
/// at the final counter).
pub open spec fn structure_chunks(content: Seq<char>) -> Seq<ChunkDesc> {
    let st = pack(split_paragraphs(content));
    if blen(st.1) >= MIN_CHUNK_CHARS {
        st.0.push((st.1, st.2, st.3, ChunkType::Other))
    } else {
        st.0
    }
}

/// Lines joined with `\n` between them.
pub open spec fn join_lines(ls: Seq<Seq<char>>) -> Seq<char>
    decreases ls.len(),
{
    if ls.len() == 0 {
        seq![]
    } else if ls.len() == 1 {
        ls[0]
    } else {
        join_lines(ls.drop_last()) + seq!['\n'] + ls.last()
    }
}

/// The pieces of an oversized node made from its lines `from..` onward:
/// runs of `MAX_CHUNK_LINES` lines joined by `\n`, each kept when it has at
/// least `MIN_CHUNK_CHARS` bytes, numbered from `base_line` plus the index
/// of its first line to `base_line` plus the index after its last line.
pub open spec fn line_runs(lines: Seq<Seq<char>>, from: nat, base_line: u32) -> Seq<ChunkDesc>
    decreases lines.len() - from,
{
    if from >= lines.len() {
        seq![]
    } else {
        let end: nat = if from + MAX_CHUNK_LINES < lines.len() {
            (from + MAX_CHUNK_LINES) as nat
        } else {
            lines.len()
        };
        let text = join_lines(lines.subrange(from as int, end as int));
        let here: Seq<ChunkDesc> = if blen(text) >= MIN_CHUNK_CHARS {
            seq![(text, base_line.wrapping_add(from as u32), base_line.wrapping_add(end as u32), ChunkType::Other)]
        } else {
            seq![]
        };
        here + line_runs(lines, end, base_line)
    }
}

/// The pieces of an oversized node's text.
pub open spec fn split_large_text(text: Seq<char>, base_line: u32) -> Seq<ChunkDesc> {
    line_runs(std_lines(text), 0, base_line)
}

/// Every piece of `line_runs` is a run of at most 150 consecutive lines
/// `i..j` (from `from` on), joined by `\n`, of kind `Other`, numbered from
/// `base_line + i` to `base_line + j`.
pub proof fn lemma_line_runs_are_short_runs(lines: Seq<Seq<char>>, from: nat, base_line: u32)
    ensures
        forall|k: int| 0 <= k < line_runs(lines, from, base_line).len() ==> exists|i: int, j: int| {
            &&& from <= i < j <= lines.len()
            &&& j - i <= 150
            &&& #[trigger] line_runs(lines, from, base_line)[k] == (
                join_lines(lines.subrange(i, j)),
                base_line.wrapping_add(i as u32),
                base_line.wrapping_add(j as u32),
                ChunkType::Other,
            )
        },
    decreases lines.len() - from,
{
    if from < lines.len() {
        let end: nat = if from + MAX_CHUNK_LINES < lines.len() {
            (from + MAX_CHUNK_LINES) as nat
        } else {
            lines.len()
        };
        lemma_line_runs_are_short_runs(lines, end, base_line);
        let text = join_lines(lines.subrange(from as int, end as int));
        let here: Seq<ChunkDesc> = if blen(text) >= MIN_CHUNK_CHARS {
            seq![(text, base_line.wrapping_add(from as u32), base_line.wrapping_add(end as u32), ChunkType::Other)]
        } else {
            seq![]
        };
        let rest = line_runs(lines, end, base_line);
        let all = line_runs(lines, from, base_line);
        assert(all == here + rest);
        assert forall|k: int| 0 <= k < all.len() implies exists|i: int, j: int| {
            &&& from <= i < j <= lines.len()
            &&& j - i <= 150
            &&& #[trigger] all[k] == (
                join_lines(lines.subrange(i, j)),
                base_line.wrapping_add(i as u32),
                base_line.wrapping_add(j as u32),
                ChunkType::Other,
            )
        } by {
            if k < here.len() {
                assert(all[k] == here[0]);
                let i = from as int;
                let j = end as int;
                assert(all[k] == (
                    join_lines(lines.subrange(i, j)),
                    base_line.wrapping_add(i as u32),
                    base_line.wrapping_add(j as u32),
                    ChunkType::Other,
                ));
            } else {
                assert(all[k] == rest[k - here.len()]);
                let (i, j) = choose|i: int, j: int| {
                    &&& end <= i < j <= lines.len()
                    &&& j - i <= 150
                    &&& #[trigger] rest[k - here.len()] == (
                        join_lines(lines.subrange(i, j)),
                        base_line.wrapping_add(i as u32),
                        base_line.wrapping_add(j as u32),
                        ChunkType::Other,
                    )
                };
                assert(all[k] == (
                    join_lines(lines.subrange(i, j)),
                    base_line.wrapping_add(i as u32),
                    base_line.wrapping_add(j as u32),
                    ChunkType::Other,
                ));
            }
        }
    }
}

/// A syntax node of more than 4000 bytes is never one chunk: every chunk
/// made from it is a run of at most 150 of its lines (`str::lines`),
/// joined by `\n`, of kind `Other`, numbered from the node's first line
/// (its start row plus one) plus the run's first line index.
pub proof fn lemma_oversized_node_is_split(n: SyntaxNode)
    requires
        blen(n.text@) > 4000,
    ensures
        forall|k: int| 0 <= k < node_chunks(n).len() ==> exists|i: int, j: int| {
            &&& 0 <= i < j <= std_lines(n.text@).len()
            &&& j - i <= 150
            &&& #[trigger] node_chunks(n)[k] == (
                join_lines(std_lines(n.text@).subrange(i, j)),
                ((n.start_row as u32).wrapping_add(1)).wrapping_add(i as u32),
                ((n.start_row as u32).wrapping_add(1)).wrapping_add(j as u32),
                ChunkType::Other,
            )
        },
{
    lemma_line_runs_are_short_runs(std_lines(n.text@), 0, (n.start_row as u32).wrapping_add(1));
}

/// A top-level node of a syntax tree: its text, the zero-based rows where it
/// starts and ends, and its grammar kind.
#[derive(Clone, Debug)]
pub struct SyntaxNode {
    pub text: String,
    pub start_row: usize,
    pub end_row: usize,
    pub kind: String,
}

/// The chunk kind of a syntax node kind.
pub open spec fn chunk_type_of_kind(kind: Seq<char>) -> ChunkType {
    if kind == "function_item"@ || kind == "function_definition"@ || kind
        == "function_declaration"@ || kind == "method_definition"@ {
        ChunkType::Function
    } else if kind == "struct_item"@ || kind == "class_definition"@ || kind
        == "class_declaration"@ {
        ChunkType::Class
    } else if kind == "impl_item"@ || kind == "trait_item"@ || kind == "interface_declaration"@ {
        ChunkType::Class
    } else if kind == "mod_item"@ || kind == "module"@ {
        ChunkType::Module
    } else {
        ChunkType::Other
    }
}

/// The chunk kinds of syntax node kinds: function and method nodes are
/// functions; struct, class, impl, trait and interface nodes are classes;
/// module nodes are modules; any other node is `Other`.
pub proof fn lemma_chunk_kind_table(kind: Seq<char>)
    ensures
        kind == "function_item"@ ==> chunk_type_of_kind(kind) == ChunkType::Function,
        kind == "function_definition"@ ==> chunk_type_of_kind(kind) == ChunkType::Function,
        kind == "function_declaration"@ ==> chunk_type_of_kind(kind) == ChunkType::Function,
        kind == "method_definition"@ ==> chunk_type_of_kind(kind) == ChunkType::Function,
        kind == "struct_item"@ ==> chunk_type_of_kind(kind) == ChunkType::Class,
        kind == "class_definition"@ ==> chunk_type_of_kind(kind) == ChunkType::Class,
        kind == "class_declaration"@ ==> chunk_type_of_kind(kind) == ChunkType::Class,
        kind == "impl_item"@ ==> chunk_type_of_kind(kind) == ChunkType::Class,
        kind == "trait_item"@ ==> chunk_type_of_kind(kind) == ChunkType::Class,
        kind == "interface_declaration"@ ==> chunk_type_of_kind(kind) == ChunkType::Class,
        kind == "mod_item"@ ==> chunk_type_of_kind(kind) == ChunkType::Module,
        kind == "module"@ ==> chunk_type_of_kind(kind) == ChunkType::Module,
        !(kind == "function_item"@ || kind == "function_definition"@ || kind == "function_declaration"@ || kind == "method_definition"@ || kind == "struct_item"@ || kind == "class_definition"@ || kind == "class_declaration"@ || kind == "impl_item"@ || kind == "trait_item"@ || kind == "interface_declaration"@ || kind == "mod_item"@ || kind == "module"@) ==> chunk_type_of_kind(kind) == ChunkType::Other,
{
    reveal_strlit("function_item");
    reveal_strlit("function_definition");
    reveal_strlit("function_declaration");
    reveal_strlit("method_definition");
    reveal_strlit("struct_item");
    reveal_strlit("class_definition");
    reveal_strlit("class_declaration");
    reveal_strlit("impl_item");
    reveal_strlit("trait_item");
    reveal_strlit("interface_declaration");
    reveal_strlit("mod_item");
    reveal_strlit("module");
    assert("function_definition"@.len() != "function_item"@.len());
    assert("function_declaration"@.len() != "function_item"@.len());
    assert("function_declaration"@.len() != "function_definition"@.len());
    assert("method_definition"@.len() != "function_item"@.len());
    assert("method_definition"@.len() != "function_definition"@.len());
    assert("method_definition"@.len() != "function_declaration"@.len());
    assert("struct_item"@.len() != "function_item"@.len());
    assert("struct_item"@.len() != "function_definition"@.len());
    assert("struct_item"@.len() != "function_declaration"@.len());
    assert("struct_item"@.len() != "method_definition"@.len());
    assert("class_definition"@.len() != "function_item"@.len());
    assert("class_definition"@.len() != "function_definition"@.len());
    assert("class_definition"@.len() != "function_declaration"@.len());
    assert("class_definition"@.len() != "method_definition"@.len());
    assert("class_definition"@.len() != "struct_item"@.len());
    assert("class_declaration"@.len() != "function_item"@.len());
    assert("class_declaration"@.len() != "function_definition"@.len());
    assert("class_declaration"@.len() != "function_declaration"@.len());
    assert("class_declaration"@[0] != "method_definition"@[0]);
    assert("class_declaration"@.len() != "struct_item"@.len());
    assert("class_declaration"@.len() != "class_definition"@.len());
    assert("impl_item"@.len() != "function_item"@.len());
    assert("impl_item"@.len() != "function_definition"@.len());
    assert("impl_item"@.len() != "function_declaration"@.len());
    assert("impl_item"@.len() != "method_definition"@.len());
    assert("impl_item"@.len() != "struct_item"@.len());
    assert("impl_item"@.len() != "class_definition"@.len());
    assert("impl_item"@.len() != "class_declaration"@.len());
    assert("trait_item"@.len() != "function_item"@.len());
    assert("trait_item"@.len() != "function_definition"@.len());
    assert("trait_item"@.len() != "function_declaration"@.len());
    assert("trait_item"@.len() != "method_definition"@.len());
    assert("trait_item"@.len() != "struct_item"@.len());
    assert("trait_item"@.len() != "class_definition"@.len());
    assert("trait_item"@.len() != "class_declaration"@.len());
    assert("trait_item"@.len() != "impl_item"@.len());
    assert("interface_declaration"@.len() != "function_item"@.len());
    assert("interface_declaration"@.len() != "function_definition"@.len());
    assert("interface_declaration"@.len() != "function_declaration"@.len());
    assert("interface_declaration"@.len() != "method_definition"@.len());
    assert("interface_declaration"@.len() != "struct_item"@.len());
    assert("interface_declaration"@.len() != "class_definition"@.len());
    assert("interface_declaration"@.len() != "class_declaration"@.len());
    assert("interface_declaration"@.len() != "impl_item"@.len());
    assert("interface_declaration"@.len() != "trait_item"@.len());
    assert("mod_item"@.len() != "function_item"@.len());
    assert("mod_item"@.len() != "function_definition"@.len());
    assert("mod_item"@.len() != "function_declaration"@.len());
    assert("mod_item"@.len() != "method_definition"@.len());
    assert("mod_item"@.len() != "struct_item"@.len());
    assert("mod_item"@.len() != "class_definition"@.len());
    assert("mod_item"@.len() != "class_declaration"@.len());
    assert("mod_item"@.len() != "impl_item"@.len());
    assert("mod_item"@.len() != "trait_item"@.len());
    assert("mod_item"@.len() != "interface_declaration"@.len());
    assert("module"@.len() != "function_item"@.len());
    assert("module"@.len() != "function_definition"@.len());
    assert("module"@.len() != "function_declaration"@.len());
    assert("module"@.len() != "method_definition"@.len());
    assert("module"@.len() != "struct_item"@.len());
    assert("module"@.len() != "class_definition"@.len());
    assert("module"@.len() != "class_declaration"@.len());
    assert("module"@.len() != "impl_item"@.len());
    assert("module"@.len() != "trait_item"@.len());
    assert("module"@.len() != "interface_declaration"@.len());
    assert("module"@.len() != "mod_item"@.len());
}

/// The chunks of one top-level node: none when shorter than
/// `MIN_CHUNK_CHARS` bytes, the node itself when at most
/// `MAX_CHUNK_CHARS` bytes, otherwise its line runs.
pub open spec fn node_chunks(n: SyntaxNode) -> Seq<ChunkDesc> {
    let start = (n.start_row as u32).wrapping_add(1);
    if blen(n.text@) < MIN_CHUNK_CHARS {
        seq![]
    } else if blen(n.text@) <= MAX_CHUNK_CHARS {
        seq![(n.text@, start, (n.end_row as u32).wrapping_add(1), chunk_type_of_kind(n.kind@))]
    } else {
        split_large_text(n.text@, start)
    }
}

/// A syntax node of fewer than 10 bytes gives no chunk; one of 10 to 4000
/// bytes gives exactly one chunk: its whole text, from its start row plus
/// one to its end row plus one, of the kind its node kind names.
pub proof fn lemma_small_nodes(n: SyntaxNode)
    ensures
        blen(n.text@) < 10 ==> node_chunks(n).len() == 0,
        10 <= blen(n.text@) <= 4000 ==> node_chunks(n) == seq![(
            n.text@,
            (n.start_row as u32).wrapping_add(1),
            (n.end_row as u32).wrapping_add(1),
            chunk_type_of_kind(n.kind@),
        )],
{
}

/// The chunks of a sequence of top-level nodes, in order.
pub open spec fn nodes_chunks(ns: Seq<SyntaxNode>) -> Seq<ChunkDesc>
    decreases ns.len(),
{
    if ns.len() == 0 {
        seq![]
    } else {
        nodes_chunks(ns.drop_last()) + node_chunks(ns.last())
    }
}

/// The chunks of a file given the top-level nodes its grammar found (or
/// `None` when it has no grammar or could not be parsed): the node chunks,
/// or the blank-line chunks when there are none.
pub open spec fn content_chunks(nodes: Option<Seq<SyntaxNode>>, content: Seq<char>) -> Seq<ChunkDesc> {
    match nodes {
        Some(ns) => if nodes_chunks(ns).len() > 0 {
            nodes_chunks(ns)
        } else {
            structure_chunks(content)
        },
        None => structure_chunks(content),
    }
}

/// The top-level nodes that tree-sitter finds in `content` with the grammar
/// of `language`; `None` for a language without a grammar.
pub open spec fn language_top_level(language: Language, content: Seq<char>) -> Option<Seq<SyntaxNode>> {
    match grammar_of(language) {
        Some(g) => tree_sitter_top_level(g, content),
        None => None,
    }
}

/// The top-level nodes of `content` in `language`: none for a language
/// without a grammar, otherwise what parsing with its grammar gives.
pub fn top_level_nodes(language: Language, content: &str) -> (r: Option<Vec<SyntaxNode>>)
    ensures
        nodes_agree(r, language_top_level(language, content@)),
        !has_support(language) ==> r is None,
{
    match load_grammar(language) {
        Some(g) => parse_top_level(&g, content),
        None => None,
    }
}

/// Builds the chunk record for a piece of a file, fingerprinting its content.
pub fn create_chunk(
    content: &str,
    file_path: &str,
    project_id: &str,
    language: Language,
    start_line: u32,
    end_line: u32,
    chunk_type: ChunkType,
) -> (r: CodeChunk)
    ensures
        chunk_matches(r, (content@, start_line, end_line, chunk_type), file_path@, project_id@, language),
{
    let content_hash = hash_hex(content);
    CodeChunk {
        file_path: String::from_str(file_path),
        content: String::from_str(content),
        language,
        start_line,
        end_line,
        chunk_type,
        name: None,
        content_hash,
        project_id: Some(String::from_str(project_id)),
    }
}

/// The chunk kind of a syntax node kind: functions and methods, classes,
/// structs, impls, traits and interfaces (as classes), modules, or other.
pub fn detect_chunk_type(kind: &str) -> (r: ChunkType)
    ensures
        r == chunk_type_of_kind(kind@),
        kind@ == "function_item"@ ==> r == ChunkType::Function,
        kind@ == "function_definition"@ ==> r == ChunkType::Function,
        kind@ == "function_declaration"@ ==> r == ChunkType::Function,
        kind@ == "method_definition"@ ==> r == ChunkType::Function,
        kind@ == "struct_item"@ ==> r == ChunkType::Class,
        kind@ == "class_definition"@ ==> r == ChunkType::Class,
        kind@ == "class_declaration"@ ==> r == ChunkType::Class,
        kind@ == "impl_item"@ ==> r == ChunkType::Class,
        kind@ == "trait_item"@ ==> r == ChunkType::Class,
        kind@ == "interface_declaration"@ ==> r == ChunkType::Class,
        kind@ == "mod_item"@ ==> r == ChunkType::Module,
        kind@ == "module"@ ==> r == ChunkType::Module,
        !(kind@ == "function_item"@ || kind@ == "function_definition"@ || kind@ == "function_declaration"@ || kind@ == "method_definition"@ || kind@ == "struct_item"@ || kind@ == "class_definition"@ || kind@ == "class_declaration"@ || kind@ == "impl_item"@ || kind@ == "trait_item"@ || kind@ == "interface_declaration"@ || kind@ == "mod_item"@ || kind@ == "module"@) ==> r == ChunkType::Other,
{
    proof {
        lemma_chunk_kind_table(kind@);
    }
    if str_eq(kind, "function_item") || str_eq(kind, "function_definition") || str_eq(
        kind,
        "function_declaration",
    ) || str_eq(kind, "method_definition") {
        ChunkType::Function
    } else if str_eq(kind, "struct_item") || str_eq(kind, "class_definition") || str_eq(
        kind,
        "class_declaration",
    ) {
        ChunkType::Class
    } else if str_eq(kind, "impl_item") || str_eq(kind, "trait_item") || str_eq(
        kind,
        "interface_declaration",
    ) {
        ChunkType::Class
    } else if str_eq(kind, "mod_item") || str_eq(kind, "module") {
        ChunkType::Module
    } else {
        ChunkType::Other
    }
}

/// The UTF-8 length of a concatenation is the sum of the lengths.
pub proof fn lemma_blen_append(a: Seq<char>, b: Seq<char>)
    ensures
        blen(a + b) == blen(a) + blen(b),
    decreases a.len(),
{
    if a.len() == 0 {
        assert(a + b =~= b);
    } else {
        assert((a + b)[0] == a[0]);
        assert((a + b).drop_first() =~= a.drop_first() + b);
        lemma_blen_append(a.drop_first(), b);
    }
}

/// A blank-line separator takes two bytes.
proof fn lemma_blen_newlines()
    ensures
        blen(seq!['\n', '\n']) == 2,
{
    let nl = seq!['\n'];
    assert(nl.drop_first() =~= Seq::<char>::empty());
    assert(('\n' as u32) == 10u32);
    assert(encode_utf8(nl) =~= encode_scalar('\n' as u32) + encode_utf8(Seq::<char>::empty()));
    assert(blen(nl) == 1);
    assert(seq!['\n', '\n'] =~= nl + nl);
    lemma_blen_append(nl, nl);
}

/// The number of bytes UTF-8 takes for one character.
fn char_width(c: char) -> (r: u128)
    ensures
        r == blen(seq![c]),
        1 <= r <= 4,
{
    proof {
        assert(seq![c].drop_first() =~= Seq::<char>::empty());
        assert(encode_utf8(seq![c]) == encode_scalar(c as u32) + encode_utf8(Seq::<char>::empty()));
        assert(encode_utf8(seq![c]) =~= encode_scalar(c as u32));
    }
    let v = c as u32;
    if v < 0x80 {
        1
    } else if v < 0x800 {
        2
    } else if v < 0x10000 {
        3
    } else {
        4
    }
}

/// The length in bytes of the UTF-8 encoding of some characters.
fn byte_len(cs: &Vec<char>) -> (r: u128)
    ensures
        r == blen(cs@),
        r <= 4 * cs@.len(),
{
    let mut total: u128 = 0;
    let mut i: usize = 0;
    proof {
        assert(cs@.take(0) =~= Seq::<char>::empty());
    }
    while i < cs.len()
        invariant
            i <= cs@.len(),
            total == blen(cs@.take(i as int)),
            total <= 4 * i,
        decreases cs.len() - i,
    {
        let w = char_width(cs[i]);
        proof {
            assert(cs@.take(i + 1) =~= cs@.take(i as int) + seq![cs@[i as int]]);
            lemma_blen_append(cs@.take(i as int), seq![cs@[i as int]]);
        }
        total = total + w;
        i = i + 1;
    }
    proof {
        assert(cs@.take(i as int) =~= cs@);
    }
    total
}

/// Appends the characters of `src` to `dst`.
pub fn extend_chars(dst: &mut Vec<char>, src: &Vec<char>)
    ensures
        final(dst)@ == old(dst)@ + src@,
{
    let mut i: usize = 0;
    while i < src.len()
        invariant
            i <= src@.len(),
            dst@ == old(dst)@ + src@.take(i as int),
        decreases src.len() - i,
    {
        proof {
            assert(src@.take(i + 1) =~= src@.take(i as int).push(src@[i as int]));
        }
        dst.push(src[i]);
        i = i + 1;
    }
    proof {
        assert(src@.take(i as int) =~= src@);
    }
}

/// Splits characters at blank lines (`\n\n`), as `str::split("\n\n")` does.
fn split_paragraphs_exec(cs: &Vec<char>) -> (r: Vec<Vec<char>>)
    ensures
        r@.map_values(|p: Vec<char>| p@) == split_paragraphs(cs@),
{
    let mut pieces: Vec<Vec<char>> = Vec::new();
    let mut cur: Vec<char> = Vec::new();
    let mut i: usize = 0;
    proof {
        assert(cs@.subrange(0, cs@.len() as int) =~= cs@);
        lemma_split_paragraphs_nonempty(cs@);
        assert(pieces@.map_values(|p: Vec<char>| p@) =~= Seq::<Seq<char>>::empty());
        let sp = split_paragraphs(cs@);
        assert(cur@ + sp[0] =~= sp[0]);
        assert(sp =~= Seq::<Seq<char>>::empty() + seq![sp[0]] + sp.subrange(1, sp.len() as int));
    }
    while i < cs.len()
        invariant
            i <= cs@.len(),
            split_paragraphs(cs@) == pieces@.map_values(|p: Vec<char>| p@) + seq![
                cur@ + split_paragraphs(cs@.subrange(i as int, cs@.len() as int))[0],
            ] + split_paragraphs(cs@.subrange(i as int, cs@.len() as int)).subrange(
                1,
                split_paragraphs(cs@.subrange(i as int, cs@.len() as int)).len() as int,
            ),
        decreases cs.len() - i,
    {
        let ghost rest = cs@.subrange(i as int, cs@.len() as int);
        if i + 1 < cs.len() && cs[i] == '\n' && cs[i + 1] == '\n' {
            let ghost next = cs@.subrange(i + 2, cs@.len() as int);
            proof {
                assert(rest.subrange(2, rest.len() as int) =~= next);
                lemma_split_paragraphs_nonempty(next);
            }
            let ghost old_pieces = pieces@.map_values(|p: Vec<char>| p@);
            let ghost old_cur = cur@;
            let done = cur;
            pieces.push(done);
            cur = Vec::new();
            proof {
                let sn = split_paragraphs(next);
                assert(split_paragraphs(rest) == seq![Seq::<char>::empty()] + sn);
                assert((seq![Seq::<char>::empty()] + sn)[0] == Seq::<char>::empty());
                assert(old_cur + Seq::<char>::empty() =~= old_cur);
                assert((seq![Seq::<char>::empty()] + sn).subrange(1, sn.len() as int + 1) =~= sn);
                assert(pieces@.map_values(|p: Vec<char>| p@) =~= old_pieces.push(old_cur));
                assert(cur@ + sn[0] =~= sn[0]);
                assert(sn =~= seq![sn[0]] + sn.subrange(1, sn.len() as int));
                assert(split_paragraphs(cs@) =~= pieces@.map_values(|p: Vec<char>| p@) + seq![
                    cur@ + sn[0],
                ] + sn.subrange(1, sn.len() as int));
            }
            i = i + 2;
        } else {
            let ghost next = cs@.subrange(i + 1, cs@.len() as int);
            proof {
                assert(rest.subrange(1, rest.len() as int) =~= next);
                lemma_split_paragraphs_nonempty(next);
            }
            let ghost old_cur = cur@;
            cur.push(cs[i]);
            proof {
                let sn = split_paragraphs(next);
                assert(split_paragraphs(rest) == sn.update(0, seq![cs@[i as int]] + sn[0]));
                assert(sn.update(0, seq![cs@[i as int]] + sn[0])[0] == seq![cs@[i as int]] + sn[0]);
                assert(old_cur + (seq![cs@[i as int]] + sn[0]) =~= cur@ + sn[0]);
                assert(sn.update(0, seq![cs@[i as int]] + sn[0]).subrange(1, sn.len() as int)
                    =~= sn.subrange(1, sn.len() as int));
            }
            i = i + 1;
        }
    }
    let ghost last = cur@;
    proof {
        let rest = cs@.subrange(i as int, cs@.len() as int);
        assert(rest.len() == 0);
        assert(split_paragraphs(rest) == seq![Seq::<char>::empty()]);
        assert(last + Seq::<char>::empty() =~= last);
        assert(seq![Seq::<char>::empty()].subrange(1, 1) =~= Seq::<Seq<char>>::empty());
    }
    let ghost before = pieces@.map_values(|p: Vec<char>| p@);
    pieces.push(cur);
    proof {
        assert(pieces@.map_values(|p: Vec<char>| p@) =~= before.push(last));
        assert(split_paragraphs(cs@) =~= before.push(last));
    }
    pieces
}

/// Builds the chunk record of a piece held as characters.
fn chunk_of_chars(
    cs: &Vec<char>,
    file_path: &str,
    project_id: &str,
    language: Language,
    start_line: u32,
    end_line: u32,
    chunk_type: ChunkType,
) -> (r: CodeChunk)
    ensures
        chunk_matches(r, (cs@, start_line, end_line, chunk_type), file_path@, project_id@, language),
{
    let text = string_of(cs.as_slice());
    create_chunk(text.as_str(), file_path, project_id, language, start_line, end_line, chunk_type)
}

/// Cuts a file at blank lines and packs the paragraphs greedily into
/// chunks of at most `MAX_CHUNK_CHARS` bytes (a single paragraph may be
/// longer), dropping a final piece shorter than `MIN_CHUNK_CHARS` bytes.
pub fn chunk_by_structure(
    content: &str,
    file_path: &str,
    project_id: &str,
    language: Language,
) -> (r: Vec<CodeChunk>)
    ensures
        chunks_described(r@, structure_chunks(content@), file_path@, project_id@, language),
{
    let cs = chars_of(content);
    let paras = split_paragraphs_exec(&cs);
    let ghost ps = split_paragraphs(content@);
    let mut chunks: Vec<CodeChunk> = Vec::new();
    let mut cur: Vec<char> = Vec::new();
    let mut cur_bytes: u128 = 0;
    let mut start: u32 = 1;
    let mut counter: u32 = 1;
    let mut k: usize = 0;
    proof {
        assert(ps.take(0) =~= Seq::<Seq<char>>::empty());
    }
    while k < paras.len()
        invariant
            k <= paras@.len(),
            paras@.map_values(|p: Vec<char>| p@) == ps,
            ps == split_paragraphs(content@),
            pack(ps.take(k as int)).1 == cur@,
            pack(ps.take(k as int)).2 == start,
            pack(ps.take(k as int)).3 == counter,
            chunks_described(chunks@, pack(ps.take(k as int)).0, file_path@, project_id@, language),
            cur_bytes == blen(cur@),
            cur_bytes <= 4 * (usize::MAX as int) + 4002,
        decreases paras.len() - k,
    {
        let para = &paras[k];
        let ghost pv = ps[k as int];
        assert(para@ == pv);
        let ghost st = pack(ps.take(k as int));
        proof {
            assert(ps.take(k + 1).drop_last() =~= ps.take(k as int));
            assert(ps.take(k + 1).last() == pv);
        }
        let pb = byte_len(para);
        let para_text = string_of(para.as_slice());
        let para_lines = lines_of(para_text.as_str()).len();
        assert(para_lines == line_count(pv));
        if cur_bytes + pb > 4000 && cur.len() > 0 {
            let end_line = if counter >= 1 {
                counter - 1
            } else {
                0
            };
            let c = chunk_of_chars(&cur, file_path, project_id, language, start, end_line, ChunkType::Other);
            let ghost before = chunks@;
            chunks.push(c);
            proof {
                let d = (st.1, st.2, end_line, ChunkType::Other);
                assert(chunks@ == before.push(c));
                assert forall|j: int| 0 <= j < chunks@.len() implies chunk_matches(
                    #[trigger] chunks@[j],
                    st.0.push(d)[j],
                    file_path@,
                    project_id@,
                    language,
                ) by {
                    if j < before.len() {
                        assert(chunks@[j] == before[j]);
                        assert(st.0.push(d)[j] == st.0[j]);
                    }
                }
            }
            cur = Vec::new();
            cur_bytes = 0;
            start = counter;
        }
        let ghost before_sep = cur@;
        if cur.len() > 0 {
            cur.push('\n');
            cur.push('\n');
            cur_bytes = cur_bytes + 2;
            proof {
                assert(cur@ =~= before_sep + seq!['\n', '\n']);
                lemma_blen_append(before_sep, seq!['\n', '\n']);
                lemma_blen_newlines();
            }
        }
        let ghost sep = cur@;
        extend_chars(&mut cur, para);
        proof {
            lemma_blen_append(sep, pv);
        }
        cur_bytes = cur_bytes + pb;
        counter = counter.wrapping_add((para_lines as u32).wrapping_add(1));
        k = k + 1;
    }
    proof {
        assert(ps.take(k as int) =~= ps);
    }
    if cur_bytes >= 10 {
        let st = Ghost(pack(ps));
        let c = chunk_of_chars(&cur, file_path, project_id, language, start, counter, ChunkType::Other);
        let ghost before = chunks@;
        chunks.push(c);
        proof {
            let d = (st@.1, st@.2, st@.3, ChunkType::Other);
            assert forall|j: int| 0 <= j < chunks@.len() implies chunk_matches(
                #[trigger] chunks@[j],
                st@.0.push(d)[j],
                file_path@,
                project_id@,
                language,
            ) by {
                if j < before.len() {
                    assert(chunks@[j] == before[j]);
                    assert(st@.0.push(d)[j] == st@.0[j]);
                }
            }
        }
    }
    chunks
}

/// Described chunk lists concatenate.
pub proof fn lemma_described_append(
    a: Seq<CodeChunk>,
    da: Seq<ChunkDesc>,
    b: Seq<CodeChunk>,
    db: Seq<ChunkDesc>,
    file_path: Seq<char>,
    project_id: Seq<char>,
    language: Language,
)
    requires
        chunks_described(a, da, file_path, project_id, language),
        chunks_described(b, db, file_path, project_id, language),
    ensures
        chunks_described(a + b, da + db, file_path, project_id, language),
{
    assert forall|j: int| 0 <= j < (a + b).len() implies chunk_matches(
        #[trigger] (a + b)[j],
        (da + db)[j],
        file_path,
        project_id,
        language,
    ) by {
        if j < a.len() {
            assert((a + b)[j] == a[j]);
            assert((da + db)[j] == da[j]);
        } else {
            assert((a + b)[j] == b[j - a.len()]);
            assert((da + db)[j] == db[j - a.len()]);
        }
    }
}

/// Lines `from..to` joined with `\n` between them.
fn join_line_range(ls: &Vec<Vec<char>>, from: usize, to: usize) -> (r: Vec<char>)
    requires
        from < to <= ls@.len(),
    ensures
        r@ == join_lines(ls@.map_values(|l: Vec<char>| l@).subrange(from as int, to as int)),
{
    let ghost lv = ls@.map_values(|l: Vec<char>| l@);
    let mut out: Vec<char> = Vec::new();
    extend_chars(&mut out, &ls[from]);
    let mut j: usize = from + 1;
    proof {
        let sub = lv.subrange(from as int, j as int);
        assert(sub.len() == 1);
        assert(out@ =~= lv[from as int]);
    }
    while j < to
        invariant
            from < j <= to,
            to <= ls@.len(),
            lv == ls@.map_values(|l: Vec<char>| l@),
            out@ == join_lines(lv.subrange(from as int, j as int)),
        decreases to - j,
    {
        let ghost before = out@;
        out.push('\n');
        extend_chars(&mut out, &ls[j]);
        proof {
            let sub = lv.subrange(from as int, j + 1);
            assert(sub.drop_last() =~= lv.subrange(from as int, j as int));
            assert(sub.last() == lv[j as int]);
            assert(out@ =~= before + seq!['\n'] + lv[j as int]);
        }
        j = j + 1;
    }
    out
}

/// Cuts an oversized node into runs of at most `MAX_CHUNK_LINES` lines,
/// numbered from `base_line`, keeping the runs of at least
/// `MIN_CHUNK_CHARS` bytes.
pub fn split_large_node(
    text: &str,
    file_path: &str,
    project_id: &str,
    language: Language,
    base_line: u32,
) -> (r: Vec<CodeChunk>)
    ensures
        chunks_described(r@, split_large_text(text@, base_line), file_path@, project_id@, language),
{
    let ls = lines_of(text);
    let ghost lv = ls@.map_values(|l: Vec<char>| l@);
    let mut chunks: Vec<CodeChunk> = Vec::new();
    let ghost mut done: Seq<ChunkDesc> = seq![];
    let mut cur: usize = 0;
    proof {
        assert(line_runs(lv, 0, base_line) =~= done + line_runs(lv, 0, base_line));
    }
    while cur < ls.len()
        invariant
            cur <= ls@.len(),
            lv == ls@.map_values(|l: Vec<char>| l@),
            lv == std_lines(text@),
            chunks_described(chunks@, done, file_path@, project_id@, language),
            line_runs(lv, 0, base_line) == done + line_runs(lv, cur as nat, base_line),
        decreases ls.len() - cur,
    {
        let end = if ls.len() - cur > MAX_CHUNK_LINES {
            cur + MAX_CHUNK_LINES
        } else {
            ls.len()
        };
        let joined = join_line_range(&ls, cur, end);
        let jb = byte_len(&joined);
        let ghost here: Seq<ChunkDesc> = if blen(joined@) >= MIN_CHUNK_CHARS {
            seq![(joined@, base_line.wrapping_add(cur as u32), base_line.wrapping_add(end as u32), ChunkType::Other)]
        } else {
            seq![]
        };
        proof {
            assert(line_runs(lv, cur as nat, base_line) == here + line_runs(lv, end as nat, base_line));
        }
        if jb >= 10 {
            let c = chunk_of_chars(
                &joined,
                file_path,
                project_id,
                language,
                base_line.wrapping_add(cur as u32),
                base_line.wrapping_add(end as u32),
                ChunkType::Other,
            );
            let ghost before = chunks@;
            chunks.push(c);
            proof {
                assert(chunks@ =~= before + seq![c]);
                assert(chunks_described(seq![c], here, file_path@, project_id@, language));
                lemma_described_append(before, done, seq![c], here, file_path@, project_id@, language);
            }
        } else {
            proof {
                assert(done + here =~= done);
            }
        }
        proof {
            assert(done + here + line_runs(lv, end as nat, base_line) =~= done + (here + line_runs(lv, end as nat, base_line)));
            done = done + here;
        }
        cur = end;
    }
    proof {
        assert(line_runs(lv, cur as nat, base_line) =~= Seq::<ChunkDesc>::empty());
        assert(done + Seq::<ChunkDesc>::empty() =~= done);
    }
    chunks
}

/// The chunks of the top-level nodes of a syntax tree: a node shorter than
/// `MIN_CHUNK_CHARS` bytes is skipped, one of at most `MAX_CHUNK_CHARS`
/// bytes is a chunk of its kind, a longer one is cut into line runs.
pub fn chunks_from_nodes(
    nodes: &Vec<SyntaxNode>,
    file_path: &str,
    project_id: &str,
    language: Language,
) -> (r: Vec<CodeChunk>)
    ensures
        chunks_described(r@, nodes_chunks(nodes@), file_path@, project_id@, language),
{
    let mut chunks: Vec<CodeChunk> = Vec::new();
    let mut k: usize = 0;
    proof {
        assert(nodes@.take(0) =~= Seq::<SyntaxNode>::empty());
    }
    while k < nodes.len()
        invariant
            k <= nodes@.len(),
            chunks_described(chunks@, nodes_chunks(nodes@.take(k as int)), file_path@, project_id@, language),
        decreases nodes.len() - k,
    {
        let n = &nodes[k];
        let ghost done = nodes_chunks(nodes@.take(k as int));
        proof {
            assert(nodes@.take(k + 1).drop_last() =~= nodes@.take(k as int));
            assert(nodes@.take(k + 1).last() == *n);
        }
        let tcs = chars_of(n.text.as_str());
        let tb = byte_len(&tcs);
        let start = (n.start_row as u32).wrapping_add(1);
        let ghost before = chunks@;
        if tb < 10 {
            proof {
                assert(node_chunks(*n) =~= Seq::<ChunkDesc>::empty());
                assert(done + node_chunks(*n) =~= done);
            }
        } else if tb <= 4000 {
            let c = create_chunk(
                n.text.as_str(),
                file_path,
                project_id,
                language,
                start,
                (n.end_row as u32).wrapping_add(1),
                detect_chunk_type(n.kind.as_str()),
            );
            chunks.push(c);
            proof {
                assert(chunks@ =~= before + seq![c]);
                assert(chunks_described(seq![c], node_chunks(*n), file_path@, project_id@, language));
                lemma_described_append(before, done, seq![c], node_chunks(*n), file_path@, project_id@, language);
            }
        } else {
            let mut sub = split_large_node(n.text.as_str(), file_path, project_id, language, start);
            let ghost sv = sub@;
            chunks.append(&mut sub);
            proof {
                lemma_described_append(before, done, sv, node_chunks(*n), file_path@, project_id@, language);
            }
        }
        k = k + 1;
    }
    proof {
        assert(nodes@.take(k as int) =~= nodes@);
    }
    chunks
}

/// Chunks a file's content in a given language: along the top-level nodes
/// that tree-sitter finds, or at blank lines when the language has no
/// grammar, parsing fails, or the nodes yield no chunk.
pub fn chunk_content(
    content: &str,
    file_path: &str,
    project_id: &str,
    language: Language,
) -> (r: Vec<CodeChunk>)
    ensures
        chunks_described(
            r@,
            content_chunks(language_top_level(language, content@), content@),
            file_path@,
            project_id@,
            language,
        ),
{
    match top_level_nodes(language, content) {
        Some(nodes) => {
            let cs = chunks_from_nodes(&nodes, file_path, project_id, language);
            if cs.len() > 0 {
                cs
            } else {
                chunk_by_structure(content, file_path, project_id, language)
            }
        },
        None => chunk_by_structure(content, file_path, project_id, language),
    }
}

/// `r` is what chunking a file in `language` gives: nothing for blank
/// content, otherwise the chunks of its content in that language.
pub open spec fn chunked_as(
    r: Seq<CodeChunk>,
    content: Seq<char>,
    path: Seq<char>,
    project_id: Seq<char>,
    language: Language,
) -> bool {
    &&& unicode_trim(content).len() == 0 ==> r.len() == 0
    &&& unicode_trim(content).len() > 0 ==> chunks_described(
        r,
        content_chunks(language_top_level(language, content), content),
        path,
        project_id,
        language,
    )
}

/// Chunks a file in a given language: nothing when its content is blank,
/// otherwise the chunks of its content.
pub fn chunk_file_in(path: &str, content: &str, project_id: &str, language: Language) -> (r: Vec<CodeChunk>)
    ensures
        chunked_as(r@, content@, path@, project_id@, language),
{
    if trim(content).is_empty() {
        return Vec::new();
    }
    chunk_content(content, path, project_id, language)
}

/// Chunks a file in the language its extension names.
pub fn chunk_file(path: &str, content: &str, project_id: &str) -> (r: Vec<CodeChunk>)
    ensures
        exists|lang: Language| detected_language(path@, lang) && #[trigger] chunked_as(r@, content@, path@, project_id@, lang),
{
    let language = detect_language(path);
    let r = chunk_file_in(path, content, project_id, language);
    assert(chunked_as(r@, content@, path@, project_id@, language));
    r
}

/// Pieces joined with a blank line (`\n\n`) between them.
pub open spec fn join_blank(ps: Seq<Seq<char>>) -> Seq<char>
    decreases ps.len(),
{
    if ps.len() == 0 {
        seq![]
    } else if ps.len() == 1 {
        ps[0]
    } else {
        join_blank(ps.drop_last()) + seq!['\n', '\n'] + ps.last()
    }
}

/// The texts of some chunk descriptions.
pub open spec fn chunk_texts(ds: Seq<ChunkDesc>) -> Seq<Seq<char>> {
    ds.map_values(|d: ChunkDesc| d.0)
}

proof fn lemma_join_push(xs: Seq<Seq<char>>, y: Seq<char>)
    ensures
        join_blank(xs.push(y)) == (if xs.len() == 0 {
            y
        } else {
            join_blank(xs) + seq!['\n', '\n'] + y
        }),
{
    assert(xs.push(y).drop_last() =~= xs);
    if xs.len() == 0 {
        assert(xs.push(y) =~= seq![y]);
    }
}

proof fn lemma_join_front(a: Seq<char>, xs: Seq<Seq<char>>)
    requires
        xs.len() > 0,
    ensures
        join_blank(seq![a] + xs) == a + seq!['\n', '\n'] + join_blank(xs),
    decreases xs.len(),
{
    let ys = seq![a] + xs;
    let nn = seq!['\n', '\n'];
    if xs.len() == 1 {
        assert(ys.drop_last() =~= seq![a]);
        assert(join_blank(seq![a]) == a);
        assert(join_blank(xs) == xs[0]);
        assert(ys.last() == xs[0]);
        assert(join_blank(ys) == join_blank(ys.drop_last()) + nn + ys.last());
    } else {
        assert(ys.drop_last() =~= seq![a] + xs.drop_last());
        lemma_join_front(a, xs.drop_last());
        assert(ys.last() == xs.last());
        assert(join_blank(ys) == join_blank(ys.drop_last()) + nn + ys.last());
        assert(join_blank(xs) == join_blank(xs.drop_last()) + nn + xs.last());
        assert(a + nn + join_blank(xs.drop_last()) + nn + xs.last() =~= a + nn + (join_blank(xs.drop_last()) + nn + xs.last()));
    }
}

proof fn lemma_join_update_front(p: Seq<char>, xs: Seq<Seq<char>>)
    requires
        xs.len() > 0,
    ensures
        join_blank(xs.update(0, p + xs[0])) == p + join_blank(xs),
    decreases xs.len(),
{
    let ys = xs.update(0, p + xs[0]);
    if xs.len() == 1 {
        assert(join_blank(ys) == ys[0]);
    } else {
        assert(ys.drop_last() =~= xs.drop_last().update(0, p + xs.drop_last()[0]));
        lemma_join_update_front(p, xs.drop_last());
        assert(ys.last() == xs.last());
    }
}

/// Splitting at blank lines and joining with blank lines gives the text back.
pub proof fn lemma_split_join(s: Seq<char>)
    ensures
        join_blank(split_paragraphs(s)) == s,
    decreases s.len(),
{
    if s.len() == 0 {
    } else if s.len() >= 2 && s[0] == '\n' && s[1] == '\n' {
        let rest = s.subrange(2, s.len() as int);
        lemma_split_join(rest);
        lemma_split_paragraphs_nonempty(rest);
        lemma_join_front(seq![], split_paragraphs(rest));
        assert(s =~= Seq::<char>::empty() + seq!['\n', '\n'] + rest);
    } else {
        let rest = s.subrange(1, s.len() as int);
        lemma_split_join(rest);
        lemma_split_paragraphs_nonempty(rest);
        lemma_join_update_front(seq![s[0]], split_paragraphs(rest));
        assert(s =~= seq![s[0]] + rest);
    }
}

/// Packing non-empty paragraphs: the chunks so far followed by the piece
/// being filled, joined by blank lines, are the paragraphs joined so.
proof fn lemma_pack_keeps_text(ps: Seq<Seq<char>>)
    requires
        forall|i: int| 0 <= i < ps.len() ==> (#[trigger] ps[i]).len() > 0,
    ensures
        ps.len() == 0 ==> pack(ps).0.len() == 0 && pack(ps).1.len() == 0,
        ps.len() > 0 ==> pack(ps).1.len() > 0,
        ps.len() > 0 ==> join_blank(chunk_texts(pack(ps).0).push(pack(ps).1)) == join_blank(ps),
    decreases ps.len(),
{
    if ps.len() > 0 {
        let prev_ps = ps.drop_last();
        lemma_pack_keeps_text(prev_ps);
        let prev = pack(prev_ps);
        let p = ps.last();
        let st = pack(ps);
        assert(st == pack_step(prev, p));
        let t = chunk_texts(prev.0);
        let flush = blen(prev.1) + blen(p) > MAX_CHUNK_CHARS && prev.1.len() > 0;
        lemma_join_push(prev_ps, p);
        if ps.len() == 1 {
            assert(prev.1.len() == 0);
            assert(!flush);
            assert(st.1 =~= p);
            assert(chunk_texts(st.0) =~= Seq::<Seq<char>>::empty());
            lemma_join_push(Seq::<Seq<char>>::empty(), st.1);
            assert(ps =~= seq![p]);
        } else if flush {
            assert(st.1 =~= p);
            assert(chunk_texts(st.0) =~= t.push(prev.1));
            lemma_join_push(t.push(prev.1), p);
        } else {
            assert(st.1 =~= prev.1 + seq!['\n', '\n'] + p);
            assert(chunk_texts(st.0) == t);
            lemma_join_push(t, st.1);
            lemma_join_push(t, prev.1);
            if t.len() > 0 {
                assert(join_blank(t) + seq!['\n', '\n'] + (prev.1 + seq!['\n', '\n'] + p)
                    =~= join_blank(t) + seq!['\n', '\n'] + prev.1 + seq!['\n', '\n'] + p);
            }
        }
    }
}

/// Cutting at blank lines loses no text: for content whose paragraphs
/// are all non-empty, the chunks followed by the last piece being filled,
/// joined by blank lines, give the content back; when that last piece is
/// long enough to be kept, the chunks alone do.
pub proof fn lemma_structure_chunks_keep_the_text(content: Seq<char>)
    requires
        content.len() > 0,
        forall|i: int|
            0 <= i < split_paragraphs(content).len() ==> (#[trigger] split_paragraphs(content)[i]).len() > 0,
    ensures
        join_blank(chunk_texts(pack(split_paragraphs(content)).0).push(pack(split_paragraphs(content)).1)) == content,
        blen(pack(split_paragraphs(content)).1) >= MIN_CHUNK_CHARS ==> join_blank(chunk_texts(structure_chunks(content))) == content,
{
    let ps = split_paragraphs(content);
    lemma_split_paragraphs_nonempty(content);
    lemma_pack_keeps_text(ps);
    lemma_split_join(content);
    let st = pack(ps);
    if blen(st.1) >= MIN_CHUNK_CHARS {
        assert(chunk_texts(structure_chunks(content)) =~= chunk_texts(st.0).push(st.1));
    }
}

} // verus!
