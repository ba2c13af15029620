//! The tree-sitter side of parsing: the grammars the library loads, and
//! the two things it asks of a syntax tree (the root's children, and the
//! captures of a query).

use vstd::prelude::*;
use tree_sitter::Language as Grammar;
use tree_sitter::StreamingIterator;
use crate::types::Language;
use crate::codebase::chunker::SyntaxNode;
use super::extractor::RawCapture;
use super::languages::{
    has_support, GoSupport, JavaScriptSupport, JavaSupport, PythonSupport, RustSupport,
    TypeScriptSupport,
};

verus! {

/// A tree-sitter grammar, carried through opaquely.
#[verifier::external_type_specification]
#[verifier::external_body]
pub struct ExGrammar(Grammar);

/// A node of a tree-sitter syntax tree, carried through opaquely.
#[verifier::external_type_specification]
#[verifier::external_body]
pub struct ExSyntaxNode<'tree>(tree_sitter::Node<'tree>);

/// The grammars the library carries, one per language with extraction
/// rules.
#[derive(Clone, Copy, Debug, PartialEq, Eq, Structural)]
pub enum GrammarId {
    Rust,
    Python,
    TypeScript,
    JavaScript,
    Go,
    Java,
}

/// The grammar of a language; `None` for a language without one.
pub open spec fn grammar_of(lang: Language) -> Option<GrammarId> {
    match lang {
        Language::Rust => Some(GrammarId::Rust),
        Language::Python => Some(GrammarId::Python),
        Language::TypeScript => Some(GrammarId::TypeScript),
        Language::JavaScript => Some(GrammarId::JavaScript),
        Language::Go => Some(GrammarId::Go),
        Language::Java => Some(GrammarId::Java),
        _ => None,
    }
}

/// Each language with extraction rules has its own grammar, and the others
/// (Dart, unknown files) none: the grammar of a language is `Some` exactly
/// when it has extraction rules, and two languages with a grammar never
/// share one.
pub proof fn lemma_grammars_per_language(a: Language, b: Language)
    ensures
        grammar_of(a) is Some <==> has_support(a),
        grammar_of(a) is Some && grammar_of(a) == grammar_of(b) ==> a == b,
        grammar_of(Language::Rust) == Some(GrammarId::Rust),
        grammar_of(Language::Python) == Some(GrammarId::Python),
        grammar_of(Language::TypeScript) == Some(GrammarId::TypeScript),
        grammar_of(Language::JavaScript) == Some(GrammarId::JavaScript),
        grammar_of(Language::Go) == Some(GrammarId::Go),
        grammar_of(Language::Java) == Some(GrammarId::Java),
{
}

/// A loaded grammar and the id it was loaded for.  Only `load_grammar`
/// builds one, pairing each id with its language's `get_language`.
pub struct LoadedGrammar {
    id: GrammarId,
    grammar: Grammar,
}

impl LoadedGrammar {
    /// Which grammar this is.
    pub closed spec fn id(&self) -> GrammarId {
        self.id
    }
}

/// Loads the grammar of a language, when it has one.
pub fn load_grammar(lang: Language) -> (r: Option<LoadedGrammar>)
    ensures
        r is Some <==> has_support(lang),
        r is Some <==> grammar_of(lang) is Some,
        r matches Some(g) ==> grammar_of(lang) == Some(g.id()),
{
    match lang {
        Language::Rust => Some(LoadedGrammar { id: GrammarId::Rust, grammar: RustSupport.get_language() }),
        Language::Python => Some(LoadedGrammar { id: GrammarId::Python, grammar: PythonSupport.get_language() }),
        Language::TypeScript => Some(
            LoadedGrammar { id: GrammarId::TypeScript, grammar: TypeScriptSupport.get_language() },
        ),
        Language::JavaScript => Some(
            LoadedGrammar { id: GrammarId::JavaScript, grammar: JavaScriptSupport.get_language() },
        ),
        Language::Go => Some(LoadedGrammar { id: GrammarId::Go, grammar: GoSupport.get_language() }),
        Language::Java => Some(LoadedGrammar { id: GrammarId::Java, grammar: JavaSupport.get_language() }),
        _ => None,
    }
}

/// The top-level nodes that tree-sitter finds in `content` with the grammar
/// `grammar` (`None` when parsing fails).
pub uninterp spec fn tree_sitter_top_level(grammar: GrammarId, content: Seq<char>) -> Option<Seq<SyntaxNode>>;

/// `r` agrees with a named list of nodes.
pub open spec fn nodes_agree(r: Option<Vec<SyntaxNode>>, named: Option<Seq<SyntaxNode>>) -> bool {
    match r {
        Some(v) => named == Some(v@),
        None => named is None,
    }
}

/// Parses `content` with tree-sitter (`Parser::set_language` with the loaded
/// grammar, `Parser::parse`) and lists the root's children: text, start and
/// end rows, kind.  The syntax tree is only named; the grammars are not
/// restated.
#[verifier::external_body]
pub(crate) fn parse_top_level(grammar: &LoadedGrammar, content: &str) -> (r: Option<Vec<SyntaxNode>>)
    ensures
        nodes_agree(r, tree_sitter_top_level(grammar.id(), content@)),
{
    let mut parser = tree_sitter::Parser::new();
    parser.set_language(&grammar.grammar).ok()?;
    let tree = parser.parse(content, None)?;
    let root = tree.root_node();
    let mut cursor = root.walk();
    Some(root.children(&mut cursor).map(|c| SyntaxNode {
        text: content[c.start_byte()..c.end_byte()].to_string(),
        start_row: c.start_position().row,
        end_row: c.end_position().row,
        kind: c.kind().to_string(),
    }).collect())
}

/// The captures, in match order, that the query `query` yields on the
/// syntax tree tree-sitter builds for `content` with the grammar `grammar`;
/// `None` when parsing fails or the query does not compile.
pub uninterp spec fn tree_sitter_captures(grammar: GrammarId, query: Seq<char>, content: Seq<char>) -> Option<Seq<RawCapture>>;

/// `r` agrees with a named list of captures.
pub open spec fn captures_agree(r: Option<Vec<RawCapture>>, named: Option<Seq<RawCapture>>) -> bool {
    match r {
        Some(v) => named == Some(v@),
        None => named is None,
    }
}

/// The fields of one capture (`Node::utf8_text`, `start_position`,
/// `end_position`, `parent`).  A conversion: nothing is stated.
#[verifier::external_body]
fn raw_capture(name: &str, node: tree_sitter::Node, content: &str) -> RawCapture {
    let bytes = content.as_bytes();
    RawCapture {
        capture_name: name.to_string(),
        text: node.utf8_text(bytes).ok().map(|t| t.to_string()),
        start_row: node.start_position().row,
        end_row: node.end_position().row,
        column: node.start_position().column,
        parent_text: node.parent().and_then(|p| p.utf8_text(bytes).ok()).map(|t| t.to_string()),
    }
}

/// Runs a query over the syntax tree of `content` built with the loaded
/// grammar (`Parser::parse`, `Query::new`, `QueryCursor::matches`) and lists
/// every capture of every match.  What tree-sitter finds is only named.
#[verifier::external_body]
pub(crate) fn run_query(grammar: &LoadedGrammar, query_source: &str, content: &str) -> (r: Option<Vec<RawCapture>>)
    ensures
        captures_agree(r, tree_sitter_captures(grammar.id(), query_source@, content@)),
{
    let mut parser = tree_sitter::Parser::new();
    parser.set_language(&grammar.grammar).ok()?;
    let tree = parser.parse(content, None)?;
    let query = tree_sitter::Query::new(&grammar.grammar, query_source).ok()?;
    let mut cursor = tree_sitter::QueryCursor::new();
    let mut matches = cursor.matches(&query, tree.root_node(), content.as_bytes());
    let mut out = Vec::new();
    while let Some(m) = matches.next() {
        for c in m.captures() {
            out.push(raw_capture(query.capture_names()[c.index as usize], c.node, content));
        }
    }
    Some(out)
}

} // verus!
