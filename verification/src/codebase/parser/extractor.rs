//! Symbol and reference extraction: the captures of a language's queries,
//! turned into symbol and reference records.

use vstd::prelude::*;
use crate::text::{chars_of, lines_of, std_lines, string_of};
use crate::codebase::chunker::extend_chars;
use crate::types::{CodeReference, CodeSymbol, Language};
use super::languages::{
    definition_query, has_support, is_supported, language_definition_query,
    language_reference_query, language_symbol_type, reference_query, symbol_type_for,
};
use super::syntax::{
    captures_agree, grammar_of, load_grammar, run_query, tree_sitter_captures,
};

verus! {

/// Longest signature kept, in characters.
pub const MAX_SIGNATURE_CHARS: usize = 200;

/// One capture of a tree-sitter query: the capture's name, the node's text
/// (`None` when it is not valid UTF-8), its zero-based start and end rows,
/// its start column, and the text of its parent node if it has one.
#[derive(Clone, Debug)]
pub struct RawCapture {
    pub capture_name: String,
    pub text: Option<String>,
    pub start_row: usize,
    pub end_row: usize,
    pub column: usize,
    pub parent_text: Option<String>,
}

/// The captures that the query `query` yields on `content` with the
/// grammar of `language`; `None` for a language without a grammar.
pub open spec fn language_query_captures(language: Language, query: Seq<char>, content: Seq<char>) -> Option<Seq<RawCapture>> {
    match grammar_of(language) {
        Some(g) => tree_sitter_captures(g, query, content),
        None => None,
    }
}

/// The captures of a query on `content` in `language`: none for a language
/// without a grammar, otherwise what running the query with its grammar
/// gives.
pub fn query_captures(language: Language, query_source: &str, content: &str) -> (r: Option<Vec<RawCapture>>)
    ensures
        captures_agree(r, language_query_captures(language, query_source@, content@)),
        !has_support(language) ==> r is None,
{
    match load_grammar(language) {
        Some(g) => run_query(&g, query_source, content),
        None => None,
    }
}

/// The captures of a query, or none when it could not run.
pub open spec fn captures_or_empty(c: Option<Seq<RawCapture>>) -> Seq<RawCapture> {
    match c {
        Some(s) => s,
        None => seq![],
    }
}

/// The captures whose node text could be read, in order.
pub open spec fn readable(cs: Seq<RawCapture>) -> Seq<RawCapture>
    decreases cs.len(),
{
    if cs.len() == 0 {
        seq![]
    } else if cs.last().text is Some {
        readable(cs.drop_last()).push(cs.last())
    } else {
        readable(cs.drop_last())
    }
}

/// The signature kept for a definition: the first line of its parent's
/// text (the whole text when it has no line), cut to
/// `MAX_SIGNATURE_CHARS` characters.
pub open spec fn signature_line(parent: Seq<char>) -> Seq<char> {
    let ls = std_lines(parent);
    let first = if ls.len() > 0 {
        ls[0]
    } else {
        parent
    };
    if first.len() > MAX_SIGNATURE_CHARS {
        first.take(200)
    } else {
        first
    }
}

/// `s` is the symbol that the capture `c` defines.
pub open spec fn capture_symbol(
    c: RawCapture,
    s: CodeSymbol,
    language: Language,
    file_path: Seq<char>,
    project_id: Seq<char>,
) -> bool {
    &&& c.text is Some
    &&& s.name@ == c.text->0@
    &&& s.symbol_type == language_symbol_type(language, c.capture_name@)
    &&& s.file_path@ == file_path
    &&& s.start_line == (c.start_row as u32).wrapping_add(1)
    &&& s.end_line == (c.end_row as u32).wrapping_add(1)
    &&& s.project_id@ == project_id
    &&& match c.parent_text {
        Some(p) => s.signature is Some && s.signature->0@ == signature_line(p@),
        None => s.signature is None,
    }
}

/// `r` is the reference that the capture `c` records.
pub open spec fn capture_reference(c: RawCapture, r: CodeReference, file_path: Seq<char>) -> bool {
    &&& c.text is Some
    &&& r.name@ == c.text->0@
    &&& r.file_path@ == file_path
    &&& r.line == (c.start_row as u32).wrapping_add(1)
    &&& r.column == c.column as u32
}

/// `ss` are the symbols of the readable captures of `cs`, in order.
pub open spec fn symbols_of(
    cs: Seq<RawCapture>,
    ss: Seq<CodeSymbol>,
    language: Language,
    file_path: Seq<char>,
    project_id: Seq<char>,
) -> bool {
    &&& ss.len() == readable(cs).len()
    &&& forall|k: int|
        0 <= k < ss.len() ==> capture_symbol(readable(cs)[k], #[trigger] ss[k], language, file_path, project_id)
}

/// `rs` are the references of the readable captures of `cs`, in order.
pub open spec fn references_of(cs: Seq<RawCapture>, rs: Seq<CodeReference>, file_path: Seq<char>) -> bool {
    &&& rs.len() == readable(cs).len()
    &&& forall|k: int| 0 <= k < rs.len() ==> capture_reference(readable(cs)[k], #[trigger] rs[k], file_path)
}

/// The first line of a parent node's text, cut to `MAX_SIGNATURE_CHARS`
/// characters.
pub fn signature_of(parent: &str) -> (r: String)
    ensures
        r@ == signature_line(parent@),
{
    let ls = lines_of(parent);
    let mut first: Vec<char> = Vec::new();
    if ls.len() > 0 {
        extend_chars(&mut first, &ls[0]);
        proof {
            let lv = ls@.map_values(|l: Vec<char>| l@);
            assert(lv[0] == ls@[0]@);
            assert(first@ =~= lv[0]);
        }
    } else {
        first = chars_of(parent);
    }
    if first.len() > MAX_SIGNATURE_CHARS {
        first.truncate(MAX_SIGNATURE_CHARS);
    }
    string_of(first.as_slice())
}

/// The captures a language's query yields on `content`, when the language
/// has that query.
pub open spec fn language_captures(
    language: Language,
    query: Option<Seq<char>>,
    content: Seq<char>,
) -> Seq<RawCapture> {
    match query {
        Some(q) => captures_or_empty(language_query_captures(language, q, content)),
        None => seq![],
    }
}

/// The symbols that the readable captures of a definition query define:
/// each named by its node's text, typed by its capture name, with its
/// one-based lines and the first line of its parent as signature.
pub fn symbols_from_captures(
    caps: &Vec<RawCapture>,
    language: Language,
    file_path: &str,
    project_id: &str,
) -> (r: Vec<CodeSymbol>)
    ensures
        symbols_of(caps@, r@, language, file_path@, project_id@),
{
    let mut out: Vec<CodeSymbol> = Vec::new();
    let mut k: usize = 0;
    proof {
        assert(caps@.take(0) =~= Seq::<RawCapture>::empty());
    }
    while k < caps.len()
        invariant
            k <= caps@.len(),
            symbols_of(caps@.take(k as int), out@, language, file_path@, project_id@),
        decreases caps.len() - k,
    {
        let c = &caps[k];
        proof {
            assert(caps@.take(k + 1).drop_last() =~= caps@.take(k as int));
            assert(caps@.take(k + 1).last() == *c);
        }
        match &c.text {
            Some(name) => {
                let st = symbol_type_for(language, c.capture_name.as_str());
                let mut sym = CodeSymbol::new(
                    name.clone(),
                    st,
                    String::from_str(file_path),
                    (c.start_row as u32).wrapping_add(1),
                    (c.end_row as u32).wrapping_add(1),
                    String::from_str(project_id),
                );
                match &c.parent_text {
                    Some(p) => {
                        sym = sym.with_signature(signature_of(p.as_str()));
                    },
                    None => {},
                }
                let ghost before = out@;
                out.push(sym);
                proof {
                    let rd = readable(caps@.take(k + 1));
                    assert(rd == readable(caps@.take(k as int)).push(*c));
                    assert forall|j: int| 0 <= j < out@.len() implies capture_symbol(
                        rd[j],
                        #[trigger] out@[j],
                        language,
                        file_path@,
                        project_id@,
                    ) by {
                        if j < before.len() {
                            assert(out@[j] == before[j]);
                        }
                    }
                }
            },
            None => {
                proof {
                    assert(readable(caps@.take(k + 1)) == readable(caps@.take(k as int)));
                }
            },
        }
        k = k + 1;
    }
    proof {
        assert(caps@.take(k as int) =~= caps@);
    }
    out
}

/// The references that the readable captures of a reference query record:
/// each named by its node's text, at its one-based line and its column.
pub fn references_from_captures(caps: &Vec<RawCapture>, file_path: &str) -> (r: Vec<CodeReference>)
    ensures
        references_of(caps@, r@, file_path@),
{
    let mut out: Vec<CodeReference> = Vec::new();
    let mut k: usize = 0;
    proof {
        assert(caps@.take(0) =~= Seq::<RawCapture>::empty());
    }
    while k < caps.len()
        invariant
            k <= caps@.len(),
            references_of(caps@.take(k as int), out@, file_path@),
        decreases caps.len() - k,
    {
        let c = &caps[k];
        proof {
            assert(caps@.take(k + 1).drop_last() =~= caps@.take(k as int));
            assert(caps@.take(k + 1).last() == *c);
        }
        match &c.text {
            Some(name) => {
                let r = CodeReference::new(
                    name.clone(),
                    String::from_str(file_path),
                    (c.start_row as u32).wrapping_add(1),
                    c.column as u32,
                );
                let ghost before = out@;
                out.push(r);
                proof {
                    let rd = readable(caps@.take(k + 1));
                    assert(rd == readable(caps@.take(k as int)).push(*c));
                    assert forall|j: int| 0 <= j < out@.len() implies capture_reference(
                        rd[j],
                        #[trigger] out@[j],
                        file_path@,
                    ) by {
                        if j < before.len() {
                            assert(out@[j] == before[j]);
                        }
                    }
                }
            },
            None => {
                proof {
                    assert(readable(caps@.take(k + 1)) == readable(caps@.take(k as int)));
                }
            },
        }
        k = k + 1;
    }
    proof {
        assert(caps@.take(k as int) =~= caps@);
    }
    out
}

/// Extracts symbols and references from sources of one language.
pub struct Extractor {
    language: Language,
}

impl Extractor {
    /// The language this extractor reads.
    pub closed spec fn lang(&self) -> Language {
        self.language
    }

    /// An extractor for a language with extraction rules; `None` otherwise.
    pub fn new(language: Language) -> (r: Option<Extractor>)
        ensures
            r is Some <==> has_support(language),
            r matches Some(e) ==> e.lang() == language,
    {
        if is_supported(language) {
            Some(Extractor { language })
        } else {
            None
        }
    }

    /// The symbols that the language's definition query finds in `content`.
    pub fn extract_symbols(&self, content: &str, file_path: &str, project_id: &str) -> (r: Vec<CodeSymbol>)
        ensures
            symbols_of(
                language_captures(self.lang(), language_definition_query(self.lang()), content@),
                r@,
                self.lang(),
                file_path@,
                project_id@,
            ),
    {
        let caps = match definition_query(self.language) {
            Some(q) => query_captures(self.language, q, content),
            None => None,
        };
        match caps {
            Some(cs) => symbols_from_captures(&cs, self.language, file_path, project_id),
            None => Vec::new(),
        }
    }

    /// The references that the language's reference query finds in `content`.
    pub fn extract_references(&self, content: &str, file_path: &str) -> (r: Vec<CodeReference>)
        ensures
            references_of(
                language_captures(self.lang(), language_reference_query(self.lang()), content@),
                r@,
                file_path@,
            ),
    {
        let caps = match reference_query(self.language) {
            Some(q) => query_captures(self.language, q, content),
            None => None,
        };
        match caps {
            Some(cs) => references_from_captures(&cs, file_path),
            None => Vec::new(),
        }
    }

    /// The symbols and references of one file.
    pub fn parse(&mut self, content: &str, file_path: &str, project_id: &str) -> (r: (Vec<CodeSymbol>, Vec<CodeReference>))
        ensures
            *final(self) == *old(self),
            symbols_of(
                language_captures(old(self).lang(), language_definition_query(old(self).lang()), content@),
                r.0@,
                old(self).lang(),
                file_path@,
                project_id@,
            ),
            references_of(
                language_captures(old(self).lang(), language_reference_query(old(self).lang()), content@),
                r.1@,
                file_path@,
            ),
    {
        let symbols = self.extract_symbols(content, file_path, project_id);
        let references = self.extract_references(content, file_path);
        (symbols, references)
    }
}

} // verus!
