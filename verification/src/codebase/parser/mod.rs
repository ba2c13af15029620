//! Symbol and reference extraction from source files.

pub mod extractor;
pub mod languages;
pub mod syntax;

use vstd::prelude::*;
use crate::codebase::scanner::{detect_language, detected_language};
use crate::types::{CodeReference, CodeSymbol, Language};
use extractor::{language_captures, references_of, symbols_of, Extractor};
use languages::{has_support, language_definition_query, language_reference_query};

verus! {

/// `r` is what extraction gives for `content` in `language`: nothing when
/// the language has no extraction rules, otherwise the symbols and the
/// references of its queries' readable captures.
pub open spec fn parsed_as(
    r: (Vec<CodeSymbol>, Vec<CodeReference>),
    language: Language,
    content: Seq<char>,
    file_path: Seq<char>,
    project_id: Seq<char>,
) -> bool {
    if has_support(language) {
        &&& symbols_of(
            language_captures(language, language_definition_query(language), content),
            r.0@,
            language,
            file_path,
            project_id,
        )
        &&& references_of(
            language_captures(language, language_reference_query(language), content),
            r.1@,
            file_path,
        )
    } else {
        r.0@.len() == 0 && r.1@.len() == 0
    }
}

/// Extraction of whole files, by the language their path names.
pub struct CodeParser;

impl CodeParser {
    /// The symbols and references of a file in the given language.
    pub fn parse_in(
        language: Language,
        file_path: &str,
        content: &str,
        project_id: &str,
    ) -> (r: (Vec<CodeSymbol>, Vec<CodeReference>))
        ensures
            parsed_as(r, language, content@, file_path@, project_id@),
    {
        match Extractor::new(language) {
            Some(mut e) => e.parse(content, file_path, project_id),
            None => (Vec::new(), Vec::new()),
        }
    }

    /// The symbols and references of a file, in the language of its
    /// extension (nothing for a language without extraction rules).
    pub fn parse_file(path: &str, content: &str, project_id: &str) -> (r: (
        Vec<CodeSymbol>,
        Vec<CodeReference>,
    ))
        ensures
            exists|language: Language| detected_language(path@, language) && #[trigger] parsed_as(r, language, content@, path@, project_id@),
    {
        let language = detect_language(path);
        let r = Self::parse_in(language, path, content, project_id);
        assert(parsed_as(r, language, content@, path@, project_id@));
        r
    }
}

} // verus!
