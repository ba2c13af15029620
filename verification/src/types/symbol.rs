//! Code-graph records: symbols, references between them and the relations
//! stored for those references.

use vstd::prelude::*;
use crate::numfmt::{decimal, push_decimal};
use crate::text::{str_eq, string_of};
use super::record::Thing;

verus! {

/// The kind of a defined symbol.
#[derive(Clone, Copy, Debug, PartialEq, Eq, Hash, Structural)]
pub enum SymbolType {
    Function,
    Method,
    Class,
    Struct,
    Enum,
    Interface,
    Module,
    Trait,
    Import,
}

impl SymbolType {
    /// The stored (snake_case) name, as `Display` renders it.
    pub fn as_str(&self) -> (r: &'static str)
        ensures
            r@ == match self {
                SymbolType::Function => "function"@,
                SymbolType::Method => "method"@,
                SymbolType::Class => "class"@,
                SymbolType::Struct => "struct"@,
                SymbolType::Enum => "enum"@,
                SymbolType::Interface => "interface"@,
                SymbolType::Module => "module"@,
                SymbolType::Trait => "trait"@,
                SymbolType::Import => "import"@,
            },
    {
        match self {
            SymbolType::Function => "function",
            SymbolType::Method => "method",
            SymbolType::Class => "class",
            SymbolType::Struct => "struct",
            SymbolType::Enum => "enum",
            SymbolType::Interface => "interface",
            SymbolType::Module => "module",
            SymbolType::Trait => "trait",
            SymbolType::Import => "import",
        }
    }
}

/// The kind of a relation between two symbols.
#[derive(Clone, Copy, Debug, PartialEq, Eq, Structural)]
pub enum CodeRelationType {
    Calls,
    Imports,
    Contains,
    Implements,
    Extends,
}

/// The relation kind a stored name denotes; unknown names read as `Calls`.
pub open spec fn relation_type_named(s: Seq<char>) -> CodeRelationType {
    if s == "imports"@ {
        CodeRelationType::Imports
    } else if s == "contains"@ {
        CodeRelationType::Contains
    } else if s == "implements"@ {
        CodeRelationType::Implements
    } else if s == "extends"@ {
        CodeRelationType::Extends
    } else {
        CodeRelationType::Calls
    }
}

impl CodeRelationType {
    /// The stored (snake_case) name, as `Display` renders it.
    pub fn as_str(&self) -> (r: &'static str)
        ensures
            r@ == match self {
                CodeRelationType::Calls => "calls"@,
                CodeRelationType::Imports => "imports"@,
                CodeRelationType::Contains => "contains"@,
                CodeRelationType::Implements => "implements"@,
                CodeRelationType::Extends => "extends"@,
            },
    {
        match self {
            CodeRelationType::Calls => "calls",
            CodeRelationType::Imports => "imports",
            CodeRelationType::Contains => "contains",
            CodeRelationType::Implements => "implements",
            CodeRelationType::Extends => "extends",
        }
    }

    /// Reads a stored relation name (exact, snake_case); anything else reads as `Calls`.
    pub fn from_stored(s: &str) -> (r: CodeRelationType)
        ensures
            r == relation_type_named(s@),
    {
        if str_eq(s, "imports") {
            CodeRelationType::Imports
        } else if str_eq(s, "contains") {
            CodeRelationType::Contains
        } else if str_eq(s, "implements") {
            CodeRelationType::Implements
        } else if str_eq(s, "extends") {
            CodeRelationType::Extends
        } else {
            CodeRelationType::Calls
        }
    }
}

/// A named definition found in a source file.
#[derive(Clone, Debug)]
pub struct CodeSymbol {
    pub name: String,
    pub symbol_type: SymbolType,
    pub file_path: String,
    pub start_line: u32,
    pub end_line: u32,
    pub project_id: String,
    pub signature: Option<String>,
}

/// The text of `CodeSymbol::unique_key`: `project:file:name:line`.
pub open spec fn symbol_key_text(project_id: Seq<char>, file_path: Seq<char>, name: Seq<char>, line: u32) -> Seq<char> {
    project_id + seq![':'] + file_path + seq![':'] + name + seq![':'] + decimal(line as nat)
}

impl CodeSymbol {
    /// A symbol without a signature.
    pub fn new(
        name: String,
        symbol_type: SymbolType,
        file_path: String,
        start_line: u32,
        end_line: u32,
        project_id: String,
    ) -> (r: CodeSymbol)
        ensures
            r.name@ == name@,
            r.symbol_type == symbol_type,
            r.file_path@ == file_path@,
            r.start_line == start_line,
            r.end_line == end_line,
            r.project_id@ == project_id@,
            r.signature is None,
    {
        CodeSymbol { name, symbol_type, file_path, start_line, end_line, project_id, signature: None }
    }

    /// The same symbol with a signature.
    pub fn with_signature(self, signature: String) -> (r: CodeSymbol)
        ensures
            r.name == self.name,
            r.symbol_type == self.symbol_type,
            r.file_path == self.file_path,
            r.start_line == self.start_line,
            r.end_line == self.end_line,
            r.project_id == self.project_id,
            r.signature == Some(signature),
    {
        let mut s = self;
        s.signature = Some(signature);
        s
    }

    /// `project:file:name:start_line`, which tells symbols apart within the service.
    pub fn unique_key(&self) -> (r: String)
        ensures
            r@ == symbol_key_text(self.project_id@, self.file_path@, self.name@, self.start_line),
    {
        let mut out = self.project_id.clone();
        out.append(":");
        out.append(self.file_path.as_str());
        out.append(":");
        out.append(self.name.as_str());
        out.append(":");
        let mut digits: Vec<char> = Vec::new();
        push_decimal(self.start_line as u64, &mut digits);
        assert(digits@ =~= decimal(self.start_line as nat));
        let d = string_of(digits.as_slice());
        out.append(d.as_str());
        proof {
            reveal_strlit(":");
            assert(":"@ =~= seq![':']);
        }
        out
    }
}

/// A use of a name at a position in a source file.
#[derive(Clone, Debug)]
pub struct CodeReference {
    pub name: String,
    pub file_path: String,
    pub line: u32,
    pub column: u32,
}

impl CodeReference {
    /// A reference to `name` at `line`/`column` of `file_path`.
    pub fn new(name: String, file_path: String, line: u32, column: u32) -> (r: CodeReference)
        ensures
            r.name == name,
            r.file_path == file_path,
            r.line == line,
            r.column == column,
    {
        CodeReference { name, file_path, line, column }
    }
}

/// A stored relation from one symbol to another.
#[derive(Clone, Debug)]
pub struct SymbolRelation {
    pub id: Option<Thing>,
    pub from_symbol: Thing,
    pub to_symbol: Thing,
    pub relation_type: CodeRelationType,
    pub file_path: String,
    pub line: u32,
}

impl SymbolRelation {
    /// A new (not yet stored) relation.
    pub fn new(
        from_symbol: Thing,
        to_symbol: Thing,
        relation_type: CodeRelationType,
        file_path: String,
        line: u32,
    ) -> (r: SymbolRelation)
        ensures
            r.id is None,
            r.from_symbol == from_symbol,
            r.to_symbol == to_symbol,
            r.relation_type == relation_type,
            r.file_path == file_path,
            r.line == line,
    {
        SymbolRelation { id: None, from_symbol, to_symbol, relation_type, file_path, line }
    }
}

} // verus!
