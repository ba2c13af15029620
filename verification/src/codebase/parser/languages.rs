//! Per-language extraction rules: the tree-sitter queries that find
//! definitions and references, and how query capture names map to symbol
//! and relation kinds.

use vstd::prelude::*;
use crate::types::{CodeRelationType, Language, SymbolType};
use crate::text::{chars_of, is_whitespace, str_eq, string_of, unicode_whitespace};

verus! {

/// Definition query for Rust sources.
pub const RUST_DEFINITION_QUERY: &'static str = "\n        (function_item name: (identifier) @function)\n        (function_signature_item name: (identifier) @function)\n        (struct_item name: (type_identifier) @struct)\n        (enum_item name: (type_identifier) @enum)\n        (mod_item name: (identifier) @module)\n        (trait_item name: (type_identifier) @trait)\n        (impl_item type: (type_identifier) @impl)\n        ";

/// Reference query for Rust sources.
pub const RUST_REFERENCE_QUERY: &'static str = "\n        (call_expression function: (identifier) @call)\n        (call_expression function: (field_expression field: (field_identifier) @method_call))\n        (call_expression function: (scoped_identifier name: (identifier) @call))\n        (use_declaration argument: (scoped_identifier name: (identifier) @import))\n        ";

/// The symbol kind of a Rust definition capture; unknown captures are functions.
pub open spec fn rust_symbol_type(kind: Seq<char>) -> SymbolType {
    if kind == "function"@ {
        SymbolType::Function
    } else if kind == "struct"@ {
        SymbolType::Struct
    } else if kind == "enum"@ {
        SymbolType::Enum
    } else if kind == "module"@ {
        SymbolType::Module
    } else if kind == "trait"@ {
        SymbolType::Trait
    } else if kind == "impl"@ {
        SymbolType::Class
    } else {
        SymbolType::Function
    }
}

/// Definition query for Python sources.
pub const PYTHON_DEFINITION_QUERY: &'static str = "\n        (function_definition name: (identifier) @function)\n        (class_definition name: (identifier) @class)\n        ";

/// Reference query for Python sources.
pub const PYTHON_REFERENCE_QUERY: &'static str = "\n        (call function: (identifier) @call)\n        (call function: (attribute attribute: (identifier) @method_call))\n        (import_statement name: (dotted_name (identifier) @import))\n        (import_from_statement name: (dotted_name (identifier) @import))\n        ";

/// The symbol kind of a Python definition capture; unknown captures are functions.
pub open spec fn python_symbol_type(kind: Seq<char>) -> SymbolType {
    if kind == "function"@ {
        SymbolType::Function
    } else if kind == "class"@ {
        SymbolType::Class
    } else {
        SymbolType::Function
    }
}

/// Definition query for TypeScript sources.
pub const TYPESCRIPT_DEFINITION_QUERY: &'static str = "\n        (function_declaration name: (identifier) @function)\n        (class_declaration name: (type_identifier) @class)\n        (interface_declaration name: (type_identifier) @interface)\n        (method_definition name: (property_identifier) @method)\n        (export_statement (function_declaration name: (identifier) @function))\n        ";

/// Reference query for TypeScript sources.
pub const TYPESCRIPT_REFERENCE_QUERY: &'static str = "\n        (call_expression function: (identifier) @call)\n        (call_expression function: (member_expression property: (property_identifier) @method_call))\n        (import_statement source: (string (string_fragment) @import))\n        ";

/// The symbol kind of a TypeScript definition capture; unknown captures are functions.
pub open spec fn typescript_symbol_type(kind: Seq<char>) -> SymbolType {
    if kind == "function"@ {
        SymbolType::Function
    } else if kind == "class"@ {
        SymbolType::Class
    } else if kind == "interface"@ {
        SymbolType::Interface
    } else if kind == "method"@ {
        SymbolType::Method
    } else {
        SymbolType::Function
    }
}

/// Definition query for JavaScript sources.
pub const JAVASCRIPT_DEFINITION_QUERY: &'static str = "\n        (function_declaration name: (identifier) @function)\n        (class_declaration name: (identifier) @class)\n        (method_definition name: (property_identifier) @method)\n        ";

/// Reference query for JavaScript sources.
pub const JAVASCRIPT_REFERENCE_QUERY: &'static str = "\n        (call_expression function: (identifier) @call)\n        (call_expression function: (member_expression property: (property_identifier) @method_call))\n        (import_statement source: (string (string_fragment) @import))\n        ";

/// The symbol kind of a JavaScript definition capture; unknown captures are functions.
pub open spec fn javascript_symbol_type(kind: Seq<char>) -> SymbolType {
    if kind == "function"@ {
        SymbolType::Function
    } else if kind == "class"@ {
        SymbolType::Class
    } else if kind == "method"@ {
        SymbolType::Method
    } else {
        SymbolType::Function
    }
}

/// Definition query for Go sources.
pub const GO_DEFINITION_QUERY: &'static str = "\n        (function_declaration name: (identifier) @function)\n        (method_declaration name: (field_identifier) @method)\n        (type_declaration (type_spec name: (type_identifier) @class))\n        ";

/// Reference query for Go sources.
pub const GO_REFERENCE_QUERY: &'static str = "\n        (call_expression function: (identifier) @call)\n        (call_expression function: (selector_expression field: (field_identifier) @method_call))\n        (import_spec path: (string_literal) @import)\n        ";

/// The symbol kind of a Go definition capture; unknown captures are functions.
pub open spec fn go_symbol_type(kind: Seq<char>) -> SymbolType {
    if kind == "function"@ {
        SymbolType::Function
    } else if kind == "method"@ {
        SymbolType::Method
    } else if kind == "class"@ {
        SymbolType::Class
    } else {
        SymbolType::Function
    }
}

/// Definition query for Java sources.
pub const JAVA_DEFINITION_QUERY: &'static str = "\n        (class_declaration name: (identifier) @class)\n        (method_declaration name: (identifier) @method)\n        (interface_declaration name: (identifier) @interface)\n        (enum_declaration name: (identifier) @enum)\n        ";

/// Reference query for Java sources.
pub const JAVA_REFERENCE_QUERY: &'static str = "\n        (method_invocation name: (identifier) @call)\n        (import_declaration name: (scoped_identifier) @import)\n        ";

/// The symbol kind of a Java definition capture; unknown captures are functions.
pub open spec fn java_symbol_type(kind: Seq<char>) -> SymbolType {
    if kind == "class"@ {
        SymbolType::Class
    } else if kind == "method"@ {
        SymbolType::Method
    } else if kind == "interface"@ {
        SymbolType::Interface
    } else if kind == "enum"@ {
        SymbolType::Enum
    } else {
        SymbolType::Function
    }
}

/// The relation kind of a reference capture (the same in every language):
/// `import` captures are imports, everything else is a call.
pub open spec fn capture_relation_type(kind: Seq<char>) -> CodeRelationType {
    if kind == "call"@ || kind == "method_call"@ {
        CodeRelationType::Calls
    } else if kind == "import"@ {
        CodeRelationType::Imports
    } else {
        CodeRelationType::Calls
    }
}

/// The symbol kinds of Rust definition captures: `function` Function, `struct` Struct, `enum` Enum, `module` Module, `trait` Trait, `impl` Class, any other
/// capture `Function`.
pub proof fn lemma_rust_symbol_table(kind: Seq<char>)
    ensures
        kind == "function"@ ==> rust_symbol_type(kind) == SymbolType::Function,
        kind == "struct"@ ==> rust_symbol_type(kind) == SymbolType::Struct,
        kind == "enum"@ ==> rust_symbol_type(kind) == SymbolType::Enum,
        kind == "module"@ ==> rust_symbol_type(kind) == SymbolType::Module,
        kind == "trait"@ ==> rust_symbol_type(kind) == SymbolType::Trait,
        kind == "impl"@ ==> rust_symbol_type(kind) == SymbolType::Class,
        !(kind == "function"@ || kind == "struct"@ || kind == "enum"@ || kind == "module"@ || kind == "trait"@ || kind == "impl"@) ==> rust_symbol_type(kind) == SymbolType::Function,
{
    reveal_strlit("function");
    reveal_strlit("struct");
    reveal_strlit("enum");
    reveal_strlit("module");
    reveal_strlit("trait");
    reveal_strlit("impl");
    assert("struct"@.len() != "function"@.len());
    assert("enum"@.len() != "function"@.len());
    assert("enum"@.len() != "struct"@.len());
    assert("module"@.len() != "function"@.len());
    assert("module"@[0] != "struct"@[0]);
    assert("module"@.len() != "enum"@.len());
    assert("trait"@.len() != "function"@.len());
    assert("trait"@.len() != "struct"@.len());
    assert("trait"@.len() != "enum"@.len());
    assert("trait"@.len() != "module"@.len());
    assert("impl"@.len() != "function"@.len());
    assert("impl"@.len() != "struct"@.len());
    assert("impl"@[0] != "enum"@[0]);
    assert("impl"@.len() != "module"@.len());
    assert("impl"@.len() != "trait"@.len());
}

/// The symbol kinds of Python definition captures: `function` Function, `class` Class, any other
/// capture `Function`.
pub proof fn lemma_python_symbol_table(kind: Seq<char>)
    ensures
        kind == "function"@ ==> python_symbol_type(kind) == SymbolType::Function,
        kind == "class"@ ==> python_symbol_type(kind) == SymbolType::Class,
        !(kind == "function"@ || kind == "class"@) ==> python_symbol_type(kind) == SymbolType::Function,
{
    reveal_strlit("function");
    reveal_strlit("class");
    assert("class"@.len() != "function"@.len());
}

/// The symbol kinds of TypeScript definition captures: `function` Function, `class` Class, `interface` Interface, `method` Method, any other
/// capture `Function`.
pub proof fn lemma_typescript_symbol_table(kind: Seq<char>)
    ensures
        kind == "function"@ ==> typescript_symbol_type(kind) == SymbolType::Function,
        kind == "class"@ ==> typescript_symbol_type(kind) == SymbolType::Class,
        kind == "interface"@ ==> typescript_symbol_type(kind) == SymbolType::Interface,
        kind == "method"@ ==> typescript_symbol_type(kind) == SymbolType::Method,
        !(kind == "function"@ || kind == "class"@ || kind == "interface"@ || kind == "method"@) ==> typescript_symbol_type(kind) == SymbolType::Function,
{
    reveal_strlit("function");
    reveal_strlit("class");
    reveal_strlit("interface");
    reveal_strlit("method");
    assert("class"@.len() != "function"@.len());
    assert("interface"@.len() != "function"@.len());
    assert("interface"@.len() != "class"@.len());
    assert("method"@.len() != "function"@.len());
    assert("method"@.len() != "class"@.len());
    assert("method"@.len() != "interface"@.len());
}

/// The symbol kinds of JavaScript definition captures: `function` Function, `class` Class, `method` Method, any other
/// capture `Function`.
pub proof fn lemma_javascript_symbol_table(kind: Seq<char>)
    ensures
        kind == "function"@ ==> javascript_symbol_type(kind) == SymbolType::Function,
        kind == "class"@ ==> javascript_symbol_type(kind) == SymbolType::Class,
        kind == "method"@ ==> javascript_symbol_type(kind) == SymbolType::Method,
        !(kind == "function"@ || kind == "class"@ || kind == "method"@) ==> javascript_symbol_type(kind) == SymbolType::Function,
{
    reveal_strlit("function");
    reveal_strlit("class");
    reveal_strlit("method");
    assert("class"@.len() != "function"@.len());
    assert("method"@.len() != "function"@.len());
    assert("method"@.len() != "class"@.len());
}

/// The symbol kinds of Go definition captures: `function` Function, `method` Method, `class` Class, any other
/// capture `Function`.
pub proof fn lemma_go_symbol_table(kind: Seq<char>)
    ensures
        kind == "function"@ ==> go_symbol_type(kind) == SymbolType::Function,
        kind == "method"@ ==> go_symbol_type(kind) == SymbolType::Method,
        kind == "class"@ ==> go_symbol_type(kind) == SymbolType::Class,
        !(kind == "function"@ || kind == "method"@ || kind == "class"@) ==> go_symbol_type(kind) == SymbolType::Function,
{
    reveal_strlit("function");
    reveal_strlit("method");
    reveal_strlit("class");
    assert("method"@.len() != "function"@.len());
    assert("class"@.len() != "function"@.len());
    assert("class"@.len() != "method"@.len());
}

/// The symbol kinds of Java definition captures: `class` Class, `method` Method, `interface` Interface, `enum` Enum, any other
/// capture `Function`.
pub proof fn lemma_java_symbol_table(kind: Seq<char>)
    ensures
        kind == "class"@ ==> java_symbol_type(kind) == SymbolType::Class,
        kind == "method"@ ==> java_symbol_type(kind) == SymbolType::Method,
        kind == "interface"@ ==> java_symbol_type(kind) == SymbolType::Interface,
        kind == "enum"@ ==> java_symbol_type(kind) == SymbolType::Enum,
        !(kind == "class"@ || kind == "method"@ || kind == "interface"@ || kind == "enum"@) ==> java_symbol_type(kind) == SymbolType::Function,
{
    reveal_strlit("class");
    reveal_strlit("method");
    reveal_strlit("interface");
    reveal_strlit("enum");
    assert("method"@.len() != "class"@.len());
    assert("interface"@.len() != "class"@.len());
    assert("interface"@.len() != "method"@.len());
    assert("enum"@.len() != "class"@.len());
    assert("enum"@.len() != "method"@.len());
    assert("enum"@.len() != "interface"@.len());
}

/// The relation kinds of reference captures: `import` is an import,
/// `call`, `method_call` and any other capture a call.
pub proof fn lemma_capture_relation_table(kind: Seq<char>)
    ensures
        kind == "import"@ ==> capture_relation_type(kind) == CodeRelationType::Imports,
        kind != "import"@ ==> capture_relation_type(kind) == CodeRelationType::Calls,
{
    reveal_strlit("call");
    reveal_strlit("method_call");
    reveal_strlit("import");
    assert("method_call"@.len() != "call"@.len());
    assert("import"@.len() != "call"@.len());
    assert("import"@.len() != "method_call"@.len());
}

/// Maps a reference capture name to a relation kind.
fn relation_type_of_capture(kind: &str) -> (r: CodeRelationType)
    ensures
        r == capture_relation_type(kind@),
        kind@ == "import"@ ==> r == CodeRelationType::Imports,
        kind@ != "import"@ ==> r == CodeRelationType::Calls,
{
    proof {
        lemma_capture_relation_table(kind@);
    }
    if str_eq(kind, "call") || str_eq(kind, "method_call") {
        CodeRelationType::Calls
    } else if str_eq(kind, "import") {
        CodeRelationType::Imports
    } else {
        CodeRelationType::Calls
    }
}

/// Extraction rules for Rust sources.
pub struct RustSupport;

impl RustSupport {
    /// The tree-sitter grammar (`tree_sitter_rust::LANGUAGE` converted with `Into`).  The
    /// grammar is opaque here: nothing is stated of it.
    #[verifier::external_body]
    pub fn get_language(&self) -> tree_sitter::Language {
        tree_sitter_rust::LANGUAGE.into()
    }

    /// The tree-sitter query whose captures are Rust definitions.
    pub fn get_definition_query(&self) -> (r: &'static str)
        ensures
            r@ == RUST_DEFINITION_QUERY@,
    {
        RUST_DEFINITION_QUERY
    }

    /// The tree-sitter query whose captures are Rust references.
    pub fn get_reference_query(&self) -> (r: &'static str)
        ensures
            r@ == RUST_REFERENCE_QUERY@,
    {
        RUST_REFERENCE_QUERY
    }

    /// The symbol kind of a definition capture.
    pub fn map_symbol_type(&self, kind: &str) -> (r: SymbolType)
        ensures
            r == rust_symbol_type(kind@),
            kind@ == "function"@ ==> r == SymbolType::Function,
            kind@ == "struct"@ ==> r == SymbolType::Struct,
            kind@ == "enum"@ ==> r == SymbolType::Enum,
            kind@ == "module"@ ==> r == SymbolType::Module,
            kind@ == "trait"@ ==> r == SymbolType::Trait,
            kind@ == "impl"@ ==> r == SymbolType::Class,
            !(kind@ == "function"@ || kind@ == "struct"@ || kind@ == "enum"@ || kind@ == "module"@ || kind@ == "trait"@ || kind@ == "impl"@) ==> r == SymbolType::Function,
    {
        proof {
            lemma_rust_symbol_table(kind@);
        }
        if str_eq(kind, "function") {
            SymbolType::Function
        } else if str_eq(kind, "struct") {
            SymbolType::Struct
        } else if str_eq(kind, "enum") {
            SymbolType::Enum
        } else if str_eq(kind, "module") {
            SymbolType::Module
        } else if str_eq(kind, "trait") {
            SymbolType::Trait
        } else if str_eq(kind, "impl") {
            SymbolType::Class
        } else {
            SymbolType::Function
        }
    }

    /// The relation kind of a reference capture.
    pub fn map_relation_type(&self, kind: &str) -> (r: CodeRelationType)
        ensures
            r == capture_relation_type(kind@),
    {
        relation_type_of_capture(kind)
    }
}

/// Extraction rules for Python sources.
pub struct PythonSupport;

impl PythonSupport {
    /// The tree-sitter grammar (`tree_sitter_python::LANGUAGE` converted with `Into`).  The
    /// grammar is opaque here: nothing is stated of it.
    #[verifier::external_body]
    pub fn get_language(&self) -> tree_sitter::Language {
        tree_sitter_python::LANGUAGE.into()
    }

    /// The tree-sitter query whose captures are Python definitions.
    pub fn get_definition_query(&self) -> (r: &'static str)
        ensures
            r@ == PYTHON_DEFINITION_QUERY@,
    {
        PYTHON_DEFINITION_QUERY
    }

    /// The tree-sitter query whose captures are Python references.
    pub fn get_reference_query(&self) -> (r: &'static str)
        ensures
            r@ == PYTHON_REFERENCE_QUERY@,
    {
        PYTHON_REFERENCE_QUERY
    }

    /// The symbol kind of a definition capture.
    pub fn map_symbol_type(&self, kind: &str) -> (r: SymbolType)
        ensures
            r == python_symbol_type(kind@),
            kind@ == "function"@ ==> r == SymbolType::Function,
            kind@ == "class"@ ==> r == SymbolType::Class,
            !(kind@ == "function"@ || kind@ == "class"@) ==> r == SymbolType::Function,
    {
        proof {
            lemma_python_symbol_table(kind@);
        }
        if str_eq(kind, "function") {
            SymbolType::Function
        } else if str_eq(kind, "class") {
            SymbolType::Class
        } else {
            SymbolType::Function
        }
    }

    /// The relation kind of a reference capture.
    pub fn map_relation_type(&self, kind: &str) -> (r: CodeRelationType)
        ensures
            r == capture_relation_type(kind@),
    {
        relation_type_of_capture(kind)
    }
}

/// Extraction rules for TypeScript sources.
pub struct TypeScriptSupport;

impl TypeScriptSupport {
    /// The tree-sitter grammar (`tree_sitter_typescript::LANGUAGE_TYPESCRIPT` converted with `Into`).  The
    /// grammar is opaque here: nothing is stated of it.
    #[verifier::external_body]
    pub fn get_language(&self) -> tree_sitter::Language {
        tree_sitter_typescript::LANGUAGE_TYPESCRIPT.into()
    }

    /// The tree-sitter query whose captures are TypeScript definitions.
    pub fn get_definition_query(&self) -> (r: &'static str)
        ensures
            r@ == TYPESCRIPT_DEFINITION_QUERY@,
    {
        TYPESCRIPT_DEFINITION_QUERY
    }

    /// The tree-sitter query whose captures are TypeScript references.
    pub fn get_reference_query(&self) -> (r: &'static str)
        ensures
            r@ == TYPESCRIPT_REFERENCE_QUERY@,
    {
        TYPESCRIPT_REFERENCE_QUERY
    }

    /// The symbol kind of a definition capture.
    pub fn map_symbol_type(&self, kind: &str) -> (r: SymbolType)
        ensures
            r == typescript_symbol_type(kind@),
            kind@ == "function"@ ==> r == SymbolType::Function,
            kind@ == "class"@ ==> r == SymbolType::Class,
            kind@ == "interface"@ ==> r == SymbolType::Interface,
            kind@ == "method"@ ==> r == SymbolType::Method,
            !(kind@ == "function"@ || kind@ == "class"@ || kind@ == "interface"@ || kind@ == "method"@) ==> r == SymbolType::Function,
    {
        proof {
            lemma_typescript_symbol_table(kind@);
        }
        if str_eq(kind, "function") {
            SymbolType::Function
        } else if str_eq(kind, "class") {
            SymbolType::Class
        } else if str_eq(kind, "interface") {
            SymbolType::Interface
        } else if str_eq(kind, "method") {
            SymbolType::Method
        } else {
            SymbolType::Function
        }
    }

    /// The relation kind of a reference capture.
    pub fn map_relation_type(&self, kind: &str) -> (r: CodeRelationType)
        ensures
            r == capture_relation_type(kind@),
    {
        relation_type_of_capture(kind)
    }
}

/// Extraction rules for JavaScript sources.
pub struct JavaScriptSupport;

impl JavaScriptSupport {
    /// The tree-sitter grammar (`tree_sitter_javascript::LANGUAGE` converted with `Into`).  The
    /// grammar is opaque here: nothing is stated of it.
    #[verifier::external_body]
    pub fn get_language(&self) -> tree_sitter::Language {
        tree_sitter_javascript::LANGUAGE.into()
    }

    /// The tree-sitter query whose captures are JavaScript definitions.
    pub fn get_definition_query(&self) -> (r: &'static str)
        ensures
            r@ == JAVASCRIPT_DEFINITION_QUERY@,
    {
        JAVASCRIPT_DEFINITION_QUERY
    }

    /// The tree-sitter query whose captures are JavaScript references.
    pub fn get_reference_query(&self) -> (r: &'static str)
        ensures
            r@ == JAVASCRIPT_REFERENCE_QUERY@,
    {
        JAVASCRIPT_REFERENCE_QUERY
    }

    /// The symbol kind of a definition capture.
    pub fn map_symbol_type(&self, kind: &str) -> (r: SymbolType)
        ensures
            r == javascript_symbol_type(kind@),
            kind@ == "function"@ ==> r == SymbolType::Function,
            kind@ == "class"@ ==> r == SymbolType::Class,
            kind@ == "method"@ ==> r == SymbolType::Method,
            !(kind@ == "function"@ || kind@ == "class"@ || kind@ == "method"@) ==> r == SymbolType::Function,
    {
        proof {
            lemma_javascript_symbol_table(kind@);
        }
        if str_eq(kind, "function") {
            SymbolType::Function
        } else if str_eq(kind, "class") {
            SymbolType::Class
        } else if str_eq(kind, "method") {
            SymbolType::Method
        } else {
            SymbolType::Function
        }
    }

    /// The relation kind of a reference capture.
    pub fn map_relation_type(&self, kind: &str) -> (r: CodeRelationType)
        ensures
            r == capture_relation_type(kind@),
    {
        relation_type_of_capture(kind)
    }
}

/// Extraction rules for Go sources.
pub struct GoSupport;

impl GoSupport {
    /// The tree-sitter grammar (`tree_sitter_go::LANGUAGE` converted with `Into`).  The
    /// grammar is opaque here: nothing is stated of it.
    #[verifier::external_body]
    pub fn get_language(&self) -> tree_sitter::Language {
        tree_sitter_go::LANGUAGE.into()
    }

    /// The tree-sitter query whose captures are Go definitions.
    pub fn get_definition_query(&self) -> (r: &'static str)
        ensures
            r@ == GO_DEFINITION_QUERY@,
    {
        GO_DEFINITION_QUERY
    }

    /// The tree-sitter query whose captures are Go references.
    pub fn get_reference_query(&self) -> (r: &'static str)
        ensures
            r@ == GO_REFERENCE_QUERY@,
    {
        GO_REFERENCE_QUERY
    }

    /// The symbol kind of a definition capture.
    pub fn map_symbol_type(&self, kind: &str) -> (r: SymbolType)
        ensures
            r == go_symbol_type(kind@),
            kind@ == "function"@ ==> r == SymbolType::Function,
            kind@ == "method"@ ==> r == SymbolType::Method,
            kind@ == "class"@ ==> r == SymbolType::Class,
            !(kind@ == "function"@ || kind@ == "method"@ || kind@ == "class"@) ==> r == SymbolType::Function,
    {
        proof {
            lemma_go_symbol_table(kind@);
        }
        if str_eq(kind, "function") {
            SymbolType::Function
        } else if str_eq(kind, "method") {
            SymbolType::Method
        } else if str_eq(kind, "class") {
            SymbolType::Class
        } else {
            SymbolType::Function
        }
    }

    /// The relation kind of a reference capture.
    pub fn map_relation_type(&self, kind: &str) -> (r: CodeRelationType)
        ensures
            r == capture_relation_type(kind@),
    {
        relation_type_of_capture(kind)
    }
}

/// Extraction rules for Java sources.
pub struct JavaSupport;

impl JavaSupport {
    /// The tree-sitter grammar (`tree_sitter_java::LANGUAGE` converted with `Into`).  The
    /// grammar is opaque here: nothing is stated of it.
    #[verifier::external_body]
    pub fn get_language(&self) -> tree_sitter::Language {
        tree_sitter_java::LANGUAGE.into()
    }

    /// The tree-sitter query whose captures are Java definitions.
    pub fn get_definition_query(&self) -> (r: &'static str)
        ensures
            r@ == JAVA_DEFINITION_QUERY@,
    {
        JAVA_DEFINITION_QUERY
    }

    /// The tree-sitter query whose captures are Java references.
    pub fn get_reference_query(&self) -> (r: &'static str)
        ensures
            r@ == JAVA_REFERENCE_QUERY@,
    {
        JAVA_REFERENCE_QUERY
    }

    /// The symbol kind of a definition capture.
    pub fn map_symbol_type(&self, kind: &str) -> (r: SymbolType)
        ensures
            r == java_symbol_type(kind@),
            kind@ == "class"@ ==> r == SymbolType::Class,
            kind@ == "method"@ ==> r == SymbolType::Method,
            kind@ == "interface"@ ==> r == SymbolType::Interface,
            kind@ == "enum"@ ==> r == SymbolType::Enum,
            !(kind@ == "class"@ || kind@ == "method"@ || kind@ == "interface"@ || kind@ == "enum"@) ==> r == SymbolType::Function,
    {
        proof {
            lemma_java_symbol_table(kind@);
        }
        if str_eq(kind, "class") {
            SymbolType::Class
        } else if str_eq(kind, "method") {
            SymbolType::Method
        } else if str_eq(kind, "interface") {
            SymbolType::Interface
        } else if str_eq(kind, "enum") {
            SymbolType::Enum
        } else {
            SymbolType::Function
        }
    }

    /// The relation kind of a reference capture.
    pub fn map_relation_type(&self, kind: &str) -> (r: CodeRelationType)
        ensures
            r == capture_relation_type(kind@),
    {
        relation_type_of_capture(kind)
    }
}

/// Whether the extractor has rules for a language.
pub open spec fn has_support(lang: Language) -> bool {
    matches!(lang, Language::Rust | Language::Python | Language::TypeScript | Language::JavaScript | Language::Go | Language::Java)
}

/// The symbol kind of a definition capture in a supported language.
pub open spec fn language_symbol_type(lang: Language, kind: Seq<char>) -> SymbolType {
    match lang {
        Language::Rust => rust_symbol_type(kind),
        Language::Python => python_symbol_type(kind),
        Language::TypeScript => typescript_symbol_type(kind),
        Language::JavaScript => javascript_symbol_type(kind),
        Language::Go => go_symbol_type(kind),
        Language::Java => java_symbol_type(kind),
        _ => SymbolType::Function,
    }
}

/// The definition query of a language, when it is supported.
pub open spec fn language_definition_query(lang: Language) -> Option<Seq<char>> {
    match lang {
        Language::Rust => Some(RUST_DEFINITION_QUERY@),
        Language::Python => Some(PYTHON_DEFINITION_QUERY@),
        Language::TypeScript => Some(TYPESCRIPT_DEFINITION_QUERY@),
        Language::JavaScript => Some(JAVASCRIPT_DEFINITION_QUERY@),
        Language::Go => Some(GO_DEFINITION_QUERY@),
        Language::Java => Some(JAVA_DEFINITION_QUERY@),
        _ => None,
    }
}

/// The reference query of a language, when it is supported.
pub open spec fn language_reference_query(lang: Language) -> Option<Seq<char>> {
    match lang {
        Language::Rust => Some(RUST_REFERENCE_QUERY@),
        Language::Python => Some(PYTHON_REFERENCE_QUERY@),
        Language::TypeScript => Some(TYPESCRIPT_REFERENCE_QUERY@),
        Language::JavaScript => Some(JAVASCRIPT_REFERENCE_QUERY@),
        Language::Go => Some(GO_REFERENCE_QUERY@),
        Language::Java => Some(JAVA_REFERENCE_QUERY@),
        _ => None,
    }
}

/// Whether a language has extraction rules.
pub fn is_supported(lang: Language) -> (r: bool)
    ensures
        r == has_support(lang),
{
    matches!(lang, Language::Rust | Language::Python | Language::TypeScript | Language::JavaScript | Language::Go | Language::Java)
}

/// The definition query of a language, if supported.
pub fn definition_query(lang: Language) -> (r: Option<&'static str>)
    ensures
        match r {
            Some(q) => language_definition_query(lang) == Some(q@),
            None => language_definition_query(lang) is None,
        },
{
    match lang {
        Language::Rust => Some(RustSupport.get_definition_query()),
        Language::Python => Some(PythonSupport.get_definition_query()),
        Language::TypeScript => Some(TypeScriptSupport.get_definition_query()),
        Language::JavaScript => Some(JavaScriptSupport.get_definition_query()),
        Language::Go => Some(GoSupport.get_definition_query()),
        Language::Java => Some(JavaSupport.get_definition_query()),
        _ => None,
    }
}

/// The reference query of a language, if supported.
pub fn reference_query(lang: Language) -> (r: Option<&'static str>)
    ensures
        match r {
            Some(q) => language_reference_query(lang) == Some(q@),
            None => language_reference_query(lang) is None,
        },
{
    match lang {
        Language::Rust => Some(RustSupport.get_reference_query()),
        Language::Python => Some(PythonSupport.get_reference_query()),
        Language::TypeScript => Some(TypeScriptSupport.get_reference_query()),
        Language::JavaScript => Some(JavaScriptSupport.get_reference_query()),
        Language::Go => Some(GoSupport.get_reference_query()),
        Language::Java => Some(JavaSupport.get_reference_query()),
        _ => None,
    }
}

/// The symbol kind of a definition capture in a language.
pub fn symbol_type_for(lang: Language, kind: &str) -> (r: SymbolType)
    ensures
        r == language_symbol_type(lang, kind@),
{
    match lang {
        Language::Rust => RustSupport.map_symbol_type(kind),
        Language::Python => PythonSupport.map_symbol_type(kind),
        Language::TypeScript => TypeScriptSupport.map_symbol_type(kind),
        Language::JavaScript => JavaScriptSupport.map_symbol_type(kind),
        Language::Go => GoSupport.map_symbol_type(kind),
        Language::Java => JavaSupport.map_symbol_type(kind),
        _ => SymbolType::Function,
    }
}

/// The relation kind of a reference capture in a language.
pub fn relation_type_for(lang: Language, kind: &str) -> (r: CodeRelationType)
    ensures
        r == capture_relation_type(kind@),
{
    relation_type_of_capture(kind)
}

/// Scans a declaration up to its body: the state after reading `s` is the
/// parenthesis depth, the text kept so far (a newline outside parentheses
/// kept as a space) and whether a `{` or `[` outside parentheses was met,
/// after which nothing more is read.
pub open spec fn header_scan(s: Seq<char>) -> (int, Seq<char>, bool)
    decreases s.len(),
{
    if s.len() == 0 {
        (0, seq![], false)
    } else {
        let prev = header_scan(s.drop_last());
        let c = s.last();
        let d = prev.0;
        let o = prev.1;
        if prev.2 {
            prev
        } else if (c == '{' || c == '[') && d == 0 {
            (d, o, true)
        } else if c == '(' {
            (d + 1, o.push(c), false)
        } else if c == ')' {
            (d - 1, o.push(c), false)
        } else if c == '\n' && d == 0 {
            (d, o.push(' '), false)
        } else {
            (d, o.push(c), false)
        }
    }
}

/// Collapses white space: the state after reading `s` is the words read so
/// far joined by single spaces, and whether a space is owed before the next
/// word.  Leading and trailing white space vanish.
pub open spec fn ws_collapse(s: Seq<char>) -> (Seq<char>, bool)
    decreases s.len(),
{
    if s.len() == 0 {
        (seq![], false)
    } else {
        let prev = ws_collapse(s.drop_last());
        let c = s.last();
        if unicode_whitespace(c) {
            (prev.0, prev.0.len() > 0)
        } else {
            ((if prev.1 {
                prev.0.push(' ')
            } else {
                prev.0
            }).push(c), false)
        }
    }
}

/// The header of a declaration: the text before its body, with its words
/// joined by single spaces.
pub open spec fn declaration_header(text: Seq<char>) -> Seq<char> {
    ws_collapse(header_scan(text).1).0
}

/// The text of a declaration before its body (`{` or `[` outside
/// parentheses), on one line, with runs of white space made single spaces.
pub fn extract_until_body_start(text: &str) -> (r: String)
    requires
        text@.len() <= i32::MAX,
    ensures
        r@ == declaration_header(text@),
{
    let cs = chars_of(text);
    let mut depth: i32 = 0;
    let mut raw: Vec<char> = Vec::new();
    let mut stopped = false;
    let mut i: usize = 0;
    while i < cs.len()
        invariant
            cs@ == text@,
            cs@.len() <= i32::MAX,
            i <= cs@.len(),
            -(i as int) <= depth <= i,
            header_scan(cs@.subrange(0, i as int)) == (depth as int, raw@, stopped),
        decreases cs.len() - i,
    {
        let c = cs[i];
        assert(cs@.subrange(0, i + 1).drop_last() =~= cs@.subrange(0, i as int));
        assert(cs@.subrange(0, i + 1).last() == c);
        if stopped {
        } else if (c == '{' || c == '[') && depth == 0 {
            stopped = true;
        } else if c == '(' {
            depth = depth + 1;
            raw.push(c);
        } else if c == ')' {
            depth = depth - 1;
            raw.push(c);
        } else if c == '\n' && depth == 0 {
            raw.push(' ');
        } else {
            raw.push(c);
        }
        i = i + 1;
    }
    assert(cs@.subrange(0, cs@.len() as int) =~= cs@);
    let mut out: Vec<char> = Vec::new();
    let mut pending = false;
    let mut j: usize = 0;
    while j < raw.len()
        invariant
            j <= raw@.len(),
            ws_collapse(raw@.subrange(0, j as int)) == (out@, pending),
        decreases raw.len() - j,
    {
        let c = raw[j];
        assert(raw@.subrange(0, j + 1).drop_last() =~= raw@.subrange(0, j as int));
        assert(raw@.subrange(0, j + 1).last() == c);
        if is_whitespace(c) {
            pending = out.len() > 0;
        } else {
            if pending {
                out.push(' ');
            }
            out.push(c);
            pending = false;
        }
        j = j + 1;
    }
    assert(raw@.subrange(0, raw@.len() as int) =~= raw@);
    string_of(out.as_slice())
}

/// The signature recorded for a declaration: its header cut to 500
/// characters, or nothing when the header is empty.
pub fn extract_signature_text(text: &str) -> (r: Option<String>)
    requires
        text@.len() <= i32::MAX,
    ensures
        match r {
            Some(s) => declaration_header(text@).len() > 0 && s@ == declaration_header(text@).take(
                if declaration_header(text@).len() < 500 {
                    declaration_header(text@).len() as int
                } else {
                    500
                },
            ),
            None => declaration_header(text@).len() == 0,
        },
{
    let sig = extract_until_body_start(text);
    let cs = chars_of(sig.as_str());
    if cs.len() == 0 {
        return None;
    }
    let n = if cs.len() < 500 { cs.len() } else { 500 };
    let mut kept: Vec<char> = Vec::new();
    let mut i: usize = 0;
    while i < n
        invariant
            n <= cs@.len(),
            i <= n,
            kept@ == cs@.take(i as int),
        decreases n - i,
    {
        kept.push(cs[i]);
        assert(cs@.take(i + 1) =~= cs@.take(i as int).push(cs@[i as int]));
        i = i + 1;
    }
    Some(string_of(kept.as_slice()))
}

} // verus!
