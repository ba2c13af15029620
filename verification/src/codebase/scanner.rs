//! Which files are indexed and in which language.
//!
//! The rules work on the lower-cased path text and on the file name and
//! extension that `std::path::Path` finds in it.  How `Path` splits a path
//! depends on the platform's separators, so what those calls return is
//! stated exactly for plain paths (those every platform splits alike at
//! `/`), and only partly for the others.

use vstd::prelude::*;
use crate::text::{
    chars_of, contains, contains_seq, ends_with, ends_with_seq, occurs_at, starts_with, starts_with_seq,
    str_eq, to_lowercase, unicode_lowercase,
};
use crate::types::Language;

verus! {

/// The pieces of a path between `/` characters, in order (there is always
/// at least one; repeated or trailing `/` give empty pieces).
pub open spec fn slash_segments(p: Seq<char>) -> Seq<Seq<char>>
    decreases p.len(),
{
    if p.len() == 0 {
        seq![seq![]]
    } else if p.last() == '/' {
        slash_segments(p.drop_last()).push(seq![])
    } else {
        let s = slash_segments(p.drop_last());
        s.update(s.len() - 1, s.last().push(p.last()))
    }
}

/// What follows the last `/` of a path (all of it without one).
pub open spec fn last_segment(p: Seq<char>) -> Seq<char> {
    slash_segments(p).last()
}

/// A path that every platform splits alike: `/` is its only separator
/// character (no `\`), it has no `:` (so no drive or other prefix), and
/// it does not start with `//`.
pub open spec fn plain_path(p: Seq<char>) -> bool {
    &&& !p.contains('\\')
    &&& !p.contains(':')
    &&& !(p.len() >= 2 && p[0] == '/' && p[1] == '/')
}

/// The pieces `Path` keeps as components of a plain path, besides a
/// leading root: the non-empty pieces other than `.` (repeated and
/// trailing `/` and inner `.` are normalized away).
pub open spec fn kept_pieces(ss: Seq<Seq<char>>) -> Seq<Seq<char>>
    decreases ss.len(),
{
    if ss.len() == 0 {
        seq![]
    } else {
        let k = kept_pieces(ss.drop_last());
        if ss.last().len() > 0 && ss.last() != "."@ {
            k.push(ss.last())
        } else {
            k
        }
    }
}

/// `Path::file_name` of a plain path, as its documentation gives it: the
/// last component when it is a name, so none for a path without
/// components (empty, `/`, `.`) or ending in `..`.
pub open spec fn file_name_of(p: Seq<char>) -> Option<Seq<char>> {
    let ks = kept_pieces(slash_segments(p));
    if ks.len() == 0 || ks.last() == ".."@ {
        None
    } else {
        Some(ks.last())
    }
}

/// `Path::extension` of a plain path: the extension of its file name.
pub open spec fn extension_of_path(p: Seq<char>) -> Option<Seq<char>> {
    match file_name_of(p) {
        Some(n) => extension_of_name(n),
        None => None,
    }
}

/// The extension of a file name, as `Path::extension` documents it: none
/// without a `.`, none when the only `.` is the first character, otherwise
/// what follows the last `.`.
pub open spec fn extension_of_name(n: Seq<char>) -> Option<Seq<char>> {
    if exists|i: int| 0 <= i < n.len() && n[i] == '.' {
        let i = choose|i: int| 0 <= i < n.len() && n[i] == '.' && forall|j: int| i < j < n.len() ==> n[j] != '.';
        if i == 0 {
            None
        } else {
            Some(n.subrange(i + 1, n.len() as int))
        }
    } else {
        None
    }
}

/// `Path::file_name` of a path, when there is one and it is valid UTF-8.
/// Which characters separate components depends on the platform: on every
/// platform the name is a non-empty piece of the path without `/`, and for
/// a plain path it is `file_name_of` the path.
#[verifier::external_body]
fn path_file_name(path: &str) -> (r: Option<String>)
    ensures
        r matches Some(n) ==> n@.len() > 0 && contains_seq(path@, n@) && !n@.contains('/'),
        plain_path(path@) ==> match file_name_of(path@) {
            Some(n) => r is Some && r.unwrap()@ == n,
            None => r is None,
        },
{
    std::path::Path::new(path).file_name().and_then(|n| n.to_str()).map(|n| n.to_string())
}

/// `Path::extension` of a path, when there is one and it is valid UTF-8.
/// Which characters separate components depends on the platform: on every
/// platform the extension follows a `.` in the path and holds neither `.`
/// nor `/`, and for a plain path it is `extension_of_path` the path.
#[verifier::external_body]
fn path_extension(path: &str) -> (r: Option<String>)
    ensures
        r matches Some(e) ==> contains_seq(path@, seq!['.'] + e@) && !e@.contains('.') && !e@.contains('/'),
        plain_path(path@) ==> match extension_of_path(path@) {
            Some(e) => r is Some && r.unwrap()@ == e,
            None => r is None,
        },
{
    std::path::Path::new(path).extension().and_then(|e| e.to_str()).map(|e| e.to_string())
}

/// `Path::components` of a path, each as text (lossily converted).  Which
/// characters separate components depends on the platform; for a plain
/// path, the components that name a hidden, dependency or build directory
/// are exactly such pieces between its `/` characters (the root, `.` and
/// empty pieces are none of these).
#[verifier::external_body]
fn path_components(path: &str) -> (r: Vec<String>)
    ensures
        plain_path(path@) ==> forall|s: Seq<char>| #[trigger] ignored_component(s) ==> (
            r@.map_values(|c: String| c@).contains(s) <==> slash_segments(path@).contains(s)),
{
    std::path::Path::new(path).components().map(|c| c.as_os_str().to_string_lossy().into_owned()).collect()
}

/// The lower-cased path passes through a build-output or dependency directory.
pub open spec fn in_ignored_dir(lower_path: Seq<char>) -> bool {
    ||| contains_seq(lower_path, "/node_modules/"@)
    ||| contains_seq(lower_path, "\\node_modules\\"@)
    ||| contains_seq(lower_path, "/target/"@)
    ||| contains_seq(lower_path, "\\target\\"@)
    ||| contains_seq(lower_path, "/build/"@)
    ||| contains_seq(lower_path, "\\build\\"@)
    ||| contains_seq(lower_path, "/.dart_tool/"@)
    ||| contains_seq(lower_path, "\\.dart_tool\\"@)
    ||| contains_seq(lower_path, "/dist/"@)
    ||| contains_seq(lower_path, "\\dist\\"@)
    ||| contains_seq(lower_path, "/out/"@)
    ||| contains_seq(lower_path, "\\out\\"@)
}

/// A lock file of a package manager.
pub open spec fn is_lock_file_name(n: Seq<char>) -> bool {
    ||| n == "package-lock.json"@
    ||| n == "yarn.lock"@
    ||| n == "pnpm-lock.yaml"@
    ||| n == "composer.lock"@
    ||| n == "cargo.lock"@
    ||| n == "pubspec.lock"@
    ||| n == "gemfile.lock"@
    ||| n == "poetry.lock"@
}

/// A generated or minified file, by its suffix.
pub open spec fn has_generated_suffix(n: Seq<char>) -> bool {
    ||| ends_with_seq(n, ".g.dart"@)
    ||| ends_with_seq(n, ".freezed.dart"@)
    ||| ends_with_seq(n, ".gr.dart"@)
    ||| ends_with_seq(n, ".config.dart"@)
    ||| ends_with_seq(n, ".mocks.dart"@)
    ||| ends_with_seq(n, ".arb"@)
    ||| ends_with_seq(n, ".min.js"@)
    ||| ends_with_seq(n, ".min.css"@)
    ||| ends_with_seq(n, ".bundle.js"@)
}

/// A lower-cased file name that is never indexed: hidden files (but not
/// `.`), lock files and generated or minified files.
pub open spec fn ignored_name(n: Seq<char>) -> bool {
    (starts_with_seq(n, "."@) && n != "."@) || is_lock_file_name(n) || has_generated_suffix(n)
}

/// An extension (lower-cased) of a source file worth indexing.
pub open spec fn code_extension(e: Seq<char>) -> bool {
    ||| e == "rs"@ ||| e == "py"@ ||| e == "js"@ ||| e == "ts"@ ||| e == "jsx"@
    ||| e == "tsx"@ ||| e == "go"@ ||| e == "java"@ ||| e == "dart"@ ||| e == "c"@
    ||| e == "cpp"@ ||| e == "h"@ ||| e == "hpp"@ ||| e == "rb"@ ||| e == "php"@
    ||| e == "swift"@ ||| e == "kt"@ ||| e == "scala"@ ||| e == "sh"@ ||| e == "bash"@
    ||| e == "zsh"@
}

/// The language of a (lower-cased) extension.
pub open spec fn language_of_extension(e: Seq<char>) -> Language {
    if e == "rs"@ {
        Language::Rust
    } else if e == "py"@ {
        Language::Python
    } else if e == "js"@ || e == "jsx"@ {
        Language::JavaScript
    } else if e == "ts"@ || e == "tsx"@ {
        Language::TypeScript
    } else if e == "go"@ {
        Language::Go
    } else if e == "java"@ {
        Language::Java
    } else if e == "dart"@ {
        Language::Dart
    } else {
        Language::Unknown
    }
}

/// The directories whose files are never indexed: a lower-cased path is in
/// one exactly when it holds `/node_modules/`, `/target/`, `/build/`,
/// `/.dart_tool/`, `/dist/` or `/out/`, with `/` or `\\` around the name.
pub proof fn lemma_ignored_directories(p: Seq<char>)
    ensures
        in_ignored_dir(p) <==> (contains_seq(p, "/node_modules/"@)
            || contains_seq(p, "\\node_modules\\"@)
            || contains_seq(p, "/target/"@)
            || contains_seq(p, "\\target\\"@)
            || contains_seq(p, "/build/"@)
            || contains_seq(p, "\\build\\"@)
            || contains_seq(p, "/.dart_tool/"@)
            || contains_seq(p, "\\.dart_tool\\"@)
            || contains_seq(p, "/dist/"@)
            || contains_seq(p, "\\dist\\"@)
            || contains_seq(p, "/out/"@)
            || contains_seq(p, "\\out\\"@)),
{
}

/// The file names never indexed: hidden names (but not `.`), the lock files
/// of the package managers, and generated or bundled files by suffix.
pub proof fn lemma_ignored_file_names(n: Seq<char>)
    ensures
        ignored_name(n) <==> ((starts_with_seq(n, "."@) && n != "."@)
            || n == "package-lock.json"@
            || n == "yarn.lock"@
            || n == "pnpm-lock.yaml"@
            || n == "composer.lock"@
            || n == "cargo.lock"@
            || n == "pubspec.lock"@
            || n == "gemfile.lock"@
            || n == "poetry.lock"@
            || ends_with_seq(n, ".g.dart"@)
            || ends_with_seq(n, ".freezed.dart"@)
            || ends_with_seq(n, ".gr.dart"@)
            || ends_with_seq(n, ".config.dart"@)
            || ends_with_seq(n, ".mocks.dart"@)
            || ends_with_seq(n, ".arb"@)
            || ends_with_seq(n, ".min.js"@)
            || ends_with_seq(n, ".min.css"@)
            || ends_with_seq(n, ".bundle.js"@)),
{
}

/// The extensions (lower-cased) of source files worth indexing are exactly
/// `rs`, `py`, `js`, `ts`, `jsx`, `tsx`, `go`, `java`, `dart`, `c`, `cpp`,
/// `h`, `hpp`, `rb`, `php`, `swift`, `kt`, `scala`, `sh`, `bash` and `zsh`.
pub proof fn lemma_code_extensions(e: Seq<char>)
    ensures
        code_extension(e) <==> (e == "rs"@
            || e == "py"@
            || e == "js"@
            || e == "ts"@
            || e == "jsx"@
            || e == "tsx"@
            || e == "go"@
            || e == "java"@
            || e == "dart"@
            || e == "c"@
            || e == "cpp"@
            || e == "h"@
            || e == "hpp"@
            || e == "rb"@
            || e == "php"@
            || e == "swift"@
            || e == "kt"@
            || e == "scala"@
            || e == "sh"@
            || e == "bash"@
            || e == "zsh"@),
{
}

/// The language of each (lower-cased) extension: `rs` Rust, `py` Python,
/// `js`/`jsx` JavaScript, `ts`/`tsx` TypeScript, `go` Go, `java` Java,
/// `dart` Dart, anything else `Unknown`.
pub proof fn lemma_extension_languages(e: Seq<char>)
    ensures
        e == "rs"@ ==> language_of_extension(e) == Language::Rust,
        e == "py"@ ==> language_of_extension(e) == Language::Python,
        e == "js"@ ==> language_of_extension(e) == Language::JavaScript,
        e == "jsx"@ ==> language_of_extension(e) == Language::JavaScript,
        e == "ts"@ ==> language_of_extension(e) == Language::TypeScript,
        e == "tsx"@ ==> language_of_extension(e) == Language::TypeScript,
        e == "go"@ ==> language_of_extension(e) == Language::Go,
        e == "java"@ ==> language_of_extension(e) == Language::Java,
        e == "dart"@ ==> language_of_extension(e) == Language::Dart,
        !(e == "rs"@ || e == "py"@ || e == "js"@ || e == "jsx"@ || e == "ts"@ || e == "tsx"@ || e == "go"@ || e == "java"@ || e == "dart"@) ==> language_of_extension(e) == Language::Unknown,
{
    reveal_strlit("rs");
    reveal_strlit("py");
    reveal_strlit("js");
    reveal_strlit("jsx");
    reveal_strlit("ts");
    reveal_strlit("tsx");
    reveal_strlit("go");
    reveal_strlit("java");
    reveal_strlit("dart");
    assert("py"@[0] != "rs"@[0]);
    assert("js"@[0] != "rs"@[0]);
    assert("js"@[0] != "py"@[0]);
    assert("jsx"@.len() != "rs"@.len());
    assert("jsx"@.len() != "py"@.len());
    assert("jsx"@.len() != "js"@.len());
    assert("ts"@[0] != "rs"@[0]);
    assert("ts"@[0] != "py"@[0]);
    assert("ts"@[0] != "js"@[0]);
    assert("ts"@.len() != "jsx"@.len());
    assert("tsx"@.len() != "rs"@.len());
    assert("tsx"@.len() != "py"@.len());
    assert("tsx"@.len() != "js"@.len());
    assert("tsx"@[0] != "jsx"@[0]);
    assert("tsx"@.len() != "ts"@.len());
    assert("go"@[0] != "rs"@[0]);
    assert("go"@[0] != "py"@[0]);
    assert("go"@[0] != "js"@[0]);
    assert("go"@.len() != "jsx"@.len());
    assert("go"@[0] != "ts"@[0]);
    assert("go"@.len() != "tsx"@.len());
    assert("java"@.len() != "rs"@.len());
    assert("java"@.len() != "py"@.len());
    assert("java"@.len() != "js"@.len());
    assert("java"@.len() != "jsx"@.len());
    assert("java"@.len() != "ts"@.len());
    assert("java"@.len() != "tsx"@.len());
    assert("java"@.len() != "go"@.len());
    assert("dart"@.len() != "rs"@.len());
    assert("dart"@.len() != "py"@.len());
    assert("dart"@.len() != "js"@.len());
    assert("dart"@.len() != "jsx"@.len());
    assert("dart"@.len() != "ts"@.len());
    assert("dart"@.len() != "tsx"@.len());
    assert("dart"@.len() != "go"@.len());
    assert("dart"@[0] != "java"@[0]);
}

/// Every extension with a known language is a code extension.
pub proof fn lemma_known_languages_are_code(e: Seq<char>)
    ensures
        language_of_extension(e) != Language::Unknown ==> code_extension(e),
{
}

/// A path component that marks a hidden, dependency or build directory.
pub open spec fn ignored_component(c: Seq<char>) -> bool {
    (starts_with_seq(c, "."@) && c != "."@) || c == "node_modules"@ || c == "target"@
}

/// Whether the lower-cased path passes through an ignored directory.
pub fn is_in_ignored_dir(lower_path: &str) -> (r: bool)
    ensures
        r == in_ignored_dir(lower_path@),
        r <==> (contains_seq(lower_path@, "/node_modules/"@)
            || contains_seq(lower_path@, "\\node_modules\\"@)
            || contains_seq(lower_path@, "/target/"@)
            || contains_seq(lower_path@, "\\target\\"@)
            || contains_seq(lower_path@, "/build/"@)
            || contains_seq(lower_path@, "\\build\\"@)
            || contains_seq(lower_path@, "/.dart_tool/"@)
            || contains_seq(lower_path@, "\\.dart_tool\\"@)
            || contains_seq(lower_path@, "/dist/"@)
            || contains_seq(lower_path@, "\\dist\\"@)
            || contains_seq(lower_path@, "/out/"@)
            || contains_seq(lower_path@, "\\out\\"@)),
{
    contains(lower_path, "/node_modules/") || contains(lower_path, "\\node_modules\\")
        || contains(lower_path, "/target/") || contains(lower_path, "\\target\\")
        || contains(lower_path, "/build/") || contains(lower_path, "\\build\\")
        || contains(lower_path, "/.dart_tool/") || contains(lower_path, "\\.dart_tool\\")
        || contains(lower_path, "/dist/") || contains(lower_path, "\\dist\\")
        || contains(lower_path, "/out/") || contains(lower_path, "\\out\\")
}

/// Whether a lower-cased file name is never indexed.
pub fn is_ignored_name(name: &str) -> (r: bool)
    ensures
        r == ignored_name(name@),
        r <==> ((starts_with_seq(name@, "."@) && name@ != "."@)
            || name@ == "package-lock.json"@
            || name@ == "yarn.lock"@
            || name@ == "pnpm-lock.yaml"@
            || name@ == "composer.lock"@
            || name@ == "cargo.lock"@
            || name@ == "pubspec.lock"@
            || name@ == "gemfile.lock"@
            || name@ == "poetry.lock"@
            || ends_with_seq(name@, ".g.dart"@)
            || ends_with_seq(name@, ".freezed.dart"@)
            || ends_with_seq(name@, ".gr.dart"@)
            || ends_with_seq(name@, ".config.dart"@)
            || ends_with_seq(name@, ".mocks.dart"@)
            || ends_with_seq(name@, ".arb"@)
            || ends_with_seq(name@, ".min.js"@)
            || ends_with_seq(name@, ".min.css"@)
            || ends_with_seq(name@, ".bundle.js"@)),
{
    let n = chars_of(name);
    if starts_with(&n, ".") && !str_eq(name, ".") {
        return true;
    }
    if str_eq(name, "package-lock.json") || str_eq(name, "yarn.lock") || str_eq(
        name,
        "pnpm-lock.yaml",
    ) || str_eq(name, "composer.lock") || str_eq(name, "cargo.lock") || str_eq(
        name,
        "pubspec.lock",
    ) || str_eq(name, "gemfile.lock") || str_eq(name, "poetry.lock") {
        return true;
    }
    ends_with(&n, ".g.dart") || ends_with(&n, ".freezed.dart") || ends_with(&n, ".gr.dart")
        || ends_with(&n, ".config.dart") || ends_with(&n, ".mocks.dart") || ends_with(&n, ".arb")
        || ends_with(&n, ".min.js") || ends_with(&n, ".min.css") || ends_with(&n, ".bundle.js")
}

/// Whether a file is skipped by the indexer: its lower-cased path passes
/// through a dependency or build directory, or its lower-cased file name is
/// hidden, a lock file, or generated.
pub fn is_ignored_file(path: &str) -> (r: bool)
    ensures
        in_ignored_dir(unicode_lowercase(path@)) ==> r,
        plain_path(path@) ==> r == (in_ignored_dir(unicode_lowercase(path@)) || ignored_name(
            match file_name_of(path@) {
                Some(n) => unicode_lowercase(n),
                None => seq![],
            },
        )),
{
    let lower = to_lowercase(path);
    if is_in_ignored_dir(lower.as_str()) {
        return true;
    }
    let name = match path_file_name(path) {
        Some(n) => to_lowercase(n.as_str()),
        None => String::new(),
    };
    is_ignored_name(name.as_str())
}

/// Whether an extension (any case) belongs to a source file worth indexing.
pub fn is_code_extension(ext: &str) -> (r: bool)
    ensures
        r == code_extension(unicode_lowercase(ext@)),
        r <==> (unicode_lowercase(ext@) == "rs"@
            || unicode_lowercase(ext@) == "py"@
            || unicode_lowercase(ext@) == "js"@
            || unicode_lowercase(ext@) == "ts"@
            || unicode_lowercase(ext@) == "jsx"@
            || unicode_lowercase(ext@) == "tsx"@
            || unicode_lowercase(ext@) == "go"@
            || unicode_lowercase(ext@) == "java"@
            || unicode_lowercase(ext@) == "dart"@
            || unicode_lowercase(ext@) == "c"@
            || unicode_lowercase(ext@) == "cpp"@
            || unicode_lowercase(ext@) == "h"@
            || unicode_lowercase(ext@) == "hpp"@
            || unicode_lowercase(ext@) == "rb"@
            || unicode_lowercase(ext@) == "php"@
            || unicode_lowercase(ext@) == "swift"@
            || unicode_lowercase(ext@) == "kt"@
            || unicode_lowercase(ext@) == "scala"@
            || unicode_lowercase(ext@) == "sh"@
            || unicode_lowercase(ext@) == "bash"@
            || unicode_lowercase(ext@) == "zsh"@),
{
    let lower = to_lowercase(ext);
    let e = lower.as_str();
    str_eq(e, "rs") || str_eq(e, "py") || str_eq(e, "js") || str_eq(e, "ts") || str_eq(e, "jsx")
        || str_eq(e, "tsx") || str_eq(e, "go") || str_eq(e, "java") || str_eq(e, "dart")
        || str_eq(e, "c") || str_eq(e, "cpp") || str_eq(e, "h") || str_eq(e, "hpp") || str_eq(
        e,
        "rb",
    ) || str_eq(e, "php") || str_eq(e, "swift") || str_eq(e, "kt") || str_eq(e, "scala")
        || str_eq(e, "sh") || str_eq(e, "bash") || str_eq(e, "zsh")
}

/// A path holding `.` followed by something holds `.`.
proof fn lemma_dotted_piece_has_dot(path: Seq<char>, e: Seq<char>)
    requires
        contains_seq(path, seq!['.'] + e),
    ensures
        path.contains('.'),
{
    let i = choose|i: int| occurs_at(path, seq!['.'] + e, i);
    assert(path.subrange(i, i + 1 + e.len())[0] == '.');
    assert(path[i] == '.');
}

/// Some extension of the path (a piece after a `.`, without `.` or `/`)
/// satisfies `p`.
pub open spec fn some_extension_is(path: Seq<char>, p: spec_fn(Seq<char>) -> bool) -> bool {
    exists|e: Seq<char>| contains_seq(path, seq!['.'] + e) && !e.contains('.') && !e.contains('/') && #[trigger] p(e)
}

/// Whether a path names a source file worth indexing (by its extension).
/// A path without `.` never does; a path that does has an extension that
/// is a code extension.
pub fn is_code_file(path: &str) -> (r: bool)
    ensures
        r ==> some_extension_is(path@, |e: Seq<char>| code_extension(unicode_lowercase(e))),
        !path@.contains('.') ==> !r,
        plain_path(path@) ==> r == (extension_of_path(path@) matches Some(e) && code_extension(unicode_lowercase(e))),
{
    match path_extension(path) {
        Some(e) => {
            proof {
                lemma_dotted_piece_has_dot(path@, e@);
                let f = |x: Seq<char>| code_extension(unicode_lowercase(x));
                assert(f(e@) == code_extension(unicode_lowercase(e@)));
            }
            is_code_extension(e.as_str())
        },
        None => false,
    }
}

/// The language of an extension (any case).
pub fn extension_language(ext: &str) -> (r: Language)
    ensures
        r == language_of_extension(unicode_lowercase(ext@)),
        unicode_lowercase(ext@) == "rs"@ ==> r == Language::Rust,
        unicode_lowercase(ext@) == "py"@ ==> r == Language::Python,
        unicode_lowercase(ext@) == "js"@ ==> r == Language::JavaScript,
        unicode_lowercase(ext@) == "jsx"@ ==> r == Language::JavaScript,
        unicode_lowercase(ext@) == "ts"@ ==> r == Language::TypeScript,
        unicode_lowercase(ext@) == "tsx"@ ==> r == Language::TypeScript,
        unicode_lowercase(ext@) == "go"@ ==> r == Language::Go,
        unicode_lowercase(ext@) == "java"@ ==> r == Language::Java,
        unicode_lowercase(ext@) == "dart"@ ==> r == Language::Dart,
        !(unicode_lowercase(ext@) == "rs"@ || unicode_lowercase(ext@) == "py"@ || unicode_lowercase(ext@) == "js"@ || unicode_lowercase(ext@) == "jsx"@ || unicode_lowercase(ext@) == "ts"@ || unicode_lowercase(ext@) == "tsx"@ || unicode_lowercase(ext@) == "go"@ || unicode_lowercase(ext@) == "java"@ || unicode_lowercase(ext@) == "dart"@) ==> r == Language::Unknown,
{
    proof {
        lemma_extension_languages(unicode_lowercase(ext@));
    }
    let lower = to_lowercase(ext);
    let e = lower.as_str();
    if str_eq(e, "rs") {
        Language::Rust
    } else if str_eq(e, "py") {
        Language::Python
    } else if str_eq(e, "js") || str_eq(e, "jsx") {
        Language::JavaScript
    } else if str_eq(e, "ts") || str_eq(e, "tsx") {
        Language::TypeScript
    } else if str_eq(e, "go") {
        Language::Go
    } else if str_eq(e, "java") {
        Language::Java
    } else if str_eq(e, "dart") {
        Language::Dart
    } else {
        Language::Unknown
    }
}

/// `lang` is the language of the file at `path`, by its extension: for a
/// plain path, the language of its file name's extension (any case),
/// `Unknown` without one; for any path, `Unknown` without a `.`, and
/// otherwise `Unknown` or the language of one of its extensions.
pub open spec fn detected_language(path: Seq<char>, lang: Language) -> bool {
    &&& lang == Language::Unknown || some_extension_is(path, |e: Seq<char>| language_of_extension(unicode_lowercase(e)) == lang)
    &&& !path.contains('.') ==> lang == Language::Unknown
    &&& plain_path(path) ==> lang == match extension_of_path(path) {
        Some(e) => language_of_extension(unicode_lowercase(e)),
        None => Language::Unknown,
    }
}

/// The language of a file, by its extension; `Unknown` without one.
pub fn detect_language(path: &str) -> (r: Language)
    ensures
        detected_language(path@, r),
{
    match path_extension(path) {
        Some(e) => {
            let r = extension_language(e.as_str());
            proof {
                lemma_dotted_piece_has_dot(path@, e@);
                let f = |x: Seq<char>| language_of_extension(unicode_lowercase(x)) == r;
                assert(f(e@));
            }
            r
        },
        None => Language::Unknown,
    }
}

/// Whether a path component marks a hidden, dependency or build directory.
pub fn is_ignored_component(c: &str) -> (r: bool)
    ensures
        r == ignored_component(c@),
{
    let cs = chars_of(c);
    (starts_with(&cs, ".") && !str_eq(c, ".")) || str_eq(c, "node_modules") || str_eq(c, "target")
}

/// Whether any of the given components is ignored.
pub fn any_ignored_component(cs: &[String]) -> (r: bool)
    ensures
        r == exists|i: int| 0 <= i < cs@.len() && ignored_component(#[trigger] cs@[i]@),
{
    let mut i: usize = 0;
    while i < cs.len()
        invariant
            i <= cs@.len(),
            forall|j: int| 0 <= j < i ==> !ignored_component(#[trigger] cs@[j]@),
        decreases cs.len() - i,
    {
        if is_ignored_component(cs[i].as_str()) {
            return true;
        }
        i = i + 1;
    }
    false
}

/// Whether a changed path lies under a hidden, dependency or build
/// directory (file-watcher filter).
///
/// For a plain path: whether one of the pieces between its `/` characters
/// is hidden (starts with `.` but is not `.`), `node_modules` or `target`.
pub fn is_ignored_path(path: &str) -> (r: bool)
    ensures
        plain_path(path@) ==> r == exists|s: Seq<char>| #[trigger] slash_segments(path@).contains(s) && ignored_component(s),
{
    let cs = path_components(path);
    let r = any_ignored_component(cs.as_slice());
    proof {
        if plain_path(path@) {
            let t = cs@.map_values(|c: String| c@);
            if r {
                let i = choose|i: int| 0 <= i < cs@.len() && ignored_component(#[trigger] cs@[i]@);
                let s = cs@[i]@;
                assert(t[i] == s);
                assert(t.contains(s));
                assert(ignored_component(s));
                assert(slash_segments(path@).contains(s));
            } else {
                assert forall|s: Seq<char>| #[trigger] slash_segments(path@).contains(s) implies !ignored_component(s) by {
                    if ignored_component(s) {
                        assert(t.contains(s));
                        let i = choose|i: int| 0 <= i < t.len() && t[i] == s;
                        assert(cs@[i]@ == s);
                    }
                }
            }
        }
    }
    r
}

/// The project id of a project directory: its final path component, or
/// `unknown` when it has none.
pub fn project_id_for(path: &str) -> (r: String)
    ensures
        r@ == "unknown"@ || (r@.len() > 0 && contains_seq(path@, r@) && !r@.contains('/')),
        plain_path(path@) ==> r@ == match file_name_of(path@) {
            Some(n) => n,
            None => "unknown"@,
        },
{
    match path_file_name(path) {
        Some(n) => n,
        None => String::from_str("unknown"),
    }
}

} // verus!
