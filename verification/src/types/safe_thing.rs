//! Deterministic record identifiers for code symbols.
//!
//! A symbol's id is the std `DefaultHasher` digest of (project, file, name,
//! line), written as sixteen lower-case hexadecimal digits: the same input
//! always gives the same id, and the id is safe to use as a record key
//! whatever characters the symbol name holds.

use vstd::prelude::*;
use crate::numfmt::{hex16, hex_fixed, is_lower_hex_char, lemma_hex_fixed_shape};
use super::record::{RecordId, Thing};

verus! {

/// The `u64` that std's `DefaultHasher` (SipHash with its fixed keys) produces
/// for the tuple `(project_id, file_path, name, line)`.  It is fixed for one
/// build of the program; std leaves the algorithm open across releases, and
/// hashing the `u32` line writes its bytes in the machine's byte order, so
/// symbol ids are not portable across toolchains or byte orders.
pub uninterp spec fn default_hash_of_symbol(
    project_id: Seq<char>,
    file_path: Seq<char>,
    name: Seq<char>,
    line: u32,
) -> u64;

/// Hashes `(project_id, file_path, name, line)` with a fresh `DefaultHasher`
/// (std's `BuildHasher::hash_one`).  The digest is only named here; SipHash is
/// not restated.
#[verifier::external_body]
fn default_hash(project_id: &str, file_path: &str, name: &str, line: u32) -> (h: u64)
    ensures
        h == default_hash_of_symbol(project_id@, file_path@, name@, line),
{
    std::hash::BuildHasher::hash_one(
        &std::hash::BuildHasherDefault::<std::collections::hash_map::DefaultHasher>::default(),
        (project_id, file_path, name, line),
    )
}

/// The id text of a symbol: its hash as sixteen hexadecimal digits.
pub open spec fn symbol_hash_text(
    project_id: Seq<char>,
    file_path: Seq<char>,
    name: Seq<char>,
    line: u32,
) -> Seq<char> {
    hex_fixed(default_hash_of_symbol(project_id, file_path, name, line) as nat, 16)
}

/// The hash of a symbol as sixteen lower-case hexadecimal digits.
pub fn symbol_hash(project_id: &str, file_path: &str, name: &str, line: u32) -> (r: String)
    ensures
        r@ == symbol_hash_text(project_id@, file_path@, name@, line),
        r@.len() == 16,
        forall|i: int| 0 <= i < 16 ==> is_lower_hex_char(#[trigger] r@[i]),
{
    let h = default_hash(project_id, file_path, name, line);
    proof {
        lemma_hex_fixed_shape(h as nat, 16);
    }
    hex16(h)
}

/// The `code_symbols` record of a symbol, keyed by `symbol_hash`.
pub fn symbol_thing(project_id: &str, file_path: &str, name: &str, line: u32) -> (r: Thing)
    ensures
        r.table@ == "code_symbols"@,
        r.key is String,
        r.key->String_0@ == symbol_hash_text(project_id@, file_path@, name@, line),
{
    let safe_id = symbol_hash(project_id, file_path, name, line);
    RecordId::new(String::from_str("code_symbols"), safe_id)
}

/// The record a symbol relation points at: the same as `symbol_thing`.
pub fn symbol_relation_thing(project_id: &str, file_path: &str, name: &str, line: u32) -> (r: Thing)
    ensures
        r.table@ == "code_symbols"@,
        r.key is String,
        r.key->String_0@ == symbol_hash_text(project_id@, file_path@, name@, line),
{
    symbol_thing(project_id, file_path, name, line)
}

/// The record of the symbol that contains a reference: the same as
/// `symbol_thing` for that symbol.
pub fn reference_thing(project_id: &str, file_path: &str, from_symbol: &str, from_line: u32) -> (r: Thing)
    ensures
        r.table@ == "code_symbols"@,
        r.key is String,
        r.key->String_0@ == symbol_hash_text(project_id@, file_path@, from_symbol@, from_line),
{
    symbol_thing(project_id, file_path, from_symbol, from_line)
}

/// The same symbol coordinates always give the same record.
pub proof fn lemma_symbol_thing_deterministic(
    p1: Seq<char>, f1: Seq<char>, n1: Seq<char>, l1: u32,
    p2: Seq<char>, f2: Seq<char>, n2: Seq<char>, l2: u32,
)
    requires
        p1 == p2,
        f1 == f2,
        n1 == n2,
        l1 == l2,
    ensures
        symbol_hash_text(p1, f1, n1, l1) == symbol_hash_text(p2, f2, n2, l2),
{
}

} // verus!
