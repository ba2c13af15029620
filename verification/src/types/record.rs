//! Record identifiers of the form `table:key`, as the database addresses rows.

use vstd::prelude::*;
use crate::numfmt::{decimal, push_decimal};
use crate::text::string_of;

verus! {

/// The key part of a record identifier.
#[derive(Clone, Debug, PartialEq, Eq, Hash)]
pub enum RecordIdKey {
    /// A textual key (every key this service creates is one).
    String(String),
    /// A numeric key.
    Number(i64),
}

/// A record identifier: a table name and a key.
#[derive(Clone, Debug, PartialEq, Eq, Hash)]
pub struct RecordId {
    pub table: String,
    pub key: RecordIdKey,
}

/// The identifier type used throughout the service.
pub type Thing = RecordId;

impl RecordId {
    /// Builds the identifier `table:key` with a textual key.
    pub fn new(table: String, key: String) -> (r: RecordId)
        ensures
            r.table@ == table@,
            r.key is String,
            r.key->String_0@ == key@,
    {
        RecordId { table, key: RecordIdKey::String(key) }
    }
}

/// The signed decimal text of an integer (`-` before the magnitude when negative).
pub open spec fn signed_decimal(n: int) -> Seq<char> {
    if n < 0 {
        seq!['-'] + decimal((-n) as nat)
    } else {
        decimal(n as nat)
    }
}

/// The text that `record_key_to_string` gives for a key.
pub open spec fn key_text(key: RecordIdKey) -> Seq<char> {
    match key {
        RecordIdKey::String(s) => s@,
        RecordIdKey::Number(n) => "Number("@ + signed_decimal(n as int) + ")"@,
    }
}

/// Renders a record key as text: a textual key as itself, any other key in
/// its debug form.
pub fn record_key_to_string(key: &RecordIdKey) -> (r: String)
    ensures
        r@ == key_text(*key),
{
    match key {
        RecordIdKey::String(s) => s.clone(),
        RecordIdKey::Number(n) => {
            let mut digits: Vec<char> = Vec::new();
            let ghost neg = *n < 0;
            if *n < 0 {
                digits.push('-');
                let mag: u64 = ((-(*n + 1)) as u64) + 1;
                assert(mag as int == -(*n as int));
                push_decimal(mag, &mut digits);
            } else {
                push_decimal(*n as u64, &mut digits);
            }
            assert(digits@ =~= signed_decimal(*n as int));
            let mut out = String::from_str("Number(");
            let d = string_of(digits.as_slice());
            out.append(d.as_str());
            out.append(")");
            out
        }
    }
}

} // verus!
