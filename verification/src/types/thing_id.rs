//! Validated record identifiers (`table:id`).
//!
//! A `ThingId` can only be built from a table name made of ASCII letters,
//! digits and underscores (not starting with a digit) and an id made of
//! ASCII letters, digits, underscores and hyphens, so that it can be spliced
//! into a query without changing its meaning.

use vstd::prelude::*;
use crate::text::{chars_of, string_of};
use super::record::RecordId;

verus! {

/// An ASCII letter.
pub open spec fn is_ascii_alpha(c: char) -> bool {
    ('a' <= c && c <= 'z') || ('A' <= c && c <= 'Z')
}

/// An ASCII letter or digit.
pub open spec fn is_ascii_alnum(c: char) -> bool {
    is_ascii_alpha(c) || ('0' <= c && c <= '9')
}

/// A table name: non-empty, starts with a letter or `_`, then letters, digits or `_`.
pub open spec fn valid_table_name(s: Seq<char>) -> bool {
    &&& s.len() > 0
    &&& (is_ascii_alpha(s[0]) || s[0] == '_')
    &&& forall|i: int| 1 <= i < s.len() ==> is_ascii_alnum(#[trigger] s[i]) || s[i] == '_'
}

/// A record id: non-empty, made of letters, digits, `_` and `-`.
pub open spec fn valid_id(s: Seq<char>) -> bool {
    &&& s.len() > 0
    &&& forall|i: int| 0 <= i < s.len() ==> is_ascii_alnum(#[trigger] s[i]) || s[i] == '_' || s[i]
        == '-'
}

/// Why a `ThingId` could not be built.
#[derive(Clone, Copy, Debug, PartialEq, Eq, Structural)]
pub enum ThingIdErrorKind {
    EmptyTable,
    EmptyId,
    InvalidTable,
    InvalidId,
    InvalidFormat,
}

/// A refused identifier: the reason and the offending text.
#[derive(Clone, Debug, PartialEq, Eq)]
pub struct ThingIdError {
    pub kind: ThingIdErrorKind,
    pub subject: String,
}

/// The check that `ThingId::new` fails first, if any, and the text it reports.
pub open spec fn new_error(table: Seq<char>, id: Seq<char>) -> Option<(ThingIdErrorKind, Seq<char>)> {
    if table.len() == 0 {
        Some((ThingIdErrorKind::EmptyTable, seq![]))
    } else if id.len() == 0 {
        Some((ThingIdErrorKind::EmptyId, seq![]))
    } else if !valid_table_name(table) {
        Some((ThingIdErrorKind::InvalidTable, table))
    } else if !valid_id(id) {
        Some((ThingIdErrorKind::InvalidId, id))
    } else {
        None
    }
}

/// Splits `s` at its first `:`, if it has one.
pub open spec fn split_first_colon(s: Seq<char>) -> Option<(Seq<char>, Seq<char>)> {
    if exists|i: int| 0 <= i < s.len() && s[i] == ':' {
        let i = choose|i: int|
            0 <= i < s.len() && s[i] == ':' && forall|j: int| 0 <= j < i ==> s[j] != ':';
        Some((s.subrange(0, i), s.subrange(i + 1, s.len() as int)))
    } else {
        None
    }
}

/// The parts that `ThingId::parse` accepts `s` as, when it accepts it.
pub open spec fn parse_parts(s: Seq<char>) -> Option<(Seq<char>, Seq<char>)> {
    match split_first_colon(s) {
        Some((t, i)) => if new_error(t, i) is None {
            Some((t, i))
        } else {
            None
        },
        None => None,
    }
}

impl ThingIdError {
    fn with(kind: ThingIdErrorKind, subject: String) -> (e: ThingIdError)
        ensures
            e.kind == kind,
            e.subject@ == subject@,
    {
        ThingIdError { kind, subject }
    }

    /// The human-readable description of the refusal.
    pub fn message(&self) -> (m: String)
        ensures
            m@ == match self.kind {
                ThingIdErrorKind::EmptyTable => "Table name cannot be empty"@,
                ThingIdErrorKind::EmptyId => "ID cannot be empty"@,
                ThingIdErrorKind::InvalidTable => "Invalid table name '"@ + self.subject@
                    + "': must contain only alphanumeric characters and underscores"@,
                ThingIdErrorKind::InvalidId => "Invalid ID '"@ + self.subject@
                    + "': must contain only alphanumeric characters, underscores, and hyphens"@,
                ThingIdErrorKind::InvalidFormat => "Invalid Thing format '"@ + self.subject@
                    + "': expected 'table:id'"@,
            },
    {
        match self.kind {
            ThingIdErrorKind::EmptyTable => String::from_str("Table name cannot be empty"),
            ThingIdErrorKind::EmptyId => String::from_str("ID cannot be empty"),
            ThingIdErrorKind::InvalidTable => {
                let mut m = String::from_str("Invalid table name '");
                m.append(self.subject.as_str());
                m.append("': must contain only alphanumeric characters and underscores");
                m
            },
            ThingIdErrorKind::InvalidId => {
                let mut m = String::from_str("Invalid ID '");
                m.append(self.subject.as_str());
                m.append("': must contain only alphanumeric characters, underscores, and hyphens");
                m
            },
            ThingIdErrorKind::InvalidFormat => {
                let mut m = String::from_str("Invalid Thing format '");
                m.append(self.subject.as_str());
                m.append("': expected 'table:id'");
                m
            },
        }
    }
}

/// A validated record identifier `table:id`.
#[derive(Debug, PartialEq, Eq, Hash)]
pub struct ThingId {
    full: String,
    table: String,
    id: String,
}

impl Clone for ThingId {
    fn clone(&self) -> (r: Self)
        ensures
            r@ == self@,
            r.table_part() == self.table_part(),
            r.id_part() == self.id_part(),
    {
        proof {
            use_type_invariant(self);
        }
        ThingId { full: self.full.clone(), table: self.table.clone(), id: self.id.clone() }
    }
}

impl View for ThingId {
    type V = Seq<char>;

    closed spec fn view(&self) -> Seq<char> {
        self.full@
    }
}

impl ThingId {
    #[verifier::type_invariant]
    closed spec fn inv(self) -> bool {
        &&& self.full@ == self.table@ + seq![':'] + self.id@
        &&& valid_table_name(self.table@)
        &&& valid_id(self.id@)
    }

    /// The table part.
    pub closed spec fn table_part(self) -> Seq<char> {
        self.table@
    }

    /// The id part.
    pub closed spec fn id_part(self) -> Seq<char> {
        self.id@
    }

    /// Builds `table:id` after checking both parts.
    ///
    /// Fails with the first broken rule, in this order: empty table, empty
    /// id, invalid table name, invalid id.
    pub fn new(table: &str, id: &str) -> (r: Result<ThingId, ThingIdError>)
        ensures
            match r {
                Ok(t) => new_error(table@, id@) is None && t.table_part() == table@ && t.id_part()
                    == id@ && t@ == table@ + seq![':'] + id@,
                Err(e) => new_error(table@, id@) == Some((e.kind, e.subject@)),
            },
    {
        let tc = chars_of(table);
        let ic = chars_of(id);
        if tc.len() == 0 {
            return Err(ThingIdError::with(ThingIdErrorKind::EmptyTable, String::new()));
        }
        if ic.len() == 0 {
            return Err(ThingIdError::with(ThingIdErrorKind::EmptyId, String::new()));
        }
        if !Self::is_valid_table_name(&tc) {
            return Err(ThingIdError::with(ThingIdErrorKind::InvalidTable, String::from_str(table)));
        }
        if !Self::is_valid_id(&ic) {
            return Err(ThingIdError::with(ThingIdErrorKind::InvalidId, String::from_str(id)));
        }
        let mut full = String::from_str(table);
        full.append(":");
        full.append(id);
        proof {
            reveal_strlit(":");
            assert(":"@ =~= seq![':']);
        }
        Ok(ThingId { full, table: String::from_str(table), id: String::from_str(id) })
    }

    /// Accepts a `table:id` string: it must hold a `:`, and the text before
    /// the first `:` and the text after it must pass `new`.
    pub fn parse(thing_str: &str) -> (r: Result<ThingId, ThingIdError>)
        ensures
            match r {
                Ok(t) => parse_parts(thing_str@) == Some((t.table_part(), t.id_part())) && t@
                    == thing_str@,
                Err(e) => match split_first_colon(thing_str@) {
                    None => e.kind == ThingIdErrorKind::InvalidFormat && e.subject@
                        == thing_str@,
                    Some((t, i)) => new_error(t, i) == Some((e.kind, e.subject@)),
                },
            },
    {
        let cs = chars_of(thing_str);
        let mut k: usize = 0;
        while k < cs.len() && cs[k] != ':'
            invariant
                k <= cs@.len(),
                cs@ == thing_str@,
                forall|j: int| 0 <= j < k ==> cs@[j] != ':',
            decreases cs.len() - k,
        {
            k = k + 1;
        }
        if k == cs.len() {
            assert(!(exists|i: int| 0 <= i < cs@.len() && cs@[i] == ':'));
            return Err(ThingIdError::with(ThingIdErrorKind::InvalidFormat, String::from_str(thing_str)));
        }
        proof {
            let s = thing_str@;
            assert(0 <= k < s.len() && s[k as int] == ':');
            let i = choose|i: int|
                0 <= i < s.len() && s[i] == ':' && forall|j: int| 0 <= j < i ==> s[j] != ':';
            assert(i == k as int) by {
                if i < k {
                } else if i > k {
                }
            }
        }
        let t = thing_str.substring_char(0, k);
        let i = thing_str.substring_char(k + 1, cs.len());
        let r = Self::new(t, i);
        proof {
            assert(thing_str@ =~= t@ + seq![':'] + i@);
        }
        r
    }

    /// The whole `table:id` text.
    pub fn as_str(&self) -> (r: &str)
        ensures
            r@ == self@,
            self@ == self.table_part() + seq![':'] + self.id_part(),
    {
        proof {
            use_type_invariant(self);
        }
        self.full.as_str()
    }

    /// The table part.
    pub fn table(&self) -> (r: &str)
        ensures
            r@ == self.table_part(),
            valid_table_name(r@),
    {
        proof {
            use_type_invariant(self);
        }
        self.table.as_str()
    }

    /// The id part.
    pub fn id(&self) -> (r: &str)
        ensures
            r@ == self.id_part(),
            valid_id(r@),
    {
        proof {
            use_type_invariant(self);
        }
        self.id.as_str()
    }

    /// The `table:id` text, as `Display` renders it.
    pub fn to_string(&self) -> (r: String)
        ensures
            r@ == self@,
    {
        self.full.clone()
    }

    /// Checks a table name character by character.
    fn is_valid_table_name(s: &Vec<char>) -> (r: bool)
        ensures
            r == valid_table_name(s@),
    {
        if s.len() == 0 {
            return false;
        }
        let first = s[0];
        if !(('a' <= first && first <= 'z') || ('A' <= first && first <= 'Z') || first == '_') {
            return false;
        }
        let mut i: usize = 1;
        while i < s.len()
            invariant
                1 <= i <= s@.len(),
                forall|j: int| 1 <= j < i ==> is_ascii_alnum(#[trigger] s@[j]) || s@[j] == '_',
            decreases s.len() - i,
        {
            let c = s[i];
            if !(('a' <= c && c <= 'z') || ('A' <= c && c <= 'Z') || ('0' <= c && c <= '9')
                || c == '_') {
                return false;
            }
            i = i + 1;
        }
        true
    }

    /// Checks a record id character by character.
    fn is_valid_id(s: &Vec<char>) -> (r: bool)
        ensures
            r == valid_id(s@),
    {
        if s.len() == 0 {
            return false;
        }
        let mut i: usize = 0;
        while i < s.len()
            invariant
                i <= s@.len(),
                forall|j: int| 0 <= j < i ==> is_ascii_alnum(#[trigger] s@[j]) || s@[j] == '_'
                    || s@[j] == '-',
            decreases s.len() - i,
        {
            let c = s[i];
            if !(('a' <= c && c <= 'z') || ('A' <= c && c <= 'Z') || ('0' <= c && c <= '9')
                || c == '_' || c == '-') {
                return false;
            }
            i = i + 1;
        }
        true
    }

    /// The record identifier this id denotes, for query binding.
    pub fn to_thing(&self) -> (r: RecordId)
        ensures
            r.table@ == self.table_part(),
            r.key is String,
            r.key->String_0@ == self.id_part(),
    {
        RecordId::new(self.table.clone(), self.id.clone())
    }
}

/// Converts ids of one table into record identifiers, failing on the first
/// table/id pair that `ThingId::new` refuses.
pub fn things_from_ids(table: &str, ids: &[String]) -> (r: Result<Vec<RecordId>, ThingIdError>)
    ensures
        match r {
            Ok(v) => {
                &&& v@.len() == ids@.len()
                &&& forall|k: int|
                    0 <= k < ids@.len() ==> new_error(table@, #[trigger] ids@[k]@) is None
                &&& forall|k: int|
                    0 <= k < ids@.len() ==> (#[trigger] v@[k]).table@ == table@ && v@[k].key is String
                        && v@[k].key->String_0@ == ids@[k]@
            },
            Err(e) => exists|k: int|
                0 <= k < ids@.len() && new_error(table@, #[trigger] ids@[k]@) == Some(
                    (e.kind, e.subject@),
                ) && forall|j: int| 0 <= j < k ==> new_error(table@, #[trigger] ids@[j]@) is None,
        },
{
    let mut out: Vec<RecordId> = Vec::new();
    let mut k: usize = 0;
    while k < ids.len()
        invariant
            k <= ids@.len(),
            out@.len() == k,
            forall|j: int| 0 <= j < k ==> new_error(table@, #[trigger] ids@[j]@) is None,
            forall|j: int|
                0 <= j < k ==> (#[trigger] out@[j]).table@ == table@ && out@[j].key is String
                    && out@[j].key->String_0@ == ids@[j]@,
        decreases ids.len() - k,
    {
        match ThingId::new(table, ids[k].as_str()) {
            Ok(t) => {
                out.push(t.to_thing());
            },
            Err(e) => {
                return Err(e);
            },
        }
        k = k + 1;
    }
    Ok(out)
}

/// A table name never holds `:`, so the first `:` of `table:id` is the
/// separator, and `parse` gives back exactly the parts that `new` joined.
pub proof fn lemma_parse_inverts_new(table: Seq<char>, id: Seq<char>)
    requires
        new_error(table, id) is None,
    ensures
        parse_parts(table + seq![':'] + id) == Some((table, id)),
{
    let s = table + seq![':'] + id;
    let k = table.len() as int;
    assert(s[k] == ':');
    assert forall|j: int| 0 <= j < k implies s[j] != ':' by {
        assert(s[j] == table[j]);
        if j == 0 {
        } else {
            assert(is_ascii_alnum(table[j]) || table[j] == '_');
        }
    }
    let i = choose|i: int| 0 <= i < s.len() && s[i] == ':' && forall|j: int| 0 <= j < i ==> s[j] != ':';
    assert(i == k) by {
        if i < k {
            assert(s[i] == table[i]);
            if i == 0 {
            } else {
                assert(is_ascii_alnum(table[i]) || table[i] == '_');
            }
        } else if i > k {
            assert(s[k] == ':');
        }
    }
    assert(s.subrange(0, k) =~= table);
    assert(s.subrange(k + 1, s.len() as int) =~= id);
}

} // verus!
