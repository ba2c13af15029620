//! Record identifiers as the storage layer reads and writes them.

use vstd::prelude::*;
use crate::digest::{blake3_digest, blake3_hash};
use crate::numfmt::{hex_bytes, hex_of_bytes};
use crate::text::{chars_of, is_whitespace, occurs_at, occurs_at_exec, string_of, unicode_whitespace};
use crate::types::record::key_text;
use crate::types::thing_id::{new_error, split_first_colon};
use crate::types::{record_key_to_string, Direction, RecordId, SymbolRelation, Thing, ThingId, ThingIdError};
use vstd::utf8::encode_utf8;

verus! {

/// The table symbols are stored in.
pub const SYMBOL_TABLE: &'static str = "code_symbols";

/// Splits at the first `:`, as `str::split_once(':')` does.
pub fn split_at_first_colon(s: &str) -> (r: Option<(String, String)>)
    ensures
        match r {
            Some((t, k)) => split_first_colon(s@) == Some((t@, k@)),
            None => split_first_colon(s@) is None,
        },
{
    let cs = chars_of(s);
    let mut k: usize = 0;
    while k < cs.len() && cs[k] != ':'
        invariant
            k <= cs@.len(),
            cs@ == s@,
            forall|j: int| 0 <= j < k ==> cs@[j] != ':',
        decreases cs.len() - k,
    {
        k = k + 1;
    }
    if k == cs.len() {
        assert(!(exists|i: int| 0 <= i < cs@.len() && cs@[i] == ':'));
        return None;
    }
    proof {
        let t = s@;
        assert(0 <= k < t.len() && t[k as int] == ':');
        let i = choose|i: int| 0 <= i < t.len() && t[i] == ':' && forall|j: int| 0 <= j < i ==> t[j] != ':';
        assert(i == k as int) by {
            if i < k {
            } else if i > k {
            }
        }
    }
    let table = string_of(&cs.as_slice()[0..k]);
    let key = string_of(&cs.as_slice()[k + 1..cs.len()]);
    Some((table, key))
}

/// Reads a stored `table:key` identifier; the error names the text when
/// it has no `:`.
pub fn parse_thing(id: &str) -> (r: Result<Thing, String>)
    ensures
        match r {
            Ok(t) => split_first_colon(id@) == Some((t.table@, key_text(t.key))) && t.key is String,
            Err(m) => split_first_colon(id@) is None && m@ == "Invalid thing ID format: "@ + id@,
        },
{
    match split_at_first_colon(id) {
        Some((table, key)) => Ok(RecordId::new(table, key)),
        None => {
            let mut m = String::from_str("Invalid thing ID format: ");
            m.append(id);
            Err(m)
        },
    }
}

/// The identifier a symbol id names: `code_symbols:id` for a bare id,
/// otherwise the table and key around its first `:`.  Both parts are
/// checked as `ThingId::new` checks them.
pub open spec fn symbol_id_parts(symbol_id: Seq<char>) -> (Seq<char>, Seq<char>) {
    match split_first_colon(symbol_id) {
        Some((t, k)) => (t, k),
        None => ("code_symbols"@, symbol_id),
    }
}

/// The record a symbol id refers to, validated.
pub fn symbol_thing_for(symbol_id: &str) -> (r: Result<Thing, ThingIdError>)
    ensures
        ({
            let (t, k) = symbol_id_parts(symbol_id@);
            match r {
                Ok(th) => new_error(t, k) is None && th.table@ == t && th.key is String && key_text(th.key) == k,
                Err(e) => new_error(t, k) == Some((e.kind, e.subject@)),
            }
        }),
{
    match split_at_first_colon(symbol_id) {
        Some((table, key)) => {
            let id = ThingId::new(table.as_str(), key.as_str())?;
            Ok(id.to_thing())
        },
        None => {
            proof {
                reveal_strlit("code_symbols");
            }
            let id = ThingId::new(SYMBOL_TABLE, symbol_id)?;
            Ok(id.to_thing())
        },
    }
}

/// The text `table:key` of a record identifier.
pub open spec fn thing_text(t: Thing) -> Seq<char> {
    t.table@ + seq![':'] + key_text(t.key)
}

/// Renders `table:key`.
pub fn thing_to_text(t: &Thing) -> (r: String)
    ensures
        r@ == thing_text(*t),
{
    let mut out = t.table.clone();
    proof {
        reveal_strlit(":");
    }
    out.append(":");
    let k = record_key_to_string(&t.key);
    out.append(k.as_str());
    out
}

/// The neighbour ids one relation contributes when looking from `center`
/// in `direction`: the target going out, the source coming in, and both
/// ends (other than the center itself) either way.
pub open spec fn relation_neighbours(rel: SymbolRelation, direction: Direction, center: Seq<char>) -> Seq<Seq<char>> {
    let from = thing_text(rel.from_symbol);
    let to = thing_text(rel.to_symbol);
    match direction {
        Direction::Outgoing => seq![to],
        Direction::Incoming => seq![from],
        Direction::Both => (if from != center {
            seq![from]
        } else {
            seq![]
        }) + (if to != center {
            seq![to]
        } else {
            seq![]
        }),
    }
}

/// The neighbour ids of some relations, in order.
pub open spec fn neighbours_of(rels: Seq<SymbolRelation>, direction: Direction, center: Seq<char>) -> Seq<Seq<char>>
    decreases rels.len(),
{
    if rels.len() == 0 {
        seq![]
    } else {
        neighbours_of(rels.drop_last(), direction, center) + relation_neighbours(rels.last(), direction, center)
    }
}

/// The ids of the symbols related to `center` through `relations`.
pub fn related_symbol_ids(relations: &Vec<SymbolRelation>, direction: Direction, center: &Thing) -> (r: Vec<String>)
    ensures
        r@.map_values(|s: String| s@) == neighbours_of(relations@, direction, thing_text(*center)),
{
    let center_text = thing_to_text(center);
    let mut out: Vec<String> = Vec::new();
    let mut i: usize = 0;
    proof {
        assert(relations@.take(0) =~= Seq::<SymbolRelation>::empty());
        assert(out@.map_values(|s: String| s@) =~= Seq::<Seq<char>>::empty());
    }
    while i < relations.len()
        invariant
            i <= relations@.len(),
            center_text@ == thing_text(*center),
            out@.map_values(|s: String| s@) == neighbours_of(relations@.take(i as int), direction, center_text@),
        decreases relations.len() - i,
    {
        let rel = &relations[i];
        proof {
            assert(relations@.take(i + 1).drop_last() =~= relations@.take(i as int));
            assert(relations@.take(i + 1).last() == *rel);
        }
        let ghost before = out@.map_values(|s: String| s@);
        let from = thing_to_text(&rel.from_symbol);
        let to = thing_to_text(&rel.to_symbol);
        match direction {
            Direction::Outgoing => {
                out.push(to);
            },
            Direction::Incoming => {
                out.push(from);
            },
            Direction::Both => {
                if from != center_text {
                    out.push(from);
                }
                if to != center_text {
                    out.push(to);
                }
            },
        }
        proof {
            assert(out@.map_values(|s: String| s@) =~= before + relation_neighbours(*rel, direction, center_text@));
        }
        i = i + 1;
    }
    proof {
        assert(relations@.take(i as int) =~= relations@);
    }
    out
}

/// The key part of an id: what follows its first `:`, or all of it.
pub fn id_part(sid: &str) -> (r: String)
    ensures
        r@ == match split_first_colon(sid@) {
            Some((_, k)) => k,
            None => sid@,
        },
{
    match split_at_first_colon(sid) {
        Some((_, key)) => key,
        None => String::from_str(sid),
    }
}

/// A fresh record id from a seed: the first 20 hexadecimal digits of the
/// seed's BLAKE3 digest.
pub fn id_from_seed(seed: &str) -> (r: String)
    ensures
        r@ == hex_bytes(blake3_digest(encode_utf8(seed@))).take(20),
{
    let digest = blake3_hash(seed.as_bytes());
    let hex = hex_of_bytes(digest.as_slice());
    let cs = chars_of(hex.as_str());
    proof {
        crate::numfmt::lemma_hex_bytes_len(digest@);
    }
    string_of(&cs.as_slice()[0..20])
}

/// The first occurrence of `pat` in `s` at or after `from`, if any.
pub open spec fn occurrence_from(s: Seq<char>, pat: Seq<char>, from: int) -> Option<int>
    decreases s.len() + 1 - from,
{
    if from < 0 || from > s.len() {
        None
    } else if occurs_at(s, pat, from) {
        Some(from)
    } else {
        occurrence_from(s, pat, from + 1)
    }
}

/// The first occurrence of `pat` in `s`, if any.
pub open spec fn first_occurrence(s: Seq<char>, pat: Seq<char>) -> Option<int> {
    occurrence_from(s, pat, 0)
}

/// The second piece of `s` split at `pat` (`str::split(pat).nth(1)`): what
/// lies between the first occurrence and the next one (or the end).
pub open spec fn second_piece(s: Seq<char>, pat: Seq<char>) -> Option<Seq<char>> {
    match first_occurrence(s, pat) {
        None => None,
        Some(i) => {
            let rest = s.subrange(i + pat.len(), s.len() as int);
            match first_occurrence(rest, pat) {
                Some(j) => Some(rest.take(j)),
                None => Some(rest),
            }
        },
    }
}

/// The first white-space separated word of `s`
/// (`str::split_whitespace().next()`).
pub open spec fn first_word(s: Seq<char>) -> Option<Seq<char>> {
    if exists|i: int| 0 <= i < s.len() && !unicode_whitespace(s[i]) {
        let a = choose|i: int|
            0 <= i < s.len() && !unicode_whitespace(s[i]) && forall|j: int| 0 <= j < i ==> unicode_whitespace(#[trigger] s[j]);
        let tail = s.subrange(a, s.len() as int);
        if exists|i: int| 0 <= i < tail.len() && unicode_whitespace(tail[i]) {
            let b = choose|i: int|
                0 <= i < tail.len() && unicode_whitespace(tail[i]) && forall|j: int| 0 <= j < i ==> !unicode_whitespace(#[trigger] tail[j]);
            Some(tail.take(b))
        } else {
            Some(tail)
        }
    } else {
        None
    }
}

/// The value of a string of decimal digits.
pub open spec fn digits_value(d: Seq<char>) -> nat
    decreases d.len(),
{
    if d.len() == 0 {
        0
    } else {
        digits_value(d.drop_last()) * 10 + ((d.last() as nat) - ('0' as nat)) as nat
    }
}

/// All characters are decimal digits.
pub open spec fn all_digits(d: Seq<char>) -> bool {
    forall|i: int| 0 <= i < d.len() ==> '0' <= #[trigger] d[i] <= '9'
}

/// A number's text without its optional leading `+`.
pub open spec fn unsigned_digits(w: Seq<char>) -> Seq<char> {
    if w.len() > 0 && w[0] == '+' {
        w.subrange(1, w.len() as int)
    } else {
        w
    }
}

/// What `usize::from_str` gives: an optional `+`, then at least one
/// decimal digit and nothing else, with a value that fits.
pub open spec fn parsed_usize(w: Seq<char>) -> Option<usize> {
    let d = unsigned_digits(w);
    if d.len() > 0 && all_digits(d) && digits_value(d) <= usize::MAX {
        Some(digits_value(d) as usize)
    } else {
        None
    }
}

/// The vector dimension of an index definition: the first word after
/// `DIMENSION ` read as a number.
pub open spec fn definition_dimension(def: Seq<char>) -> Option<usize> {
    match second_piece(def, "DIMENSION "@) {
        Some(p) => match first_word(p) {
            Some(w) => parsed_usize(w),
            None => None,
        },
        None => None,
    }
}

/// The first position where `pat` occurs in `s`.
fn find_first(s: &Vec<char>, pat: &Vec<char>) -> (r: Option<usize>)
    requires
        pat@.len() > 0,
    ensures
        match r {
            Some(i) => first_occurrence(s@, pat@) == Some(i as int) && i + pat@.len() <= s@.len(),
            None => first_occurrence(s@, pat@) is None,
        },
{
    let n = s.len();
    let mut i: usize = 0;
    while i <= n
        invariant
            n == s@.len(),
            pat@.len() > 0,
            i <= n + 1,
            first_occurrence(s@, pat@) == occurrence_from(s@, pat@, i as int),
        decreases n + 1 - i,
    {
        if occurs_at_exec(s, pat, i) {
            return Some(i);
        }
        if i == n {
            assert(occurrence_from(s@, pat@, i + 1) is None);
            return None;
        }
        i = i + 1;
    }
    None
}

/// The characters `from..to` of `s`.
fn slice_chars(s: &Vec<char>, from: usize, to: usize) -> (r: Vec<char>)
    requires
        from <= to <= s@.len(),
    ensures
        r@ == s@.subrange(from as int, to as int),
{
    let mut out: Vec<char> = Vec::new();
    let mut i = from;
    while i < to
        invariant
            from <= i <= to,
            to <= s@.len(),
            out@ == s@.subrange(from as int, i as int),
        decreases to - i,
    {
        out.push(s[i]);
        proof {
            assert(out@ =~= s@.subrange(from as int, i + 1));
        }
        i = i + 1;
    }
    out
}

/// The second piece of `s` split at `pat`.
fn second_piece_exec(s: &Vec<char>, pat: &Vec<char>) -> (r: Option<Vec<char>>)
    requires
        pat@.len() > 0,
    ensures
        match r {
            Some(p) => second_piece(s@, pat@) == Some(p@),
            None => second_piece(s@, pat@) is None,
        },
{
    let n = s.len();
    match find_first(s, pat) {
        None => None,
        Some(i) => {
            let rest = slice_chars(s, i + pat.len(), n);
            match find_first(&rest, pat) {
                Some(j) => {
                    let piece = slice_chars(&rest, 0, j);
                    assert(piece@ =~= rest@.take(j as int));
                    Some(piece)
                },
                None => Some(rest),
            }
        },
    }
}

/// The first white-space separated word.
fn first_word_exec(s: &Vec<char>) -> (r: Option<Vec<char>>)
    ensures
        match r {
            Some(w) => first_word(s@) == Some(w@),
            None => first_word(s@) is None,
        },
{
    let mut a: usize = 0;
    while a < s.len() && is_whitespace(s[a])
        invariant
            a <= s@.len(),
            forall|j: int| 0 <= j < a ==> unicode_whitespace(#[trigger] s@[j]),
        decreases s.len() - a,
    {
        a = a + 1;
    }
    if a == s.len() {
        assert(!(exists|i: int| 0 <= i < s@.len() && !unicode_whitespace(s@[i])));
        return None;
    }
    proof {
        let k = choose|i: int|
            0 <= i < s@.len() && !unicode_whitespace(s@[i]) && forall|j: int| 0 <= j < i ==> unicode_whitespace(#[trigger] s@[j]);
        assert(k == a as int) by {
            if k < a {
                assert(unicode_whitespace(s@[k]));
            } else if k > a {
                assert(unicode_whitespace(s@[a as int]));
            }
        }
    }
    let mut b: usize = a;
    while b < s.len() && !is_whitespace(s[b])
        invariant
            a <= b <= s@.len(),
            forall|j: int| a <= j < b ==> !unicode_whitespace(#[trigger] s@[j]),
        decreases s.len() - b,
    {
        b = b + 1;
    }
    let w = slice_chars(s, a, b);
    proof {
        let tail = s@.subrange(a as int, s@.len() as int);
        if b < s.len() {
            assert(unicode_whitespace(tail[b - a]));
            let k = choose|i: int|
                0 <= i < tail.len() && unicode_whitespace(tail[i]) && forall|j: int| 0 <= j < i ==> !unicode_whitespace(#[trigger] tail[j]);
            assert(k == b - a) by {
                if k < b - a {
                    assert(tail[k] == s@[a + k]);
                } else if k > b - a {
                    assert(!unicode_whitespace(tail[b - a]));
                }
            }
            assert(w@ =~= tail.take(b - a));
        } else {
            assert(!(exists|i: int| 0 <= i < tail.len() && unicode_whitespace(tail[i]))) by {
                if exists|i: int| 0 <= i < tail.len() && unicode_whitespace(tail[i]) {
                    let i = choose|i: int| 0 <= i < tail.len() && unicode_whitespace(tail[i]);
                    assert(tail[i] == s@[a + i]);
                }
            }
            assert(w@ =~= tail);
        }
    }
    Some(w)
}

/// Reads a decimal number as `usize::from_str` does.
pub fn parse_usize(w: &Vec<char>) -> (r: Option<usize>)
    ensures
        r == parsed_usize(w@),
{
    let start: usize = if w.len() > 0 && w[0] == '+' {
        1
    } else {
        0
    };
    let ghost d = w@.subrange(start as int, w@.len() as int);
    proof {
        if !(w@.len() > 0 && w@[0] == '+') {
            assert(d =~= w@);
        }
        assert(d == unsigned_digits(w@));
    }
    if start == w.len() {
        return None;
    }
    let mut value: usize = 0;
    let mut i: usize = start;
    while i < w.len()
        invariant
            start <= i <= w@.len(),
            d == w@.subrange(start as int, w@.len() as int),
            d == unsigned_digits(w@),
            forall|j: int| start <= j < i ==> '0' <= #[trigger] w@[j] <= '9',
            value as nat == digits_value(w@.subrange(start as int, i as int)),
        decreases w.len() - i,
    {
        let c = w[i];
        if !('0' <= c && c <= '9') {
            proof {
                assert(d[i - start] == c);
            }
            return None;
        }
        let digit = (c as u32 - '0' as u32) as usize;
        proof {
            let p = w@.subrange(start as int, i + 1);
            assert(p.drop_last() =~= w@.subrange(start as int, i as int));
            assert(p.last() == c);
        }
        match value.checked_mul(10) {
            Some(m) => match m.checked_add(digit) {
                Some(v) => {
                    value = v;
                },
                None => {
                    proof {
                        overflow_means_none(w@, d, start as int, i as int, value as nat, digit as nat);
                    }
                    return None;
                },
            },
            None => {
                proof {
                    overflow_means_none(w@, d, start as int, i as int, value as nat, digit as nat);
                }
                return None;
            },
        }
        i = i + 1;
    }
    proof {
        assert(w@.subrange(start as int, i as int) =~= d);
    }
    Some(value)
}

/// A number that overflows on its way is not read.
proof fn overflow_means_none(w: Seq<char>, d: Seq<char>, start: int, i: int, value: nat, digit: nat)
    requires
        0 <= start <= i < w.len(),
        d == w.subrange(start, w.len() as int),
        d == unsigned_digits(w),
        value == digits_value(w.subrange(start, i)),
        digit == (w[i] as nat) - ('0' as nat),
        '0' <= w[i] <= '9',
        value * 10 + digit > usize::MAX,
    ensures
        parsed_usize(w) is None,
{
    let p = w.subrange(start, i + 1);
    assert(p.drop_last() =~= w.subrange(start, i));
    assert(p.last() == w[i]);
    assert(digits_value(p) == value * 10 + digit);
    if all_digits(d) {
        assert(p =~= d.take(i + 1 - start));
        lemma_digits_value_prefix(d, (i + 1 - start) as nat);
    }
}

/// A prefix of a digit string is worth no more than the whole.
pub proof fn lemma_digits_value_prefix(d: Seq<char>, n: nat)
    requires
        n <= d.len(),
        forall|i: int| 0 <= i < d.len() ==> '0' <= #[trigger] d[i] <= '9',
    ensures
        digits_value(d.take(n as int)) <= digits_value(d),
    decreases d.len(),
{
    if n < d.len() {
        let dl = d.drop_last();
        assert(d.take(n as int) =~= dl.take(n as int));
        lemma_digits_value_prefix(dl, n);
        let x = digits_value(dl);
        let y = ((d.last() as nat) - ('0' as nat)) as nat;
        assert(x * 10 + y >= x) by (nonlinear_arith);
    } else {
        assert(d.take(n as int) =~= d);
    }
}

/// The vector dimension an index definition names after `DIMENSION `, if
/// it names a number there.
pub fn extract_dimension(def: &str) -> (r: Option<usize>)
    ensures
        r == definition_dimension(def@),
{
    let cs = chars_of(def);
    let pat = chars_of("DIMENSION ");
    proof {
        reveal_strlit("DIMENSION ");
    }
    match second_piece_exec(&cs, &pat) {
        Some(p) => match first_word_exec(&p) {
            Some(w) => parse_usize(&w),
            None => None,
        },
        None => None,
    }
}

/// Whether the vector index must be rebuilt for vectors of `expected`
/// dimensions: when its definition names another dimension.  A missing or
/// unreadable definition is left alone.
pub fn index_needs_rebuild(definition: Option<&str>, expected: usize) -> (r: bool)
    ensures
        r == match definition {
            Some(d) => definition_dimension(d@) matches Some(n) && n != expected,
            None => false,
        },
{
    match definition {
        Some(d) => match extract_dimension(d) {
            Some(n) => n != expected,
            None => false,
        },
        None => false,
    }
}

} // verus!
