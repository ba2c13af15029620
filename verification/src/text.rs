//! Character-level text helpers shared by the scanner, the chunker and the
//! identifier validators.
//!
//! Strings are reasoned about through their `Seq<char>` views.  Unicode
//! lower-casing takes tables to describe: it is named below and only its
//! ASCII part is stated.  The Unicode white space that `char::is_whitespace`
//! and `str::trim` go by is listed.

use vstd::prelude::*;

verus! {

/// What `str::to_lowercase` returns for a string, by the Unicode rules it applies.
pub uninterp spec fn unicode_lowercase(s: Seq<char>) -> Seq<char>;

/// Whether a character has the Unicode `White_Space` property: the
/// controls `U+0009`..=`U+000D`, space, `U+0085`, no-break space, the
/// Ogham space mark, the spaces `U+2000`..=`U+200A`, the line and
/// paragraph separators, the narrow no-break space, the medium
/// mathematical space and the ideographic space.
pub open spec fn unicode_whitespace(c: char) -> bool {
    let u = c as u32;
    ||| 0x9 <= u <= 0xD
    ||| u == 0x20
    ||| u == 0x85
    ||| u == 0xA0
    ||| u == 0x1680
    ||| 0x2000 <= u <= 0x200A
    ||| u == 0x2028
    ||| u == 0x2029
    ||| u == 0x202F
    ||| u == 0x205F
    ||| u == 0x3000
}

/// Whether every character of `s` is ASCII.
pub open spec fn all_ascii(s: Seq<char>) -> bool {
    forall|i: int| 0 <= i < s.len() ==> (#[trigger] s[i] as u32) < 128
}

/// The ASCII lower-case form of a character: `A`..=`Z` become `a`..=`z`,
/// any other character stays.
pub open spec fn ascii_lower_char(c: char) -> char {
    if 65 <= (c as u32) <= 90 {
        ((c as u32) + 32) as char
    } else {
        c
    }
}

/// The ASCII lower-case form of a text.
pub open spec fn ascii_lower(s: Seq<char>) -> Seq<char> {
    s.map_values(|c: char| ascii_lower_char(c))
}

/// The ASCII upper-case form of a character: `a`..=`z` become `A`..=`Z`,
/// any other character stays.
pub open spec fn ascii_upper_char(c: char) -> char {
    if 97 <= (c as u32) <= 122 {
        ((c as u32) - 32) as char
    } else {
        c
    }
}

/// The ASCII upper-case form of a text.
pub open spec fn ascii_upper(s: Seq<char>) -> Seq<char> {
    s.map_values(|c: char| ascii_upper_char(c))
}

/// `str::to_lowercase`: the Unicode lower-case form of `s`.  The contract
/// names the result, and states the one part of the Unicode case tables
/// callers need: on ASCII text, only `A`..=`Z` change, to `a`..=`z`.
#[verifier::external_body]
pub fn to_lowercase(s: &str) -> (r: String)
    ensures
        r@ == unicode_lowercase(s@),
        all_ascii(s@) ==> r@ == ascii_lower(s@),
{
    s.to_lowercase()
}

/// `char::is_whitespace`: whether `c` has the Unicode `White_Space`
/// property (the code points that `unicode_whitespace` lists).
#[verifier::external_body]
pub fn is_whitespace(c: char) -> (r: bool)
    ensures
        r == unicode_whitespace(c),
{
    c.is_whitespace()
}

/// `s` without its leading white space.
pub open spec fn trim_start_ws(s: Seq<char>) -> Seq<char>
    decreases s.len(),
{
    if s.len() > 0 && unicode_whitespace(s[0]) {
        trim_start_ws(s.skip(1))
    } else {
        s
    }
}

/// `s` without its trailing white space.
pub open spec fn trim_end_ws(s: Seq<char>) -> Seq<char>
    decreases s.len(),
{
    if s.len() > 0 && unicode_whitespace(s.last()) {
        trim_end_ws(s.drop_last())
    } else {
        s
    }
}

/// What `str::trim` returns: the string without leading and trailing
/// Unicode white space.
pub open spec fn unicode_trim(s: Seq<char>) -> Seq<char> {
    trim_end_ws(trim_start_ws(s))
}

/// `str::trim`: `s` without leading and trailing characters that have the
/// Unicode `White_Space` property.
#[verifier::external_body]
pub fn trim(s: &str) -> (r: &str)
    ensures
        r@ == unicode_trim(s@),
{
    s.trim()
}

/// Collects the characters of `s` (std's `chars().collect()`), in order.
#[verifier::external_body]
pub fn chars_of(s: &str) -> (r: Vec<char>)
    ensures
        r@ == s@,
{
    s.chars().collect()
}

/// Builds a `String` from a slice of characters (std's `iter().collect()`).
#[verifier::external_body]
pub fn string_of(cs: &[char]) -> (r: String)
    ensures
        r@ == cs@,
{
    cs.iter().collect()
}

/// Appends one character to a `String` (std's `String::push`).
#[verifier::external_body]
pub fn push_char(s: &mut String, c: char)
    ensures
        final(s)@ == old(s)@.push(c),
{
    s.push(c);
}

/// `needle` occurs in `hay` starting at position `i`.
pub open spec fn occurs_at(hay: Seq<char>, needle: Seq<char>, i: int) -> bool {
    0 <= i && i + needle.len() <= hay.len() && hay.subrange(i, i + needle.len()) == needle
}

/// `needle` occurs somewhere in `hay`.
pub open spec fn contains_seq(hay: Seq<char>, needle: Seq<char>) -> bool {
    exists|i: int| occurs_at(hay, needle, i)
}

/// `hay` begins with `prefix`.
pub open spec fn starts_with_seq(hay: Seq<char>, prefix: Seq<char>) -> bool {
    prefix.len() <= hay.len() && hay.subrange(0, prefix.len() as int) == prefix
}

/// `hay` ends with `suffix`.
pub open spec fn ends_with_seq(hay: Seq<char>, suffix: Seq<char>) -> bool {
    suffix.len() <= hay.len() && hay.subrange(hay.len() - suffix.len(), hay.len() as int)
        == suffix
}

/// Whether `needle` occurs in `hay` at position `i` (no bounds assumed).
pub fn occurs_at_exec(hay: &Vec<char>, needle: &Vec<char>, i: usize) -> (r: bool)
    ensures
        r == occurs_at(hay@, needle@, i as int),
{
    if i > hay.len() || needle.len() > hay.len() - i {
        return false;
    }
    let mut k: usize = 0;
    while k < needle.len()
        invariant
            i + needle.len() <= hay.len(),
            k <= needle.len(),
            forall|j: int| 0 <= j < k ==> hay@[i + j] == needle@[j],
        decreases needle.len() - k,
    {
        if hay[i + k] != needle[k] {
            assert(hay@.subrange(i as int, i + needle.len())[k as int] != needle@[k as int]);
            return false;
        }
        k = k + 1;
    }
    assert(hay@.subrange(i as int, i + needle.len()) =~= needle@);
    true
}

/// Whether `needle` occurs anywhere in `hay` (`str::contains` on a string pattern).
pub fn contains(hay: &str, needle: &str) -> (r: bool)
    ensures
        r == contains_seq(hay@, needle@),
{
    let h = chars_of(hay);
    let n = chars_of(needle);
    contains_chars(&h, &n)
}

/// `contains` on character vectors.
pub fn contains_chars(h: &Vec<char>, n: &Vec<char>) -> (r: bool)
    ensures
        r == contains_seq(h@, n@),
{
    if n.len() == 0 {
        assert(h@.subrange(0, 0) =~= n@);
        assert(occurs_at(h@, n@, 0));
        return true;
    }
    if n.len() > h.len() {
        return false;
    }
    let limit = h.len() - n.len();
    let mut i: usize = 0;
    while i <= limit
        invariant
            limit == h.len() - n.len(),
            n.len() >= 1,
            i <= limit + 1,
            forall|j: int| 0 <= j < i ==> !occurs_at(h@, n@, j),
        decreases limit + 1 - i,
    {
        if occurs_at_exec(h, n, i) {
            return true;
        }
        i = i + 1;
    }
    false
}

/// Whether `hay` starts with `prefix`.
pub fn starts_with(hay: &Vec<char>, prefix: &str) -> (r: bool)
    ensures
        r == starts_with_seq(hay@, prefix@),
{
    let p = chars_of(prefix);
    let r = occurs_at_exec(hay, &p, 0);
    proof {
        if r {
            assert(starts_with_seq(hay@, prefix@));
        }
    }
    r
}

/// Whether `hay` ends with `suffix`.
pub fn ends_with(hay: &Vec<char>, suffix: &str) -> (r: bool)
    ensures
        r == ends_with_seq(hay@, suffix@),
{
    let s = chars_of(suffix);
    if s.len() > hay.len() {
        return false;
    }
    occurs_at_exec(hay, &s, hay.len() - s.len())
}

/// Whether two character vectors hold the same characters.
pub fn chars_eq(a: &Vec<char>, b: &Vec<char>) -> (r: bool)
    ensures
        r == (a@ == b@),
{
    if a.len() != b.len() {
        return false;
    }
    let r = occurs_at_exec(a, b, 0);
    proof {
        if r {
            assert(a@ =~= a@.subrange(0, b@.len() as int));
        } else {
            if a@ == b@ {
                assert(a@.subrange(0, b@.len() as int) =~= b@);
            }
        }
    }
    r
}

/// Whether the string `a` equals the literal-like string `b`.
pub fn str_eq(a: &str, b: &str) -> (r: bool)
    ensures
        r == (a@ == b@),
{
    let x = chars_of(a);
    let y = chars_of(b);
    chars_eq(&x, &y)
}

/// The pieces of `s` between `\n` characters (there is always at least one).
pub open spec fn split_newlines(s: Seq<char>) -> Seq<Seq<char>>
    decreases s.len(),
{
    if s.len() == 0 {
        seq![seq![]]
    } else if s[0] == '\n' {
        seq![seq![]] + split_newlines(s.subrange(1, s.len() as int))
    } else {
        let rest = split_newlines(s.subrange(1, s.len() as int));
        rest.update(0, seq![s[0]] + rest[0])
    }
}

/// A line without the `\r` of a `\r\n` ending.
pub open spec fn strip_cr(l: Seq<char>) -> Seq<char> {
    if l.len() > 0 && l.last() == '\r' {
        l.drop_last()
    } else {
        l
    }
}

/// What `str::lines` yields: the pieces between `\n`s, a piece ended by
/// `\n` losing a trailing `\r`, and no empty last piece after a final line
/// ending.
pub open spec fn std_lines(s: Seq<char>) -> Seq<Seq<char>> {
    let p = split_newlines(s);
    let body = p.take(p.len() - 1).map_values(|l: Seq<char>| strip_cr(l));
    if p.last().len() == 0 {
        body
    } else {
        body.push(p.last())
    }
}

/// `split_newlines` always yields at least one piece.
pub proof fn lemma_split_newlines_nonempty(s: Seq<char>)
    ensures
        split_newlines(s).len() >= 1,
    decreases s.len(),
{
    if s.len() > 0 {
        lemma_split_newlines_nonempty(s.subrange(1, s.len() as int));
    }
}

/// The lines of a text, as `str::lines` yields them.
pub fn lines_of(s: &str) -> (r: Vec<Vec<char>>)
    ensures
        r@.map_values(|l: Vec<char>| l@) == std_lines(s@),
{
    let cs = chars_of(s);
    let mut pieces: Vec<Vec<char>> = Vec::new();
    let mut cur: Vec<char> = Vec::new();
    let mut i: usize = 0;
    proof {
        assert(cs@.subrange(0, cs@.len() as int) =~= cs@);
        lemma_split_newlines_nonempty(cs@);
    }
    while i < cs.len()
        invariant
            cs@ == s@,
            i <= cs@.len(),
            split_newlines(cs@) == pieces@.map_values(|l: Vec<char>| l@) + seq![
                cur@ + split_newlines(cs@.subrange(i as int, cs@.len() as int))[0],
            ] + split_newlines(cs@.subrange(i as int, cs@.len() as int)).subrange(
                1,
                split_newlines(cs@.subrange(i as int, cs@.len() as int)).len() as int,
            ),
        decreases cs.len() - i,
    {
        let ghost rest = cs@.subrange(i as int, cs@.len() as int);
        let ghost next = cs@.subrange(i + 1, cs@.len() as int);
        proof {
            assert(rest.subrange(1, rest.len() as int) =~= next);
            lemma_split_newlines_nonempty(next);
        }
        if cs[i] == '\n' {
            let ghost old_pieces = pieces@.map_values(|l: Vec<char>| l@);
            let done = cur;
            pieces.push(done);
            cur = Vec::new();
            proof {
                let sn = split_newlines(next);
                assert(split_newlines(rest) == seq![seq![]] + sn);
                assert(pieces@.map_values(|l: Vec<char>| l@) =~= old_pieces.push(done@));
                assert(cur@ + sn[0] =~= sn[0]);
                assert((seq![Seq::<char>::empty()] + sn).subrange(1, sn.len() as int + 1) =~= sn);
                assert(sn =~= seq![sn[0]] + sn.subrange(1, sn.len() as int));
                assert(split_newlines(cs@) =~= pieces@.map_values(|l: Vec<char>| l@) + seq![
                    cur@ + sn[0],
                ] + sn.subrange(1, sn.len() as int));
            }
        } else {
            let ghost old_cur = cur@;
            cur.push(cs[i]);
            proof {
                let sn = split_newlines(next);
                assert(split_newlines(rest) == sn.update(0, seq![cs@[i as int]] + sn[0]));
                assert(sn.update(0, seq![cs@[i as int]] + sn[0])[0] == seq![cs@[i as int]] + sn[0]);
                assert(old_cur + (seq![cs@[i as int]] + sn[0]) =~= cur@ + sn[0]);
                assert(sn.update(0, seq![cs@[i as int]] + sn[0]).subrange(1, sn.len() as int)
                    =~= sn.subrange(1, sn.len() as int));
            }
        }
        i = i + 1;
    }
    let ghost last = cur@;
    proof {
        let rest = cs@.subrange(i as int, cs@.len() as int);
        assert(rest.len() == 0);
        assert(split_newlines(rest) == seq![Seq::<char>::empty()]);
        assert(last + Seq::<char>::empty() =~= last);
        assert(seq![Seq::<char>::empty()].subrange(1, 1) =~= Seq::<Seq<char>>::empty());
    }
    let ghost p = split_newlines(cs@);
    proof {
        assert(p =~= pieces@.map_values(|l: Vec<char>| l@).push(last));
    }
    let mut out: Vec<Vec<char>> = Vec::new();
    let mut k: usize = 0;
    while k < pieces.len()
        invariant
            k <= pieces@.len(),
            p == pieces@.map_values(|l: Vec<char>| l@).push(last),
            out@.map_values(|l: Vec<char>| l@) == p.take(k as int).map_values(|l: Seq<char>| strip_cr(l)),
        decreases pieces.len() - k,
    {
        let mut l = pieces[k].clone();
        let ghost lv = pieces@[k as int]@;
        assert(l@ == lv);
        if l.len() > 0 && l[l.len() - 1] == '\r' {
            l.pop();
            assert(l@ =~= lv.drop_last());
        }
        assert(l@ == strip_cr(lv));
        let ghost before = out@.map_values(|x: Vec<char>| x@);
        out.push(l);
        proof {
            assert(p[k as int] == lv);
            assert(p.take(k + 1).map_values(|x: Seq<char>| strip_cr(x)) =~= p.take(k as int).map_values(|x: Seq<char>| strip_cr(x)).push(strip_cr(lv)));
            assert(out@.map_values(|x: Vec<char>| x@) =~= before.push(strip_cr(lv)));
        }
        k = k + 1;
    }
    if cur.len() > 0 {
        out.push(cur);
    }
    proof {
        assert(p.take(p.len() - 1) =~= p.take(pieces@.len() as int));
        assert(p.last() == last);
        assert(out@.map_values(|x: Vec<char>| x@) =~= std_lines(s@));
    }
    out
}

} // verus!
