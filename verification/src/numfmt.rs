//! Rendering of integers as text: lower-case hexadecimal of a fixed width
//! (what `{:016x}` and `to_hex` produce) and plain decimal (what `{}` produces).

use vstd::prelude::*;
use crate::text::string_of;

verus! {

/// The lower-case hexadecimal digit for a value below 16.
pub open spec fn hex_digit(d: nat) -> char {
    if d < 10 {
        (48 + d) as char
    } else {
        (87 + d) as char
    }
}

/// The decimal digit for a value below 10.
pub open spec fn dec_digit(d: nat) -> char {
    (48 + d) as char
}

/// The last `n` hexadecimal digits of `v`, most significant first, zero padded.
pub open spec fn hex_fixed(v: nat, n: nat) -> Seq<char>
    decreases n,
{
    if n == 0 {
        seq![]
    } else {
        hex_fixed(v / 16, (n - 1) as nat).push(hex_digit(v % 16))
    }
}

/// The decimal representation of `v`, without leading zeros.
pub open spec fn decimal(v: nat) -> Seq<char>
    decreases v,
{
    if v < 10 {
        seq![dec_digit(v)]
    } else {
        decimal(v / 10).push(dec_digit(v % 10))
    }
}

/// Lower-case hexadecimal of a byte sequence, two digits per byte.
pub open spec fn hex_bytes(bs: Seq<u8>) -> Seq<char>
    decreases bs.len(),
{
    if bs.len() == 0 {
        seq![]
    } else {
        hex_bytes(bs.drop_last()) + hex_fixed(bs.last() as nat, 2)
    }
}

/// Two hexadecimal digits per byte, each a lower-case hexadecimal digit.
pub proof fn lemma_hex_bytes_len(bs: Seq<u8>)
    ensures
        hex_bytes(bs).len() == 2 * bs.len(),
        forall|i: int| 0 <= i < hex_bytes(bs).len() ==> is_lower_hex_char(#[trigger] hex_bytes(bs)[i]),
    decreases bs.len(),
{
    if bs.len() > 0 {
        lemma_hex_bytes_len(bs.drop_last());
        lemma_hex_fixed_shape(bs.last() as nat, 2);
        let a = hex_bytes(bs.drop_last());
        let b = hex_fixed(bs.last() as nat, 2);
        assert forall|i: int| 0 <= i < hex_bytes(bs).len() implies is_lower_hex_char(#[trigger] hex_bytes(bs)[i]) by {
            if i < a.len() {
                assert(hex_bytes(bs)[i] == a[i]);
            } else {
                assert(hex_bytes(bs)[i] == b[i - a.len()]);
            }
        }
    }
}

/// A character is a lower-case hexadecimal digit.
pub open spec fn is_lower_hex_char(c: char) -> bool {
    ('0' <= c && c <= '9') || ('a' <= c && c <= 'f')
}

/// Every character of `hex_fixed` is a lower-case hexadecimal digit, and there are `n` of them.
pub proof fn lemma_hex_fixed_shape(v: nat, n: nat)
    ensures
        hex_fixed(v, n).len() == n,
        forall|i: int| 0 <= i < n ==> is_lower_hex_char(#[trigger] hex_fixed(v, n)[i]),
    decreases n,
{
    if n > 0 {
        lemma_hex_fixed_shape(v / 16, (n - 1) as nat);
        let d = v % 16;
        assert(is_lower_hex_char(hex_digit(d)));
    }
}

/// The hexadecimal digit character for `d < 16`.
pub fn hex_digit_exec(d: u64) -> (c: char)
    requires
        d < 16,
    ensures
        c == hex_digit(d as nat),
{
    if d < 10 {
        ((48 + d) as u8) as char
    } else {
        ((87 + d) as u8) as char
    }
}

/// Appends the last `n` hexadecimal digits of `v` to `out`.
pub fn push_hex_fixed(v: u64, n: usize, out: &mut Vec<char>)
    ensures
        final(out)@ == old(out)@ + hex_fixed(v as nat, n as nat),
    decreases n,
{
    if n > 0 {
        push_hex_fixed(v / 16, n - 1, out);
        let ghost mid = out@;
        out.push(hex_digit_exec(v % 16));
        assert(out@ =~= old(out)@ + hex_fixed(v as nat, n as nat));
    } else {
        assert(out@ =~= old(out)@ + hex_fixed(v as nat, n as nat));
    }
}

/// Appends the decimal representation of `v` to `out`.
pub fn push_decimal(v: u64, out: &mut Vec<char>)
    ensures
        final(out)@ == old(out)@ + decimal(v as nat),
    decreases v,
{
    if v >= 10 {
        push_decimal(v / 10, out);
    }
    out.push(((48 + v % 10) as u8) as char);
    assert(out@ =~= old(out)@ + decimal(v as nat));
}

/// `format!("{:016x}", v)`: sixteen lower-case hexadecimal digits.
pub fn hex16(v: u64) -> (s: String)
    ensures
        s@ == hex_fixed(v as nat, 16),
{
    let mut out: Vec<char> = Vec::new();
    push_hex_fixed(v, 16, &mut out);
    assert(out@ =~= hex_fixed(v as nat, 16));
    string_of(out.as_slice())
}

/// `format!("{}", v)` for an unsigned value.
pub fn decimal_string(v: u64) -> (s: String)
    ensures
        s@ == decimal(v as nat),
{
    let mut out: Vec<char> = Vec::new();
    push_decimal(v, &mut out);
    assert(out@ =~= decimal(v as nat));
    string_of(out.as_slice())
}

/// Lower-case hexadecimal of a byte slice (what `blake3::Hash::to_hex` produces).
pub fn hex_of_bytes(bs: &[u8]) -> (s: String)
    ensures
        s@ == hex_bytes(bs@),
{
    let mut out: Vec<char> = Vec::new();
    let mut i: usize = 0;
    while i < bs.len()
        invariant
            i <= bs@.len(),
            out@ == hex_bytes(bs@.subrange(0, i as int)),
        decreases bs.len() - i,
    {
        let ghost before = out@;
        push_hex_fixed(bs[i] as u64, 2, &mut out);
        assert(bs@.subrange(0, i + 1).drop_last() =~= bs@.subrange(0, i as int));
        assert(bs@.subrange(0, i + 1).last() == bs@[i as int]);
        i = i + 1;
    }
    assert(bs@.subrange(0, bs@.len() as int) =~= bs@);
    string_of(out.as_slice())
}

} // verus!
