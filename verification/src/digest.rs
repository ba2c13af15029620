//! Content digests (BLAKE3), written as lower-case hexadecimal.

use vstd::prelude::*;
use crate::numfmt::{hex_bytes, hex_of_bytes, is_lower_hex_char, lemma_hex_bytes_len};

verus! {

/// The 32-byte BLAKE3 digest of a byte sequence.
pub uninterp spec fn blake3_digest(input: Seq<u8>) -> Seq<u8>;

/// `blake3::hash`: the BLAKE3 digest of `input`, as its 32 bytes.  The
/// contract names the digest and states its documented length only.
#[verifier::external_body]
pub fn blake3_hash(input: &[u8]) -> (r: Vec<u8>)
    ensures
        r@ == blake3_digest(input@),
        r@.len() == 32,
{
    blake3::hash(input).as_bytes().to_vec()
}

/// The hexadecimal text of the BLAKE3 digest of a string's UTF-8 bytes.
pub open spec fn content_hash_text(s: Seq<char>) -> Seq<char> {
    hex_bytes(blake3_digest(vstd::utf8::encode_utf8(s)))
}

/// BLAKE3 of the UTF-8 bytes of `s`, as 64 lower-case hexadecimal digits
/// (`blake3::hash(s.as_bytes()).to_hex()`).
pub fn hash_hex(s: &str) -> (r: String)
    ensures
        r@ == content_hash_text(s@),
        r@.len() == 64,
        forall|i: int| 0 <= i < r@.len() ==> is_lower_hex_char(#[trigger] r@[i]),
{
    let bytes = s.as_bytes();
    let d = blake3_hash(bytes);
    proof {
        lemma_hex_bytes_len(d@);
    }
    hex_of_bytes(d.as_slice())
}

} // verus!
