//! Change detection for embedded content.

use vstd::prelude::*;
use crate::digest::{content_hash_text, hash_hex};
use crate::numfmt::is_lower_hex_char;

verus! {

/// Content fingerprints used to decide whether a record must be re-embedded.
pub struct ContentHasher;

impl ContentHasher {
    /// The BLAKE3 fingerprint of `content`: 64 lower-case hexadecimal digits,
    /// the same for the same content.
    pub fn hash(content: &str) -> (r: String)
        ensures
            r@ == content_hash_text(content@),
            r@.len() == 64,
            forall|i: int| 0 <= i < r@.len() ==> is_lower_hex_char(#[trigger] r@[i]),
    {
        hash_hex(content)
    }

    /// Content needs a new embedding when no fingerprint is stored or the
    /// stored one differs from the fingerprint of `new_content`.
    pub fn needs_reembed(old_hash: Option<&str>, new_content: &str) -> (r: bool)
        ensures
            r == match old_hash {
                Some(old) => old@ != content_hash_text(new_content@),
                None => true,
            },
    {
        let new_hash = Self::hash(new_content);
        match old_hash {
            Some(old) => {
                let o = String::from_str(old);
                !(o == new_hash)
            },
            None => true,
        }
    }
}

/// The fingerprint of content is a function of the content: hashing the
/// same text twice gives the same fingerprint, so unchanged content never
/// needs a new embedding.
pub proof fn lemma_unchanged_content_needs_no_reembed(stored: Seq<char>, content: Seq<char>)
    requires
        stored == content_hash_text(content),
    ensures
        !(stored != content_hash_text(content)),
{
}

} // verus!
