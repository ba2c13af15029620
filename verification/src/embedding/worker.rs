//! The bookkeeping of the background embedding worker.
//!
//! Requests are gathered into batches of up to `WORKER_BATCH_SIZE`.  For a
//! batch, each text's content hash is looked up in the persistent store;
//! the texts not found there are embedded together, and the fresh vectors
//! are put back in the places of the misses.  The vectors themselves are
//! opaque here (any type `V`).

use vstd::prelude::*;
use crate::digest::{content_hash_text, hash_hex};

verus! {

/// Where a computed embedding is stored.
#[derive(Clone, Debug)]
pub enum EmbeddingTarget {
    /// The symbol with this record id.
    Symbol(String),
    /// The chunk with this record id.
    Chunk(String),
}

/// Requests gathered before a batch is processed at once.
pub const WORKER_BATCH_SIZE: usize = 32;
/// Milliseconds a partial batch waits for more requests.
pub const BATCH_DEADLINE_MS: u64 = 100;
/// Milliseconds to wait before retrying while the model is not loaded.
pub const ENGINE_RETRY_MS: u64 = 500;

/// Whether a batch of `len` requests is full and must be processed now.
pub fn batch_full(len: usize) -> (r: bool)
    ensures
        r == (len >= WORKER_BATCH_SIZE),
{
    len >= WORKER_BATCH_SIZE
}

/// The store keys of some texts: the content hash of each, in order.
pub fn cache_keys(texts: &Vec<String>) -> (r: Vec<String>)
    ensures
        r@.len() == texts@.len(),
        forall|i: int| 0 <= i < r@.len() ==> #[trigger] r@[i]@ == content_hash_text(texts@[i]@),
{
    let mut out: Vec<String> = Vec::new();
    let mut i: usize = 0;
    while i < texts.len()
        invariant
            i <= texts@.len(),
            out@.len() == i,
            forall|j: int| 0 <= j < i ==> #[trigger] out@[j]@ == content_hash_text(texts@[j]@),
        decreases texts.len() - i,
    {
        out.push(hash_hex(texts[i].as_str()));
        i = i + 1;
    }
    out
}

/// The positions, in increasing order, of the `None` entries of `s`.
pub open spec fn miss_positions<V>(s: Seq<Option<V>>) -> Seq<usize>
    decreases s.len(),
{
    if s.len() == 0 {
        seq![]
    } else if s.last() is None {
        miss_positions(s.drop_last()).push((s.len() - 1) as usize)
    } else {
        miss_positions(s.drop_last())
    }
}

/// The miss positions are exactly `None` entries, in increasing order.
pub proof fn lemma_miss_positions<V>(s: Seq<Option<V>>)
    requires
        s.len() <= usize::MAX,
    ensures
        forall|j: int| 0 <= j < miss_positions(s).len() ==> {
            &&& #[trigger] miss_positions(s)[j] < s.len()
            &&& s[miss_positions(s)[j] as int] is None
        },
        forall|a: int, b: int|
            0 <= a < b < miss_positions(s).len() ==> #[trigger] miss_positions(s)[a] < #[trigger] miss_positions(s)[b],
    decreases s.len(),
{
    if s.len() > 0 {
        let d = s.drop_last();
        lemma_miss_positions(d);
        let m = miss_positions(d);
        assert forall|j: int| 0 <= j < m.len() implies #[trigger] m[j] < d.len() && s[m[j] as int] is None by {
            assert(s[m[j] as int] == d[m[j] as int]);
        }
        if s.last() is None {
            let mp = m.push((s.len() - 1) as usize);
            assert(miss_positions(s) == mp);
            assert forall|j: int| 0 <= j < mp.len() implies #[trigger] mp[j] < s.len() && s[mp[j] as int] is None by {
                if j < m.len() {
                    assert(mp[j] == m[j]);
                }
            }
            assert forall|a: int, b: int| 0 <= a < b < mp.len() implies #[trigger] mp[a] < #[trigger] mp[b] by {
                assert(mp[a] == m[a]);
                if b < m.len() {
                    assert(mp[b] == m[b]);
                }
            }
        }
    }
}

/// The positions of the texts not found in the store.
pub fn misses_of<V>(found: &Vec<Option<V>>) -> (r: Vec<usize>)
    ensures
        r@ == miss_positions(found@),
{
    let mut out: Vec<usize> = Vec::new();
    let mut i: usize = 0;
    proof {
        assert(found@.take(0) =~= Seq::<Option<V>>::empty());
    }
    while i < found.len()
        invariant
            i <= found@.len(),
            out@ == miss_positions(found@.take(i as int)),
        decreases found.len() - i,
    {
        proof {
            assert(found@.take(i + 1).drop_last() =~= found@.take(i as int));
            assert(found@.take(i + 1).last() == found@[i as int]);
        }
        if found[i].is_none() {
            out.push(i);
        }
        i = i + 1;
    }
    proof {
        assert(found@.take(i as int) =~= found@);
    }
    out
}

/// `slots` with the `j`-th fresh vector put at the `j`-th position of
/// `positions`, for as many as there are both.
pub open spec fn filled<V>(slots: Seq<Option<V>>, positions: Seq<usize>, fresh: Seq<V>) -> Seq<Option<V>>
    decreases fresh.len(),
{
    if fresh.len() == 0 || positions.len() == 0 {
        slots
    } else if fresh.len() <= positions.len() {
        let k = fresh.len() - 1;
        filled(slots, positions, fresh.drop_last()).update(positions[k] as int, Some(fresh[k]))
    } else {
        filled(slots, positions, fresh.take(positions.len() as int))
    }
}

/// Every `None` entry has its place among the miss positions.
pub proof fn lemma_misses_listed<V>(s: Seq<Option<V>>, i: int)
    requires
        s.len() <= usize::MAX,
        0 <= i < s.len(),
        s[i] is None,
    ensures
        exists|j: int| 0 <= j < miss_positions(s).len() && miss_positions(s)[j] == i,
    decreases s.len(),
{
    let d = s.drop_last();
    if i == s.len() - 1 {
        let m = miss_positions(d).push((s.len() - 1) as usize);
        assert(miss_positions(s) == m);
        assert(m[m.len() - 1] == i);
    } else {
        assert(i < d.len());
        assert(d[i] == s[i]);
        lemma_misses_listed(d, i);
        let j = choose|j: int| 0 <= j < miss_positions(d).len() && miss_positions(d)[j] == i;
        if s.last() is None {
            let m = miss_positions(d).push((s.len() - 1) as usize);
            assert(miss_positions(s) == m);
            assert(m[j] == miss_positions(d)[j]);
        } else {
            assert(miss_positions(s) == miss_positions(d));
        }
    }
}

/// What filling gives at each place, for increasing positions inside the
/// batch and no more vectors than positions: the `j`-th fresh vector at
/// the `j`-th position, the slot unchanged elsewhere.
pub proof fn lemma_filled_at<V>(slots: Seq<Option<V>>, positions: Seq<usize>, fresh: Seq<V>)
    requires
        fresh.len() <= positions.len(),
        forall|j: int| 0 <= j < positions.len() ==> #[trigger] positions[j] < slots.len(),
        forall|a: int, b: int| 0 <= a < b < positions.len() ==> #[trigger] positions[a] < #[trigger] positions[b],
    ensures
        filled(slots, positions, fresh).len() == slots.len(),
        forall|j: int| 0 <= j < fresh.len() ==> #[trigger] filled(slots, positions, fresh)[positions[j] as int] == Some(fresh[j]),
        forall|i: int| 0 <= i < slots.len() && (forall|j: int| 0 <= j < fresh.len() ==> #[trigger] positions[j] != i)
            ==> #[trigger] filled(slots, positions, fresh)[i] == slots[i],
    decreases fresh.len(),
{
    if fresh.len() > 0 {
        let k = fresh.len() - 1;
        let d = fresh.drop_last();
        lemma_filled_at(slots, positions, d);
        let prev = filled(slots, positions, d);
        assert forall|j: int| 0 <= j < fresh.len() implies #[trigger] filled(slots, positions, fresh)[positions[j] as int] == Some(fresh[j]) by {
            if j < k {
                assert(positions[j] < positions[k]);
                assert(d[j] == fresh[j]);
                assert(prev[positions[j] as int] == Some(d[j]));
            }
        }
        assert forall|i: int| 0 <= i < slots.len() && (forall|j: int| 0 <= j < fresh.len() ==> #[trigger] positions[j] != i) implies #[trigger] filled(slots, positions, fresh)[i] == slots[i] by {
            assert forall|j: int| 0 <= j < d.len() implies #[trigger] positions[j] != i by {
                assert(positions[j] != i);
            }
            assert(positions[k] != i);
        }
    }
}

/// One worker batch: when the engine gives one vector per text the store
/// did not have, every text of the batch gets a vector; a text the store
/// had keeps the stored one, and the `j`-th missing text gets the `j`-th
/// fresh vector.
pub proof fn lemma_batch_filled<V>(found: Seq<Option<V>>, fresh: Seq<V>)
    requires
        found.len() <= usize::MAX,
        fresh.len() == miss_positions(found).len(),
    ensures
        filled(found, miss_positions(found), fresh).len() == found.len(),
        forall|i: int| 0 <= i < found.len() ==> (#[trigger] filled(found, miss_positions(found), fresh)[i]) is Some,
        forall|i: int| 0 <= i < found.len() && found[i] is Some ==> #[trigger] filled(found, miss_positions(found), fresh)[i] == found[i],
        forall|j: int| 0 <= j < fresh.len() ==> #[trigger] filled(found, miss_positions(found), fresh)[miss_positions(found)[j] as int] == Some(fresh[j]),
{
    let ps = miss_positions(found);
    lemma_miss_positions(found);
    lemma_filled_at(found, ps, fresh);
    let r = filled(found, ps, fresh);
    assert forall|i: int| 0 <= i < found.len() implies (#[trigger] r[i]) is Some by {
        if found[i] is None {
            lemma_misses_listed(found, i);
            let j = choose|j: int| 0 <= j < ps.len() && ps[j] == i;
            assert(r[ps[j] as int] == Some(fresh[j]));
        } else {
            assert forall|j: int| 0 <= j < fresh.len() implies #[trigger] ps[j] != i by {
                assert(found[ps[j] as int] is None);
            }
        }
    }
    assert forall|i: int| 0 <= i < found.len() && found[i] is Some implies #[trigger] r[i] == found[i] by {
        assert forall|j: int| 0 <= j < fresh.len() implies #[trigger] ps[j] != i by {
            assert(found[ps[j] as int] is None);
        }
    }
}

/// Puts freshly embedded vectors in the places of the misses, pairing
/// them in order (a vector without a place, or a place without a vector,
/// is left out).
pub fn fill_misses<V>(found: Vec<Option<V>>, positions: &Vec<usize>, fresh: Vec<V>) -> (r: Vec<Option<V>>)
    requires
        forall|j: int| 0 <= j < positions@.len() ==> #[trigger] positions@[j] < found@.len(),
    ensures
        r@ == filled(found@, positions@, fresh@),
{
    let mut slots = found;
    let mut rest = fresh;
    let ghost all = rest@;
    let n = if rest.len() < positions.len() {
        rest.len()
    } else {
        positions.len()
    };
    let mut j: usize = 0;
    proof {
        assert(all.take(0) =~= Seq::<V>::empty());
        assert(rest@ =~= all.skip(0));
    }
    while j < n
        invariant
            n <= all.len(),
            n <= positions@.len(),
            j <= n,
            rest@ == all.skip(j as int),
            slots@.len() == found@.len(),
            slots@ == filled(found@, positions@, all.take(j as int)),
            forall|i: int| 0 <= i < positions@.len() ==> #[trigger] positions@[i] < found@.len(),
        decreases n - j,
    {
        let v = rest.remove(0);
        proof {
            let t = all.take(j + 1);
            assert(t.drop_last() =~= all.take(j as int));
            assert(t[j as int] == v);
            assert(rest@ =~= all.skip(j + 1));
        }
        let p = positions[j];
        slots.set(p, Some(v));
        j = j + 1;
    }
    proof {
        if all.len() <= positions@.len() {
            assert(all.take(n as int) =~= all);
        } else {
            assert(all.take(n as int) =~= all.take(positions@.len() as int));
            let t = all.take(positions@.len() as int);
            assert(filled(found@, positions@, all) == filled(found@, positions@, t));
        }
    }
    slots
}

/// What a worker batch ends with: one reply per request (its vector, or
/// `None` when it got none and is answered with an empty vector), and the
/// positions whose fresh vectors go to the store.
pub struct BatchReplies<V> {
    pub replies: Vec<Option<V>>,
    pub stored: Vec<usize>,
}

/// Ends a worker batch.  `found` holds, per request, the vector the store
/// had; `fresh` what the engine gave for the misses, in order (`None` when
/// embedding failed).  Hits are answered from the store; the misses get
/// the fresh vectors in order, and those go to the store; when embedding
/// failed, the misses get nothing and nothing is stored.
pub fn batch_replies<V>(found: Vec<Option<V>>, fresh: Option<Vec<V>>) -> (r: BatchReplies<V>)
    ensures
        r.replies@.len() == found@.len(),
        match fresh {
            Some(v) => {
                &&& r.replies@ == filled(found@, miss_positions(found@), v@)
                &&& r.stored@ == miss_positions(found@).take(
                    if v@.len() < miss_positions(found@).len() {
                        v@.len() as int
                    } else {
                        miss_positions(found@).len() as int
                    },
                )
            },
            None => r.replies@ == found@ && r.stored@.len() == 0,
        },
{
    let misses = misses_of(&found);
    let _batch_len = found.len();
    proof {
        lemma_miss_positions(found@);
    }
    match fresh {
        Some(v) => {
            let n = if v.len() < misses.len() {
                v.len()
            } else {
                misses.len()
            };
            let mut stored: Vec<usize> = Vec::new();
            let mut i: usize = 0;
            while i < n
                invariant
                    n <= misses@.len(),
                    i <= n,
                    stored@ == misses@.take(i as int),
                decreases n - i,
            {
                stored.push(misses[i]);
                i = i + 1;
                proof {
                    assert(misses@.take(i as int) =~= misses@.take(i - 1).push(misses@[i - 1]));
                }
            }
            let replies = fill_misses(found, &misses, v);
            proof {
                lemma_filled_at(found@, misses@, v@.take(n as int));
                if v@.len() <= misses@.len() {
                    assert(v@.take(n as int) =~= v@);
                }
            }
            BatchReplies { replies, stored }
        },
        None => BatchReplies { replies: found, stored: Vec::new() },
    }
}

/// The persistent store's key of a content hash: `model:hash`, so that
/// vectors of another model are never found.
pub fn store_key(model_name: &str, hash: &str) -> (r: String)
    ensures
        r@ == model_name@ + seq![':'] + hash@,
{
    let mut out = String::from_str(model_name);
    proof {
        reveal_strlit(":");
    }
    out.append(":");
    out.append(hash);
    out
}

/// What opening the persistent store does with the model name it has on
/// record: record the current one unless it is already there, and warn
/// when another model was recorded.
pub fn model_record_action(recorded: Option<&str>, model_name: &str) -> (r: (bool, bool))
    ensures
        r.0 == !(recorded matches Some(m) && m@ == model_name@),
        r.1 == (recorded matches Some(m) && m@ != model_name@),
{
    match recorded {
        Some(m) => {
            let same = crate::text::str_eq(m, model_name);
            (!same, !same)
        },
        None => (true, false),
    }
}

} // verus!
