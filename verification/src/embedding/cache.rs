//! The in-memory embedding cache: least-recently-used entries keyed by a
//! fingerprint of the normalized text and the model version.  Vectors are
//! held as the bit patterns of their components (`f32::to_bits`).

use vstd::prelude::*;
use crate::digest::{content_hash_text, hash_hex};
use crate::text::{to_lowercase, trim, unicode_lowercase, unicode_trim};

verus! {

/// Hit, miss and size counts of the embedding cache.
#[derive(Clone, Debug)]
pub struct CacheStats {
    pub hits: u64,
    pub misses: u64,
    pub size: usize,
}

/// The text a cache key is the fingerprint of: the trimmed, lower-cased text,
/// a `:` and the model version.
pub open spec fn cache_key_source(text: Seq<char>, model_version: Seq<char>) -> Seq<char> {
    unicode_lowercase(unicode_trim(text)) + seq![':'] + model_version
}

/// The cache key of a text for a model: the BLAKE3 fingerprint of
/// `lowercase(trim(text)) + ":" + model_version`, so that texts differing
/// only in case or surrounding white space share an entry.
pub fn cache_key(text: &str, model_version: &str) -> (r: String)
    ensures
        r@ == content_hash_text(cache_key_source(text@, model_version@)),
{
    let normalized = to_lowercase(trim(text));
    let mut source = normalized;
    source.append(":");
    source.append(model_version);
    proof {
        reveal_strlit(":");
        assert(":"@ =~= seq![':']);
        assert(source@ =~= cache_key_source(text@, model_version@));
    }
    hash_hex(source.as_str())
}

/// An LRU cache of the `lru` crate, carried through opaquely.
#[verifier::external_type_specification]
#[verifier::external_body]
#[verifier::reject_recursive_types(K)]
#[verifier::reject_recursive_types(V)]
#[verifier::reject_recursive_types(S)]
pub struct ExLruCache<K, V, S>(lru::LruCache<K, V, S>);

/// The hasher an LRU cache uses by default, carried through opaquely.
#[verifier::external_type_specification]
#[verifier::external_body]
pub struct ExLruHasher(lru::DefaultHasher);

/// The entries of an LRU cache, most recently used first.
pub uninterp spec fn lru_entries(c: lru::LruCache<String, Vec<u32>>) -> Seq<(Seq<char>, Seq<u32>)>;

/// The capacity an LRU cache was made with.
pub uninterp spec fn lru_capacity(c: lru::LruCache<String, Vec<u32>>) -> nat;

/// The position of the entry with key `k`, if any.
pub open spec fn entry_position(es: Seq<(Seq<char>, Seq<u32>)>, k: Seq<char>) -> Option<int> {
    if exists|i: int| 0 <= i < es.len() && es[i].0 == k {
        Some(choose|i: int| 0 <= i < es.len() && es[i].0 == k)
    } else {
        None
    }
}

/// No key occurs twice.
pub open spec fn distinct_keys(es: Seq<(Seq<char>, Seq<u32>)>) -> bool {
    forall|i: int, j: int| 0 <= i < j < es.len() ==> es[i].0 != es[j].0
}

/// The value stored under `k`, if any.
pub open spec fn lookup(es: Seq<(Seq<char>, Seq<u32>)>, k: Seq<char>) -> Option<Seq<u32>> {
    match entry_position(es, k) {
        Some(i) => Some(es[i].1),
        None => None,
    }
}

/// The entries after reading `k`: a found entry moves to the front.
pub open spec fn entries_after_get(es: Seq<(Seq<char>, Seq<u32>)>, k: Seq<char>) -> Seq<(Seq<char>, Seq<u32>)> {
    match entry_position(es, k) {
        Some(i) => seq![es[i]] + es.remove(i),
        None => es,
    }
}

/// The entries after storing `v` under `k` with capacity `cap`: the new
/// entry goes to the front, replacing an entry with the same key, or else
/// evicting the least recently used entry when the cache is full.
pub open spec fn entries_after_put(
    es: Seq<(Seq<char>, Seq<u32>)>,
    cap: nat,
    k: Seq<char>,
    v: Seq<u32>,
) -> Seq<(Seq<char>, Seq<u32>)> {
    match entry_position(es, k) {
        Some(i) => seq![(k, v)] + es.remove(i),
        None => if es.len() >= cap {
            seq![(k, v)] + es.drop_last()
        } else {
            seq![(k, v)] + es
        },
    }
}

/// `LruCache::new` with capacity `cap` (made a `NonZeroUsize`): empty.
#[verifier::external_body]
fn lru_new(cap: usize) -> (r: lru::LruCache<String, Vec<u32>>)
    requires
        cap > 0,
    ensures
        lru_entries(r) == Seq::<(Seq<char>, Seq<u32>)>::empty(),
        lru_capacity(r) == cap,
{
    lru::LruCache::new(std::num::NonZeroUsize::new(cap).unwrap())
}

/// `LruCache::get`: the value under `key` (copied out), which becomes the
/// most recently used entry.
#[verifier::external_body]
fn lru_get(c: &mut lru::LruCache<String, Vec<u32>>, key: &str) -> (r: Option<Vec<u32>>)
    requires
        distinct_keys(lru_entries(*old(c))),
    ensures
        lru_entries(*final(c)) == entries_after_get(lru_entries(*old(c)), key@),
        lru_capacity(*final(c)) == lru_capacity(*old(c)),
        match r {
            Some(v) => lookup(lru_entries(*old(c)), key@) == Some(v@),
            None => lookup(lru_entries(*old(c)), key@) is None,
        },
{
    c.get(key).cloned()
}

/// `LruCache::put`: stores `value` under `key` as the most recently used
/// entry, replacing the key's entry or evicting the least recently used
/// one when full.
#[verifier::external_body]
fn lru_put(c: &mut lru::LruCache<String, Vec<u32>>, key: String, value: Vec<u32>)
    requires
        distinct_keys(lru_entries(*old(c))),
        lru_entries(*old(c)).len() <= lru_capacity(*old(c)),
    ensures
        lru_entries(*final(c)) == entries_after_put(lru_entries(*old(c)), lru_capacity(*old(c)), key@, value@),
        lru_capacity(*final(c)) == lru_capacity(*old(c)),
{
    c.put(key, value);
}

/// `LruCache::len`: the number of entries.
#[verifier::external_body]
fn lru_len(c: &lru::LruCache<String, Vec<u32>>) -> (r: usize)
    ensures
        r == lru_entries(*c).len(),
{
    c.len()
}

/// Vectors cached by text and model version, with hit and miss counts.
pub struct EmbeddingCache {
    cache: lru::LruCache<String, Vec<u32>>,
    hits: u64,
    misses: u64,
}

/// Moving an entry to the front, replacing or evicting one keeps the keys
/// distinct and the size within the capacity.
pub proof fn lemma_entries_stay_wf(es: Seq<(Seq<char>, Seq<u32>)>, cap: nat, k: Seq<char>, v: Seq<u32>)
    requires
        distinct_keys(es),
        es.len() <= cap,
        cap >= 1,
    ensures
        distinct_keys(entries_after_get(es, k)),
        entries_after_get(es, k).len() == es.len(),
        distinct_keys(entries_after_put(es, cap, k, v)),
        entries_after_put(es, cap, k, v).len() <= cap,
{
    match entry_position(es, k) {
        Some(i) => {
            let r = es.remove(i);
            assert forall|a: int, b: int| 0 <= a < b < r.len() implies r[a].0 != r[b].0 by {
                let a2 = if a < i { a } else { a + 1 };
                let b2 = if b < i { b } else { b + 1 };
                assert(r[a] == es[a2] && r[b] == es[b2]);
            }
            assert forall|j: int| 0 <= j < r.len() implies r[j].0 != k by {
                let j2 = if j < i { j } else { j + 1 };
                assert(r[j] == es[j2]);
            }
            let g = seq![es[i]] + r;
            assert forall|a: int, b: int| 0 <= a < b < g.len() implies g[a].0 != g[b].0 by {
                if a == 0 {
                    assert(g[b] == r[b - 1]);
                } else {
                    assert(g[a] == r[a - 1] && g[b] == r[b - 1]);
                }
            }
            let p = seq![(k, v)] + r;
            assert forall|a: int, b: int| 0 <= a < b < p.len() implies p[a].0 != p[b].0 by {
                if a == 0 {
                    assert(p[b] == r[b - 1]);
                } else {
                    assert(p[a] == r[a - 1] && p[b] == r[b - 1]);
                }
            }
        },
        None => {
            assert forall|j: int| 0 <= j < es.len() implies es[j].0 != k by {}
            let r = if es.len() >= cap {
                es.drop_last()
            } else {
                es
            };
            let p = seq![(k, v)] + r;
            assert forall|a: int, b: int| 0 <= a < b < p.len() implies p[a].0 != p[b].0 by {
                if a == 0 {
                    assert(p[b] == r[b - 1]);
                    assert(r[b - 1] == es[b - 1]);
                } else {
                    assert(p[a] == r[a - 1] && p[b] == r[b - 1]);
                    assert(r[a - 1] == es[a - 1] && r[b - 1] == es[b - 1]);
                }
            }
        },
    }
}

/// A value just stored is what a read of its key gives.
pub proof fn lemma_put_then_lookup(es: Seq<(Seq<char>, Seq<u32>)>, cap: nat, k: Seq<char>, v: Seq<u32>)
    requires
        distinct_keys(es),
        es.len() <= cap,
        cap >= 1,
    ensures
        lookup(entries_after_put(es, cap, k, v), k) == Some(v),
{
    lemma_entries_stay_wf(es, cap, k, v);
    let p = entries_after_put(es, cap, k, v);
    assert(p[0] == (k, v));
    let i = choose|i: int| 0 <= i < p.len() && p[i].0 == k;
    assert(i == 0) by {
        if i != 0 {
            assert(p[0].0 == p[i].0);
        }
    }
}

impl EmbeddingCache {
    /// The entries, most recently used first.
    pub closed spec fn entries(&self) -> Seq<(Seq<char>, Seq<u32>)> {
        lru_entries(self.cache)
    }

    /// How many entries the cache holds at most.
    pub closed spec fn capacity(&self) -> nat {
        lru_capacity(self.cache)
    }

    /// Hits so far.
    pub closed spec fn hit_count(&self) -> u64 {
        self.hits
    }

    /// Misses so far.
    pub closed spec fn miss_count(&self) -> u64 {
        self.misses
    }

    /// Keys are distinct and the cache is within its capacity.
    pub open spec fn wf(&self) -> bool {
        &&& distinct_keys(self.entries())
        &&& self.entries().len() <= self.capacity()
        &&& self.capacity() >= 1
    }

    /// An empty cache holding at most `capacity` vectors (at least one).
    pub fn new(capacity: usize) -> (r: EmbeddingCache)
        ensures
            r.wf(),
            r.entries() == Seq::<(Seq<char>, Seq<u32>)>::empty(),
            r.capacity() == (if capacity == 0 {
                1
            } else {
                capacity
            }),
            r.hit_count() == 0,
            r.miss_count() == 0,
    {
        let cap = if capacity == 0 {
            1
        } else {
            capacity
        };
        EmbeddingCache { cache: lru_new(cap), hits: 0, misses: 0 }
    }

    /// The vector cached for `text` under `model_version`, if any; counts
    /// a hit or a miss.  A found entry becomes the most recently used.
    pub fn get(&mut self, text: &str, model_version: &str) -> (r: Option<Vec<u32>>)
        requires
            old(self).wf(),
        ensures
            final(self).wf(),
            ({
                let k = content_hash_text(cache_key_source(text@, model_version@));
                &&& final(self).entries() == entries_after_get(old(self).entries(), k)
                &&& match r {
                    Some(v) => lookup(old(self).entries(), k) == Some(v@),
                    None => lookup(old(self).entries(), k) is None,
                }
            }),
            final(self).capacity() == old(self).capacity(),
            final(self).hit_count() == (if r is Some {
                old(self).hit_count().wrapping_add(1)
            } else {
                old(self).hit_count()
            }),
            final(self).miss_count() == (if r is None {
                old(self).miss_count().wrapping_add(1)
            } else {
                old(self).miss_count()
            }),
    {
        let key = cache_key(text, model_version);
        proof {
            lemma_entries_stay_wf(lru_entries(self.cache), lru_capacity(self.cache), key@, seq![]);
        }
        let r = lru_get(&mut self.cache, key.as_str());
        if r.is_some() {
            self.hits = self.hits.wrapping_add(1);
        } else {
            self.misses = self.misses.wrapping_add(1);
        }
        r
    }

    /// Caches `embedding` for `text` under `model_version`, as the most
    /// recently used entry.
    pub fn put(&mut self, text: &str, model_version: &str, embedding: Vec<u32>)
        requires
            old(self).wf(),
        ensures
            final(self).wf(),
            final(self).entries() == entries_after_put(
                old(self).entries(),
                old(self).capacity(),
                content_hash_text(cache_key_source(text@, model_version@)),
                embedding@,
            ),
            final(self).capacity() == old(self).capacity(),
            final(self).hit_count() == old(self).hit_count(),
            final(self).miss_count() == old(self).miss_count(),
    {
        let key = cache_key(text, model_version);
        proof {
            lemma_entries_stay_wf(lru_entries(self.cache), lru_capacity(self.cache), key@, embedding@);
        }
        lru_put(&mut self.cache, key, embedding);
    }

    /// Hits, misses and the number of entries.
    pub fn stats(&self) -> (r: CacheStats)
        ensures
            r.hits == self.hit_count(),
            r.misses == self.miss_count(),
            r.size == self.entries().len(),
    {
        CacheStats { hits: self.hits, misses: self.misses, size: lru_len(&self.cache) }
    }
}

/// Caching and then reading a text gives back what was cached, also for
/// a text that differs only in case and surrounding white space.
pub proof fn lemma_cache_read_after_write(
    es: Seq<(Seq<char>, Seq<u32>)>,
    cap: nat,
    written: Seq<char>,
    read: Seq<char>,
    model_version: Seq<char>,
    v: Seq<u32>,
)
    requires
        distinct_keys(es),
        es.len() <= cap,
        cap >= 1,
        unicode_lowercase(unicode_trim(written)) == unicode_lowercase(unicode_trim(read)),
    ensures
        lookup(
            entries_after_put(es, cap, content_hash_text(cache_key_source(written, model_version)), v),
            content_hash_text(cache_key_source(read, model_version)),
        ) == Some(v),
{
    assert(cache_key_source(written, model_version) == cache_key_source(read, model_version));
    lemma_put_then_lookup(es, cap, content_hash_text(cache_key_source(written, model_version)), v);
}

} // verus!
