//! Deciding when a project's indexing is over.
//!
//! Every `POLL_INTERVAL_SECS` seconds the service looks at each project's
//! status.  An indexing run whose file count has not moved for
//! `STALL_TICKS` looks is marked failed.  A run waiting for embeddings is
//! marked completed once every chunk and symbol has its embedding (and
//! there is at least one), or once the embedded counts have not moved for
//! `STUCK_TICKS` looks.  The counters live in a map keyed by project (with
//! an `idx:` prefix for indexing runs).

use vstd::prelude::*;
use vstd::hash_map::StringHashMap;
use crate::numfmt::{decimal, push_decimal};
use crate::text::string_of;
use crate::types::{IndexState, IndexStatus};

verus! {

/// Seconds between two looks at the projects.
pub const POLL_INTERVAL_SECS: u64 = 10;
/// Looks without indexing progress after which a run is marked failed.
pub const STALL_TICKS: u8 = 30;
/// Looks without embedding progress after which a run is marked completed.
pub const STUCK_TICKS: u8 = 6;

/// A counter: the two counts last seen and the looks since they moved.
pub type Progress = (u32, u32, u8);

/// The counter key of a project's indexing run.
pub open spec fn stall_key(project_id: Seq<char>) -> Seq<char> {
    "idx:"@ + project_id
}

/// The message of a run marked failed for stalling.
pub open spec fn stall_message(indexed: u32, total: u32) -> Seq<char> {
    "Indexing stalled at "@ + decimal(indexed as nat) + "/"@ + decimal(total as nat) + " files for >300s"@
}

/// One look at an indexing run: the counters afterwards, and whether the
/// run is to be marked failed.
pub open spec fn indexing_look(m: Map<Seq<char>, Progress>, key: Seq<char>, indexed: u32) -> (Map<Seq<char>, Progress>, bool) {
    let e: Progress = if m.contains_key(key) {
        m[key]
    } else {
        (indexed, 0u32, 0u8)
    };
    if e.0 == indexed {
        if e.2 + 1 >= STALL_TICKS {
            (m.remove(key), true)
        } else {
            (m.insert(key, (e.0, e.1, (e.2 + 1) as u8)), false)
        }
    } else {
        (m.insert(key, (indexed, e.1, 0u8)), false)
    }
}

/// The four counts of a project waiting for embeddings.
#[derive(Clone, Copy, Debug)]
pub struct EmbeddingCounts {
    pub total_chunks: u32,
    pub total_symbols: u32,
    pub embedded_chunks: u32,
    pub embedded_symbols: u32,
}

/// Every chunk and symbol has its embedding.
pub open spec fn all_embedded(c: EmbeddingCounts) -> bool {
    c.embedded_chunks >= c.total_chunks && c.embedded_symbols >= c.total_symbols
}

/// One look at a run waiting for embeddings: the counters afterwards, and
/// whether the run is to be marked completed.
pub open spec fn embedding_look(m: Map<Seq<char>, Progress>, key: Seq<char>, c: EmbeddingCounts) -> (Map<Seq<char>, Progress>, bool) {
    let has_content = c.total_chunks > 0 || c.total_symbols > 0;
    if all_embedded(c) {
        if has_content {
            (m.remove(key), true)
        } else {
            (m, false)
        }
    } else {
        let e: Progress = if m.contains_key(key) {
            m[key]
        } else {
            (c.embedded_chunks, c.embedded_symbols, 0u8)
        };
        if e.0 == c.embedded_chunks && e.1 == c.embedded_symbols {
            if e.2 + 1 >= STUCK_TICKS {
                (m.remove(key), true)
            } else {
                (m.insert(key, (e.0, e.1, (e.2 + 1) as u8)), false)
            }
        } else {
            (m.insert(key, (c.embedded_chunks, c.embedded_symbols, 0u8)), false)
        }
    }
}

/// What to do after looking at a project's status.
pub enum MonitorAction {
    /// Nothing to store.
    Nothing,
    /// Count the project's chunks and symbols, with and without
    /// embeddings, and look again with `complete_with_counts`.
    CountEmbeddings,
    /// Store this status: the run stalled.
    MarkFailed(IndexStatus),
}

/// `s` is `status` with another state and, where given, other counts and
/// message; the rest is unchanged.
pub open spec fn same_run(s: IndexStatus, status: IndexStatus) -> bool {
    &&& s.project_id == status.project_id
    &&& s.total_files == status.total_files
    &&& s.indexed_files == status.indexed_files
    &&& s.failed_files@ == status.failed_files@
    &&& s.started_at == status.started_at
    &&& s.completed_at == status.completed_at
}

/// The counters of all projects.
pub struct CompletionMonitor {
    pub progress: StringHashMap<Progress>,
}

/// Every counter is below `STALL_TICKS`, so one more look fits.
pub open spec fn counters_bounded(m: Map<Seq<char>, Progress>) -> bool {
    forall|k: Seq<char>| m.contains_key(k) ==> #[trigger] m[k].2 < STALL_TICKS
}

/// Builds the stall message.
fn stall_message_exec(indexed: u32, total: u32) -> (r: String)
    ensures
        r@ == stall_message(indexed, total),
{
    let mut out: Vec<char> = Vec::new();
    let prefix = crate::text::chars_of("Indexing stalled at ");
    let slash = crate::text::chars_of("/");
    let suffix = crate::text::chars_of(" files for >300s");
    crate::codebase::chunker::extend_chars(&mut out, &prefix);
    push_decimal(indexed as u64, &mut out);
    crate::codebase::chunker::extend_chars(&mut out, &slash);
    push_decimal(total as u64, &mut out);
    crate::codebase::chunker::extend_chars(&mut out, &suffix);
    proof {
        assert(out@ =~= stall_message(indexed, total));
    }
    string_of(out.as_slice())
}

impl CompletionMonitor {
    /// The counters stay small.
    pub open spec fn wf(&self) -> bool {
        counters_bounded(self.progress@)
    }

    /// A monitor with no counters.
    pub fn new() -> (r: CompletionMonitor)
        ensures
            r.wf(),
            r.progress@ == Map::<Seq<char>, Progress>::empty(),
    {
        CompletionMonitor { progress: StringHashMap::new() }
    }

    /// Looks at a project's stored status.  An indexing run counts a look
    /// without file progress and is marked failed after `STALL_TICKS` of
    /// them; a run waiting for embeddings needs its counts; any other run
    /// drops its embedding counter.
    pub fn check_and_complete_project(&mut self, project_id: &str, status: &IndexStatus) -> (r: MonitorAction)
        requires
            old(self).wf(),
        ensures
            final(self).wf(),
            status.status == IndexState::Indexing ==> {
                let look = indexing_look(old(self).progress@, stall_key(project_id@), status.indexed_files);
                &&& final(self).progress@ == look.0
                &&& match r {
                    MonitorAction::MarkFailed(s) => {
                        &&& look.1
                        &&& s.status == IndexState::Failed
                        &&& s.error_message is Some
                        &&& s.error_message->0@ == stall_message(status.indexed_files, status.total_files)
                        &&& same_run(s, *status)
                        &&& s.total_chunks == status.total_chunks
                        &&& s.total_symbols == status.total_symbols
                    },
                    MonitorAction::Nothing => !look.1,
                    MonitorAction::CountEmbeddings => false,
                }
            },
            status.status == IndexState::EmbeddingPending ==> {
                &&& final(self).progress@ == old(self).progress@
                &&& r is CountEmbeddings
            },
            (status.status != IndexState::Indexing && status.status != IndexState::EmbeddingPending) ==> {
                &&& final(self).progress@ == old(self).progress@.remove(project_id@)
                &&& r is Nothing
            },
    {
        if status.status == IndexState::Indexing {
            let mut key = String::from_str("idx:");
            key.append(project_id);
            let ghost m = self.progress@;
            assert(key@ == stall_key(project_id@));
            let e: Progress = match self.progress.get(key.as_str()) {
                Some(e) => *e,
                None => (status.indexed_files, 0, 0),
            };
            if e.0 == status.indexed_files {
                let looks = e.2 + 1;
                if looks >= STALL_TICKS {
                    self.progress.remove(key.as_str());
                    let mut failed = status.clone_status();
                    failed.status = IndexState::Failed;
                    failed.error_message = Some(stall_message_exec(status.indexed_files, status.total_files));
                    return MonitorAction::MarkFailed(failed);
                }
                self.progress.insert(key, (e.0, e.1, looks));
            } else {
                self.progress.insert(key, (status.indexed_files, e.1, 0));
            }
            return MonitorAction::Nothing;
        }
        if status.status != IndexState::EmbeddingPending {
            self.progress.remove(project_id);
            return MonitorAction::Nothing;
        }
        MonitorAction::CountEmbeddings
    }

    /// Looks at the counts of a run waiting for embeddings: `Some` status
    /// to store, marked completed with the stored totals, once everything
    /// is embedded (and there is something) or the embedded counts have
    /// not moved for `STUCK_TICKS` looks.
    pub fn complete_with_counts(
        &mut self,
        project_id: &str,
        status: &IndexStatus,
        counts: EmbeddingCounts,
    ) -> (r: Option<IndexStatus>)
        requires
            old(self).wf(),
        ensures
            final(self).wf(),
            ({
                let look = embedding_look(old(self).progress@, project_id@, counts);
                &&& final(self).progress@ == look.0
                &&& r is Some <==> look.1
            }),
            r matches Some(s) ==> {
                &&& s.status == IndexState::Completed
                &&& s.total_chunks == counts.total_chunks
                &&& s.total_symbols == counts.total_symbols
                &&& s.error_message == status.error_message
                &&& same_run(s, *status)
            },
    {
        let chunks_complete = counts.embedded_chunks >= counts.total_chunks;
        let symbols_complete = counts.embedded_symbols >= counts.total_symbols;
        let has_content = counts.total_chunks > 0 || counts.total_symbols > 0;
        let mut stuck = false;
        if !chunks_complete || !symbols_complete {
            let e: Progress = match self.progress.get(project_id) {
                Some(e) => *e,
                None => (counts.embedded_chunks, counts.embedded_symbols, 0),
            };
            if e.0 == counts.embedded_chunks && e.1 == counts.embedded_symbols {
                let looks = e.2 + 1;
                if looks >= STUCK_TICKS {
                    stuck = true;
                } else {
                    self.progress.insert(String::from_str(project_id), (e.0, e.1, looks));
                }
            } else {
                self.progress.insert(String::from_str(project_id), (counts.embedded_chunks, counts.embedded_symbols, 0));
            }
        }
        if (chunks_complete && symbols_complete && has_content) || stuck {
            self.progress.remove(project_id);
            let mut done = status.clone_status();
            done.status = IndexState::Completed;
            done.total_chunks = counts.total_chunks;
            done.total_symbols = counts.total_symbols;
            return Some(done);
        }
        None
    }
}

/// The counters and the verdict after `n` looks at an indexing run whose
/// file count stays `indexed` (stopping at the first verdict).
pub open spec fn repeated_indexing_looks(m: Map<Seq<char>, Progress>, key: Seq<char>, indexed: u32, n: nat) -> (Map<Seq<char>, Progress>, bool)
    decreases n,
{
    if n == 0 {
        (m, false)
    } else {
        let prev = repeated_indexing_looks(m, key, indexed, (n - 1) as nat);
        if prev.1 {
            prev
        } else {
            indexing_look(prev.0, key, indexed)
        }
    }
}

/// A run without file progress, first seen with no counter, is marked
/// failed on its `STALL_TICKS`-th look and not before; until then its
/// counter holds the number of looks.
pub proof fn lemma_stalled_run_fails_on_thirtieth_look(m: Map<Seq<char>, Progress>, key: Seq<char>, indexed: u32, n: nat)
    requires
        !m.contains_key(key),
        1 <= n <= STALL_TICKS,
    ensures
        n < STALL_TICKS ==> {
            let r = repeated_indexing_looks(m, key, indexed, n);
            &&& !r.1
            &&& r.0.contains_key(key)
            &&& r.0[key] == (indexed, 0u32, n as u8)
        },
        n == STALL_TICKS ==> repeated_indexing_looks(m, key, indexed, n).1,
    decreases n,
{
    let prev = repeated_indexing_looks(m, key, indexed, (n - 1) as nat);
    if n > 1 {
        lemma_stalled_run_fails_on_thirtieth_look(m, key, indexed, (n - 1) as nat);
        assert(prev.0[key].2 + 1 == n);
    } else {
        assert(prev == (m, false));
    }
    assert(repeated_indexing_looks(m, key, indexed, n) == indexing_look(prev.0, key, indexed));
}

/// The counters and the verdict after `n` looks at a run waiting for
/// embeddings whose counts stay `c` (stopping at the first verdict).
pub open spec fn repeated_embedding_looks(m: Map<Seq<char>, Progress>, key: Seq<char>, c: EmbeddingCounts, n: nat) -> (Map<Seq<char>, Progress>, bool)
    decreases n,
{
    if n == 0 {
        (m, false)
    } else {
        let prev = repeated_embedding_looks(m, key, c, (n - 1) as nat);
        if prev.1 {
            prev
        } else {
            embedding_look(prev.0, key, c)
        }
    }
}

/// A run whose embeddings are unfinished and do not move, first seen with
/// no counter, is marked completed on its `STUCK_TICKS`-th look and not
/// before.
pub proof fn lemma_stuck_embeddings_complete_on_sixth_look(m: Map<Seq<char>, Progress>, key: Seq<char>, c: EmbeddingCounts, n: nat)
    requires
        !m.contains_key(key),
        !all_embedded(c),
        1 <= n <= STUCK_TICKS,
    ensures
        n < STUCK_TICKS ==> {
            let r = repeated_embedding_looks(m, key, c, n);
            &&& !r.1
            &&& r.0.contains_key(key)
            &&& r.0[key] == (c.embedded_chunks, c.embedded_symbols, n as u8)
        },
        n == STUCK_TICKS ==> repeated_embedding_looks(m, key, c, n).1,
    decreases n,
{
    let prev = repeated_embedding_looks(m, key, c, (n - 1) as nat);
    if n > 1 {
        lemma_stuck_embeddings_complete_on_sixth_look(m, key, c, (n - 1) as nat);
        assert(prev.0[key].2 + 1 == n);
    } else {
        assert(prev == (m, false));
    }
    assert(repeated_embedding_looks(m, key, c, n) == embedding_look(prev.0, key, c));
}

/// Whatever earlier looks left behind: over `n` consecutive looks at an
/// indexing run whose file count stays `indexed`, either the run was
/// marked failed, or its counter holds `indexed` and has counted at least
/// `n` looks (`n - 1` when the counter first held another count).
pub proof fn lemma_stall_counter_grows(m: Map<Seq<char>, Progress>, key: Seq<char>, indexed: u32, n: nat)
    requires
        counters_bounded(m),
        1 <= n,
    ensures
        ({
            let r = repeated_indexing_looks(m, key, indexed, n);
            let fresh = !m.contains_key(key) || m[key].0 == indexed;
            !r.1 ==> {
                &&& r.0.contains_key(key)
                &&& r.0[key].0 == indexed
                &&& r.0[key].2 < STALL_TICKS
                &&& r.0[key].2 >= (if fresh { n as int } else { n - 1 })
            }
        }),
    decreases n,
{
    let prev = repeated_indexing_looks(m, key, indexed, (n - 1) as nat);
    if n > 1 {
        lemma_stall_counter_grows(m, key, indexed, (n - 1) as nat);
    } else {
        assert(prev == (m, false));
    }
    assert(n > 1 ==> repeated_indexing_looks(m, key, indexed, n) == (if prev.1 { prev } else { indexing_look(prev.0, key, indexed) }));
}

/// A run whose file count stays put is marked failed within `STALL_TICKS`
/// consecutive looks when its counter held that count or none, and within
/// one look more in any case.
pub proof fn lemma_stalled_run_fails(m: Map<Seq<char>, Progress>, key: Seq<char>, indexed: u32)
    requires
        counters_bounded(m),
    ensures
        (!m.contains_key(key) || m[key].0 == indexed) ==> repeated_indexing_looks(m, key, indexed, STALL_TICKS as nat).1,
        repeated_indexing_looks(m, key, indexed, (STALL_TICKS + 1) as nat).1,
{
    lemma_stall_counter_grows(m, key, indexed, STALL_TICKS as nat);
    lemma_stall_counter_grows(m, key, indexed, (STALL_TICKS + 1) as nat);
}

/// Whether a project waiting for embeddings has anything to embed.
pub open spec fn has_content(c: EmbeddingCounts) -> bool {
    c.total_chunks > 0 || c.total_symbols > 0
}

/// Whatever earlier looks left behind: over `n` consecutive looks at a run
/// whose unfinished embedded counts stay `c`, either the run was marked
/// completed, or its counter holds `c` and has counted at least `n` looks
/// (`n - 1` when the counter first held other counts).
pub proof fn lemma_stuck_counter_grows(m: Map<Seq<char>, Progress>, key: Seq<char>, c: EmbeddingCounts, n: nat)
    requires
        counters_bounded(m),
        !all_embedded(c),
        1 <= n,
    ensures
        ({
            let r = repeated_embedding_looks(m, key, c, n);
            let fresh = !m.contains_key(key) || (m[key].0 == c.embedded_chunks && m[key].1 == c.embedded_symbols);
            !r.1 ==> {
                &&& r.0.contains_key(key)
                &&& r.0[key].0 == c.embedded_chunks
                &&& r.0[key].1 == c.embedded_symbols
                &&& r.0[key].2 < STUCK_TICKS
                &&& r.0[key].2 >= (if fresh { n as int } else { n - 1 })
            }
        }),
    decreases n,
{
    let prev = repeated_embedding_looks(m, key, c, (n - 1) as nat);
    if n > 1 {
        lemma_stuck_counter_grows(m, key, c, (n - 1) as nat);
    } else {
        assert(prev == (m, false));
    }
    assert(n > 1 ==> repeated_embedding_looks(m, key, c, n) == (if prev.1 { prev } else { embedding_look(prev.0, key, c) }));
}

/// A run waiting for embeddings is marked completed on its first look when
/// everything is embedded and there is something; when its embedded counts
/// are unfinished and stay put, within `STUCK_TICKS` consecutive looks if
/// its counter held those counts or none, and within one look more in any
/// case.
pub proof fn lemma_waiting_run_completes(m: Map<Seq<char>, Progress>, key: Seq<char>, c: EmbeddingCounts)
    requires
        counters_bounded(m),
    ensures
        all_embedded(c) && has_content(c) ==> repeated_embedding_looks(m, key, c, 1).1,
        !all_embedded(c) && (!m.contains_key(key) || (m[key].0 == c.embedded_chunks && m[key].1 == c.embedded_symbols))
            ==> repeated_embedding_looks(m, key, c, STUCK_TICKS as nat).1,
        !all_embedded(c) ==> repeated_embedding_looks(m, key, c, (STUCK_TICKS + 1) as nat).1,
{
    assert(repeated_embedding_looks(m, key, c, 0) == (m, false));
    if !all_embedded(c) {
        lemma_stuck_counter_grows(m, key, c, STUCK_TICKS as nat);
        lemma_stuck_counter_grows(m, key, c, (STUCK_TICKS + 1) as nat);
    }
}

} // verus!
