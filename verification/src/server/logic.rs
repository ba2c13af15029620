//! Defaults and limits applied to tool parameters.

use vstd::prelude::*;
use crate::numfmt::{decimal, push_decimal};
use crate::text::{chars_of, string_of};
use crate::types::entity::direction_named;
use crate::types::{Direction, IndexState, IndexStatus, MemoryType};
use crate::types::memory::memory_type_named;
use crate::text::unicode_lowercase;

verus! {

/// Page size used when a request gives none.
pub const DEFAULT_LIMIT: usize = 20;
/// Largest page size a request may ask for.
pub const MAX_LIMIT: usize = 100;

/// The page size for a request: the default when none is given, capped at `MAX_LIMIT`.
pub fn normalize_limit(limit: Option<usize>) -> (r: usize)
    ensures
        r == match limit {
            Some(l) => if l < MAX_LIMIT {
                l
            } else {
                MAX_LIMIT
            },
            None => DEFAULT_LIMIT,
        },
{
    let l = match limit {
        Some(l) => l,
        None => DEFAULT_LIMIT,
    };
    if l < MAX_LIMIT {
        l
    } else {
        MAX_LIMIT
    }
}

/// Every page size a request can get lies between 0 and `MAX_LIMIT`, and
/// a requested size within the cap is kept as asked.
pub proof fn lemma_normalize_limit_bounds(limit: Option<usize>, r: usize)
    requires
        r == match limit {
            Some(l) => if l < MAX_LIMIT {
                l
            } else {
                MAX_LIMIT
            },
            None => DEFAULT_LIMIT,
        },
    ensures
        r <= MAX_LIMIT,
        limit is Some && limit->0 <= MAX_LIMIT ==> r == limit->0,
{
}

/// Deepest relation walk a request may ask for.
pub const MAX_RELATED_DEPTH: usize = 3;

/// What a request to index a project leads to.
#[derive(Clone, Copy, Debug, PartialEq, Eq, Structural)]
pub enum IndexRequest {
    /// A run is going on: report its progress instead.
    AlreadyIndexing,
    /// Start a run in the background.
    Start,
}

/// A request to index a project starts a run unless the stored status
/// says one is going on.
pub fn index_request(current: Option<IndexState>) -> (r: IndexRequest)
    ensures
        r == (if current == Some(IndexState::Indexing) {
            IndexRequest::AlreadyIndexing
        } else {
            IndexRequest::Start
        }),
{
    match current {
        Some(IndexState::Indexing) => IndexRequest::AlreadyIndexing,
        _ => IndexRequest::Start,
    }
}

/// The larger of two counts.
pub open spec fn larger(a: u32, b: u32) -> u32 {
    if a >= b {
        a
    } else {
        b
    }
}

/// The status reported for a project: while it is being indexed, the
/// live counters (when non-zero) raise the stored file counts.
pub fn merge_live_progress(status: IndexStatus, live_indexed: u32, live_total: u32) -> (r: IndexStatus)
    ensures
        status.status == IndexState::Indexing && live_indexed > 0 ==> r.indexed_files == larger(status.indexed_files, live_indexed),
        !(status.status == IndexState::Indexing && live_indexed > 0) ==> r.indexed_files == status.indexed_files,
        status.status == IndexState::Indexing && live_total > 0 ==> r.total_files == larger(status.total_files, live_total),
        !(status.status == IndexState::Indexing && live_total > 0) ==> r.total_files == status.total_files,
        r.project_id == status.project_id,
        r.status == status.status,
        r.total_chunks == status.total_chunks,
        r.total_symbols == status.total_symbols,
        r.failed_files == status.failed_files,
        r.started_at == status.started_at,
        r.completed_at == status.completed_at,
        r.error_message == status.error_message,
{
    let mut s = status;
    if s.status == IndexState::Indexing {
        if live_indexed > 0 && live_indexed > s.indexed_files {
            s.indexed_files = live_indexed;
        }
        if live_total > 0 && live_total > s.total_files {
            s.total_files = live_total;
        }
    }
    s
}

/// The progress text of a run: `indexed/total files`.
pub fn progress_text(indexed: u32, total: u32) -> (r: String)
    ensures
        r@ == decimal(indexed as nat) + "/"@ + decimal(total as nat) + " files"@,
{
    let mut out: Vec<char> = Vec::new();
    push_decimal(indexed as u64, &mut out);
    out.push('/');
    push_decimal(total as u64, &mut out);
    let tail = chars_of(" files");
    let mut k: usize = 0;
    let ghost head = out@;
    while k < tail.len()
        invariant
            k <= tail@.len(),
            out@ == head + tail@.take(k as int),
        decreases tail.len() - k,
    {
        out.push(tail[k]);
        proof {
            assert(tail@.take(k + 1) =~= tail@.take(k as int).push(tail@[k as int]));
        }
        k = k + 1;
    }
    proof {
        reveal_strlit("/");
        assert(tail@.take(k as int) =~= tail@);
        assert(out@ =~= decimal(indexed as nat) + "/"@ + decimal(total as nat) + " files"@);
    }
    string_of(out.as_slice())
}

/// The walk a related-symbols request asks for: depth 1 unless given,
/// at most `MAX_RELATED_DEPTH`; the direction named (any case), outgoing
/// unless given or known.
pub fn related_query(depth: Option<usize>, direction: Option<&str>) -> (r: (usize, Direction))
    ensures
        r.0 == match depth {
            Some(d) => if d < MAX_RELATED_DEPTH {
                d
            } else {
                MAX_RELATED_DEPTH
            },
            None => 1,
        },
        r.1 == match direction {
            Some(s) => direction_named(unicode_lowercase(s@)),
            None => Direction::Outgoing,
        },
{
    let d = match depth {
        Some(d) => d,
        None => 1,
    };
    let d = if d < MAX_RELATED_DEPTH {
        d
    } else {
        MAX_RELATED_DEPTH
    };
    let dir = match direction {
        Some(s) => Direction::parse_name(s),
        None => Direction::Outgoing,
    };
    (d, dir)
}

/// How long a client should wait before asking again while the model
/// loads: the estimate when there is one (else 5 seconds), at most 10.
pub fn retry_after_seconds(eta_seconds: Option<u64>) -> (r: u64)
    ensures
        r == match eta_seconds {
            Some(e) => if e < 10 {
                e
            } else {
                10
            },
            None => 5,
        },
{
    match eta_seconds {
        Some(e) => if e < 10 {
            e
        } else {
            10
        },
        None => 5,
    }
}

/// The memory type a request names: the type of that name (any case),
/// `Semantic` when none is given or the name is unknown.
pub fn requested_memory_type(name: Option<&str>) -> (r: MemoryType)
    ensures
        r == match name {
            Some(n) => match memory_type_named(unicode_lowercase(n@)) {
                Some(t) => t,
                None => MemoryType::Semantic,
            },
            None => MemoryType::Semantic,
        },
{
    match name {
        Some(n) => match MemoryType::parse_name(n) {
            Ok(t) => t,
            Err(_) => MemoryType::Semantic,
        },
        None => MemoryType::Semantic,
    }
}

/// The memory type an update names, if it names a known one.
pub fn updated_memory_type(name: Option<&str>) -> (r: Option<MemoryType>)
    ensures
        r == match name {
            Some(n) => memory_type_named(unicode_lowercase(n@)),
            None => None,
        },
{
    match name {
        Some(n) => match MemoryType::parse_name(n) {
            Ok(t) => Some(t),
            Err(_) => None,
        },
        None => None,
    }
}

/// The page a listing request asks for: its size (see `normalize_limit`)
/// and its offset (0 unless given).
pub fn list_window(limit: Option<usize>, offset: Option<usize>) -> (r: (usize, usize))
    ensures
        r.0 == match limit {
            Some(l) => if l < MAX_LIMIT {
                l
            } else {
                MAX_LIMIT
            },
            None => DEFAULT_LIMIT,
        },
        r.1 == match offset {
            Some(o) => o,
            None => 0,
        },
{
    let o = match offset {
        Some(o) => o,
        None => 0,
    };
    (normalize_limit(limit), o)
}

} // verus!
