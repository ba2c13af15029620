//! Debouncing file-change events.
//!
//! Changed paths are collected (each once) until no new change has come
//! for the debounce period; then they are handed over together.  Time is
//! given in milliseconds by the caller, which also does the waiting.

use vstd::prelude::*;
use crate::codebase::scanner::{
    code_extension, extension_of_path, ignored_component, is_code_file, is_ignored_path, plain_path,
    slash_segments, some_extension_is,
};
use crate::text::unicode_lowercase;

verus! {

/// Quiet time, in milliseconds, after which collected changes are handed over.
pub const DEBOUNCE_MS: u64 = 2000;
/// How long to wait for the next event while changes are pending.
pub const PENDING_POLL_MS: u64 = 500;
/// How long to wait for the next event while nothing is pending.
pub const IDLE_POLL_MS: u64 = 3_600_000;

/// The texts of some strings.
pub open spec fn path_texts(v: Seq<String>) -> Seq<Seq<char>> {
    v.map_values(|s: String| s@)
}

/// `s` holds no text twice.
pub open spec fn no_repeats(s: Seq<Seq<char>>) -> bool {
    forall|i: int, j: int| 0 <= i < j < s.len() ==> s[i] != s[j]
}

/// Collected changes waiting for a quiet period.
pub struct Debouncer {
    pub pending: Vec<String>,
    pub last_event_ms: Option<u64>,
    pub debounce_ms: u64,
}

/// Whether a changed path is worth re-indexing: a code file outside
/// hidden, dependency and build directories.
pub fn should_watch(path: &str) -> (r: bool)
    ensures
        r ==> some_extension_is(path@, |e: Seq<char>| code_extension(unicode_lowercase(e))),
        !path@.contains('.') ==> !r,
        plain_path(path@) ==> r == (!(exists|s: Seq<char>| #[trigger] slash_segments(path@).contains(s) && ignored_component(s))
            && (extension_of_path(path@) matches Some(e) && code_extension(unicode_lowercase(e)))),
{
    !is_ignored_path(path) && is_code_file(path)
}

impl Debouncer {
    /// No path is pending twice.
    pub open spec fn wf(&self) -> bool {
        no_repeats(path_texts(self.pending@))
    }

    /// A debouncer with nothing pending and the default quiet period.
    pub fn new() -> (r: Debouncer)
        ensures
            r.wf(),
            r.pending@.len() == 0,
            r.last_event_ms is None,
            r.debounce_ms == DEBOUNCE_MS,
    {
        Debouncer { pending: Vec::new(), last_event_ms: None, debounce_ms: DEBOUNCE_MS }
    }

    /// How long to wait for the next event.
    pub fn poll_ms(&self) -> (r: u64)
        ensures
            r == (if self.last_event_ms is Some {
                PENDING_POLL_MS
            } else {
                IDLE_POLL_MS
            }),
    {
        if self.last_event_ms.is_some() {
            PENDING_POLL_MS
        } else {
            IDLE_POLL_MS
        }
    }

    /// Records a changed path at time `now_ms`.
    pub fn record(&mut self, path: String, now_ms: u64)
        requires
            old(self).wf(),
        ensures
            final(self).wf(),
            final(self).last_event_ms == Some(now_ms),
            final(self).debounce_ms == old(self).debounce_ms,
            path_texts(final(self).pending@) == (if path_texts(old(self).pending@).contains(path@) {
                path_texts(old(self).pending@)
            } else {
                path_texts(old(self).pending@).push(path@)
            }),
    {
        let mut i: usize = 0;
        let mut found = false;
        while i < self.pending.len()
            invariant
                i <= self.pending@.len(),
                found ==> path_texts(self.pending@).contains(path@),
                !found ==> forall|j: int| 0 <= j < i ==> self.pending@[j]@ != path@,
            decreases self.pending.len() - i,
        {
            if self.pending[i] == path {
                found = true;
                assert(path_texts(self.pending@)[i as int] == path@);
            }
            i = i + 1;
        }
        if !found {
            let ghost before = path_texts(self.pending@);
            proof {
                assert(!before.contains(path@)) by {
                    if before.contains(path@) {
                        let j = choose|j: int| 0 <= j < before.len() && before[j] == path@;
                        assert(self.pending@[j]@ == path@);
                    }
                }
            }
            self.pending.push(path);
            proof {
                assert(path_texts(self.pending@) =~= before.push(path@));
            }
        }
        self.last_event_ms = Some(now_ms);
    }

    /// At time `now_ms`, once the quiet period since the last change has
    /// passed: hands over the pending paths (`None` when there are none)
    /// and starts over.  Before that, nothing changes.
    pub fn take_due(&mut self, now_ms: u64) -> (r: Option<Vec<String>>)
        requires
            old(self).wf(),
        ensures
            final(self).wf(),
            final(self).debounce_ms == old(self).debounce_ms,
            (old(self).last_event_ms matches Some(t) && now_ms - t >= old(self).debounce_ms) ==> {
                &&& final(self).last_event_ms is None
                &&& final(self).pending@.len() == 0
                &&& match r {
                    Some(v) => v@ == old(self).pending@ && v@.len() > 0,
                    None => old(self).pending@.len() == 0,
                }
            },
            !(old(self).last_event_ms matches Some(t) && now_ms - t >= old(self).debounce_ms) ==> {
                &&& *final(self) == *old(self)
                &&& r is None
            },
    {
        match self.last_event_ms {
            Some(t) => {
                if now_ms >= t && now_ms - t >= self.debounce_ms {
                    let mut paths: Vec<String> = Vec::new();
                    std::mem::swap(&mut paths, &mut self.pending);
                    self.last_event_ms = None;
                    proof {
                        assert(path_texts(self.pending@) =~= Seq::<Seq<char>>::empty());
                    }
                    if paths.len() > 0 {
                        Some(paths)
                    } else {
                        None
                    }
                } else {
                    None
                }
            },
            None => None,
        }
    }

    /// Cancels: the pending paths are dropped; returns how many there were.
    pub fn cancel(&mut self) -> (r: usize)
        ensures
            r == old(self).pending@.len(),
            final(self).pending@.len() == 0,
            final(self).wf(),
            final(self).last_event_ms == old(self).last_event_ms,
            final(self).debounce_ms == old(self).debounce_ms,
    {
        let n = self.pending.len();
        self.pending = Vec::new();
        proof {
            assert(path_texts(self.pending@) =~= Seq::<Seq<char>>::empty());
        }
        n
    }
}

} // verus!
