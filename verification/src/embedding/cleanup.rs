//! Which model-cache artifacts are stale.
//!
//! The model hub downloads files next to `.lock` files; a process that dies
//! mid-download leaves locks and `.incomplete` files behind that block later
//! downloads.  The rules here decide what to remove; the directory walk and
//! the removals are done by the caller.

use vstd::prelude::*;
use crate::text::{chars_of, ends_with, ends_with_seq, push_char, string_of};
use super::config::{model_repo, ModelType};

verus! {

/// What a cleanup pass removed, and the non-fatal errors it met.
#[derive(Debug, Default)]
pub struct CleanupResult {
    pub locks_removed: usize,
    pub incomplete_removed: usize,
    pub errors: Vec<String>,
}

impl CleanupResult {
    /// Nothing was removed (errors are not counted).
    pub fn is_empty(&self) -> (r: bool)
        ensures
            r == (self.locks_removed == 0 && self.incomplete_removed == 0),
    {
        self.locks_removed == 0 && self.incomplete_removed == 0
    }
}

/// How stale locks are recognised.
#[derive(Clone, Debug)]
pub struct CleanupConfig {
    /// Locks older than this many seconds are stale.
    pub stale_threshold_secs: u64,
    /// Also treat a lock as stale when an exclusive `flock` on it succeeds.
    pub use_flock: bool,
}

impl Default for CleanupConfig {
    fn default() -> (r: Self)
        ensures
            r.stale_threshold_secs == 300,
            r.use_flock,
    {
        CleanupConfig { stale_threshold_secs: 5 * 60, use_flock: true }
    }
}

/// What to do with a file found in a model's blob directory.
#[derive(Clone, Copy, Debug, PartialEq, Eq, Structural)]
pub enum BlobAction {
    /// A `.lock` file: remove it if it is stale.
    CheckLock,
    /// An `.incomplete` download: remove it.
    RemoveIncomplete,
    /// Anything else: leave it.
    Keep,
}

/// Whether cleanup applies to a model at all (the mock model has no files).
pub fn cleanup_applies(model: ModelType) -> (r: bool)
    ensures
        r == (model != ModelType::Mock),
{
    !matches!(model, ModelType::Mock)
}

/// A repository id with each `/` written as `--`.
pub open spec fn dashed(repo: Seq<char>) -> Seq<char>
    decreases repo.len(),
{
    if repo.len() == 0 {
        seq![]
    } else {
        dashed(repo.drop_last()) + if repo.last() == '/' {
            seq!['-', '-']
        } else {
            seq![repo.last()]
        }
    }
}

/// The hub's cache directory name of a model: `models--` followed by the
/// repository id with each `/` written as `--`.
pub fn model_cache_dir_name(model: ModelType) -> (r: String)
    ensures
        r@ == "models--"@ + dashed(model_repo(model)),
{
    let repo = chars_of(model.repo_id());
    let mut out = String::from_str("models--");
    let mut i: usize = 0;
    while i < repo.len()
        invariant
            i <= repo@.len(),
            repo@ == model_repo(model),
            out@ == "models--"@ + dashed(repo@.subrange(0, i as int)),
        decreases repo.len() - i,
    {
        assert(repo@.subrange(0, i + 1).drop_last() =~= repo@.subrange(0, i as int));
        assert(repo@.subrange(0, i + 1).last() == repo@[i as int]);
        if repo[i] == '/' {
            push_char(&mut out, '-');
            push_char(&mut out, '-');
        } else {
            push_char(&mut out, repo[i]);
        }
        i = i + 1;
    }
    assert(repo@.subrange(0, repo@.len() as int) =~= repo@);
    out
}

/// What to do with a blob-directory file of this name: `.lock` files are
/// checked, `.incomplete` files removed, others kept.
pub fn classify_blob(file_name: &str) -> (r: BlobAction)
    ensures
        r == if ends_with_seq(file_name@, ".lock"@) {
            BlobAction::CheckLock
        } else if ends_with_seq(file_name@, ".incomplete"@) {
            BlobAction::RemoveIncomplete
        } else {
            BlobAction::Keep
        },
{
    let cs = chars_of(file_name);
    if ends_with(&cs, ".lock") {
        BlobAction::CheckLock
    } else if ends_with(&cs, ".incomplete") {
        BlobAction::RemoveIncomplete
    } else {
        BlobAction::Keep
    }
}

/// Whether a file inside a snapshot directory is an unfinished download.
pub fn is_incomplete_snapshot_file(file_name: &str) -> (r: bool)
    ensures
        r == ends_with_seq(file_name@, ".incomplete"@),
{
    let cs = chars_of(file_name);
    ends_with(&cs, ".incomplete")
}

/// A lock is stale by age when its age is known and exceeds the threshold.
/// The age is unknown (`None`) when the file's metadata or modification time
/// cannot be read, or the clock runs behind it; such a lock is kept.
pub fn is_lock_stale_by_age(age_nanos: Option<u128>, threshold_secs: u64) -> (r: bool)
    ensures
        r == match age_nanos {
            Some(a) => a > threshold_secs * 1_000_000_000,
            None => false,
        },
{
    match age_nanos {
        Some(a) => a > (threshold_secs as u128) * 1_000_000_000u128,
        None => false,
    }
}

/// A lock is removed when it is stale by age, or, where `flock` testing is
/// enabled, when nobody holds it.  `free_by_flock` is the outcome of that
/// test: whether an exclusive non-blocking `flock` on the file succeeded
/// (false when the file could not be opened).
pub fn should_remove_lock(stale_by_age: bool, config: &CleanupConfig, free_by_flock: bool) -> (r: bool)
    ensures
        r == (stale_by_age || (config.use_flock && free_by_flock)),
{
    if stale_by_age {
        return true;
    }
    config.use_flock && free_by_flock
}

} // verus!
