//! The decisions of an indexing run.
//!
//! A full run walks the project's files in order.  Each file's chunks (at
//! most `MAX_CHUNKS_PER_FILE`) and symbols go into buffers that are handed
//! out for storage in batches of exactly `INDEX_BATCH_SIZE`; what remains
//! is handed out when the run finishes, together with every reference
//! found.  Reading files, storing batches and queueing embeddings are done
//! by the caller, which feeds the results back in here.
//!
//! An incremental run looks at changed paths one by one, re-indexes a file
//! only when its content hash differs from the stored one, and counts the
//! re-indexed files and the removed paths that had chunks.

use vstd::prelude::*;
use crate::codebase::chunker::{chunk_file_in, chunked_as};
use crate::codebase::parser::{parsed_as, CodeParser};
use crate::codebase::scanner::{detect_language, detected_language};
use crate::types::Language;
use crate::digest::{content_hash_text, hash_hex};
use crate::types::{CodeChunk, CodeReference, CodeSymbol, IndexState, IndexStatus};

verus! {

/// Items stored per batch.
pub const INDEX_BATCH_SIZE: usize = 20;
/// Most chunks kept from one file.
pub const MAX_CHUNKS_PER_FILE: usize = 50;
/// A progress report is due every this many files.
pub const PROGRESS_INTERVAL: u32 = 10;

/// The items of a sequence of batches, in order.
pub open spec fn flatten<T>(bs: Seq<Seq<T>>) -> Seq<T>
    decreases bs.len(),
{
    if bs.len() == 0 {
        seq![]
    } else {
        flatten(bs.drop_last()) + bs.last()
    }
}

/// The views of a list of vectors.
pub open spec fn views<T>(vs: Seq<Vec<T>>) -> Seq<Seq<T>> {
    vs.map_values(|v: Vec<T>| v@)
}

/// Every batch holds exactly `INDEX_BATCH_SIZE` items.
pub open spec fn full_batches<T>(bs: Seq<Vec<T>>) -> bool {
    forall|i: int| 0 <= i < bs.len() ==> #[trigger] bs[i]@.len() == INDEX_BATCH_SIZE
}

/// Appends `items` to `buffer`, moving every full batch of
/// `INDEX_BATCH_SIZE` items from its front to the returned list.  Nothing
/// is lost or reordered: the batches followed by what stays buffered are
/// the old buffer followed by the new items.
pub fn push_batched<T>(buffer: &mut Vec<T>, items: Vec<T>) -> (batches: Vec<Vec<T>>)
    requires
        old(buffer)@.len() < INDEX_BATCH_SIZE,
    ensures
        flatten(views(batches@)) + final(buffer)@ == old(buffer)@ + items@,
        full_batches(batches@),
        final(buffer)@.len() < INDEX_BATCH_SIZE,
{
    let mut items = items;
    let ghost all = old(buffer)@ + items@;
    buffer.append(&mut items);
    let mut batches: Vec<Vec<T>> = Vec::new();
    proof {
        assert(views(batches@) =~= Seq::<Seq<T>>::empty());
        assert(flatten(views(batches@)) + buffer@ =~= all);
    }
    while buffer.len() >= INDEX_BATCH_SIZE
        invariant
            flatten(views(batches@)) + buffer@ == all,
            full_batches(batches@),
        decreases buffer@.len(),
    {
        let mut rest = buffer.split_off(INDEX_BATCH_SIZE);
        std::mem::swap(buffer, &mut rest);
        let ghost before = views(batches@);
        batches.push(rest);
        proof {
            assert(views(batches@) =~= before.push(rest@));
            assert(views(batches@).drop_last() =~= before);
            assert(flatten(views(batches@)) + buffer@ =~= flatten(before) + (rest@ + buffer@));
        }
    }
    batches
}

/// What one file contributed to a full run: the chunk and symbol batches
/// now due for storage, and the file's content hash.
pub struct FileWork {
    pub chunk_batches: Vec<Vec<CodeChunk>>,
    pub symbol_batches: Vec<Vec<CodeSymbol>>,
    pub file_hash: String,
}

/// A full indexing run in progress.
pub struct IndexRun {
    pub status: IndexStatus,
    pub chunk_buffer: Vec<CodeChunk>,
    pub symbol_buffer: Vec<CodeSymbol>,
    pub references: Vec<CodeReference>,
}

/// The chunks kept from one file: its first `MAX_CHUNKS_PER_FILE`.
pub open spec fn capped(chunks: Seq<CodeChunk>) -> Seq<CodeChunk> {
    if chunks.len() > MAX_CHUNKS_PER_FILE {
        chunks.take(MAX_CHUNKS_PER_FILE as int)
    } else {
        chunks
    }
}

/// `cs` and `p` are what chunking and extraction give for a file whose
/// path names `lang`: no chunk for blank content, otherwise the chunks of
/// its content in `lang`, and the symbols and references extracted in
/// `lang`.
pub open spec fn file_yield(
    path: Seq<char>,
    content: Seq<char>,
    project_id: Seq<char>,
    lang: Language,
    cs: Seq<CodeChunk>,
    p: (Vec<CodeSymbol>, Vec<CodeReference>),
) -> bool {
    &&& detected_language(path, lang)
    &&& chunked_as(cs, content, path, project_id, lang)
    &&& parsed_as(p, lang, content, path, project_id)
}

/// Chunks a file and extracts its symbols and references, both in the
/// language its path names.
pub fn process_file(path: &str, content: &str, project_id: &str) -> (r: (Vec<CodeChunk>, (Vec<CodeSymbol>, Vec<CodeReference>)))
    ensures
        exists|lang: Language| #[trigger] file_yield(path@, content@, project_id@, lang, r.0@, r.1),
{
    let language = detect_language(path);
    let chunks = chunk_file_in(path, content, project_id, language);
    let parsed = CodeParser::parse_in(language, path, content, project_id);
    let r = (chunks, parsed);
    assert(file_yield(path@, content@, project_id@, language, r.0@, r.1));
    r
}

/// The same status with one more file done.
pub open spec fn one_more_file(old_status: IndexStatus, new_status: IndexStatus) -> bool {
    &&& new_status.indexed_files == old_status.indexed_files.wrapping_add(1)
    &&& new_status.project_id == old_status.project_id
    &&& new_status.status == old_status.status
    &&& new_status.total_files == old_status.total_files
    &&& new_status.started_at == old_status.started_at
    &&& new_status.completed_at == old_status.completed_at
    &&& new_status.error_message == old_status.error_message
}

impl IndexRun {
    /// Buffers hold less than one batch.
    pub open spec fn wf(&self) -> bool {
        &&& self.chunk_buffer@.len() < INDEX_BATCH_SIZE
        &&& self.symbol_buffer@.len() < INDEX_BATCH_SIZE
    }

    /// A run over `total_files` files, started at `started_at`: a fresh
    /// status counting the files, empty buffers.
    pub fn start(project_id: String, started_at: i64, total_files: usize) -> (r: IndexRun)
        ensures
            r.wf(),
            r.status.project_id@ == project_id@,
            r.status.status == IndexState::Indexing,
            r.status.total_files == total_files as u32,
            r.status.indexed_files == 0,
            r.status.total_chunks == 0,
            r.status.total_symbols == 0,
            r.status.failed_files@.len() == 0,
            r.status.started_at == started_at,
            r.status.completed_at is None,
            r.status.error_message is None,
            r.chunk_buffer@.len() == 0,
            r.symbol_buffer@.len() == 0,
            r.references@.len() == 0,
    {
        let mut status = IndexStatus::new(project_id, started_at);
        status.total_files = total_files as u32;
        IndexRun {
            status,
            chunk_buffer: Vec::new(),
            symbol_buffer: Vec::new(),
            references: Vec::new(),
        }
    }

    /// A generated file is skipped but counted as done.
    pub fn skip_file(&mut self)
        ensures
            one_more_file(old(self).status, final(self).status),
            final(self).status.total_chunks == old(self).status.total_chunks,
            final(self).status.total_symbols == old(self).status.total_symbols,
            final(self).status.failed_files == old(self).status.failed_files,
            final(self).chunk_buffer == old(self).chunk_buffer,
            final(self).symbol_buffer == old(self).symbol_buffer,
            final(self).references == old(self).references,
    {
        self.status.indexed_files = self.status.indexed_files.wrapping_add(1);
    }

    /// A file that could not be read is recorded as failed and counted as done.
    pub fn read_failed(&mut self, path: String)
        ensures
            one_more_file(old(self).status, final(self).status),
            final(self).status.failed_files@ == old(self).status.failed_files@.push(path),
            final(self).status.total_chunks == old(self).status.total_chunks,
            final(self).status.total_symbols == old(self).status.total_symbols,
            final(self).chunk_buffer == old(self).chunk_buffer,
            final(self).symbol_buffer == old(self).symbol_buffer,
            final(self).references == old(self).references,
    {
        self.status.failed_files.push(path);
        self.status.indexed_files = self.status.indexed_files.wrapping_add(1);
    }

    /// Adds what one file yielded: its first `MAX_CHUNKS_PER_FILE` chunks
    /// and all its symbols go through the buffers, its references are kept
    /// for the end, and the counts move on.  Returns the batches now due.
    pub fn add_file_results(
        &mut self,
        chunks: Vec<CodeChunk>,
        symbols: Vec<CodeSymbol>,
        references: Vec<CodeReference>,
    ) -> (r: (Vec<Vec<CodeChunk>>, Vec<Vec<CodeSymbol>>))
        requires
            old(self).wf(),
        ensures
            final(self).wf(),
            flatten(views(r.0@)) + final(self).chunk_buffer@ == old(self).chunk_buffer@ + capped(chunks@),
            flatten(views(r.1@)) + final(self).symbol_buffer@ == old(self).symbol_buffer@ + symbols@,
            full_batches(r.0@),
            full_batches(r.1@),
            final(self).references@ == old(self).references@ + references@,
            final(self).status.total_chunks == old(self).status.total_chunks.wrapping_add(
                capped(chunks@).len() as u32,
            ),
            final(self).status.total_symbols == old(self).status.total_symbols.wrapping_add(
                symbols@.len() as u32,
            ),
            final(self).status.failed_files == old(self).status.failed_files,
            one_more_file(old(self).status, final(self).status),
    {
        let mut chunks = chunks;
        if chunks.len() > MAX_CHUNKS_PER_FILE {
            chunks.truncate(MAX_CHUNKS_PER_FILE);
        }
        let n_chunks = chunks.len();
        let n_symbols = symbols.len();
        let chunk_batches = push_batched(&mut self.chunk_buffer, chunks);
        let symbol_batches = push_batched(&mut self.symbol_buffer, symbols);
        let mut references = references;
        self.references.append(&mut references);
        self.status.total_chunks = self.status.total_chunks.wrapping_add(n_chunks as u32);
        self.status.total_symbols = self.status.total_symbols.wrapping_add(n_symbols as u32);
        self.status.indexed_files = self.status.indexed_files.wrapping_add(1);
        (chunk_batches, symbol_batches)
    }

    /// Indexes one file's content: chunks it, extracts its symbols and
    /// references, and adds them (see `add_file_results`); also gives the
    /// content hash to record for incremental runs.
    pub fn index_file(&mut self, path: &str, content: &str, project_id: &str) -> (r: FileWork)
        requires
            old(self).wf(),
        ensures
            final(self).wf(),
            r.file_hash@ == content_hash_text(content@),
            full_batches(r.chunk_batches@),
            full_batches(r.symbol_batches@),
            final(self).status.failed_files == old(self).status.failed_files,
            one_more_file(old(self).status, final(self).status),
            exists|lang: Language, cs: Seq<CodeChunk>, p: (Vec<CodeSymbol>, Vec<CodeReference>)| {
                &&& #[trigger] file_yield(path@, content@, project_id@, lang, cs, p)
                &&& flatten(views(r.chunk_batches@)) + final(self).chunk_buffer@ == old(self).chunk_buffer@ + capped(cs)
                &&& flatten(views(r.symbol_batches@)) + final(self).symbol_buffer@ == old(self).symbol_buffer@ + p.0@
                &&& final(self).references@ == old(self).references@ + p.1@
                &&& final(self).status.total_chunks == old(self).status.total_chunks.wrapping_add(capped(cs).len() as u32)
                &&& final(self).status.total_symbols == old(self).status.total_symbols.wrapping_add(p.0@.len() as u32)
            },
    {
        let file_hash = hash_hex(content);
        let (chunks, parsed) = process_file(path, content, project_id);
        let ghost cs = chunks@;
        let ghost pv = parsed;
        let ghost lang = choose|lang: Language| #[trigger] file_yield(path@, content@, project_id@, lang, cs, pv);
        assert(file_yield(path@, content@, project_id@, lang, cs, pv));
        let (symbols, references) = parsed;
        let (chunk_batches, symbol_batches) = self.add_file_results(chunks, symbols, references);
        FileWork { chunk_batches, symbol_batches, file_hash }
    }

    /// Whether a progress report is due: after every `PROGRESS_INTERVAL`
    /// files.
    pub fn progress_due(&self) -> (r: bool)
        ensures
            r == (self.status.indexed_files % PROGRESS_INTERVAL == 0),
    {
        self.status.indexed_files % PROGRESS_INTERVAL == 0
    }

    /// Ends the run at `completed_at`: hands out what is still buffered
    /// (`None` for an empty buffer) and every reference, and marks the
    /// status as waiting for embeddings.
    pub fn finish(self, completed_at: i64) -> (r: (
        IndexStatus,
        Option<Vec<CodeChunk>>,
        Option<Vec<CodeSymbol>>,
        Vec<CodeReference>,
    ))
        ensures
            r.0.status == IndexState::EmbeddingPending,
            r.0.completed_at == Some(completed_at),
            r.0.project_id == self.status.project_id,
            r.0.total_files == self.status.total_files,
            r.0.indexed_files == self.status.indexed_files,
            r.0.total_chunks == self.status.total_chunks,
            r.0.total_symbols == self.status.total_symbols,
            r.0.failed_files == self.status.failed_files,
            r.0.started_at == self.status.started_at,
            r.0.error_message == self.status.error_message,
            match r.1 {
                Some(b) => b@ == self.chunk_buffer@ && b@.len() > 0,
                None => self.chunk_buffer@.len() == 0,
            },
            match r.2 {
                Some(b) => b@ == self.symbol_buffer@ && b@.len() > 0,
                None => self.symbol_buffer@.len() == 0,
            },
            r.3@ == self.references@,
    {
        let mut status = self.status;
        status.status = IndexState::EmbeddingPending;
        status.completed_at = Some(completed_at);
        let chunks = if self.chunk_buffer.len() > 0 {
            Some(self.chunk_buffer)
        } else {
            None
        };
        let symbols = if self.symbol_buffer.len() > 0 {
            Some(self.symbol_buffer)
        } else {
            None
        };
        (status, chunks, symbols, self.references)
    }
}

/// The status recorded when a run fails at `completed_at`: the stored
/// status if there is one (else a fresh one started then), marked failed
/// with the error's message.
pub fn failed_status(
    existing: Option<IndexStatus>,
    project_id: String,
    message: String,
    completed_at: i64,
) -> (r: IndexStatus)
    ensures
        r.status == IndexState::Failed,
        r.error_message == Some(message),
        r.completed_at == Some(completed_at),
        match existing {
            Some(e) => {
                &&& r.project_id == e.project_id
                &&& r.total_files == e.total_files
                &&& r.indexed_files == e.indexed_files
                &&& r.total_chunks == e.total_chunks
                &&& r.total_symbols == e.total_symbols
                &&& r.failed_files == e.failed_files
                &&& r.started_at == e.started_at
            },
            None => {
                &&& r.project_id@ == project_id@
                &&& r.total_files == 0
                &&& r.indexed_files == 0
                &&& r.total_chunks == 0
                &&& r.total_symbols == 0
                &&& r.failed_files@.len() == 0
                &&& r.started_at == completed_at
            },
        },
{
    let mut status = match existing {
        Some(e) => e,
        None => IndexStatus::new(project_id, completed_at),
    };
    status.status = IndexState::Failed;
    status.error_message = Some(message);
    status.completed_at = Some(completed_at);
    status
}

/// Whether a changed file must be indexed again: unless its stored hash
/// equals the hash of its new content.
pub fn needs_reindex(stored_hash: Option<&str>, new_hash: &str) -> (r: bool)
    ensures
        r == !(stored_hash matches Some(h) && h@ == new_hash@),
{
    match stored_hash {
        Some(h) => !crate::text::str_eq(h, new_hash),
        None => true,
    }
}

/// What an incremental run stores for one changed file.
pub struct FilePlan {
    pub file_hash: String,
    pub chunks: Vec<CodeChunk>,
    pub symbols: Vec<CodeSymbol>,
    pub references: Vec<CodeReference>,
}

/// Plans the re-indexing of a changed file: `None` when its content hash
/// equals the stored one, otherwise its new hash, all its chunks, and its
/// symbols and references.
pub fn plan_reindex(
    path: &str,
    content: &str,
    project_id: &str,
    stored_hash: Option<&str>,
) -> (r: Option<FilePlan>)
    ensures
        r is None <==> (stored_hash matches Some(h) && h@ == content_hash_text(content@)),
        r matches Some(p) ==> p.file_hash@ == content_hash_text(content@),
        r is Some ==> exists|lang: Language| #[trigger] file_yield(
            path@,
            content@,
            project_id@,
            lang,
            r.unwrap().chunks@,
            (r.unwrap().symbols, r.unwrap().references),
        ),
{
    let new_hash = hash_hex(content);
    if !needs_reindex(stored_hash, new_hash.as_str()) {
        return None;
    }
    let (chunks, parsed) = process_file(path, content, project_id);
    let ghost lang = choose|lang: Language| #[trigger] file_yield(path@, content@, project_id@, lang, chunks@, parsed);
    let (symbols, references) = parsed;
    let plan = FilePlan { file_hash: new_hash, chunks, symbols, references };
    let r = Some(plan);
    assert(file_yield(path@, content@, project_id@, lang, r.unwrap().chunks@, (r.unwrap().symbols, r.unwrap().references)));
    r
}

/// What an incremental run did with one changed path.
#[derive(Clone, Copy, Debug, PartialEq, Eq, Structural)]
pub enum PathOutcome {
    /// The path no longer exists; its chunks were removed, and the removal
    /// reported at least one (`had_chunks`) or not.
    Removed { had_chunks: bool },
    /// The path exists but could not be read.
    Unreadable,
    /// The content hash equals the stored one.
    Unchanged,
    /// The file was re-indexed.
    Reindexed,
}

/// How many of the outcomes count as updated files: re-indexed files and
/// removed paths that had chunks.
pub open spec fn updates_of(os: Seq<PathOutcome>) -> nat
    decreases os.len(),
{
    if os.len() == 0 {
        0
    } else {
        updates_of(os.drop_last()) + match os.last() {
            PathOutcome::Removed { had_chunks } => if had_chunks {
                1nat
            } else {
                0nat
            },
            PathOutcome::Reindexed => 1nat,
            _ => 0nat,
        }
    }
}

/// An incremental run updates at most as many files as it was given
/// changed paths.
pub proof fn lemma_updates_at_most_paths(os: Seq<PathOutcome>)
    ensures
        updates_of(os) <= os.len(),
    decreases os.len(),
{
    if os.len() > 0 {
        lemma_updates_at_most_paths(os.drop_last());
    }
}

/// An incremental run in progress: the changed paths handled so far, what
/// was done with each, and how many files count as updated.
pub struct IncrementalRun {
    pub handled: usize,
    pub updated: usize,
    pub outcomes: Ghost<Seq<PathOutcome>>,
}

impl IncrementalRun {
    /// The count of updated files is that of the outcomes, one per handled
    /// path.
    pub open spec fn wf(&self) -> bool {
        &&& self.outcomes@.len() == self.handled
        &&& self.updated == updates_of(self.outcomes@)
    }

    /// A run that has handled nothing yet.
    pub fn new() -> (r: IncrementalRun)
        ensures
            r.wf(),
            r.handled == 0,
            r.updated == 0,
    {
        IncrementalRun { handled: 0, updated: 0, outcomes: Ghost(Seq::empty()) }
    }

    fn record(&mut self, outcome: PathOutcome)
        requires
            old(self).wf(),
            old(self).handled < usize::MAX,
        ensures
            final(self).wf(),
            final(self).outcomes@ == old(self).outcomes@.push(outcome),
            final(self).handled == old(self).handled + 1,
    {
        proof {
            lemma_updates_at_most_paths(self.outcomes@);
            assert(self.outcomes@.push(outcome).drop_last() =~= self.outcomes@);
        }
        let counts = match outcome {
            PathOutcome::Removed { had_chunks } => had_chunks,
            PathOutcome::Reindexed => true,
            _ => false,
        };
        if counts {
            self.updated = self.updated + 1;
        }
        self.handled = self.handled + 1;
        self.outcomes = Ghost(self.outcomes@.push(outcome));
    }

    /// A changed path that no longer exists, after the removal of its
    /// chunks reported how many there were (`None` when it failed): it
    /// counts when at least one was removed.
    pub fn path_removed(&mut self, deleted_chunks: Option<usize>)
        requires
            old(self).wf(),
            old(self).handled < usize::MAX,
        ensures
            final(self).wf(),
            final(self).outcomes@ == old(self).outcomes@.push(
                PathOutcome::Removed { had_chunks: deleted_chunks matches Some(d) && d > 0 },
            ),
            final(self).handled == old(self).handled + 1,
    {
        let had_chunks = match deleted_chunks {
            Some(d) => d > 0,
            None => false,
        };
        self.record(PathOutcome::Removed { had_chunks });
    }

    /// A changed path that exists but could not be read: nothing is done.
    pub fn path_unreadable(&mut self)
        requires
            old(self).wf(),
            old(self).handled < usize::MAX,
        ensures
            final(self).wf(),
            final(self).outcomes@ == old(self).outcomes@.push(PathOutcome::Unreadable),
            final(self).handled == old(self).handled + 1,
    {
        self.record(PathOutcome::Unreadable);
    }

    /// A changed path that was read: plans its re-indexing (see
    /// `plan_reindex`); a planned file counts as updated.
    pub fn path_read(
        &mut self,
        path: &str,
        content: &str,
        project_id: &str,
        stored_hash: Option<&str>,
    ) -> (r: Option<FilePlan>)
        requires
            old(self).wf(),
            old(self).handled < usize::MAX,
        ensures
            final(self).wf(),
            final(self).handled == old(self).handled + 1,
            final(self).outcomes@ == old(self).outcomes@.push(
                if r is Some {
                    PathOutcome::Reindexed
                } else {
                    PathOutcome::Unchanged
                },
            ),
            r is None <==> (stored_hash matches Some(h) && h@ == content_hash_text(content@)),
            r is Some ==> r.unwrap().file_hash@ == content_hash_text(content@),
            r is Some ==> exists|lang: Language| #[trigger] file_yield(
                path@,
                content@,
                project_id@,
                lang,
                r.unwrap().chunks@,
                (r.unwrap().symbols, r.unwrap().references),
            ),
    {
        let r = plan_reindex(path, content, project_id, stored_hash);
        match r {
            Some(_) => self.record(PathOutcome::Reindexed),
            None => self.record(PathOutcome::Unchanged),
        }
        r
    }

    /// The number of updated files: at most the number of changed paths
    /// handled.
    pub fn finish(self) -> (r: usize)
        requires
            self.wf(),
        ensures
            r == updates_of(self.outcomes@),
            r <= self.handled,
    {
        proof {
            lemma_updates_at_most_paths(self.outcomes@);
        }
        self.updated
    }
}

} // verus!
