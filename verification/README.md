# memory_mcp

A persistent memory service for AI agents, written in Verus: the rules of
the service are executable Rust with `requires`/`ensures` contracts that
Verus proves.

## Layout

- `src/` — the verified library.
  - `types/` — record identifiers (`ThingId`, validated `table:id`), the
    enums stored as strings, and the plain records of code indexing.
  - `codebase/` — which files are indexed (`scanner`), how a file is cut
    into chunks (`chunker`), which symbols and references its syntax tree
    yields (`parser`), the decisions of full and incremental indexing runs
    (`indexer`), debouncing of file changes (`watcher`) and relation counts.
  - `embedding/` — model configuration and the phases of loading a model,
    the inline/background policy, content hashing, the LRU embedding cache,
    the batching and replies of the background worker, the completion
    monitor and model-cache cleanup rules.
  - `graph/` — breadth-first traversal of the knowledge graph as a state
    machine.
  - `storage/` — reading and writing record identifiers and index
    definitions, and related symbols over several hops of the relation
    graph.
  - `server/` — request defaults and limits.
  - `text.rs`, `numfmt.rs`, `digest.rs` — text, number formatting and
    BLAKE3 helpers the contracts are stated with.
- `tests/` — tests of the library through its public API.
- `app/` — the executable around the library: command line, file system
  walking and watching, the on-disk embedding store, graph ranking
  (floating point) and the loops that drive the library's state machines
  (full and incremental indexing, completion monitoring, embedding
  batches, graph traversal).  The database is reached through traits
  (`IndexStorage`, `GraphTraversalStorage`) that a backend implements; no
  backend is bundled.

Calls into outside crates (tree-sitter, BLAKE3, the LRU cache, `dirs`) go
through small trusted wrappers whose contracts name or state what the
crates return.
