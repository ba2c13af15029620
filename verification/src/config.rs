//! Service configuration and the live counters of an indexing run.

use vstd::prelude::*;
use std::sync::atomic::AtomicU32;

verus! {

/// Where the service keeps its data, and how it embeds.
#[derive(Clone, Debug)]
pub struct AppConfig {
    pub data_dir: String,
    pub model: String,
    pub cache_size: usize,
    pub batch_size: usize,
    pub timeout_ms: u64,
    pub log_level: String,
}

/// The platform's local data directory (`dirs::data_local_dir`), as text.
/// It depends on the platform and the environment: nothing is stated.
#[verifier::external_body]
fn local_data_dir() -> Option<String> {
    dirs::data_local_dir().map(|p| p.to_string_lossy().into_owned())
}

/// `base` joined with `name` (`Path::join`), as text.  The separator
/// depends on the platform: nothing is stated.
#[verifier::external_body]
fn path_join(base: &str, name: &str) -> String {
    std::path::Path::new(base).join(name).to_string_lossy().into_owned()
}

impl AppConfig {
    /// The default configuration with its data kept in `data_dir`: model
    /// `qwen3`, 1000 cached embeddings, batches of 8, 30 s timeout, `info`
    /// logging.
    pub fn with_data_dir(data_dir: String) -> (r: AppConfig)
        ensures
            r.data_dir == data_dir,
            r.model@ == "qwen3"@,
            r.cache_size == 1000,
            r.batch_size == 8,
            r.timeout_ms == 30000,
            r.log_level@ == "info"@,
    {
        AppConfig {
            data_dir,
            model: String::from_str("qwen3"),
            cache_size: 1000,
            batch_size: 8,
            timeout_ms: 30000,
            log_level: String::from_str("info"),
        }
    }
}

impl Default for AppConfig {
    /// The defaults, with the data in `memory-mcp` under the platform's
    /// local data directory (or the current directory).
    fn default() -> (r: Self)
        ensures
            r.model@ == "qwen3"@,
            r.cache_size == 1000,
            r.batch_size == 8,
            r.timeout_ms == 30000,
            r.log_level@ == "info"@,
    {
        let base = match local_data_dir() {
            Some(d) => d,
            None => String::from_str("."),
        };
        AppConfig::with_data_dir(path_join(base.as_str(), "memory-mcp"))
    }
}

/// Live counters of an indexing run, shared with status requests.
pub struct IndexMonitor {
    pub total_files: AtomicU32,
    pub indexed_files: AtomicU32,
}

impl IndexMonitor {
    /// Counters at zero.
    pub fn new() -> (r: IndexMonitor) {
        IndexMonitor { total_files: AtomicU32::new(0), indexed_files: AtomicU32::new(0) }
    }
}

} // verus!
