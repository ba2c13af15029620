//! Kinds of stored memories.

use vstd::prelude::*;
use crate::text::{str_eq, to_lowercase, unicode_lowercase};

verus! {

/// The cognitive kind of a memory.
#[derive(Clone, Copy, Debug, PartialEq, Eq, Structural)]
pub enum MemoryType {
    Episodic,
    Semantic,
    Procedural,
}

impl Default for MemoryType {
    fn default() -> (r: Self)
        ensures
            r == MemoryType::Semantic,
    {
        MemoryType::Semantic
    }
}

/// The memory type a lower-cased name denotes, if any.
pub open spec fn memory_type_named(lower: Seq<char>) -> Option<MemoryType> {
    if lower == "episodic"@ {
        Some(MemoryType::Episodic)
    } else if lower == "semantic"@ {
        Some(MemoryType::Semantic)
    } else if lower == "procedural"@ {
        Some(MemoryType::Procedural)
    } else {
        None
    }
}

impl MemoryType {
    /// Reads a memory type case-insensitively; other text is refused with
    /// `Unknown memory type: <text>`.
    pub fn parse_name(s: &str) -> (r: Result<MemoryType, String>)
        ensures
            match r {
                Ok(t) => memory_type_named(unicode_lowercase(s@)) == Some(t),
                Err(m) => memory_type_named(unicode_lowercase(s@)) is None && m@
                    == "Unknown memory type: "@ + s@,
            },
    {
        let lower = to_lowercase(s);
        let l = lower.as_str();
        if str_eq(l, "episodic") {
            Ok(MemoryType::Episodic)
        } else if str_eq(l, "semantic") {
            Ok(MemoryType::Semantic)
        } else if str_eq(l, "procedural") {
            Ok(MemoryType::Procedural)
        } else {
            let mut m = String::from_str("Unknown memory type: ");
            m.append(s);
            Err(m)
        }
    }

    /// The stored (lower-case) name.
    pub fn as_str(&self) -> (r: &'static str)
        ensures
            r@ == match self {
                MemoryType::Episodic => "episodic"@,
                MemoryType::Semantic => "semantic"@,
                MemoryType::Procedural => "procedural"@,
            },
    {
        match self {
            MemoryType::Episodic => "episodic",
            MemoryType::Semantic => "semantic",
            MemoryType::Procedural => "procedural",
        }
    }
}

impl std::str::FromStr for MemoryType {
    type Err = String;

    fn from_str(s: &str) -> (r: Result<Self, Self::Err>)
        ensures
            match r {
                Ok(t) => memory_type_named(unicode_lowercase(s@)) == Some(t),
                Err(m) => memory_type_named(unicode_lowercase(s@)) is None && m@ == "Unknown memory type: "@ + s@,
            },
    {
        MemoryType::parse_name(s)
    }
}

} // verus!
