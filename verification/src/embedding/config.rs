//! Supported embedding models and the embedding configuration.

use vstd::prelude::*;
use crate::text::{all_ascii, ascii_lower, ascii_upper, str_eq, to_lowercase, unicode_lowercase};

verus! {

/// A supported embedding model.
#[derive(Clone, Copy, Debug, PartialEq, Eq, Structural)]
pub enum ModelType {
    E5Small,
    E5Multi,
    Nomic,
    BgeM3,
    Mock,
}

impl Default for ModelType {
    fn default() -> (r: Self)
        ensures
            r == ModelType::E5Multi,
    {
        ModelType::E5Multi
    }
}

/// The vector length a model produces.
pub open spec fn model_dimensions(m: ModelType) -> usize {
    match m {
        ModelType::E5Small => 384,
        ModelType::E5Multi => 768,
        ModelType::Nomic => 768,
        ModelType::BgeM3 => 1024,
        ModelType::Mock => 768,
    }
}

/// The model a lower-cased name denotes, if any.
pub open spec fn model_named(lower: Seq<char>) -> Option<ModelType> {
    if lower == "e5_small"@ || lower == "e5-small"@ {
        Some(ModelType::E5Small)
    } else if lower == "e5_multi"@ || lower == "e5-multi"@ || lower == "e5_base"@ || lower
        == "e5-base"@ {
        Some(ModelType::E5Multi)
    } else if lower == "nomic"@ {
        Some(ModelType::Nomic)
    } else if lower == "bge_m3"@ || lower == "bge-m3"@ {
        Some(ModelType::BgeM3)
    } else if lower == "mock"@ {
        Some(ModelType::Mock)
    } else {
        None
    }
}

/// The short name a model prints as.
pub open spec fn model_name(m: ModelType) -> Seq<char> {
    match m {
        ModelType::E5Small => "e5_small"@,
        ModelType::E5Multi => "e5_multi"@,
        ModelType::Nomic => "nomic"@,
        ModelType::BgeM3 => "bge_m3"@,
        ModelType::Mock => "mock"@,
    }
}

/// A model's printed name reads back as that model, in lower or upper
/// case: the name is ASCII, and its ASCII lower-case form, like that of
/// its ASCII upper-case form, is a name `model_named` maps to the model.
pub proof fn lemma_model_name_round_trip(m: ModelType)
    ensures
        all_ascii(model_name(m)),
        all_ascii(ascii_upper(model_name(m))),
        model_named(ascii_lower(model_name(m))) == Some(m),
        model_named(ascii_lower(ascii_upper(model_name(m)))) == Some(m),
{
    reveal_strlit("e5_small");
    reveal_strlit("e5_multi");
    reveal_strlit("nomic");
    reveal_strlit("bge_m3");
    reveal_strlit("mock");
    reveal_strlit("e5-small");
    reveal_strlit("e5-multi");
    reveal_strlit("e5_base");
    reveal_strlit("e5-base");
    reveal_strlit("bge-m3");
    let n = model_name(m);
    assert(ascii_lower(n) =~= n);
    assert(ascii_lower(ascii_upper(n)) =~= n);
    match m {
        ModelType::E5Small => {},
        ModelType::E5Multi => {
            assert(n[3] != "e5_small"@[3]);
            assert(n[3] != "e5-small"@[3]);
        },
        ModelType::Nomic => {},
        ModelType::BgeM3 => {},
        ModelType::Mock => {},
    }
}

/// The Hugging Face repository of a model.
pub open spec fn model_repo(m: ModelType) -> Seq<char> {
    match m {
        ModelType::E5Small => "intfloat/multilingual-e5-small"@,
        ModelType::E5Multi => "intfloat/multilingual-e5-base"@,
        ModelType::Nomic => "nomic-ai/nomic-embed-text-v1.5"@,
        ModelType::BgeM3 => "BAAI/bge-m3"@,
        ModelType::Mock => "mock"@,
    }
}

impl ModelType {
    /// The Hugging Face repository the model's files come from.
    pub fn repo_id(&self) -> (r: &'static str)
        ensures
            r@ == model_repo(*self),
    {
        match self {
            ModelType::E5Small => "intfloat/multilingual-e5-small",
            ModelType::E5Multi => "intfloat/multilingual-e5-base",
            ModelType::Nomic => "nomic-ai/nomic-embed-text-v1.5",
            ModelType::BgeM3 => "BAAI/bge-m3",
            ModelType::Mock => "mock",
        }
    }

    /// The vector length the model produces.
    pub fn dimensions(&self) -> (r: usize)
        ensures
            r == model_dimensions(*self),
    {
        match self {
            ModelType::E5Small => 384,
            ModelType::E5Multi => 768,
            ModelType::Nomic => 768,
            ModelType::BgeM3 => 1024,
            ModelType::Mock => 768,
        }
    }

    /// Reads a model name case-insensitively (`e5_small`/`e5-small`,
    /// `e5_multi`/`e5-multi`/`e5_base`/`e5-base`, `nomic`, `bge_m3`/`bge-m3`,
    /// `mock`); other text is refused with `Unknown model: <text>`.
    pub fn parse_name(s: &str) -> (r: Result<ModelType, String>)
        ensures
            match r {
                Ok(m) => model_named(unicode_lowercase(s@)) == Some(m),
                Err(msg) => model_named(unicode_lowercase(s@)) is None && msg@ == "Unknown model: "@
                    + s@,
            },
            all_ascii(s@) ==> match r {
                Ok(m) => model_named(ascii_lower(s@)) == Some(m),
                Err(_) => model_named(ascii_lower(s@)) is None,
            },
    {
        let lower = to_lowercase(s);
        let l = lower.as_str();
        if str_eq(l, "e5_small") || str_eq(l, "e5-small") {
            Ok(ModelType::E5Small)
        } else if str_eq(l, "e5_multi") || str_eq(l, "e5-multi") || str_eq(l, "e5_base") || str_eq(
            l,
            "e5-base",
        ) {
            Ok(ModelType::E5Multi)
        } else if str_eq(l, "nomic") {
            Ok(ModelType::Nomic)
        } else if str_eq(l, "bge_m3") || str_eq(l, "bge-m3") {
            Ok(ModelType::BgeM3)
        } else if str_eq(l, "mock") {
            Ok(ModelType::Mock)
        } else {
            let mut m = String::from_str("Unknown model: ");
            m.append(s);
            Err(m)
        }
    }

    /// The model's short name, as `Display` renders it.
    pub fn to_string(&self) -> (r: String)
        ensures
            r@ == model_name(*self),
    {
        match self {
            ModelType::E5Small => String::from_str("e5_small"),
            ModelType::E5Multi => String::from_str("e5_multi"),
            ModelType::Nomic => String::from_str("nomic"),
            ModelType::BgeM3 => String::from_str("bge_m3"),
            ModelType::Mock => String::from_str("mock"),
        }
    }
}

impl std::str::FromStr for ModelType {
    type Err = String;

    fn from_str(s: &str) -> (r: Result<Self, Self::Err>)
        ensures
            match r {
                Ok(m) => model_named(unicode_lowercase(s@)) == Some(m),
                Err(msg) => model_named(unicode_lowercase(s@)) is None && msg@ == "Unknown model: "@ + s@,
            },
            all_ascii(s@) ==> match r {
                Ok(m) => model_named(ascii_lower(s@)) == Some(m),
                Err(_) => model_named(ascii_lower(s@)) is None,
            },
    {
        ModelType::parse_name(s)
    }
}

/// Which model to load and how much to cache and batch.
#[derive(Clone, Debug)]
pub struct EmbeddingConfig {
    pub model: ModelType,
    pub cache_size: usize,
    pub batch_size: usize,
}

impl Default for EmbeddingConfig {
    fn default() -> (r: Self)
        ensures
            r.model == ModelType::E5Multi,
            r.cache_size == 1000,
            r.batch_size == 32,
    {
        EmbeddingConfig { model: ModelType::E5Multi, cache_size: 1000, batch_size: 32 }
    }
}

} // verus!
