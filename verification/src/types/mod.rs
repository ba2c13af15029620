//! Domain types: record identifiers, the enums stored as strings, and the
//! plain records that the indexing pipeline produces.

pub mod code;
pub mod embedding_state;
pub mod entity;
pub mod memory;
pub mod record;
pub mod safe_thing;
pub mod symbol;
pub mod thing_id;

pub use record::{record_key_to_string, RecordId, RecordIdKey, Thing};
pub use thing_id::{things_from_ids, ThingId, ThingIdError, ThingIdErrorKind};
pub use code::{ChunkType, CodeChunk, IndexState, IndexStatus, Language};
pub use embedding_state::{EmbedTarget, EmbeddingState};
pub use entity::Direction;
pub use memory::MemoryType;
pub use symbol::{CodeReference, CodeRelationType, CodeSymbol, SymbolRelation, SymbolType};
