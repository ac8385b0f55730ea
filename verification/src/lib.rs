//! Buffer layout and decode orchestration for Draco-compressed meshes.
//!
//! A decoded mesh is one flat byte buffer: the index segment first, then one
//! segment per vertex attribute. This crate computes and checks the metadata
//! that says where each segment lies, and decides, step by step, what a
//! decode session does with the answers of the engine that decompresses.

pub mod error;
pub mod layout;
pub mod module_cache;
pub mod native;
pub mod utils;
pub mod worker;

pub use error::{DecodeError, DecodeStage};
pub use utils::{
    AttributeDataType, DracoDecodeConfig, MeshAttribute, MeshDecodeResult, MAX_INDEX_COUNT,
};
