//! Model identifiers.

pub mod id;
pub mod ids;

pub use id::ModelId;
