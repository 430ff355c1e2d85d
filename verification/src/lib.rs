//! Rust SDK for the OpenAI API: the verified core.
//!
//! This crate holds the data model of the API requests and responses, the
//! rules by which requests are planned (URLs, headers, query), how API errors
//! are formed, and the Server-Sent Events decoder that turns streamed bytes
//! into events. The network transport lives outside the verified core.

pub mod externs;
pub mod models;
pub mod prelude;
pub mod resources;
pub mod sdk_core;
pub mod streaming;
pub mod text;
pub mod types;

pub use models::ModelId;
pub use sdk_core::{ApiError, Config, OpenAIError, RequestOptions, Result};
pub use types::common::{Deleted, List};
