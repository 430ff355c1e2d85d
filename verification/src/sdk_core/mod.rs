//! SDK core: configuration, request options, errors, and the rules by which
//! requests are planned and responses judged.

pub mod config;
pub mod error;
pub mod http;
pub mod request_options;

pub use config::Config;
pub use error::{ApiError, ApiErrorEnvelope, OpenAIError, Result};
pub use request_options::RequestOptions;
