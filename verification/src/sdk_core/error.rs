//! Errors of the SDK.

use vstd::prelude::*;

verus! {

/// The result type of the SDK.
pub type Result<T> = std::result::Result<T, OpenAIError>;

/// What can go wrong in a call to the API.
#[derive(Debug)]
pub enum OpenAIError {
    /// `OPENAI_API_KEY` is not set.
    MissingApiKey,
    /// The HTTP transport failed.
    Http(reqwest::Error),
    /// An I/O operation failed.
    Io(std::io::Error),
    /// JSON could not be serialized or deserialized.
    Json(serde_json::Error),
    /// The API answered with an error status.
    Api {
        /// The HTTP status code of the answer.
        status: u16,
        /// The error message: the API's own, or the body of the answer.
        message: String,
        /// The structured error that the API sent, if it sent one.
        error: Option<ApiError>,
    },
    /// A streamed answer could not be decoded.
    Stream(String),
    /// A chat completion could not be parsed.
    Parse(String),
    /// The operation timed out.
    Timeout(std::time::Duration),
}

/// The structured error object of the API.
#[derive(Debug, Clone)]
pub struct ApiError {
    pub message: String,
    /// The `type` of the error.
    pub error_type: Option<String>,
    pub param: Option<String>,
    pub code: Option<serde_json::Value>,
}

/// The envelope in which the API sends its error object.
#[derive(Debug, Clone)]
pub struct ApiErrorEnvelope {
    pub error: Option<ApiError>,
}

} // verus!
