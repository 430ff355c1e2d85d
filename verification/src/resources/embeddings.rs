//! The Embeddings API: request parameters.

use vstd::prelude::*;

use crate::models::ModelId;
use crate::types::common::StringOrVec;

verus! {

/// The path of the Embeddings API.
pub const EMBEDDINGS_PATH: &'static str = "/embeddings";

/// Parameters for creating embeddings.
#[derive(Debug, Clone)]
pub struct EmbeddingCreateParams {
    pub model: ModelId,
    pub input: StringOrVec<String>,
    pub dimensions: Option<u32>,
    pub encoding_format: Option<String>,
    pub user: Option<String>,
    pub extra: Vec<(String, serde_json::Value)>,
}

impl EmbeddingCreateParams {
    /// Parameters that embed one text with the given model.
    pub fn new(model: &str, input: &str) -> (p: Self)
        ensures
            p.model@ == model@,
            p.input matches StringOrVec::String(s) && s@ == input@,
            p.dimensions is None && p.encoding_format is None && p.user is None,
            p.extra@.len() == 0,
    {
        EmbeddingCreateParams {
            model: ModelId::new(model),
            input: StringOrVec::String(String::from_str(input)),
            dimensions: None,
            encoding_format: None,
            user: None,
            extra: Vec::new(),
        }
    }

    /// Parameters that embed several texts with the given model.
    pub fn inputs(model: &str, input: Vec<String>) -> (p: Self)
        ensures
            p.model@ == model@,
            p.input == StringOrVec::Vec(input),
            p.dimensions is None && p.encoding_format is None && p.user is None,
            p.extra@.len() == 0,
    {
        EmbeddingCreateParams {
            model: ModelId::new(model),
            input: StringOrVec::Vec(input),
            dimensions: None,
            encoding_format: None,
            user: None,
            extra: Vec::new(),
        }
    }
}

/// Token usage of an embedding request.
#[derive(Debug, Clone)]
pub struct EmbeddingUsage {
    pub prompt_tokens: u32,
    pub total_tokens: u32,
}

} // verus!
