//! The Models API: paths and model objects.

use vstd::prelude::*;

use crate::text::child_path;

verus! {

/// The path of the Models API.
pub const MODELS_PATH: &'static str = "/models";

/// The path of the model with the given ID.
pub fn model_path(model: &str) -> (p: String)
    ensures
        p@ == MODELS_PATH@ + seq!['/'] + model@,
{
    child_path(MODELS_PATH, model)
}

/// A model.
#[derive(Debug, Clone)]
pub struct Model {
    pub id: String,
    pub object: String,
    pub created: Option<u64>,
    pub owned_by: Option<String>,
    pub extra: Vec<(String, serde_json::Value)>,
}

} // verus!
