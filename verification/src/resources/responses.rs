//! The Responses API: request parameters and answers.

use vstd::prelude::*;

use crate::models::ModelId;
use crate::text::child_path;
use crate::types::common::{entries_map, entries_sorted, entry_index, is_entry_insert, push_entry};

verus! {

/// The path of the Responses API.
pub const RESPONSES_PATH: &'static str = "/responses";

/// The path of the response with the given ID.
pub fn response_path(response_id: &str) -> (p: String)
    ensures
        p@ == RESPONSES_PATH@ + seq!['/'] + response_id@,
{
    child_path(RESPONSES_PATH, response_id)
}

/// Parameters for creating a response. Floating-point parameters are held
/// as JSON numbers; string-keyed JSON objects as lists of entries.
#[derive(Debug, Clone)]
pub struct ResponseCreateParams {
    pub model: ModelId,
    pub input: ResponseInput,
    pub instructions: Option<String>,
    pub max_output_tokens: Option<u32>,
    pub metadata: Option<Vec<(String, String)>>,
    pub previous_response_id: Option<String>,
    pub stream: Option<bool>,
    pub temperature: Option<serde_json::Number>,
    pub top_p: Option<serde_json::Number>,
    pub extra: Vec<(String, serde_json::Value)>,
}

impl ResponseCreateParams {
    /// Parameters for the given model and input, with nothing else set.
    pub fn new(model: &str, input: ResponseInput) -> (p: Self)
        ensures
            p.model@ == model@,
            p.input == input,
            p.instructions is None && p.max_output_tokens is None && p.metadata is None
                && p.previous_response_id is None && p.stream is None && p.temperature is None
                && p.top_p is None,
            p.extra@.len() == 0,
    {
        ResponseCreateParams {
            model: ModelId::new(model),
            input,
            instructions: None,
            max_output_tokens: None,
            metadata: None,
            previous_response_id: None,
            stream: None,
            temperature: None,
            top_p: None,
            extra: Vec::new(),
        }
    }

    /// The parameters of a streamed request: `stream` set to `true`, every
    /// other field kept.
    pub fn streamed(self) -> (p: Self)
        ensures
            p == (ResponseCreateParams { stream: Some(true), ..self }),
    {
        let mut p = self;
        p.stream = Some(true);
        p
    }

    /// The parameters with instructions.
    pub fn instructions(self, instructions: &str) -> (p: Self)
        ensures
            p.instructions matches Some(i) && i@ == instructions@,
            p == (ResponseCreateParams { instructions: p.instructions, ..self }),
    {
        let mut p = self;
        p.instructions = Some(String::from_str(instructions));
        p
    }

    /// The parameters with a maximum number of output tokens.
    pub fn max_output_tokens(self, max_output_tokens: u32) -> (p: Self)
        ensures
            p == (ResponseCreateParams { max_output_tokens: Some(max_output_tokens), ..self }),
    {
        let mut p = self;
        p.max_output_tokens = Some(max_output_tokens);
        p
    }

    /// The parameters with the extra parameter `key` set to `value`: it
    /// replaces the value of `key` set before, or joins the others where it
    /// belongs by key.
    pub fn extra(self, key: &str, value: serde_json::Value) -> (p: Self)
        ensures
            is_entry_insert(self.extra@, p.extra@, key@),
            p.extra@[entry_index(self.extra@, key@)].1 == value,
            entries_map(p.extra@) == entries_map(self.extra@).insert(key@, value),
            entries_sorted(self.extra@) ==> entries_sorted(p.extra@),
            p == (ResponseCreateParams { extra: p.extra, ..self }),
    {
        let mut p = self;
        p.extra = push_entry(p.extra, key, value);
        p
    }
}

/// The input of a response: text, or a list of items.
#[derive(Debug, Clone)]
pub enum ResponseInput {
    Text(String),
    Items(Vec<ResponseInputItem>),
}

impl From<&str> for ResponseInput {
    fn from(value: &str) -> (i: Self)
        ensures
            i matches ResponseInput::Text(t) && t@ == value@,
    {
        ResponseInput::Text(String::from_str(value))
    }
}

impl vstd::std_specs::convert::FromSpecImpl<&str> for ResponseInput {
    open spec fn obeys_from_spec() -> bool {
        false
    }

    open spec fn from_spec(v: &str) -> Self {
        ResponseInput::Text(arbitrary())
    }
}

impl From<String> for ResponseInput {
    fn from(value: String) -> (i: Self) {
        ResponseInput::Text(value)
    }
}

impl vstd::std_specs::convert::FromSpecImpl<String> for ResponseInput {
    open spec fn obeys_from_spec() -> bool {
        true
    }

    open spec fn from_spec(v: String) -> Self {
        ResponseInput::Text(v)
    }
}

impl From<Vec<ResponseInputItem>> for ResponseInput {
    fn from(value: Vec<ResponseInputItem>) -> (i: Self) {
        ResponseInput::Items(value)
    }
}

impl vstd::std_specs::convert::FromSpecImpl<Vec<ResponseInputItem>> for ResponseInput {
    open spec fn obeys_from_spec() -> bool {
        true
    }

    open spec fn from_spec(v: Vec<ResponseInputItem>) -> Self {
        ResponseInput::Items(v)
    }
}

/// An item of input: a role and its content.
#[derive(Debug, Clone)]
pub struct ResponseInputItem {
    pub role: String,
    pub content: Vec<ResponseInputContent>,
}

impl ResponseInputItem {
    /// A user item holding one text.
    pub fn user_text(text: &str) -> (i: Self)
        ensures
            i.role@ == seq!['u', 's', 'e', 'r'],
            i.content@.len() == 1,
            i.content@[0] matches ResponseInputContent::InputText { text: t } && t@ == text@,
    {
        proof {
            reveal_strlit("user");
            assert("user"@ =~= seq!['u', 's', 'e', 'r']);
        }
        let mut content = Vec::new();
        content.push(ResponseInputContent::input_text(text));
        ResponseInputItem { role: String::from_str("user"), content }
    }
}

/// A piece of input content.
#[derive(Debug, Clone)]
pub enum ResponseInputContent {
    InputText { text: String },
    InputImage { image_url: String },
}

impl ResponseInputContent {
    /// Text input.
    pub fn input_text(text: &str) -> (c: Self)
        ensures
            c matches ResponseInputContent::InputText { text: t } && t@ == text@,
    {
        ResponseInputContent::InputText { text: String::from_str(text) }
    }

    /// An image, by URL.
    pub fn input_image(image_url: &str) -> (c: Self)
        ensures
            c matches ResponseInputContent::InputImage { image_url: u } && u@ == image_url@,
    {
        ResponseInputContent::InputImage { image_url: String::from_str(image_url) }
    }
}

/// A response.
#[derive(Debug, Clone)]
pub struct Response {
    pub id: String,
    pub object: String,
    pub created_at: Option<u64>,
    pub model: Option<String>,
    pub status: Option<String>,
    pub output: Option<Vec<ResponseOutputItem>>,
    pub output_text: Option<String>,
    pub usage: Option<ResponseUsage>,
    pub extra: Vec<(String, serde_json::Value)>,
}

/// An item of a response's output.
#[derive(Debug, Clone)]
pub struct ResponseOutputItem {
    pub id: Option<String>,
    /// Serialized as `type`.
    pub item_type: String,
    pub role: Option<String>,
    pub content: Option<Vec<ResponseOutputContent>>,
    pub extra: Vec<(String, serde_json::Value)>,
}

/// Content of an output item.
#[derive(Debug, Clone)]
pub struct ResponseOutputContent {
    /// Serialized as `type`.
    pub content_type: String,
    pub text: Option<String>,
    pub extra: Vec<(String, serde_json::Value)>,
}

/// Token usage of a response.
#[derive(Debug, Clone)]
pub struct ResponseUsage {
    pub input_tokens: Option<u32>,
    pub output_tokens: Option<u32>,
    pub total_tokens: Option<u32>,
    pub extra: Vec<(String, serde_json::Value)>,
}

/// The answer to the deletion of a response.
#[derive(Debug, Clone)]
pub struct ResponseDeleted {
    pub id: String,
    pub object: String,
    pub deleted: bool,
}

} // verus!
