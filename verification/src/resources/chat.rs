//! Chat Completions: the request parameters, the answers, and the parsing
//! of structured output.

use vstd::prelude::*;

use crate::models::ModelId;
use crate::sdk_core::error::{OpenAIError, Result};
use crate::types::common::{
    entries_map, entries_sorted, entry_index, is_entry_insert, opt_entries, opt_seq, push_entry,
    push_optional_entry, push_to_optional,
};

verus! {

/// The path of Chat Completions.
pub const CHAT_COMPLETIONS_PATH: &'static str = "/chat/completions";

/// Parameters for creating a Chat Completion.
///
/// The type is endpoint-first and model-flexible. It has typed fields for
/// the common parameters, and an `extra` list of entries for parameters that
/// the API adds later. Numbers that the API takes as floating point are held
/// as JSON numbers; JSON objects with string keys are held as lists of
/// entries, which the builders keep sorted by key with one entry per key.
#[derive(Debug, Clone)]
pub struct ChatCompletionCreateParams {
    pub model: ModelId,
    pub messages: Vec<ChatMessage>,
    pub audio: Option<ChatAudioParam>,
    pub frequency_penalty: Option<serde_json::Number>,
    pub function_call: Option<ChatFunctionCallOption>,
    pub functions: Option<Vec<ChatFunctionDefinition>>,
    pub logit_bias: Option<Vec<(String, serde_json::Number)>>,
    pub logprobs: Option<bool>,
    pub max_completion_tokens: Option<u32>,
    pub max_tokens: Option<u32>,
    pub metadata: Option<Vec<(String, String)>>,
    pub modalities: Option<Vec<ChatModality>>,
    pub n: Option<u32>,
    pub parallel_tool_calls: Option<bool>,
    pub prediction: Option<ChatPredictionContent>,
    pub presence_penalty: Option<serde_json::Number>,
    pub prompt_cache_key: Option<String>,
    pub prompt_cache_retention: Option<PromptCacheRetention>,
    pub reasoning_effort: Option<ChatReasoningEffort>,
    pub response_format: Option<ChatResponseFormat>,
    pub safety_identifier: Option<String>,
    pub seed: Option<i64>,
    pub service_tier: Option<ChatServiceTier>,
    pub stop: Option<StopSequences>,
    pub store: Option<bool>,
    pub stream: Option<bool>,
    pub stream_options: Option<ChatStreamOptions>,
    pub temperature: Option<serde_json::Number>,
    pub tool_choice: Option<ChatToolChoice>,
    pub tools: Option<Vec<ChatTool>>,
    pub top_logprobs: Option<u8>,
    pub top_p: Option<serde_json::Number>,
    pub user: Option<String>,
    pub verbosity: Option<ChatVerbosity>,
    pub web_search_options: Option<ChatWebSearchOptions>,
    pub extra: Vec<(String, serde_json::Value)>,
}

impl ChatCompletionCreateParams {
    /// Parameters for the given model, with no message and nothing else set.
    pub fn new(model: &str) -> (p: Self)
        ensures
            p.model@ == model@,
            p.messages@.len() == 0,
            p.extra@.len() == 0,
            p.audio is None && p.frequency_penalty is None && p.function_call is None
                && p.functions is None && p.logit_bias is None && p.logprobs is None
                && p.max_completion_tokens is None && p.max_tokens is None && p.metadata is None
                && p.modalities is None && p.n is None && p.parallel_tool_calls is None
                && p.prediction is None && p.presence_penalty is None && p.prompt_cache_key is None
                && p.prompt_cache_retention is None && p.reasoning_effort is None
                && p.response_format is None && p.safety_identifier is None && p.seed is None
                && p.service_tier is None && p.stop is None && p.store is None && p.stream is None
                && p.stream_options is None && p.temperature is None && p.tool_choice is None
                && p.tools is None && p.top_logprobs is None && p.top_p is None && p.user is None
                && p.verbosity is None && p.web_search_options is None,
    {
        ChatCompletionCreateParams {
            model: ModelId::new(model),
            messages: Vec::new(),
            audio: None,
            frequency_penalty: None,
            function_call: None,
            functions: None,
            logit_bias: None,
            logprobs: None,
            max_completion_tokens: None,
            max_tokens: None,
            metadata: None,
            modalities: None,
            n: None,
            parallel_tool_calls: None,
            prediction: None,
            presence_penalty: None,
            prompt_cache_key: None,
            prompt_cache_retention: None,
            reasoning_effort: None,
            response_format: None,
            safety_identifier: None,
            seed: None,
            service_tier: None,
            stop: None,
            store: None,
            stream: None,
            stream_options: None,
            temperature: None,
            tool_choice: None,
            tools: None,
            top_logprobs: None,
            top_p: None,
            user: None,
            verbosity: None,
            web_search_options: None,
            extra: Vec::new(),
        }
    }

    /// The parameters with one more message, after those added before.
    pub fn message(self, message: ChatMessage) -> (r: Self)
        ensures
            r.messages@ == self.messages@.push(message),
            r == (ChatCompletionCreateParams { messages: r.messages, ..self }),
    {
        let mut r = self;
        r.messages.push(message);
        r
    }

    /// The parameters with the maximum number of completion tokens.
    pub fn max_completion_tokens(self, max_completion_tokens: u32) -> (r: Self)
        ensures
            r == (ChatCompletionCreateParams { max_completion_tokens: Some(max_completion_tokens), ..self }),
    {
        let mut r = self;
        r.max_completion_tokens = Some(max_completion_tokens);
        r
    }

    /// The parameters with the maximum number of tokens.
    pub fn max_tokens(self, max_tokens: u32) -> (r: Self)
        ensures
            r == (ChatCompletionCreateParams { max_tokens: Some(max_tokens), ..self }),
    {
        let mut r = self;
        r.max_tokens = Some(max_tokens);
        r
    }

    /// The parameters with the sampling temperature.
    pub fn temperature(self, temperature: serde_json::Number) -> (r: Self)
        ensures
            r == (ChatCompletionCreateParams { temperature: Some(temperature), ..self }),
    {
        let mut r = self;
        r.temperature = Some(temperature);
        r
    }

    /// The parameters with the nucleus sampling mass.
    pub fn top_p(self, top_p: serde_json::Number) -> (r: Self)
        ensures
            r == (ChatCompletionCreateParams { top_p: Some(top_p), ..self }),
    {
        let mut r = self;
        r.top_p = Some(top_p);
        r
    }

    /// The parameters with the frequency penalty.
    pub fn frequency_penalty(self, frequency_penalty: serde_json::Number) -> (r: Self)
        ensures
            r == (ChatCompletionCreateParams { frequency_penalty: Some(frequency_penalty), ..self }),
    {
        let mut r = self;
        r.frequency_penalty = Some(frequency_penalty);
        r
    }

    /// The parameters with the presence penalty.
    pub fn presence_penalty(self, presence_penalty: serde_json::Number) -> (r: Self)
        ensures
            r == (ChatCompletionCreateParams { presence_penalty: Some(presence_penalty), ..self }),
    {
        let mut r = self;
        r.presence_penalty = Some(presence_penalty);
        r
    }

    /// The parameters with the metadata, replacing any set before.
    pub fn metadata(self, metadata: Vec<(String, String)>) -> (r: Self)
        ensures
            r == (ChatCompletionCreateParams { metadata: Some(metadata), ..self }),
    {
        let mut r = self;
        r.metadata = Some(metadata);
        r
    }

    /// The parameters with the metadata entry for `key` set to `value`: it
    /// replaces the entry for `key` set before, or joins the others where it
    /// belongs by key.
    pub fn metadata_pair(self, key: &str, value: &str) -> (r: Self)
        ensures
            r.metadata matches Some(v) && {
                let old = opt_entries(self.metadata);
                let at = entry_index(old, key@);
                &&& is_entry_insert(old, v@, key@)
                &&& v@[at].1@ == value@
                &&& entries_map(v@) == entries_map(old).insert(key@, v@[at].1)
                &&& entries_sorted(old) ==> entries_sorted(v@)
            },
            r == (ChatCompletionCreateParams { metadata: r.metadata, ..self }),
    {
        let mut r = self;
        r.metadata = push_optional_entry(r.metadata, key, String::from_str(value));
        r
    }

    /// The parameters with the number of choices.
    pub fn n(self, n: u32) -> (r: Self)
        ensures
            r == (ChatCompletionCreateParams { n: Some(n), ..self }),
    {
        let mut r = self;
        r.n = Some(n);
        r
    }

    /// The parameters with whether to return log probabilities.
    pub fn logprobs(self, logprobs: bool) -> (r: Self)
        ensures
            r == (ChatCompletionCreateParams { logprobs: Some(logprobs), ..self }),
    {
        let mut r = self;
        r.logprobs = Some(logprobs);
        r
    }

    /// The parameters with the number of most likely tokens to return at each position.
    pub fn top_logprobs(self, top_logprobs: u8) -> (r: Self)
        ensures
            r == (ChatCompletionCreateParams { top_logprobs: Some(top_logprobs), ..self }),
    {
        let mut r = self;
        r.top_logprobs = Some(top_logprobs);
        r
    }

    /// The parameters with the logit bias, replacing any set before.
    pub fn logit_bias(self, logit_bias: Vec<(String, serde_json::Number)>) -> (r: Self)
        ensures
            r == (ChatCompletionCreateParams { logit_bias: Some(logit_bias), ..self }),
    {
        let mut r = self;
        r.logit_bias = Some(logit_bias);
        r
    }

    /// The parameters with the bias of `token` set to `bias`: it replaces
    /// the bias of `token` set before, or joins the others where it belongs
    /// by token.
    pub fn logit_bias_token(self, token: &str, bias: serde_json::Number) -> (r: Self)
        ensures
            r.logit_bias matches Some(v) && {
                let old = opt_entries(self.logit_bias);
                &&& is_entry_insert(old, v@, token@)
                &&& v@[entry_index(old, token@)].1 == bias
                &&& entries_map(v@) == entries_map(old).insert(token@, bias)
                &&& entries_sorted(old) ==> entries_sorted(v@)
            },
            r == (ChatCompletionCreateParams { logit_bias: r.logit_bias, ..self }),
    {
        let mut r = self;
        r.logit_bias = push_optional_entry(r.logit_bias, token, bias);
        r
    }

    /// The parameters with the response format.
    pub fn response_format(self, response_format: ChatResponseFormat) -> (r: Self)
        ensures
            r == (ChatCompletionCreateParams { response_format: Some(response_format), ..self }),
    {
        let mut r = self;
        r.response_format = Some(response_format);
        r
    }

    /// The parameters with the reasoning effort.
    pub fn reasoning_effort(self, reasoning_effort: ChatReasoningEffort) -> (r: Self)
        ensures
            r == (ChatCompletionCreateParams { reasoning_effort: Some(reasoning_effort), ..self }),
    {
        let mut r = self;
        r.reasoning_effort = Some(reasoning_effort);
        r
    }

    /// The parameters with the verbosity.
    pub fn verbosity(self, verbosity: ChatVerbosity) -> (r: Self)
        ensures
            r == (ChatCompletionCreateParams { verbosity: Some(verbosity), ..self }),
    {
        let mut r = self;
        r.verbosity = Some(verbosity);
        r
    }

    /// The parameters with the sampling seed.
    pub fn seed(self, seed: i64) -> (r: Self)
        ensures
            r == (ChatCompletionCreateParams { seed: Some(seed), ..self }),
    {
        let mut r = self;
        r.seed = Some(seed);
        r
    }

    /// The parameters with the stop sequences.
    pub fn stop(self, stop: StopSequences) -> (r: Self)
        ensures
            r == (ChatCompletionCreateParams { stop: Some(stop), ..self }),
    {
        let mut r = self;
        r.stop = Some(stop);
        r
    }

    /// The parameters with whether to store the completion.
    pub fn store(self, store: bool) -> (r: Self)
        ensures
            r == (ChatCompletionCreateParams { store: Some(store), ..self }),
    {
        let mut r = self;
        r.store = Some(store);
        r
    }

    /// The parameters with the end-user identifier.
    pub fn user(self, user: &str) -> (r: Self)
        ensures
            r.user matches Some(s) && s@ == user@,
            r == (ChatCompletionCreateParams { user: r.user, ..self }),
    {
        let mut r = self;
        r.user = Some(String::from_str(user));
        r
    }

    /// The parameters with the safety identifier.
    pub fn safety_identifier(self, safety_identifier: &str) -> (r: Self)
        ensures
            r.safety_identifier matches Some(s) && s@ == safety_identifier@,
            r == (ChatCompletionCreateParams { safety_identifier: r.safety_identifier, ..self }),
    {
        let mut r = self;
        r.safety_identifier = Some(String::from_str(safety_identifier));
        r
    }

    /// The parameters with the prompt cache key.
    pub fn prompt_cache_key(self, prompt_cache_key: &str) -> (r: Self)
        ensures
            r.prompt_cache_key matches Some(s) && s@ == prompt_cache_key@,
            r == (ChatCompletionCreateParams { prompt_cache_key: r.prompt_cache_key, ..self }),
    {
        let mut r = self;
        r.prompt_cache_key = Some(String::from_str(prompt_cache_key));
        r
    }

    /// The parameters with the prompt cache retention.
    pub fn prompt_cache_retention(self, prompt_cache_retention: PromptCacheRetention) -> (r: Self)
        ensures
            r == (ChatCompletionCreateParams { prompt_cache_retention: Some(prompt_cache_retention), ..self }),
    {
        let mut r = self;
        r.prompt_cache_retention = Some(prompt_cache_retention);
        r
    }

    /// The parameters with the service tier.
    pub fn service_tier(self, service_tier: ChatServiceTier) -> (r: Self)
        ensures
            r == (ChatCompletionCreateParams { service_tier: Some(service_tier), ..self }),
    {
        let mut r = self;
        r.service_tier = Some(service_tier);
        r
    }

    /// The parameters with one output modality, after those set before.
    pub fn modality(self, modality: ChatModality) -> (r: Self)
        ensures
            r.modalities matches Some(v) && v@ == opt_seq(self.modalities).push(modality),
            r == (ChatCompletionCreateParams { modalities: r.modalities, ..self }),
    {
        let mut r = self;
        r.modalities = push_to_optional(r.modalities, modality);
        r
    }

    /// The parameters with the output modalities, replacing any set before.
    pub fn modalities(self, modalities: Vec<ChatModality>) -> (r: Self)
        ensures
            r == (ChatCompletionCreateParams { modalities: Some(modalities), ..self }),
    {
        let mut r = self;
        r.modalities = Some(modalities);
        r
    }

    /// The parameters with the audio output parameters.
    pub fn audio(self, audio: ChatAudioParam) -> (r: Self)
        ensures
            r == (ChatCompletionCreateParams { audio: Some(audio), ..self }),
    {
        let mut r = self;
        r.audio = Some(audio);
        r
    }

    /// The parameters with the predicted output.
    pub fn prediction(self, prediction: ChatPredictionContent) -> (r: Self)
        ensures
            r == (ChatCompletionCreateParams { prediction: Some(prediction), ..self }),
    {
        let mut r = self;
        r.prediction = Some(prediction);
        r
    }

    /// The parameters with whether tools may be called in parallel.
    pub fn parallel_tool_calls(self, parallel_tool_calls: bool) -> (r: Self)
        ensures
            r == (ChatCompletionCreateParams { parallel_tool_calls: Some(parallel_tool_calls), ..self }),
    {
        let mut r = self;
        r.parallel_tool_calls = Some(parallel_tool_calls);
        r
    }

    /// The parameters with one tool, after those set before.
    pub fn tool(self, tool: ChatTool) -> (r: Self)
        ensures
            r.tools matches Some(v) && v@ == opt_seq(self.tools).push(tool),
            r == (ChatCompletionCreateParams { tools: r.tools, ..self }),
    {
        let mut r = self;
        r.tools = push_to_optional(r.tools, tool);
        r
    }

    /// The parameters with the tools, replacing any set before.
    pub fn tools(self, tools: Vec<ChatTool>) -> (r: Self)
        ensures
            r == (ChatCompletionCreateParams { tools: Some(tools), ..self }),
    {
        let mut r = self;
        r.tools = Some(tools);
        r
    }

    /// The parameters with the tool choice.
    pub fn tool_choice(self, tool_choice: ChatToolChoice) -> (r: Self)
        ensures
            r == (ChatCompletionCreateParams { tool_choice: Some(tool_choice), ..self }),
    {
        let mut r = self;
        r.tool_choice = Some(tool_choice);
        r
    }

    /// The parameters with one function, after those set before.
    pub fn function(self, function: ChatFunctionDefinition) -> (r: Self)
        ensures
            r.functions matches Some(v) && v@ == opt_seq(self.functions).push(function),
            r == (ChatCompletionCreateParams { functions: r.functions, ..self }),
    {
        let mut r = self;
        r.functions = push_to_optional(r.functions, function);
        r
    }

    /// The parameters with the function call option.
    pub fn function_call(self, function_call: ChatFunctionCallOption) -> (r: Self)
        ensures
            r == (ChatCompletionCreateParams { function_call: Some(function_call), ..self }),
    {
        let mut r = self;
        r.function_call = Some(function_call);
        r
    }

    /// The parameters of a streamed request: `stream` set to `true`, every
    /// other field kept.
    pub fn streamed(self) -> (r: Self)
        ensures
            r == (ChatCompletionCreateParams { stream: Some(true), ..self }),
    {
        let mut r = self;
        r.stream = Some(true);
        r
    }

    /// The parameters with the streaming options.
    pub fn stream_options(self, stream_options: ChatStreamOptions) -> (r: Self)
        ensures
            r == (ChatCompletionCreateParams { stream_options: Some(stream_options), ..self }),
    {
        let mut r = self;
        r.stream_options = Some(stream_options);
        r
    }

    /// The parameters with the web search options.
    pub fn web_search_options(self, web_search_options: ChatWebSearchOptions) -> (r: Self)
        ensures
            r == (ChatCompletionCreateParams { web_search_options: Some(web_search_options), ..self }),
    {
        let mut r = self;
        r.web_search_options = Some(web_search_options);
        r
    }


    /// The parameters with the extra parameter `key` set to `value`: it
    /// replaces the value of `key` set before, or joins the others where it
    /// belongs by key.
    pub fn extra(self, key: &str, value: serde_json::Value) -> (r: Self)
        ensures
            is_entry_insert(self.extra@, r.extra@, key@),
            r.extra@[entry_index(self.extra@, key@)].1 == value,
            entries_map(r.extra@) == entries_map(self.extra@).insert(key@, value),
            entries_sorted(self.extra@) ==> entries_sorted(r.extra@),
            r == (ChatCompletionCreateParams { extra: r.extra, ..self }),
    {
        let mut r = self;
        r.extra = push_entry(r.extra, key, value);
        r
    }

    /// The parameters with a JSON Schema response format of the given name
    /// and schema.
    pub fn json_schema(self, name: &str, schema: serde_json::Value) -> (r: Self)
        ensures
            r.response_format matches Some(ChatResponseFormat::JsonSchema { json_schema: j })
                && j.name@ == name@ && j.schema == schema && j.description is None
                && j.strict is None,
            r == (ChatCompletionCreateParams { response_format: r.response_format, ..self }),
    {
        let mut r = self;
        r.response_format = Some(ChatResponseFormat::json_schema(name, schema));
        r
    }
}

/// How much the model reasons.
#[derive(Debug, Clone, Copy, PartialEq, Eq, Structural)]
pub enum ChatReasoningEffort {
    /// Serialized as `none`.
    Off,
    Minimal,
    Low,
    Medium,
    High,
    Xhigh,
}

/// How verbose the answer is.
#[derive(Debug, Clone, Copy, PartialEq, Eq, Structural)]
pub enum ChatVerbosity {
    Low,
    Medium,
    High,
}

/// An output modality.
#[derive(Debug, Clone, Copy, PartialEq, Eq, Structural)]
pub enum ChatModality {
    Text,
    Audio,
}

/// The service tier of a request.
#[derive(Debug, Clone, Copy, PartialEq, Eq, Structural)]
pub enum ChatServiceTier {
    Auto,
    Default,
    Flex,
    Scale,
    Priority,
}

/// How long a prompt stays cached.
#[derive(Debug, Clone, Copy, PartialEq, Eq, Structural)]
pub enum PromptCacheRetention {
    InMemory,
    /// Serialized as `24h`.
    TwentyFourHours,
}

/// One stop sequence or several.
#[derive(Debug, Clone)]
pub enum StopSequences {
    One(String),
    Many(Vec<String>),
}

impl From<&str> for StopSequences {
    fn from(value: &str) -> (r: Self)
        ensures
            r matches StopSequences::One(s) && s@ == value@,
    {
        StopSequences::One(String::from_str(value))
    }
}

impl vstd::std_specs::convert::FromSpecImpl<&str> for StopSequences {
    open spec fn obeys_from_spec() -> bool {
        false
    }

    open spec fn from_spec(v: &str) -> Self {
        StopSequences::One(arbitrary())
    }
}

impl From<String> for StopSequences {
    fn from(value: String) -> (r: Self) {
        StopSequences::One(value)
    }
}

impl vstd::std_specs::convert::FromSpecImpl<String> for StopSequences {
    open spec fn obeys_from_spec() -> bool {
        true
    }

    open spec fn from_spec(v: String) -> Self {
        StopSequences::One(v)
    }
}

impl From<Vec<String>> for StopSequences {
    fn from(value: Vec<String>) -> (r: Self) {
        StopSequences::Many(value)
    }
}

impl vstd::std_specs::convert::FromSpecImpl<Vec<String>> for StopSequences {
    open spec fn obeys_from_spec() -> bool {
        true
    }

    open spec fn from_spec(v: Vec<String>) -> Self {
        StopSequences::Many(v)
    }
}

impl From<Vec<&str>> for StopSequences {
    fn from(value: Vec<&str>) -> (r: Self)
        ensures
            r matches StopSequences::Many(v) && v@.len() == value@.len() && forall|i: int|
                0 <= i < v@.len() ==> #[trigger] v@[i]@ == value@[i]@,
    {
        let mut v: Vec<String> = Vec::new();
        let mut i: usize = 0;
        while i < value.len()
            invariant
                i <= value@.len(),
                v@.len() == i,
                forall|k: int| 0 <= k < i ==> #[trigger] v@[k]@ == value@[k]@,
            decreases value@.len() - i,
        {
            v.push(String::from_str(value[i]));
            i = i + 1;
        }
        StopSequences::Many(v)
    }
}

impl vstd::std_specs::convert::FromSpecImpl<Vec<&str>> for StopSequences {
    open spec fn obeys_from_spec() -> bool {
        false
    }

    open spec fn from_spec(v: Vec<&str>) -> Self {
        StopSequences::Many(arbitrary())
    }
}

/// Options of a streamed completion.
#[derive(Debug, Clone)]
pub struct ChatStreamOptions {
    pub include_obfuscation: Option<bool>,
    pub include_usage: Option<bool>,
}

impl ChatStreamOptions {
    /// Options with nothing set.
    pub fn new() -> (o: Self)
        ensures
            o.include_obfuscation is None && o.include_usage is None,
    {
        ChatStreamOptions { include_obfuscation: None, include_usage: None }
    }

    /// The options with obfuscation included or not.
    pub fn include_obfuscation(self, include_obfuscation: bool) -> (o: Self)
        ensures
            o == (ChatStreamOptions { include_obfuscation: Some(include_obfuscation), ..self }),
    {
        let mut o = self;
        o.include_obfuscation = Some(include_obfuscation);
        o
    }

    /// The options with usage included or not.
    pub fn include_usage(self, include_usage: bool) -> (o: Self)
        ensures
            o == (ChatStreamOptions { include_usage: Some(include_usage), ..self }),
    {
        let mut o = self;
        o.include_usage = Some(include_usage);
        o
    }
}

impl Default for ChatStreamOptions {
    fn default() -> (o: Self)
        ensures
            o.include_obfuscation is None && o.include_usage is None,
    {
        Self::new()
    }
}

/// Parameters of audio output.
#[derive(Debug, Clone)]
pub struct ChatAudioParam {
    pub format: ChatAudioFormat,
    pub voice: ChatVoice,
}

impl ChatAudioParam {
    /// Audio output in `format` with `voice`.
    pub fn new(format: ChatAudioFormat, voice: ChatVoice) -> (a: Self)
        ensures
            a == (ChatAudioParam { format, voice }),
    {
        ChatAudioParam { format, voice }
    }
}

/// An audio format.
#[derive(Debug, Clone, Copy, PartialEq, Eq, Structural)]
pub enum ChatAudioFormat {
    Wav,
    Aac,
    Mp3,
    Flac,
    Opus,
    Pcm16,
}

/// A voice, by name or by ID.
#[derive(Debug, Clone, PartialEq, Eq)]
pub enum ChatVoice {
    Name(String),
    Id { id: String },
}

impl From<&str> for ChatVoice {
    fn from(value: &str) -> (v: Self)
        ensures
            v matches ChatVoice::Name(s) && s@ == value@,
    {
        ChatVoice::Name(String::from_str(value))
    }
}

impl vstd::std_specs::convert::FromSpecImpl<&str> for ChatVoice {
    open spec fn obeys_from_spec() -> bool {
        false
    }

    open spec fn from_spec(v: &str) -> Self {
        ChatVoice::Name(arbitrary())
    }
}

impl From<String> for ChatVoice {
    fn from(value: String) -> (v: Self) {
        ChatVoice::Name(value)
    }
}

impl vstd::std_specs::convert::FromSpecImpl<String> for ChatVoice {
    open spec fn obeys_from_spec() -> bool {
        true
    }

    open spec fn from_spec(v: String) -> Self {
        ChatVoice::Name(v)
    }
}

impl ChatVoice {
    /// The voice with the given ID.
    pub fn id(id: &str) -> (v: Self)
        ensures
            v matches ChatVoice::Id { id: s } && s@ == id@,
    {
        ChatVoice::Id { id: String::from_str(id) }
    }
}

/// Predicted output.
#[derive(Debug, Clone)]
pub struct ChatPredictionContent {
    pub content: ChatPredictionContentValue,
    /// Serialized as `type`.
    pub prediction_type: ChatPredictionType,
}

impl ChatPredictionContent {
    /// A prediction of the given text.
    pub fn text(content: &str) -> (p: Self)
        ensures
            p.content matches ChatPredictionContentValue::Text(s) && s@ == content@,
            p.prediction_type == ChatPredictionType::Content,
    {
        ChatPredictionContent {
            content: ChatPredictionContentValue::Text(String::from_str(content)),
            prediction_type: ChatPredictionType::Content,
        }
    }

    /// A prediction made of content parts.
    pub fn parts(content: Vec<ChatContentPart>) -> (p: Self)
        ensures
            p == (ChatPredictionContent {
                content: ChatPredictionContentValue::Parts(content),
                prediction_type: ChatPredictionType::Content,
            }),
    {
        ChatPredictionContent {
            content: ChatPredictionContentValue::Parts(content),
            prediction_type: ChatPredictionType::Content,
        }
    }
}

/// The content of a prediction: text or parts.
#[derive(Debug, Clone)]
pub enum ChatPredictionContentValue {
    Text(String),
    Parts(Vec<ChatContentPart>),
}

/// The type of a prediction.
#[derive(Debug, Clone, Copy, PartialEq, Eq, Structural)]
pub enum ChatPredictionType {
    Content,
}

/// The format of the answer.
#[derive(Debug, Clone)]
pub enum ChatResponseFormat {
    Text,
    JsonObject,
    JsonSchema { json_schema: ChatResponseFormatJsonSchema },
}

impl ChatResponseFormat {
    /// Plain text.
    pub fn text() -> (f: Self)
        ensures
            f is Text,
    {
        ChatResponseFormat::Text
    }

    /// Any JSON object.
    pub fn json_object() -> (f: Self)
        ensures
            f is JsonObject,
    {
        ChatResponseFormat::JsonObject
    }

    /// JSON that follows the given schema, under the given name.
    pub fn json_schema(name: &str, schema: serde_json::Value) -> (f: Self)
        ensures
            f matches ChatResponseFormat::JsonSchema { json_schema: j } && j.name@ == name@
                && j.schema == schema && j.description is None && j.strict is None,
    {
        ChatResponseFormat::JsonSchema { json_schema: ChatResponseFormatJsonSchema::new(name, schema) }
    }
}

/// A named JSON Schema for the answer.
#[derive(Debug, Clone)]
pub struct ChatResponseFormatJsonSchema {
    pub name: String,
    pub description: Option<String>,
    pub schema: serde_json::Value,
    pub strict: Option<bool>,
}

impl ChatResponseFormatJsonSchema {
    /// The schema `schema` under the name `name`, without description or
    /// strictness.
    pub fn new(name: &str, schema: serde_json::Value) -> (j: Self)
        ensures
            j.name@ == name@,
            j.schema == schema,
            j.description is None,
            j.strict is None,
    {
        ChatResponseFormatJsonSchema {
            name: String::from_str(name),
            description: None,
            schema,
            strict: None,
        }
    }

    /// The schema with a description.
    pub fn description(self, description: &str) -> (j: Self)
        ensures
            j.description matches Some(d) && d@ == description@,
            j == (ChatResponseFormatJsonSchema { description: j.description, ..self }),
    {
        let mut j = self;
        j.description = Some(String::from_str(description));
        j
    }

    /// The schema, strict or not.
    pub fn strict(self, strict: bool) -> (j: Self)
        ensures
            j == (ChatResponseFormatJsonSchema { strict: Some(strict), ..self }),
    {
        let mut j = self;
        j.strict = Some(strict);
        j
    }
}

/// A message of a conversation.
#[derive(Debug, Clone)]
pub struct ChatMessage {
    pub role: String,
    pub content: ChatMessageContent,
    pub name: Option<String>,
}

/// The role `system`.
pub open spec fn role_system() -> Seq<char> {
    seq!['s', 'y', 's', 't', 'e', 'm']
}

/// The role `user`.
pub open spec fn role_user() -> Seq<char> {
    seq!['u', 's', 'e', 'r']
}

/// The role `assistant`.
pub open spec fn role_assistant() -> Seq<char> {
    seq!['a', 's', 's', 'i', 's', 't', 'a', 'n', 't']
}

/// The role `developer`.
pub open spec fn role_developer() -> Seq<char> {
    seq!['d', 'e', 'v', 'e', 'l', 'o', 'p', 'e', 'r']
}

/// A text message with the given role and content, and no name.
pub open spec fn is_text_message(m: ChatMessage, role: Seq<char>, content: Seq<char>) -> bool {
    &&& m.role@ == role
    &&& m.content matches ChatMessageContent::Text(c) && c@ == content
    &&& m.name is None
}

impl ChatMessage {
    /// A system message.
    pub fn system(content: &str) -> (m: Self)
        ensures
            is_text_message(m, role_system(), content@),
    {
        proof {
            reveal_strlit("system");
            assert("system"@ =~= role_system());
        }
        Self::new("system", content)
    }

    /// A user message.
    pub fn user(content: &str) -> (m: Self)
        ensures
            is_text_message(m, role_user(), content@),
    {
        proof {
            reveal_strlit("user");
            assert("user"@ =~= role_user());
        }
        Self::new("user", content)
    }

    /// An assistant message.
    pub fn assistant(content: &str) -> (m: Self)
        ensures
            is_text_message(m, role_assistant(), content@),
    {
        proof {
            reveal_strlit("assistant");
            assert("assistant"@ =~= role_assistant());
        }
        Self::new("assistant", content)
    }

    /// A developer message.
    pub fn developer(content: &str) -> (m: Self)
        ensures
            is_text_message(m, role_developer(), content@),
    {
        proof {
            reveal_strlit("developer");
            assert("developer"@ =~= role_developer());
        }
        Self::new("developer", content)
    }

    fn new(role: &str, content: &str) -> (m: Self)
        ensures
            is_text_message(m, role@, content@),
    {
        ChatMessage {
            role: String::from_str(role),
            content: ChatMessageContent::Text(String::from_str(content)),
            name: None,
        }
    }
}

/// The content of a message: text or parts.
#[derive(Debug, Clone)]
pub enum ChatMessageContent {
    Text(String),
    Parts(Vec<ChatContentPart>),
}

/// A part of a message's content.
#[derive(Debug, Clone)]
pub enum ChatContentPart {
    Text { text: String },
    ImageUrl { image_url: ChatImageUrl },
}

/// An image given by URL.
#[derive(Debug, Clone)]
pub struct ChatImageUrl {
    pub url: String,
    pub detail: Option<String>,
}

/// A tool the model may call.
#[derive(Debug, Clone)]
pub enum ChatTool {
    Function { function: ChatFunctionDefinition },
    Custom { custom: ChatCustomTool },
}

impl ChatTool {
    /// A function tool.
    pub fn function(function: ChatFunctionDefinition) -> (t: Self)
        ensures
            t == (ChatTool::Function { function }),
    {
        ChatTool::Function { function }
    }

    /// A custom tool.
    pub fn custom(custom: ChatCustomTool) -> (t: Self)
        ensures
            t == (ChatTool::Custom { custom }),
    {
        ChatTool::Custom { custom }
    }
}

/// A function the model may call.
#[derive(Debug, Clone)]
pub struct ChatFunctionDefinition {
    pub name: String,
    pub description: Option<String>,
    pub parameters: Option<serde_json::Value>,
    pub strict: Option<bool>,
}

impl ChatFunctionDefinition {
    /// The function of the given name, with nothing else set.
    pub fn new(name: &str) -> (f: Self)
        ensures
            f.name@ == name@,
            f.description is None && f.parameters is None && f.strict is None,
    {
        ChatFunctionDefinition {
            name: String::from_str(name),
            description: None,
            parameters: None,
            strict: None,
        }
    }

    /// The function with a description.
    pub fn description(self, description: &str) -> (f: Self)
        ensures
            f.description matches Some(d) && d@ == description@,
            f == (ChatFunctionDefinition { description: f.description, ..self }),
    {
        let mut f = self;
        f.description = Some(String::from_str(description));
        f
    }

    /// The function with a JSON Schema of its parameters.
    pub fn parameters(self, parameters: serde_json::Value) -> (f: Self)
        ensures
            f == (ChatFunctionDefinition { parameters: Some(parameters), ..self }),
    {
        let mut f = self;
        f.parameters = Some(parameters);
        f
    }

    /// The function, strict or not.
    pub fn strict(self, strict: bool) -> (f: Self)
        ensures
            f == (ChatFunctionDefinition { strict: Some(strict), ..self }),
    {
        let mut f = self;
        f.strict = Some(strict);
        f
    }
}

/// A custom tool.
#[derive(Debug, Clone)]
pub struct ChatCustomTool {
    pub name: String,
    pub description: Option<String>,
    pub format: Option<ChatCustomToolFormat>,
}

impl ChatCustomTool {
    /// The custom tool of the given name, with nothing else set.
    pub fn new(name: &str) -> (t: Self)
        ensures
            t.name@ == name@,
            t.description is None && t.format is None,
    {
        ChatCustomTool { name: String::from_str(name), description: None, format: None }
    }

    /// The tool with a description.
    pub fn description(self, description: &str) -> (t: Self)
        ensures
            t.description matches Some(d) && d@ == description@,
            t == (ChatCustomTool { description: t.description, ..self }),
    {
        let mut t = self;
        t.description = Some(String::from_str(description));
        t
    }

    /// The tool with an input format.
    pub fn format(self, format: ChatCustomToolFormat) -> (t: Self)
        ensures
            t == (ChatCustomTool { format: Some(format), ..self }),
    {
        let mut t = self;
        t.format = Some(format);
        t
    }
}

/// The input format of a custom tool.
#[derive(Debug, Clone)]
pub enum ChatCustomToolFormat {
    Text,
    Grammar { grammar: ChatGrammar },
}

/// A grammar that constrains a custom tool's input.
#[derive(Debug, Clone)]
pub struct ChatGrammar {
    pub definition: String,
    pub syntax: ChatGrammarSyntax,
}

impl ChatGrammar {
    /// A Lark grammar.
    pub fn lark(definition: &str) -> (g: Self)
        ensures
            g.definition@ == definition@,
            g.syntax == ChatGrammarSyntax::Lark,
    {
        ChatGrammar { definition: String::from_str(definition), syntax: ChatGrammarSyntax::Lark }
    }

    /// A regular expression.
    pub fn regex(definition: &str) -> (g: Self)
        ensures
            g.definition@ == definition@,
            g.syntax == ChatGrammarSyntax::Regex,
    {
        ChatGrammar { definition: String::from_str(definition), syntax: ChatGrammarSyntax::Regex }
    }
}

/// The syntax of a grammar.
#[derive(Debug, Clone, Copy, PartialEq, Eq, Structural)]
pub enum ChatGrammarSyntax {
    Lark,
    Regex,
}

/// Which tool the model is to call.
#[derive(Debug, Clone)]
pub enum ChatToolChoice {
    Mode(ChatToolChoiceMode),
    Function(ChatNamedFunctionToolChoice),
    Custom(ChatNamedCustomToolChoice),
    Allowed(ChatAllowedToolChoice),
}

impl ChatToolChoice {
    /// No tool.
    pub fn none() -> (c: Self)
        ensures
            c == ChatToolChoice::Mode(ChatToolChoiceMode::Off),
    {
        ChatToolChoice::Mode(ChatToolChoiceMode::Off)
    }

    /// The model decides.
    pub fn auto() -> (c: Self)
        ensures
            c == ChatToolChoice::Mode(ChatToolChoiceMode::Auto),
    {
        ChatToolChoice::Mode(ChatToolChoiceMode::Auto)
    }

    /// Some tool.
    pub fn required() -> (c: Self)
        ensures
            c == ChatToolChoice::Mode(ChatToolChoiceMode::Required),
    {
        ChatToolChoice::Mode(ChatToolChoiceMode::Required)
    }

    /// The function of the given name.
    pub fn function(name: &str) -> (c: Self)
        ensures
            c matches ChatToolChoice::Function(f) && f.function.name@ == name@
                && f.choice_type == ChatNamedFunctionToolChoiceType::Function,
    {
        ChatToolChoice::Function(ChatNamedFunctionToolChoice::new(name))
    }

    /// The custom tool of the given name.
    pub fn custom(name: &str) -> (c: Self)
        ensures
            c matches ChatToolChoice::Custom(t) && t.custom.name@ == name@
                && t.choice_type == ChatNamedCustomToolChoiceType::Custom,
    {
        ChatToolChoice::Custom(ChatNamedCustomToolChoice::new(name))
    }

    /// One of the allowed tools.
    pub fn allowed(allowed_tools: ChatAllowedTools) -> (c: Self)
        ensures
            c == ChatToolChoice::Allowed(
                ChatAllowedToolChoice {
                    allowed_tools,
                    choice_type: ChatAllowedToolChoiceType::AllowedTools,
                },
            ),
    {
        ChatToolChoice::Allowed(
            ChatAllowedToolChoice {
                allowed_tools,
                choice_type: ChatAllowedToolChoiceType::AllowedTools,
            },
        )
    }
}

/// A tool choice by mode.
#[derive(Debug, Clone, Copy, PartialEq, Eq, Structural)]
pub enum ChatToolChoiceMode {
    /// Serialized as `none`.
    Off,
    Auto,
    Required,
}

/// A choice of a named function.
#[derive(Debug, Clone)]
pub struct ChatNamedFunctionToolChoice {
    pub function: ChatNamedFunction,
    /// Serialized as `type`.
    pub choice_type: ChatNamedFunctionToolChoiceType,
}

impl ChatNamedFunctionToolChoice {
    /// The choice of the function of the given name.
    pub fn new(name: &str) -> (c: Self)
        ensures
            c.function.name@ == name@,
            c.choice_type == ChatNamedFunctionToolChoiceType::Function,
    {
        ChatNamedFunctionToolChoice {
            function: ChatNamedFunction { name: String::from_str(name) },
            choice_type: ChatNamedFunctionToolChoiceType::Function,
        }
    }
}

/// A function named in a tool choice.
#[derive(Debug, Clone)]
pub struct ChatNamedFunction {
    pub name: String,
}

/// The type of a named function choice.
#[derive(Debug, Clone, Copy, PartialEq, Eq, Structural)]
pub enum ChatNamedFunctionToolChoiceType {
    Function,
}

/// A choice of a named custom tool.
#[derive(Debug, Clone)]
pub struct ChatNamedCustomToolChoice {
    pub custom: ChatNamedCustom,
    /// Serialized as `type`.
    pub choice_type: ChatNamedCustomToolChoiceType,
}

impl ChatNamedCustomToolChoice {
    /// The choice of the custom tool of the given name.
    pub fn new(name: &str) -> (c: Self)
        ensures
            c.custom.name@ == name@,
            c.choice_type == ChatNamedCustomToolChoiceType::Custom,
    {
        ChatNamedCustomToolChoice {
            custom: ChatNamedCustom { name: String::from_str(name) },
            choice_type: ChatNamedCustomToolChoiceType::Custom,
        }
    }
}

/// A custom tool named in a tool choice.
#[derive(Debug, Clone)]
pub struct ChatNamedCustom {
    pub name: String,
}

/// The type of a named custom tool choice.
#[derive(Debug, Clone, Copy, PartialEq, Eq, Structural)]
pub enum ChatNamedCustomToolChoiceType {
    Custom,
}

/// A choice among allowed tools.
#[derive(Debug, Clone)]
pub struct ChatAllowedToolChoice {
    pub allowed_tools: ChatAllowedTools,
    /// Serialized as `type`.
    pub choice_type: ChatAllowedToolChoiceType,
}

/// The tools allowed, and how the model is to use them.
#[derive(Debug, Clone)]
pub struct ChatAllowedTools {
    pub mode: ChatAllowedToolsMode,
    pub tools: Vec<serde_json::Value>,
}

impl ChatAllowedTools {
    /// The given tools, used in the given mode.
    pub fn new(mode: ChatAllowedToolsMode, tools: Vec<serde_json::Value>) -> (a: Self)
        ensures
            a == (ChatAllowedTools { mode, tools }),
    {
        ChatAllowedTools { mode, tools }
    }
}

/// How the model uses the allowed tools.
#[derive(Debug, Clone, Copy, PartialEq, Eq, Structural)]
pub enum ChatAllowedToolsMode {
    Auto,
    Required,
}

/// The type of an allowed-tools choice.
#[derive(Debug, Clone, Copy, PartialEq, Eq, Structural)]
pub enum ChatAllowedToolChoiceType {
    AllowedTools,
}

/// Which function the model is to call, in the older functions interface.
#[derive(Debug, Clone)]
pub enum ChatFunctionCallOption {
    Mode(ChatFunctionCallMode),
    Named(ChatFunctionCallName),
}

impl ChatFunctionCallOption {
    /// No function.
    pub fn none() -> (c: Self)
        ensures
            c == ChatFunctionCallOption::Mode(ChatFunctionCallMode::Off),
    {
        ChatFunctionCallOption::Mode(ChatFunctionCallMode::Off)
    }

    /// The model decides.
    pub fn auto() -> (c: Self)
        ensures
            c == ChatFunctionCallOption::Mode(ChatFunctionCallMode::Auto),
    {
        ChatFunctionCallOption::Mode(ChatFunctionCallMode::Auto)
    }

    /// The function of the given name.
    pub fn named(name: &str) -> (c: Self)
        ensures
            c matches ChatFunctionCallOption::Named(n) && n.name@ == name@,
    {
        ChatFunctionCallOption::Named(ChatFunctionCallName { name: String::from_str(name) })
    }
}

/// A function call by mode.
#[derive(Debug, Clone, Copy, PartialEq, Eq, Structural)]
pub enum ChatFunctionCallMode {
    /// Serialized as `none`.
    Off,
    Auto,
}

/// A function named in a function call option.
#[derive(Debug, Clone)]
pub struct ChatFunctionCallName {
    pub name: String,
}

/// Options of web search.
#[derive(Debug, Clone)]
pub struct ChatWebSearchOptions {
    pub search_context_size: Option<ChatSearchContextSize>,
    pub user_location: Option<ChatWebSearchUserLocation>,
}

impl ChatWebSearchOptions {
    /// Options with nothing set.
    pub fn new() -> (o: Self)
        ensures
            o.search_context_size is None && o.user_location is None,
    {
        ChatWebSearchOptions { search_context_size: None, user_location: None }
    }

    /// The options with a search context size.
    pub fn search_context_size(self, size: ChatSearchContextSize) -> (o: Self)
        ensures
            o == (ChatWebSearchOptions { search_context_size: Some(size), ..self }),
    {
        let mut o = self;
        o.search_context_size = Some(size);
        o
    }

    /// The options with a user location.
    pub fn user_location(self, location: ChatWebSearchUserLocation) -> (o: Self)
        ensures
            o == (ChatWebSearchOptions { user_location: Some(location), ..self }),
    {
        let mut o = self;
        o.user_location = Some(location);
        o
    }
}

impl Default for ChatWebSearchOptions {
    fn default() -> (o: Self)
        ensures
            o.search_context_size is None && o.user_location is None,
    {
        Self::new()
    }
}

/// How much context web search gathers.
#[derive(Debug, Clone, Copy, PartialEq, Eq, Structural)]
pub enum ChatSearchContextSize {
    Low,
    Medium,
    High,
}

/// Where the user is, for web search.
#[derive(Debug, Clone)]
pub struct ChatWebSearchUserLocation {
    pub approximate: ChatApproximateLocation,
    /// Serialized as `type`.
    pub location_type: ChatWebSearchUserLocationType,
}

impl ChatWebSearchUserLocation {
    /// An approximate location.
    pub fn approximate(approximate: ChatApproximateLocation) -> (l: Self)
        ensures
            l == (ChatWebSearchUserLocation {
                approximate,
                location_type: ChatWebSearchUserLocationType::Approximate,
            }),
    {
        ChatWebSearchUserLocation {
            approximate,
            location_type: ChatWebSearchUserLocationType::Approximate,
        }
    }
}

/// The type of a user location.
#[derive(Debug, Clone, Copy, PartialEq, Eq, Structural)]
pub enum ChatWebSearchUserLocationType {
    Approximate,
}

/// An approximate location.
#[derive(Debug, Clone)]
pub struct ChatApproximateLocation {
    pub city: Option<String>,
    pub country: Option<String>,
    pub region: Option<String>,
    pub timezone: Option<String>,
}

impl ChatApproximateLocation {
    /// A location with nothing set.
    pub fn new() -> (l: Self)
        ensures
            l.city is None && l.country is None && l.region is None && l.timezone is None,
    {
        ChatApproximateLocation { city: None, country: None, region: None, timezone: None }
    }

    /// The location with a city.
    pub fn city(self, city: &str) -> (l: Self)
        ensures
            l.city matches Some(c) && c@ == city@,
            l == (ChatApproximateLocation { city: l.city, ..self }),
    {
        let mut l = self;
        l.city = Some(String::from_str(city));
        l
    }

    /// The location with a country.
    pub fn country(self, country: &str) -> (l: Self)
        ensures
            l.country matches Some(c) && c@ == country@,
            l == (ChatApproximateLocation { country: l.country, ..self }),
    {
        let mut l = self;
        l.country = Some(String::from_str(country));
        l
    }

    /// The location with a region.
    pub fn region(self, region: &str) -> (l: Self)
        ensures
            l.region matches Some(r) && r@ == region@,
            l == (ChatApproximateLocation { region: l.region, ..self }),
    {
        let mut l = self;
        l.region = Some(String::from_str(region));
        l
    }

    /// The location with a time zone.
    pub fn timezone(self, timezone: &str) -> (l: Self)
        ensures
            l.timezone matches Some(t) && t@ == timezone@,
            l == (ChatApproximateLocation { timezone: l.timezone, ..self }),
    {
        let mut l = self;
        l.timezone = Some(String::from_str(timezone));
        l
    }
}

impl Default for ChatApproximateLocation {
    fn default() -> (l: Self)
        ensures
            l.city is None && l.country is None && l.region is None && l.timezone is None,
    {
        Self::new()
    }
}

/// A Chat Completion.
#[derive(Debug, Clone)]
pub struct ChatCompletion {
    pub id: String,
    pub object: String,
    pub created: u64,
    pub model: String,
    pub choices: Vec<ChatChoice>,
    pub usage: Option<ChatUsage>,
    pub extra: Vec<(String, serde_json::Value)>,
}

/// A chunk of a streamed Chat Completion.
#[derive(Debug, Clone)]
pub struct ChatCompletionChunk {
    pub id: String,
    pub object: String,
    pub created: u64,
    pub model: String,
    pub choices: Vec<ChatCompletionChunkChoice>,
    pub usage: Option<ChatUsage>,
    pub service_tier: Option<String>,
    pub system_fingerprint: Option<String>,
    pub extra: Vec<(String, serde_json::Value)>,
}

/// A choice of a chunk.
#[derive(Debug, Clone)]
pub struct ChatCompletionChunkChoice {
    pub index: u32,
    pub delta: ChatCompletionDelta,
    pub finish_reason: Option<String>,
    pub logprobs: Option<ChatChoiceLogprobs>,
    pub extra: Vec<(String, serde_json::Value)>,
}

/// What a chunk adds to a choice.
#[derive(Debug, Clone)]
pub struct ChatCompletionDelta {
    pub role: Option<String>,
    pub content: Option<String>,
    pub refusal: Option<String>,
    pub tool_calls: Option<Vec<ChatCompletionDeltaToolCall>>,
    pub function_call: Option<ChatCompletionDeltaFunctionCall>,
    pub extra: Vec<(String, serde_json::Value)>,
}

/// What a chunk adds to a tool call.
#[derive(Debug, Clone)]
pub struct ChatCompletionDeltaToolCall {
    pub index: u32,
    pub id: Option<String>,
    /// Serialized as `type`.
    pub tool_type: Option<String>,
    pub function: Option<ChatCompletionDeltaToolFunction>,
    pub custom: Option<ChatCompletionDeltaCustomTool>,
    pub extra: Vec<(String, serde_json::Value)>,
}

/// What a chunk adds to a function call of a tool call.
#[derive(Debug, Clone)]
pub struct ChatCompletionDeltaToolFunction {
    pub name: Option<String>,
    pub arguments: Option<String>,
}

/// What a chunk adds to a custom tool call.
#[derive(Debug, Clone)]
pub struct ChatCompletionDeltaCustomTool {
    pub name: Option<String>,
    pub input: Option<String>,
}

/// What a chunk adds to a function call.
#[derive(Debug, Clone)]
pub struct ChatCompletionDeltaFunctionCall {
    pub name: Option<String>,
    pub arguments: Option<String>,
}

/// A choice of a Chat Completion.
#[derive(Debug, Clone)]
pub struct ChatChoice {
    pub index: u32,
    pub message: ChatMessage,
    pub finish_reason: Option<String>,
    pub logprobs: Option<ChatChoiceLogprobs>,
    pub extra: Vec<(String, serde_json::Value)>,
}

/// Log probabilities of a choice.
#[derive(Debug, Clone)]
pub struct ChatChoiceLogprobs {
    pub content: Option<Vec<ChatTokenLogprob>>,
    pub refusal: Option<Vec<ChatTokenLogprob>>,
}

/// The log probability of a token.
#[derive(Debug, Clone)]
pub struct ChatTokenLogprob {
    pub token: String,
    pub bytes: Option<Vec<u8>>,
    pub logprob: serde_json::Number,
    pub top_logprobs: Vec<ChatTopLogprob>,
}

/// One of the most likely tokens at a position.
#[derive(Debug, Clone)]
pub struct ChatTopLogprob {
    pub token: String,
    pub bytes: Option<Vec<u8>>,
    pub logprob: serde_json::Number,
}

/// Token usage.
#[derive(Debug, Clone)]
pub struct ChatUsage {
    pub prompt_tokens: Option<u32>,
    pub completion_tokens: Option<u32>,
    pub total_tokens: Option<u32>,
    pub extra: Vec<(String, serde_json::Value)>,
}

/// A Chat Completion together with the value parsed from its first choice.
#[derive(Debug, Clone)]
pub struct ParsedChatCompletion<T> {
    /// The raw Chat Completion.
    pub completion: ChatCompletion,
    /// The value deserialized from the first choice's text.
    pub parsed: T,
}

/// The message of a completion with no choice.
pub const NO_CHOICES_MESSAGE: &'static str = "completion contained no choices";

/// The message of a completion whose first choice holds no text.
pub const NOT_TEXT_MESSAGE: &'static str = "first completion choice did not contain text content";

/// The text that structured output is parsed from: the text content of the
/// completion's first choice. A completion without choices, or whose first
/// choice's content is made of parts, is a parse error.
pub fn chat_completion_content(completion: &ChatCompletion) -> (r: Result<String>)
    ensures
        completion.choices@.len() == 0 ==> (r matches Err(OpenAIError::Parse(m))
            && m@ == NO_CHOICES_MESSAGE@),
        completion.choices@.len() > 0 ==> match completion.choices@[0].message.content {
            ChatMessageContent::Text(t) => r matches Ok(s) && s@ == t@,
            ChatMessageContent::Parts(_) => r matches Err(OpenAIError::Parse(m))
                && m@ == NOT_TEXT_MESSAGE@,
        },
{
    if completion.choices.len() == 0 {
        return Err(OpenAIError::Parse(String::from_str(NO_CHOICES_MESSAGE)));
    }
    match &completion.choices[0].message.content {
        ChatMessageContent::Text(content) => Ok(content.clone()),
        ChatMessageContent::Parts(_) => Err(
            OpenAIError::Parse(String::from_str(NOT_TEXT_MESSAGE)),
        ),
    }
}

/// The answer to a request for structured output, given its `completion` and
/// the function that parses text into the caller's type: the error of
/// `chat_completion_content` where the first choice holds no text;
/// otherwise that text handed to `parse`, whose error becomes a JSON error
/// and whose value is returned together with the completion.
pub fn parse_completion<T, F: Fn(&str) -> core::result::Result<T, serde_json::Error>>(
    completion: ChatCompletion,
    parse: F,
) -> (r: Result<ParsedChatCompletion<T>>)
    requires
        forall|text: &str| #[trigger] parse.requires((text,)),
    ensures
        completion.choices@.len() == 0 ==> (r matches Err(OpenAIError::Parse(m))
            && m@ == NO_CHOICES_MESSAGE@),
        completion.choices@.len() > 0 ==> match completion.choices@[0].message.content {
            ChatMessageContent::Text(t) => exists|
                text: &str,
                parsed: core::result::Result<T, serde_json::Error>,
            |
                #![trigger parse.ensures((text,), parsed)]
                text@ == t@ && parse.ensures((text,), parsed) && match parsed {
                    Ok(v) => r == Ok::<ParsedChatCompletion<T>, OpenAIError>(
                        ParsedChatCompletion { completion, parsed: v },
                    ),
                    Err(e) => r == Err::<ParsedChatCompletion<T>, OpenAIError>(
                        OpenAIError::Json(e),
                    ),
                },
            ChatMessageContent::Parts(_) => r matches Err(OpenAIError::Parse(m))
                && m@ == NOT_TEXT_MESSAGE@,
        },
{
    let text = match chat_completion_content(&completion) {
        Ok(t) => t,
        Err(e) => return Err(e),
    };
    let view = text.as_str();
    let parsed = parse(view);
    proof {
        assert(parse.ensures((view,), parsed));
    }
    match parsed {
        Ok(v) => Ok(ParsedChatCompletion { completion, parsed: v }),
        Err(e) => Err(OpenAIError::Json(e)),
    }
}

} // verus!
