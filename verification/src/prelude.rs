//! The most common imports for application code.

pub use crate::models::ModelId;
pub use crate::resources::chat::{
    ChatAllowedTools, ChatAllowedToolsMode, ChatApproximateLocation, ChatAudioFormat,
    ChatAudioParam, ChatCompletionChunk, ChatCompletionCreateParams, ChatCompletionDelta,
    ChatCustomTool, ChatCustomToolFormat, ChatFunctionDefinition, ChatGrammar, ChatMessage,
    ChatModality, ChatPredictionContent, ChatReasoningEffort, ChatResponseFormat,
    ChatResponseFormatJsonSchema, ChatSearchContextSize, ChatServiceTier, ChatStreamOptions,
    ChatTool, ChatToolChoice, ChatVerbosity, ChatVoice, ChatWebSearchOptions,
    ChatWebSearchUserLocation, ParsedChatCompletion, PromptCacheRetention, StopSequences,
};
pub use crate::resources::embeddings::EmbeddingCreateParams;
pub use crate::resources::files::FilePurpose;
pub use crate::resources::responses::ResponseCreateParams;
pub use crate::sdk_core::{ApiError, Config, OpenAIError, RequestOptions, Result};
pub use crate::types::common::{Deleted, List};
