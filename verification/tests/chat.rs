use open_ai_sdk::resources::chat::{
    chat_completion_content, parse_completion, ChatAllowedToolChoiceType, ChatAllowedTools, ChatAllowedToolsMode,
    ChatApproximateLocation, ChatAudioFormat, ChatAudioParam, ChatChoice, ChatCompletion,
    ChatCompletionCreateParams, ChatContentPart, ChatCustomTool, ChatCustomToolFormat,
    ChatFunctionCallMode, ChatFunctionCallOption, ChatFunctionDefinition, ChatGrammar,
    ChatGrammarSyntax, ChatMessage, ChatMessageContent, ChatModality, ChatPredictionContent,
    ChatPredictionContentValue, ChatPredictionType, ChatReasoningEffort, ChatResponseFormat,
    ChatResponseFormatJsonSchema, ChatSearchContextSize, ChatServiceTier, ChatStreamOptions,
    ChatTool, ChatToolChoice, ChatToolChoiceMode, ChatVerbosity, ChatVoice, ChatWebSearchOptions,
    ChatWebSearchUserLocation, ChatWebSearchUserLocationType, PromptCacheRetention,
    StopSequences,
};
use open_ai_sdk::sdk_core::OpenAIError;

fn text_of(m: &ChatMessage) -> &str {
    match &m.content {
        ChatMessageContent::Text(t) => t,
        ChatMessageContent::Parts(_) => panic!("parts"),
    }
}

#[test]
fn messages_have_roles() {
    let cases = [
        (ChatMessage::system("s"), "system"),
        (ChatMessage::user("u"), "user"),
        (ChatMessage::assistant("a"), "assistant"),
        (ChatMessage::developer("d"), "developer"),
    ];
    for (m, role) in cases.iter() {
        assert_eq!(m.role, *role);
        assert!(m.name.is_none());
    }
    assert_eq!(text_of(&cases[1].0), "u");
}

#[test]
fn new_params_set_nothing() {
    let p = ChatCompletionCreateParams::new("gpt-4.1-mini");
    assert_eq!(p.model.as_str(), "gpt-4.1-mini");
    assert!(p.messages.is_empty());
    assert!(p.response_format.is_none() && p.tools.is_none() && p.stream.is_none());
    assert!(p.extra.is_empty());
}

#[test]
fn messages_are_appended_in_order() {
    let p = ChatCompletionCreateParams::new("m")
        .message(ChatMessage::system("first"))
        .message(ChatMessage::user("second"));
    assert_eq!(p.messages.len(), 2);
    assert_eq!(text_of(&p.messages[0]), "first");
    assert_eq!(text_of(&p.messages[1]), "second");
}

#[test]
fn json_schema_sets_response_format() {
    let schema = js(r#"{
        "type": "object",
        "properties": { "city": { "type": "string" } },
        "required": ["city"],
        "additionalProperties": false
    }"#);
    let p = ChatCompletionCreateParams::new("gpt-4.1-mini")
        .message(ChatMessage::user("Extract event data."))
        .json_schema("event", schema.clone());
    match p.response_format {
        Some(ChatResponseFormat::JsonSchema { json_schema }) => {
            assert_eq!(json_schema.name, "event");
            assert_eq!(json_schema.schema, schema);
            assert!(json_schema.description.is_none());
            assert!(json_schema.strict.is_none());
        }
        other => panic!("unexpected format: {other:?}"),
    }
}

#[test]
fn strict_schema_with_description() {
    let j = ChatResponseFormatJsonSchema::new("event", js(r#"{"type": "object"}"#))
        .description("Extracted event data")
        .strict(true);
    assert_eq!(j.description.as_deref(), Some("Extracted event data"));
    assert_eq!(j.strict, Some(true));
    assert!(matches!(ChatResponseFormat::json_object(), ChatResponseFormat::JsonObject));
    assert!(matches!(ChatResponseFormat::text(), ChatResponseFormat::Text));
}

#[test]
fn tuning_params_are_set() {
    let p = ChatCompletionCreateParams::new("gpt-5.4")
        .message(ChatMessage::user("Tune this request."))
        .temperature(serde_json::Number::from_f64(0.2).unwrap())
        .max_completion_tokens(500)
        .max_tokens(400)
        .reasoning_effort(ChatReasoningEffort::Medium)
        .verbosity(ChatVerbosity::Low)
        .seed(123)
        .n(2)
        .stop(StopSequences::from(vec!["END", "DONE"]))
        .store(true)
        .user("user_123")
        .safety_identifier("safe_123")
        .prompt_cache_key("cache-key")
        .prompt_cache_retention(PromptCacheRetention::TwentyFourHours)
        .service_tier(ChatServiceTier::Priority)
        .metadata_pair("feature", "chat")
        .logprobs(true)
        .top_logprobs(3)
        .logit_bias_token("42", serde_json::Number::from(-5))
        .stream_options(ChatStreamOptions::new().include_usage(true).include_obfuscation(false))
        .modality(ChatModality::Text)
        .audio(ChatAudioParam::new(ChatAudioFormat::Mp3, ChatVoice::id("voice_123")))
        .prediction(ChatPredictionContent::text("known prefix"))
        .parallel_tool_calls(true)
        .tool(ChatTool::function(ChatFunctionDefinition::new("get_weather").description("Get weather").strict(true)))
        .tool_choice(ChatToolChoice::function("get_weather"))
        .web_search_options(
            ChatWebSearchOptions::new()
                .search_context_size(ChatSearchContextSize::Low)
                .user_location(ChatWebSearchUserLocation::approximate(
                    ChatApproximateLocation::new().city("Almaty").country("KZ").timezone("Asia/Almaty"),
                )),
        )
        .extra("custom_future_param", js(r#""kept""#));
    assert_eq!(p.temperature.as_ref().and_then(|n| n.as_f64()), Some(0.2));
    assert_eq!(p.max_completion_tokens, Some(500));
    assert_eq!(p.max_tokens, Some(400));
    assert_eq!(p.reasoning_effort, Some(ChatReasoningEffort::Medium));
    assert_eq!(p.verbosity, Some(ChatVerbosity::Low));
    assert_eq!(p.seed, Some(123));
    assert_eq!(p.n, Some(2));
    match &p.stop {
        Some(StopSequences::Many(v)) => assert_eq!(v, &vec!["END".to_string(), "DONE".to_string()]),
        other => panic!("unexpected stop: {other:?}"),
    }
    assert_eq!(p.store, Some(true));
    assert_eq!(p.user.as_deref(), Some("user_123"));
    assert_eq!(p.safety_identifier.as_deref(), Some("safe_123"));
    assert_eq!(p.prompt_cache_key.as_deref(), Some("cache-key"));
    assert_eq!(p.prompt_cache_retention, Some(PromptCacheRetention::TwentyFourHours));
    assert_eq!(p.service_tier, Some(ChatServiceTier::Priority));
    assert_eq!(p.metadata, Some(vec![("feature".to_string(), "chat".to_string())]));
    assert_eq!(p.logprobs, Some(true));
    assert_eq!(p.top_logprobs, Some(3));
    assert_eq!(p.logit_bias, Some(vec![("42".to_string(), serde_json::Number::from(-5))]));
    let so = p.stream_options.as_ref().expect("stream options");
    assert_eq!((so.include_usage, so.include_obfuscation), (Some(true), Some(false)));
    assert_eq!(p.modalities, Some(vec![ChatModality::Text]));
    let audio = p.audio.as_ref().expect("audio");
    assert_eq!(audio.format, ChatAudioFormat::Mp3);
    assert_eq!(audio.voice, ChatVoice::Id { id: "voice_123".to_string() });
    let prediction = p.prediction.as_ref().expect("prediction");
    assert_eq!(prediction.prediction_type, ChatPredictionType::Content);
    assert!(matches!(&prediction.content, ChatPredictionContentValue::Text(t) if t == "known prefix"));
    assert_eq!(p.parallel_tool_calls, Some(true));
    match &p.tools.as_ref().expect("tools")[0] {
        ChatTool::Function { function } => {
            assert_eq!(function.name, "get_weather");
            assert_eq!(function.description.as_deref(), Some("Get weather"));
            assert_eq!(function.strict, Some(true));
        }
        other => panic!("unexpected tool: {other:?}"),
    }
    match &p.tool_choice {
        Some(ChatToolChoice::Function(f)) => assert_eq!(f.function.name, "get_weather"),
        other => panic!("unexpected tool choice: {other:?}"),
    }
    let ws = p.web_search_options.as_ref().expect("web search");
    assert_eq!(ws.search_context_size, Some(ChatSearchContextSize::Low));
    let loc = ws.user_location.as_ref().expect("location");
    assert_eq!(loc.location_type, ChatWebSearchUserLocationType::Approximate);
    assert_eq!(loc.approximate.city.as_deref(), Some("Almaty"));
    assert_eq!(loc.approximate.country.as_deref(), Some("KZ"));
    assert_eq!(loc.approximate.timezone.as_deref(), Some("Asia/Almaty"));
    assert!(loc.approximate.region.is_none());
    assert_eq!(p.extra, vec![("custom_future_param".to_string(), js(r#""kept""#))]);
}

#[test]
fn entries_accumulate_and_later_wins() {
    let p = ChatCompletionCreateParams::new("m")
        .metadata_pair("b", "2")
        .metadata_pair("a", "1")
        .metadata_pair("a", "3");
    let entries = p.metadata.expect("metadata");
    assert_eq!(
        entries,
        vec![("a".to_string(), "3".to_string()), ("b".to_string(), "2".to_string())]
    );
    let biased = ChatCompletionCreateParams::new("m")
        .logit_bias_token("9", serde_json::Number::from(1))
        .logit_bias_token("10", serde_json::Number::from(2))
        .logit_bias_token("9", serde_json::Number::from(3));
    assert_eq!(
        biased.logit_bias,
        Some(vec![
            ("10".to_string(), serde_json::Number::from(2)),
            ("9".to_string(), serde_json::Number::from(3)),
        ])
    );
    let extra = ChatCompletionCreateParams::new("m")
        .extra("z", js("1"))
        .extra("\u{e9}", js("2"))
        .extra("z", js("3"))
        .extra("A", js("4"));
    assert_eq!(
        extra.extra,
        vec![
            ("A".to_string(), js("4")),
            ("z".to_string(), js("3")),
            ("\u{e9}".to_string(), js("2")),
        ]
    );
    let replaced = ChatCompletionCreateParams::new("m")
        .metadata_pair("a", "1")
        .metadata(vec![("z".to_string(), "9".to_string())]);
    assert_eq!(replaced.metadata, Some(vec![("z".to_string(), "9".to_string())]));
}

#[test]
fn list_builders_append() {
    let p = ChatCompletionCreateParams::new("m")
        .modality(ChatModality::Text)
        .modality(ChatModality::Audio)
        .function(ChatFunctionDefinition::new("f"))
        .tool(ChatTool::custom(ChatCustomTool::new("c")))
        .tool(ChatTool::function(ChatFunctionDefinition::new("g")));
    assert_eq!(p.modalities, Some(vec![ChatModality::Text, ChatModality::Audio]));
    assert_eq!(p.functions.as_ref().map(|f| f.len()), Some(1));
    assert_eq!(p.tools.as_ref().map(|t| t.len()), Some(2));
    let reset = p.modalities(vec![]).tools(vec![]);
    assert_eq!(reset.modalities, Some(vec![]));
    assert_eq!(reset.tools.map(|t| t.len()), Some(0));
}

#[test]
fn tool_choices() {
    assert!(matches!(ChatToolChoice::none(), ChatToolChoice::Mode(ChatToolChoiceMode::Off)));
    assert!(matches!(ChatToolChoice::auto(), ChatToolChoice::Mode(ChatToolChoiceMode::Auto)));
    assert!(matches!(ChatToolChoice::required(), ChatToolChoice::Mode(ChatToolChoiceMode::Required)));
    match ChatToolChoice::custom("my_tool") {
        ChatToolChoice::Custom(c) => assert_eq!(c.custom.name, "my_tool"),
        other => panic!("unexpected: {other:?}"),
    }
    let allowed = ChatToolChoice::allowed(ChatAllowedTools::new(
        ChatAllowedToolsMode::Required,
        vec![js(r#"{"type": "function", "function": {"name": "get_weather"}}"#)],
    ));
    match allowed {
        ChatToolChoice::Allowed(a) => {
            assert_eq!(a.choice_type, ChatAllowedToolChoiceType::AllowedTools);
            assert_eq!(a.allowed_tools.mode, ChatAllowedToolsMode::Required);
            assert_eq!(a.allowed_tools.tools.len(), 1);
        }
        other => panic!("unexpected: {other:?}"),
    }
    assert!(matches!(ChatFunctionCallOption::none(), ChatFunctionCallOption::Mode(ChatFunctionCallMode::Off)));
    assert!(matches!(ChatFunctionCallOption::auto(), ChatFunctionCallOption::Mode(ChatFunctionCallMode::Auto)));
    assert!(matches!(ChatFunctionCallOption::named("f"), ChatFunctionCallOption::Named(n) if n.name == "f"));
}

#[test]
fn custom_tools_and_grammars() {
    let t = ChatCustomTool::new("sql")
        .description("Runs SQL")
        .format(ChatCustomToolFormat::Grammar { grammar: ChatGrammar::lark("start: x") });
    assert_eq!(t.name, "sql");
    assert_eq!(t.description.as_deref(), Some("Runs SQL"));
    match t.format {
        Some(ChatCustomToolFormat::Grammar { grammar }) => {
            assert_eq!(grammar.definition, "start: x");
            assert_eq!(grammar.syntax, ChatGrammarSyntax::Lark);
        }
        other => panic!("unexpected: {other:?}"),
    }
    assert_eq!(ChatGrammar::regex("a+").syntax, ChatGrammarSyntax::Regex);
    let f = ChatFunctionDefinition::new("f").parameters(js(r#"{"type": "object"}"#));
    assert_eq!(f.parameters, Some(js(r#"{"type": "object"}"#)));
}

#[test]
fn voices_stops_and_predictions() {
    assert_eq!(ChatVoice::from("alloy"), ChatVoice::Name("alloy".to_string()));
    assert_eq!(ChatVoice::from("alloy".to_string()), ChatVoice::Name("alloy".to_string()));
    assert!(matches!(StopSequences::from("END"), StopSequences::One(s) if s == "END"));
    assert!(matches!(StopSequences::from("END".to_string()), StopSequences::One(s) if s == "END"));
    assert!(matches!(StopSequences::from(vec!["a".to_string()]), StopSequences::Many(v) if v.len() == 1));
    let p = ChatPredictionContent::parts(vec![ChatContentPart::Text { text: "x".to_string() }]);
    assert!(matches!(p.content, ChatPredictionContentValue::Parts(ref v) if v.len() == 1));
    let d = ChatWebSearchOptions::default();
    assert!(d.search_context_size.is_none() && d.user_location.is_none());
    let l = ChatApproximateLocation::default().region("Almaty Region");
    assert_eq!(l.region.as_deref(), Some("Almaty Region"));
    assert!(ChatStreamOptions::default().include_usage.is_none());
}

fn completion(choices: Vec<ChatChoice>) -> ChatCompletion {
    ChatCompletion {
        id: "chatcmpl_parse".to_string(),
        object: "chat.completion".to_string(),
        created: 1,
        model: "gpt-4.1-mini".to_string(),
        choices,
        usage: None,
        extra: vec![],
    }
}

fn choice(message: ChatMessage) -> ChatChoice {
    ChatChoice { index: 0, message, finish_reason: Some("stop".to_string()), logprobs: None, extra: vec![] }
}

#[test]
fn completion_content_is_first_choice_text() {
    let c = completion(vec![
        choice(ChatMessage::assistant("{\"city\":\"Paris\"}")),
        choice(ChatMessage::assistant("other")),
    ]);
    assert_eq!(chat_completion_content(&c).expect("text"), "{\"city\":\"Paris\"}");
}

#[test]
fn parse_returns_error_when_completion_has_no_choices() {
    match chat_completion_content(&completion(vec![])) {
        Err(OpenAIError::Parse(message)) => assert!(message.contains("no choices")),
        other => panic!("unexpected: {other:?}"),
    }
}

#[test]
fn completion_with_parts_is_a_parse_error() {
    let mut m = ChatMessage::assistant("");
    m.content = ChatMessageContent::Parts(vec![]);
    match chat_completion_content(&completion(vec![choice(m)])) {
        Err(OpenAIError::Parse(message)) => {
            assert_eq!(message, "first completion choice did not contain text content")
        }
        other => panic!("unexpected: {other:?}"),
    }
}

fn parse_value(text: &str) -> Result<serde_json::Value, serde_json::Error> {
    serde_json::from_str(text)
}

#[test]
fn parse_completion_parses_first_choice_text() {
    let c = completion(vec![choice(ChatMessage::assistant("{\"city\":\"Paris\"}"))]);
    let parsed = parse_completion(c, parse_value).expect("parsed");
    assert_eq!(parsed.parsed, js(r#"{"city":"Paris"}"#));
    assert_eq!(parsed.completion.id, "chatcmpl_parse");
    assert_eq!(parsed.completion.choices.len(), 1);
}

#[test]
fn parse_completion_errors() {
    let bad = completion(vec![choice(ChatMessage::assistant("not json"))]);
    assert!(matches!(parse_completion(bad, parse_value), Err(OpenAIError::Json(_))));
    match parse_completion(completion(vec![]), parse_value) {
        Err(OpenAIError::Parse(message)) => assert_eq!(message, "completion contained no choices"),
        other => panic!("unexpected: {other:?}"),
    }
}

#[test]
fn streamed_sets_stream_only() {
    let p = ChatCompletionCreateParams::new("m").max_completion_tokens(5).streamed();
    assert_eq!(p.stream, Some(true));
    assert_eq!(p.max_completion_tokens, Some(5));
    assert_eq!(p.model.as_str(), "m");
}

fn js(text: &str) -> serde_json::Value {
    serde_json::from_str(text).expect("json")
}
