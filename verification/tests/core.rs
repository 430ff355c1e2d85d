use std::time::Duration;

use open_ai_sdk::sdk_core::config::DEFAULT_BASE_URL;
use open_ai_sdk::sdk_core::http::{
    api_error, join_url_exec, plan_request, plan_stream_request, status_is_success, HttpMethod,
};
use open_ai_sdk::sdk_core::{ApiError, ApiErrorEnvelope, Config, OpenAIError, RequestOptions};

fn pairs(v: &[(&str, &str)]) -> Vec<(String, String)> {
    v.iter().map(|(a, b)| (a.to_string(), b.to_string())).collect()
}

#[test]
fn config_defaults() {
    let config = Config::new("test-key");
    assert_eq!(config.api_key, "test-key");
    assert_eq!(config.base_url, "https://api.openai.com/v1");
    assert_eq!(config.base_url, DEFAULT_BASE_URL);
    assert_eq!(config.timeout, Duration::from_secs(600));
    assert!(config.organization.is_none());
    assert!(config.project.is_none());
}

#[test]
fn config_setters_change_one_field() {
    let config = Config::new("k")
        .with_base_url("http://localhost:8080/v1")
        .with_organization("org_1")
        .with_project("proj_1")
        .with_timeout(Duration::from_secs(5));
    assert_eq!(config.api_key, "k");
    assert_eq!(config.base_url, "http://localhost:8080/v1");
    assert_eq!(config.organization.as_deref(), Some("org_1"));
    assert_eq!(config.project.as_deref(), Some("proj_1"));
    assert_eq!(config.timeout, Duration::from_secs(5));
}

#[test]
fn config_from_env_values_requires_key() {
    match Config::from_env_values(None, Some("o".to_string()), None, None) {
        Err(OpenAIError::MissingApiKey) => {}
        other => panic!("unexpected: {other:?}"),
    }
    let config = Config::from_env_values(
        Some("key".to_string()),
        Some("org".to_string()),
        None,
        Some("http://proxy/v1".to_string()),
    )
    .expect("config");
    assert_eq!(config.api_key, "key");
    assert_eq!(config.organization.as_deref(), Some("org"));
    assert!(config.project.is_none());
    assert_eq!(config.base_url, "http://proxy/v1");
    let config = Config::from_env_values(Some("key".to_string()), None, None, None).expect("config");
    assert_eq!(config.base_url, "https://api.openai.com/v1");
}

#[test]
fn urls_join_with_one_slash() {
    assert_eq!(join_url_exec("http://h/v1", "responses"), "http://h/v1/responses");
    assert_eq!(join_url_exec("http://h/v1///", "//responses"), "http://h/v1/responses");
    assert_eq!(join_url_exec("http://h/v1/", "/models/x"), "http://h/v1/models/x");
    assert_eq!(join_url_exec("", ""), "/");
}

#[test]
fn plans_request_from_config() {
    let config = Config::new("test-key")
        .with_base_url("http://localhost/v1/")
        .with_organization("org")
        .with_project("proj");
    let plan = plan_request(&config, HttpMethod::Post, "/chat/completions", None);
    assert_eq!(plan.method, HttpMethod::Post);
    assert_eq!(plan.url, "http://localhost/v1/chat/completions");
    assert_eq!(plan.bearer_token, "test-key");
    assert_eq!(
        plan.headers,
        pairs(&[
            ("user-agent", "open_ai_sdk-rust/0.1.0"),
            ("OpenAI-Organization", "org"),
            ("OpenAI-Project", "proj"),
        ])
    );
    assert!(plan.query.is_empty());
    assert!(plan.timeout.is_none());
}

#[test]
fn plans_request_with_options() {
    let config = Config::new("k");
    let mut options = RequestOptions::new();
    options.base_url = Some("http://other/".to_string());
    options.timeout = Some(Duration::from_secs(3));
    options.idempotency_key = Some("idem".to_string());
    options.headers = pairs(&[("X-A", "1"), ("X-B", "2")]);
    options.query = pairs(&[("limit", "10")]);
    let plan = plan_request(&config, HttpMethod::Get, "files", Some(options));
    assert_eq!(plan.method, HttpMethod::Get);
    assert_eq!(plan.url, "http://other/files");
    assert_eq!(
        plan.headers,
        pairs(&[
            ("user-agent", "open_ai_sdk-rust/0.1.0"),
            ("Idempotency-Key", "idem"),
            ("X-A", "1"),
            ("X-B", "2"),
        ])
    );
    assert_eq!(plan.query, pairs(&[("limit", "10")]));
    assert_eq!(plan.timeout, Some(Duration::from_secs(3)));
    let default = RequestOptions::default();
    assert!(default.base_url.is_none() && default.headers.is_empty() && default.query.is_empty());
}

#[test]
fn stream_plan_asks_for_event_stream() {
    let config = Config::new("k").with_base_url("http://h/v1/");
    let mut options = RequestOptions::new();
    options.headers = pairs(&[("X-A", "1")]);
    options.timeout = Some(Duration::from_secs(7));
    let plan = plan_stream_request(&config, "/responses", Some(options));
    assert_eq!(plan.method, HttpMethod::Post);
    assert_eq!(plan.url, "http://h/v1/responses");
    assert_eq!(plan.bearer_token, "k");
    assert_eq!(
        plan.headers,
        pairs(&[
            ("user-agent", "open_ai_sdk-rust/0.1.0"),
            ("X-A", "1"),
            ("accept", "text/event-stream"),
        ])
    );
    assert!(plan.query.is_empty());
    assert_eq!(plan.timeout, Some(Duration::from_secs(7)));
}

#[test]
fn success_statuses_are_2xx() {
    assert!(status_is_success(200));
    assert!(status_is_success(204));
    assert!(status_is_success(299));
    assert!(!status_is_success(199));
    assert!(!status_is_success(300));
    assert!(!status_is_success(404));
}

#[test]
fn converts_api_errors() {
    let envelope = ApiErrorEnvelope {
        error: Some(ApiError {
            message: "No such model".to_string(),
            error_type: Some("invalid_request_error".to_string()),
            param: Some("model".to_string()),
            code: Some(serde_json::Value::String("model_not_found".to_string())),
        }),
    };
    match api_error(404, Some(envelope), "{...}".to_string()) {
        OpenAIError::Api { status, message, error } => {
            assert_eq!(status, 404);
            assert_eq!(message, "No such model");
            assert_eq!(error.expect("api error").param.as_deref(), Some("model"));
        }
        other => panic!("unexpected error: {other:?}"),
    }
}

#[test]
fn api_error_without_envelope_uses_body() {
    match api_error(500, None, "upstream failed".to_string()) {
        OpenAIError::Api { status, message, error } => {
            assert_eq!(status, 500);
            assert_eq!(message, "upstream failed");
            assert!(error.is_none());
        }
        other => panic!("unexpected error: {other:?}"),
    }
    match api_error(400, Some(ApiErrorEnvelope { error: None }), "raw".to_string()) {
        OpenAIError::Api { message, error, .. } => {
            assert_eq!(message, "raw");
            assert!(error.is_none());
        }
        other => panic!("unexpected error: {other:?}"),
    }
}
