use open_ai_sdk::models::{ids, ModelId};
use open_ai_sdk::resources::responses::{ResponseCreateParams, ResponseInput};

#[test]
fn model_id_keeps_any_string() {
    let current = ModelId::from("gpt-4o");
    let future = ModelId::from("gpt-6");
    assert_eq!(current.as_str(), "gpt-4o");
    assert_eq!(future.as_str(), "gpt-6");
    assert_eq!(ModelId::new(ids::GPT_4O).into_string(), "gpt-4o");
    assert_eq!(ModelId::from(String::from("x")).as_str(), "x");
    let s = String::from("y");
    assert_eq!(ModelId::from(&s).as_str(), "y");
    let as_ref: &str = current.as_ref();
    assert_eq!(as_ref, "gpt-4o");
    assert_eq!(&*future, "gpt-6");
}

#[test]
fn model_constants() {
    assert_eq!(ids::GPT_5_4, "gpt-5.4");
    assert_eq!(ids::TEXT_EMBEDDING_3_SMALL, "text-embedding-3-small");
}

#[test]
fn response_params_keep_future_model_names() {
    let params = ResponseCreateParams::new("gpt-6", ResponseInput::from("Hello"));
    assert_eq!(params.model.as_str(), "gpt-6");
    match &params.input {
        ResponseInput::Text(t) => assert_eq!(t, "Hello"),
        other => panic!("unexpected input: {other:?}"),
    }
    assert!(params.instructions.is_none());
    assert!(params.extra.is_empty());
}
