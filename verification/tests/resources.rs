use open_ai_sdk::resources::embeddings::EmbeddingCreateParams;
use open_ai_sdk::resources::files::{file_content_path, file_path, upload_file_name, FilePurpose};
use open_ai_sdk::resources::models::model_path;
use open_ai_sdk::resources::responses::{
    response_path, ResponseCreateParams, ResponseInput, ResponseInputContent, ResponseInputItem,
};
use open_ai_sdk::types::common::StringOrVec;

#[test]
fn resource_paths() {
    assert_eq!(response_path("resp_1"), "/responses/resp_1");
    assert_eq!(file_path("file_1"), "/files/file_1");
    assert_eq!(file_content_path("file_1"), "/files/file_1/content");
    assert_eq!(model_path("missing"), "/models/missing");
}

#[test]
fn file_purpose_names() {
    let all = [
        (FilePurpose::Assistants, "assistants"),
        (FilePurpose::Batch, "batch"),
        (FilePurpose::FineTune, "fine-tune"),
        (FilePurpose::Vision, "vision"),
        (FilePurpose::UserData, "user_data"),
        (FilePurpose::Eval, "eval"),
    ];
    for (p, name) in all.iter() {
        assert_eq!(p.as_str(), *name);
    }
}

#[test]
fn upload_names() {
    assert_eq!(upload_file_name(Some("data.jsonl")), "data.jsonl");
    assert_eq!(upload_file_name(None), "file");
}

#[test]
fn response_params_builders() {
    let p = ResponseCreateParams::new("gpt-4.1-mini", ResponseInput::from(vec![ResponseInputItem::user_text("hi")]))
        .instructions("be brief")
        .max_output_tokens(50)
        .extra("store", js(r#"false"#));
    assert_eq!(p.instructions.as_deref(), Some("be brief"));
    assert!(p.stream.is_none());
    let streamed = p.clone().streamed();
    assert_eq!(streamed.stream, Some(true));
    assert_eq!(streamed.instructions.as_deref(), Some("be brief"));
    assert_eq!(p.max_output_tokens, Some(50));
    assert_eq!(p.extra, vec![("store".to_string(), js(r#"false"#))]);
    let p = p.extra("background", js("true")).extra("store", js("true"));
    assert_eq!(
        p.extra,
        vec![("background".to_string(), js("true")), ("store".to_string(), js("true"))]
    );
    match &p.input {
        ResponseInput::Items(items) => {
            assert_eq!(items[0].role, "user");
            assert!(matches!(&items[0].content[0], ResponseInputContent::InputText { text } if text == "hi"));
        }
        other => panic!("unexpected: {other:?}"),
    }
    assert!(matches!(
        ResponseInputContent::input_image("http://img"),
        ResponseInputContent::InputImage { image_url } if image_url == "http://img"
    ));
    assert!(matches!(ResponseInput::from("t".to_string()), ResponseInput::Text(t) if t == "t"));
}

#[test]
fn embedding_params() {
    let one = EmbeddingCreateParams::new("text-embedding-3-small", "hello");
    assert_eq!(one.model.as_str(), "text-embedding-3-small");
    assert!(matches!(&one.input, StringOrVec::String(s) if s == "hello"));
    let many = EmbeddingCreateParams::inputs("m", vec!["a".to_string(), "b".to_string()]);
    assert!(matches!(&many.input, StringOrVec::Vec(v) if v.len() == 2));
    assert!(many.dimensions.is_none() && many.user.is_none() && many.extra.is_empty());
}

fn js(text: &str) -> serde_json::Value {
    serde_json::from_str(text).expect("json")
}
