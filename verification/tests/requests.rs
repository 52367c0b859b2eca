use grok_chat::messages::ChatMessage;
use grok_chat::orchestrate::{prepare_chat, prepare_embedding, prepare_search, prepare_vision};
use grok_chat::params::{ChatParams, EmbeddingParams, ImageDetail, SearchParams, SearchType, VisionParams};
use grok_chat::request::{build_chat_request, search_tools, SearchTool};

#[test]
fn build_chat_request_defaults() {
    let msgs = vec![ChatMessage::user("hello")];
    let req = build_chat_request(None, msgs, None, None, None, None).unwrap();
    assert_eq!(req.model, "grok-4-1-fast-non-reasoning");
    assert!(req.temperature_bits.is_none());
    assert!(req.response_format.is_none());
}

#[test]
fn build_chat_request_with_schema() {
    let msgs = vec![ChatMessage::user("hello")];
    let schema = r#"{"type": "object", "properties": {"name": {"type": "string"}}}"#;
    let req = build_chat_request(None, msgs, None, None, Some(schema), None).unwrap();
    assert!(req.response_format.is_some());
    let env = req.response_format.unwrap();
    assert_eq!(env.envelope_type, "json_schema");
    assert_eq!(env.name, "structured_output");
    assert!(env.strict);
    let parsed: serde_json::Value = serde_json::from_str(schema).unwrap();
    assert_eq!(env.schema, parsed);
}

#[test]
fn build_chat_request_invalid_schema() {
    let msgs = vec![ChatMessage::user("hello")];
    let result = build_chat_request(None, msgs, None, None, Some("not json"), None);
    assert!(result.is_err());
    assert!(result.unwrap_err().starts_with("Invalid response_schema JSON: "));
}

#[test]
fn search_tools_web_only() {
    let tools = search_tools(SearchType::Web);
    assert_eq!(tools.len(), 1);
    assert_eq!(tools[0], SearchTool::WebSearch);
}

#[test]
fn search_tools_x_only() {
    let tools = search_tools(SearchType::X);
    assert_eq!(tools.len(), 1);
    assert_eq!(tools[0], SearchTool::XSearch);
}

#[test]
fn search_tools_both() {
    let tools = search_tools(SearchType::Both);
    assert_eq!(tools.len(), 2);
    assert_eq!(tools, vec![SearchTool::WebSearch, SearchTool::XSearch]);
}

#[test]
fn prepare_vision_rejects_bad_scheme() {
    let p = VisionParams {
        prompt: "what is this".to_string(),
        image_url: "ftp://example.com/cat.png".to_string(),
        detail: None,
        model: None,
        temperature_bits: None,
        max_tokens: None,
    };
    let err = prepare_vision(&p).unwrap_err();
    assert_eq!(err, "image_url must start with http:// or https://");
}

#[test]
fn prepare_vision_defaults_detail_high() {
    let p = VisionParams {
        prompt: "describe".to_string(),
        image_url: "https://example.com/cat.png".to_string(),
        detail: None,
        model: None,
        temperature_bits: None,
        max_tokens: None,
    };
    let req = prepare_vision(&p).unwrap();
    assert_eq!(req.messages.len(), 1);
    assert_eq!(req.messages[0].role, "user");
    assert_eq!(ImageDetail::Low.as_str(), "low");
    assert_eq!(ImageDetail::High.as_str(), "high");
    assert_eq!(ImageDetail::Auto.as_str(), "auto");
}

#[test]
fn prepare_embedding_default_model() {
    let p = EmbeddingParams { input: r#""some text""#.to_string(), model: None };
    let req = prepare_embedding(&p).unwrap();
    assert_eq!(req.model, "grok-2-text-embedding");
    assert_eq!(req.input, serde_json::Value::String("some text".to_string()));
}

#[test]
fn prepare_embedding_invalid_input() {
    let p = EmbeddingParams { input: "not json".to_string(), model: None };
    let err = prepare_embedding(&p).unwrap_err();
    assert!(err.starts_with("Invalid input JSON (must be a quoted string or array of strings): "));
}

#[test]
fn prepare_chat_rejects_temperature_before_history() {
    let p = ChatParams {
        prompt: "hello".to_string(),
        system_prompt: None,
        messages: Some("not json".to_string()),
        model: None,
        temperature_bits: Some(9.0f32.to_bits()),
        max_tokens: None,
        response_schema: None,
    };
    let err = prepare_chat(&p).unwrap_err();
    assert_eq!(err, "temperature must be a finite number between 0.0 and 2.0");
}

#[test]
fn prepare_search_defaults_to_both() {
    let p = SearchParams {
        prompt: "what happened today".to_string(),
        system_prompt: Some("be terse".to_string()),
        search_type: None,
        model: None,
        temperature_bits: None,
        max_tokens: Some(256),
    };
    let req = prepare_search(&p).unwrap();
    assert_eq!(req.tools, vec![SearchTool::WebSearch, SearchTool::XSearch]);
    assert_eq!(req.input.len(), 2);
    assert_eq!(req.input[0].role, "system");
    assert_eq!(req.input[1].role, "user");
    assert_eq!(req.model, "grok-4-1-fast-non-reasoning");
    assert_eq!(req.max_output_tokens, Some(256));
}
