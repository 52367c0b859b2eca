use grok_chat::render::{format_chat_response, render_embedding_response, render_model_list};
use grok_chat::response::{
    ChatChoice, ChatResponse, ChatResponseMessage, EmbeddingData, EmbeddingResponse,
    EmbeddingUsage, ModelInfo, ModelsResponse, Usage,
};

#[test]
fn display_chat_response_basic() {
    let resp = ChatResponse {
        choices: vec![ChatChoice {
            message: ChatResponseMessage {
                role: "assistant".into(),
                content: Some("Hello!".into()),
                tool_calls: None,
            },
            finish_reason: Some("stop".into()),
        }],
        usage: Some(Usage {
            prompt_tokens: 10,
            completion_tokens: 5,
            total_tokens: 15,
        }),
    };
    let output = format_chat_response(&resp);
    assert!(output.contains("Hello!"));
    assert!(output.contains("[finish_reason: stop]"));
    assert!(output.contains("[tokens: 10 prompt + 5 completion = 15 total]"));
}

#[test]
fn display_chat_response_empty_choices() {
    let resp = ChatResponse { choices: vec![], usage: None };
    assert_eq!(format_chat_response(&resp), "");
}

#[test]
fn display_chat_response_with_tool_calls() {
    let mut call = serde_json::Map::new();
    call.insert("id".to_string(), serde_json::Value::String("call_1".to_string()));
    call.insert("type".to_string(), serde_json::Value::String("function".to_string()));
    let resp = ChatResponse {
        choices: vec![ChatChoice {
            message: ChatResponseMessage {
                role: "assistant".into(),
                content: None,
                tool_calls: Some(vec![serde_json::Value::Object(call)]),
            },
            finish_reason: None,
        }],
        usage: None,
    };
    let output = format_chat_response(&resp);
    assert!(output.contains("Tool calls:"));
    assert!(output.contains("call_1"));
}

#[test]
fn display_chat_response_role_prefix() {
    let resp = ChatResponse {
        choices: vec![ChatChoice {
            message: ChatResponseMessage {
                role: "tool".into(),
                content: Some("result".into()),
                tool_calls: None,
            },
            finish_reason: None,
        }],
        usage: None,
    };
    assert_eq!(format_chat_response(&resp), "[tool] result");
}

#[test]
fn display_chat_response_multiple_choices() {
    let choice = |text: &str| ChatChoice {
        message: ChatResponseMessage {
            role: "assistant".into(),
            content: Some(text.into()),
            tool_calls: None,
        },
        finish_reason: None,
    };
    let resp = ChatResponse { choices: vec![choice("one"), choice("two")], usage: None };
    assert_eq!(format_chat_response(&resp), "one\ntwo");
}

#[test]
fn display_embedding_response_basic() {
    let components = [0.1f32, 0.2, 0.3, 0.4, 0.5, 0.6];
    let preview: Vec<String> = components.iter().take(5).map(|v| format!("{v:.6}")).collect();
    let resp = EmbeddingResponse {
        data: vec![EmbeddingData { index: 0, dim: components.len(), preview }],
        usage: Some(EmbeddingUsage { prompt_tokens: 8, total_tokens: 8 }),
    };
    let output = render_embedding_response(&resp);
    assert!(output.contains("[0] dim=6"));
    assert!(output.contains("[tokens: 8 prompt, 8 total]"));
    assert_eq!(
        output,
        "[0] dim=6 [0.100000, 0.200000, 0.300000, 0.400000, 0.500000, ...]\n[tokens: 8 prompt, 8 total]"
    );
}

#[test]
fn display_embedding_response_short_vector() {
    let preview: Vec<String> = [0.25f32, 0.75].iter().map(|v| format!("{v:.6}")).collect();
    let resp = EmbeddingResponse {
        data: vec![EmbeddingData { index: 1, dim: 2, preview }],
        usage: None,
    };
    assert_eq!(render_embedding_response(&resp), "[1] dim=2 [0.250000, 0.750000, ...]");
}

#[test]
fn render_model_list_owner_defaults() {
    let resp = ModelsResponse {
        data: vec![
            ModelInfo { id: "grok-3".into(), owned_by: Some("xai".into()) },
            ModelInfo { id: "grok-3-mini".into(), owned_by: None },
        ],
    };
    assert_eq!(render_model_list(&resp), "- grok-3 (xai)\n- grok-3-mini (xai)");
}

#[test]
fn render_model_list_empty() {
    assert_eq!(render_model_list(&ModelsResponse { data: vec![] }), "");
}
