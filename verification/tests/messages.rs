use grok_chat::messages::{build_messages, MessageContent};

#[test]
fn build_messages_basic() {
    let msgs = build_messages(None, None, "hello").unwrap();
    assert_eq!(msgs.len(), 1);
    assert_eq!(msgs[0].role, "user");
}

#[test]
fn build_messages_with_system_prompt() {
    let msgs = build_messages(Some("be helpful"), None, "hello").unwrap();
    assert_eq!(msgs.len(), 2);
    assert_eq!(msgs[0].role, "system");
    assert_eq!(msgs[1].role, "user");
}

#[test]
fn build_messages_with_history() {
    let history =
        r#"[{"role": "user", "content": "hi"}, {"role": "assistant", "content": "hey"}]"#;
    let msgs = build_messages(None, Some(history), "next").unwrap();
    assert_eq!(msgs.len(), 3);
    assert_eq!(msgs[0].role, "user");
    assert_eq!(msgs[1].role, "assistant");
    assert_eq!(msgs[2].role, "user");
}

#[test]
fn build_messages_invalid_json() {
    let result = build_messages(None, Some("not json"), "hello");
    assert!(result.is_err());
    assert!(result.unwrap_err().contains("Invalid messages JSON"));
}

#[test]
fn build_messages_invalid_role() {
    let history = r#"[{"role": "hacker", "content": "hi"}]"#;
    let result = build_messages(None, Some(history), "hello");
    assert!(result.is_err());
    assert!(result.unwrap_err().contains("Invalid role 'hacker'"));
}

#[test]
fn build_messages_invalid_role_later_entry() {
    let history = r#"[{"role": "user", "content": "hi"}, {"role": "oracle", "content": "?"}]"#;
    let result = build_messages(Some("sys"), Some(history), "hello");
    assert!(result.unwrap_err().contains("Invalid role 'oracle'"));
}

#[test]
fn build_messages_tool_role_allowed() {
    let history = r#"[{"role": "tool", "content": "42", "tool_call_id": "call_1"}]"#;
    let msgs = build_messages(None, Some(history), "next").unwrap();
    assert_eq!(msgs.len(), 2);
    assert_eq!(msgs[0].role, "tool");
    assert_eq!(msgs[0].tool_call_id.as_deref(), Some("call_1"));
}

#[test]
fn build_messages_role_must_be_string() {
    let history = r#"[{"role": 7, "content": "hi"}]"#;
    let result = build_messages(None, Some(history), "hello");
    assert!(result.unwrap_err().contains("Invalid messages JSON"));
}

#[test]
fn build_messages_reports_first_bad_role() {
    let history = r#"[{"role": "wizard", "content": "a"}, {"role": "hacker", "content": "b"}]"#;
    let err = build_messages(None, Some(history), "hello").unwrap_err();
    assert!(err.contains("Invalid role 'wizard'"));
    assert!(!err.contains("hacker"));
}

#[test]
fn build_messages_carries_history_unchanged() {
    let history = r#"[{"role": "user", "content": "hi"}, {"role": "assistant", "content": {"kind": "card"}}]"#;
    let msgs = build_messages(None, Some(history), "next").unwrap();
    match &msgs[0].content {
        Some(MessageContent::Raw(v)) => {
            assert_eq!(*v, serde_json::Value::String("hi".to_string()));
        },
        other => panic!("expected carried content, got {other:?}"),
    }
    match &msgs[1].content {
        Some(MessageContent::Raw(v)) => {
            let expected: serde_json::Value = serde_json::from_str(r#"{"kind": "card"}"#).unwrap();
            assert_eq!(*v, expected);
        },
        other => panic!("expected carried content, got {other:?}"),
    }
    assert!(msgs[0].tool_calls.is_none());
    assert!(msgs[0].tool_call_id.is_none());
}
