use grok_chat::cache::ModelCache;
use grok_chat::outcome::{status_to_failure, ApiError, ToolOutcome};

#[test]
fn cache_first_get_misses() {
    let cache = ModelCache::new();
    assert!(cache.get(12_345).is_none());
}

#[test]
fn cache_hit_within_ttl() {
    let mut cache = ModelCache::new();
    cache.put("- grok-3 (xai)".to_string(), 1_000);
    assert_eq!(cache.get(1_000).unwrap().as_str(), "- grok-3 (xai)");
    assert_eq!(cache.get(1_299).unwrap().as_str(), "- grok-3 (xai)");
}

#[test]
fn cache_misses_once_ttl_elapsed() {
    let mut cache = ModelCache::new();
    cache.put("listing".to_string(), 1_000);
    assert!(cache.get(1_300).is_none());
    assert!(cache.get(9_999).is_none());
}

#[test]
fn cache_put_replaces_prior_entry() {
    let mut cache = ModelCache::new();
    cache.put("old listing".to_string(), 1_000);
    cache.put("new listing".to_string(), 2_000);
    assert_eq!(cache.get(2_100).unwrap().as_str(), "new listing");
}

#[test]
fn non_2xx_status_yields_remote_error_with_code_and_body() {
    let failure = status_to_failure(429, r#"{"error": "rate limited"}"#.to_string()).unwrap();
    let outcome = ToolOutcome::of_failure(&failure);
    assert!(outcome.is_error);
    assert!(outcome.text.contains("429"), "should contain status code: {}", outcome.text);
    assert!(outcome.text.contains(r#"{"error": "rate limited"}"#));
    assert_eq!(outcome.text, r#"xAI API error (429): {"error": "rate limited"}"#);
}

#[test]
fn success_status_yields_no_failure() {
    assert!(status_to_failure(200, String::new()).is_none());
    assert!(status_to_failure(204, String::new()).is_none());
    assert!(status_to_failure(301, "moved".to_string()).is_some());
    assert!(status_to_failure(199, "odd".to_string()).is_some());
}

#[test]
fn unparsable_body_yields_serialization_outcome() {
    let failure = ApiError::Serialization("error decoding response body".to_string());
    let outcome = ToolOutcome::of_failure(&failure);
    assert!(outcome.is_error);
    assert_eq!(outcome.text, "HTTP request failed: error decoding response body");
}

#[test]
fn transport_failure_text() {
    let failure = ApiError::Transport("connection refused".to_string());
    let outcome = ToolOutcome::of_failure(&failure);
    assert!(outcome.is_error);
    assert_eq!(outcome.text, "HTTP request failed: connection refused");
}

#[test]
fn success_outcome_carries_text() {
    let outcome = ToolOutcome::success("Hello!".to_string());
    assert!(!outcome.is_error);
    assert_eq!(outcome.text, "Hello!");
}
