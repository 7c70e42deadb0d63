use tinyclaw::anthropic::AnthropicProvider;
use tinyclaw::completions::{OpenAiProvider, OpenRouterProvider};
use tinyclaw::providers::{
    check_status,
    decide_retry, decode_anthropic_reply, decode_completion_reply, is_retryable, ProviderError,
    ReliabilityPolicy, RetryDecision,
};
use tinyclaw::types::{ChatMessage, TokenUsage, UsageTracker};

#[test]
fn anthropic_creates_with_key() {
    let p = AnthropicProvider::new(Some("sk-ant-test123"));
    assert!(p.credential.is_some());
    assert_eq!(p.credential.as_deref(), Some("sk-ant-test123"));
    assert_eq!(p.base_url, "https://api.anthropic.com");
}

#[test]
fn anthropic_creates_without_key() {
    let p = AnthropicProvider::new(None);
    assert!(p.credential.is_none());
    assert_eq!(p.base_url, "https://api.anthropic.com");
}

#[test]
fn anthropic_creates_with_empty_key() {
    let p = AnthropicProvider::new(Some(""));
    assert!(p.credential.is_none());
}

#[test]
fn creates_with_whitespace_key() {
    let p = AnthropicProvider::new(Some("  sk-ant-test123  "));
    assert!(p.credential.is_some());
    assert_eq!(p.credential.as_deref(), Some("sk-ant-test123"));
}

#[test]
fn creates_with_custom_base_url() {
    let p = AnthropicProvider::with_base_url(Some("sk-ant-test"), Some("https://api.example.com"));
    assert_eq!(p.base_url, "https://api.example.com");
    assert_eq!(p.credential.as_deref(), Some("sk-ant-test"));
}

#[test]
fn custom_base_url_trims_trailing_slash() {
    let p = AnthropicProvider::with_base_url(None, Some("https://api.example.com/"));
    assert_eq!(p.base_url, "https://api.example.com");
}

#[test]
fn default_base_url_when_none_provided() {
    let p = AnthropicProvider::with_base_url(None, None);
    assert_eq!(p.base_url, "https://api.anthropic.com");
}

#[test]
fn setup_token_detection_works() {
    assert!(AnthropicProvider::is_setup_token("sk-ant-oat01-abcdef"));
    assert!(!AnthropicProvider::is_setup_token("sk-ant-api-key"));
}

#[test]
fn anthropic_chat_fails_without_key() {
    let p = AnthropicProvider::new(None);
    let result = p.prepare_chat(None, "hello", "messages-model");
    assert!(result.is_err());
    let err = result.unwrap_err();
    assert!(matches!(err, ProviderError::Credential(_)));
    assert!(err.message().contains("credentials not set"), "Expected key error, got: {}", err.message());
}

#[test]
fn anthropic_chat_with_system_fails_without_key() {
    let p = AnthropicProvider::new(None);
    let result = p.prepare_chat(Some("You are TinyClaw"), "hello", "messages-model");
    assert!(result.is_err());
}

#[test]
fn anthropic_request_uses_key_header() {
    let p = AnthropicProvider::new(Some("sk-ant-api-key"));
    let plan = p.prepare_chat(Some("You are TinyClaw"), "hello", "messages-model").unwrap();
    assert_eq!(plan.url, "https://api.anthropic.com/v1/messages");
    assert_eq!(plan.max_tokens, Some(4096));
    assert_eq!(plan.system.as_deref(), Some("You are TinyClaw"));
    assert_eq!(plan.messages.len(), 1);
    assert_eq!(plan.messages[0].role, "user");
    assert_eq!(plan.messages[0].content, "hello");
    assert!(plan.headers.contains(&("x-api-key".to_string(), "sk-ant-api-key".to_string())));
    assert!(!plan.stream);
}

#[test]
fn anthropic_setup_token_is_bearer() {
    let p = AnthropicProvider::new(Some("sk-ant-oat01-xyz"));
    let plan = p.prepare_chat(None, "hi", "m").unwrap();
    assert!(plan.headers.contains(&("Authorization".to_string(), "Bearer sk-ant-oat01-xyz".to_string())));
    assert!(plan.system.is_none());
}

#[test]
fn anthropic_stream_request_moves_system_aside() {
    let p = AnthropicProvider::new(Some("k"));
    let history = vec![
        ChatMessage::system("first"),
        ChatMessage::user("q"),
        ChatMessage::assistant("a"),
        ChatMessage::system("second"),
    ];
    let plan = p.prepare_stream(&history, "m").unwrap();
    assert!(plan.stream);
    assert_eq!(plan.system.as_deref(), Some("second"));
    assert_eq!(plan.messages.len(), 2);
    assert_eq!(plan.messages[0].content, "q");
    assert_eq!(plan.messages[1].role, "assistant");
}

#[test]
fn openai_creates_with_key() {
    let p = OpenAiProvider::new(Some("sk-proj-abc123"));
    assert_eq!(p.api_key.as_deref(), Some("sk-proj-abc123"));
}

#[test]
fn openai_creates_without_key() {
    let p = OpenAiProvider::new(None);
    assert!(p.api_key.is_none());
}

#[test]
fn openai_creates_with_empty_key() {
    let p = OpenAiProvider::new(Some(""));
    assert_eq!(p.api_key.as_deref(), Some(""));
}

#[test]
fn openai_chat_fails_without_key() {
    let p = OpenAiProvider::new(None);
    let result = p.prepare_chat(None, "hello", "gpt-4o");
    assert!(result.is_err());
    assert!(result.unwrap_err().message().contains("API key not set"));
}

#[test]
fn openai_chat_with_system_fails_without_key() {
    let p = OpenAiProvider::new(None);
    let result = p.prepare_chat(Some("You are TinyClaw"), "test", "gpt-4o");
    assert!(result.is_err());
}

#[test]
fn openai_request_puts_system_first() {
    let p = OpenAiProvider::new(Some("sk"));
    let plan = p.prepare_chat(Some("You are TinyClaw"), "hello", "gpt-4o").unwrap();
    assert_eq!(plan.url, "https://api.openai.com/v1/chat/completions");
    assert_eq!(plan.messages.len(), 2);
    assert_eq!(plan.messages[0].role, "system");
    assert_eq!(plan.messages[1].role, "user");
    assert_eq!(plan.headers, vec![("Authorization".to_string(), "Bearer sk".to_string())]);
}

#[test]
fn openrouter_fails_without_key_everywhere() {
    let p = OpenRouterProvider::new(None);
    assert!(matches!(p.prepare_chat(None, "hi", "m"), Err(ProviderError::Credential(_))));
    let history = vec![ChatMessage::user("hi")];
    assert!(matches!(p.prepare_history(&history, "m", true), Err(ProviderError::Credential(_))));
    assert!(p.warmup_request().is_none());
}

#[test]
fn openrouter_history_request_keeps_history() {
    let p = OpenRouterProvider::new(Some("or-key"));
    let history = vec![ChatMessage::system("s"), ChatMessage::user("u")];
    let plan = p.prepare_history(&history, "vendor/model", true).unwrap();
    assert!(plan.stream);
    assert_eq!(plan.messages.len(), 2);
    assert_eq!(plan.headers.len(), 3);
    assert_eq!(plan.headers[2], ("X-Title".to_string(), "TinyClaw".to_string()));
    let (url, headers) = p.warmup_request().unwrap();
    assert_eq!(url, "https://openrouter.ai/api/v1/auth/key");
    assert_eq!(headers[0].1, "Bearer or-key");
}

#[test]
fn chat_response_deserializes() {
    let json = r#"{"content":[{"type":"text","text":"Hello there!"}]}"#;
    let resp = decode_anthropic_reply(json).unwrap();
    assert_eq!(resp.texts.len(), 1);
    assert_eq!(resp.texts[0], "Hello there!");
}

#[test]
fn chat_response_empty_content() {
    let json = r#"{"content":[]}"#;
    let resp = decode_anthropic_reply(json).unwrap();
    assert!(resp.texts.is_empty());
}

#[test]
fn chat_response_multiple_blocks() {
    let json = r#"{"content":[{"type":"text","text":"First"},{"type":"text","text":"Second"}]}"#;
    let resp = decode_anthropic_reply(json).unwrap();
    assert_eq!(resp.texts.len(), 2);
    assert_eq!(resp.texts[0], "First");
    assert_eq!(resp.texts[1], "Second");
}

#[test]
fn response_deserializes_single_choice() {
    let json = r#"{"choices":[{"message":{"content":"Hi!"}}]}"#;
    let resp = decode_completion_reply(json).unwrap();
    assert_eq!(resp.texts.len(), 1);
    assert_eq!(resp.texts[0], "Hi!");
}

#[test]
fn response_deserializes_empty_choices() {
    let json = r#"{"choices":[]}"#;
    let resp = decode_completion_reply(json).unwrap();
    assert!(resp.texts.is_empty());
}

#[test]
fn response_deserializes_multiple_choices() {
    let json = r#"{"choices":[{"message":{"content":"A"}},{"message":{"content":"B"}}]}"#;
    let resp = decode_completion_reply(json).unwrap();
    assert_eq!(resp.texts.len(), 2);
    assert_eq!(resp.texts[0], "A");
}

#[test]
fn response_with_unicode() {
    let json = r#"{"choices":[{"message":{"content":"こんにちは 🦀"}}]}"#;
    let resp = decode_completion_reply(json).unwrap();
    assert_eq!(resp.texts[0], "こんにちは 🦀");
}

#[test]
fn response_with_long_content() {
    let long = "x".repeat(100_000);
    let json = format!(r#"{{"choices":[{{"message":{{"content":"{long}"}}}}]}}"#);
    let resp = decode_completion_reply(&json).unwrap();
    assert_eq!(resp.texts[0].len(), 100_000);
}

#[test]
fn response_deserializes_with_usage() {
    let json = r#"{"choices":[{"message":{"content":"Hi!"}}],"usage":{"prompt_tokens":10,"completion_tokens":5,"total_tokens":15}}"#;
    let resp = decode_completion_reply(json).unwrap();
    let u = resp.usage.unwrap();
    assert_eq!(u.prompt_tokens, 10);
    assert_eq!(u.completion_tokens, 5);
    assert_eq!(u.total_tokens, 15);
}

#[test]
fn malformed_reply_is_protocol_error() {
    assert!(matches!(decode_completion_reply("not json"), Err(ProviderError::Protocol(_))));
    assert!(matches!(decode_anthropic_reply(r#"{"content":[{"type":"text"}]}"#), Err(ProviderError::Protocol(_))));
}

#[test]
fn finish_reply_tracks_usage_and_takes_first() {
    let mut p = OpenRouterProvider::new(Some("k"));
    let tracker = UsageTracker::new();
    p.set_usage_tracker(tracker.clone());
    let json = r#"{"choices":[{"message":{"content":"A"}},{"message":{"content":"B"}}],"usage":{"prompt_tokens":3,"completion_tokens":4,"total_tokens":7}}"#;
    assert_eq!(p.finish_chat(json).unwrap(), "A");
    assert_eq!(tracker.snapshot(), TokenUsage { prompt_tokens: 3, completion_tokens: 4, total_tokens: 7 });
    assert_eq!(tracker.requests(), 1);
}

#[test]
fn empty_reply_is_empty_response_error() {
    let p = AnthropicProvider::new(Some("k"));
    match p.finish_chat(r#"{"content":[]}"#) {
        Err(ProviderError::EmptyResponse(m)) => assert_eq!(m, "No response from Anthropic"),
        other => panic!("unexpected {other:?}"),
    }
    let o = OpenAiProvider::new(Some("k"));
    assert!(matches!(o.finish_chat(r#"{"choices":[]}"#), Err(ProviderError::EmptyResponse(_))));
}

#[test]
fn anthropic_reply_usage_totals_input_and_output() {
    let mut p = AnthropicProvider::new(Some("k"));
    let tracker = UsageTracker::new();
    p.set_usage_tracker(tracker.clone());
    let json = r#"{"content":[{"type":"text","text":"ok"}],"usage":{"input_tokens":12,"output_tokens":8}}"#;
    assert_eq!(p.finish_chat(json).unwrap(), "ok");
    assert_eq!(tracker.snapshot().total_tokens, 20);
}

#[test]
fn retry_policy_backs_off_on_retryable_errors() {
    let policy = ReliabilityPolicy { max_retries: 3, base_backoff_ms: 100 };
    let busy = ProviderError::Http { status: 429, body: String::new() };
    let down = ProviderError::Http { status: 503, body: String::new() };
    assert!(is_retryable(&busy));
    assert!(is_retryable(&down));
    assert!(is_retryable(&ProviderError::Transport("reset".into())));
    assert_eq!(decide_retry(&policy, 0, &busy), RetryDecision::RetryAfter(100));
    assert_eq!(decide_retry(&policy, 2, &down), RetryDecision::RetryAfter(400));
    assert_eq!(decide_retry(&policy, 3, &down), RetryDecision::GiveUp);
}

#[test]
fn retry_policy_never_retries_credentials_or_client_errors() {
    let policy = ReliabilityPolicy { max_retries: 5, base_backoff_ms: 10 };
    let cred = ProviderError::Credential("missing".into());
    let bad = ProviderError::Http { status: 400, body: "bad".into() };
    let empty = ProviderError::EmptyResponse("none".into());
    assert_eq!(decide_retry(&policy, 0, &cred), RetryDecision::GiveUp);
    assert_eq!(decide_retry(&policy, 0, &bad), RetryDecision::GiveUp);
    assert_eq!(decide_retry(&policy, 0, &empty), RetryDecision::GiveUp);
}

#[test]
fn http_error_message_shows_status_and_body() {
    let e = ProviderError::Http { status: 502, body: "bad gateway".into() };
    assert_eq!(e.message(), "HTTP 502: bad gateway");
}

#[test]
fn status_check_decides_http_errors() {
    assert!(check_status(200, "").is_ok());
    assert!(check_status(204, "").is_ok());
    assert_eq!(
        check_status(429, "slow down"),
        Err(ProviderError::Http { status: 429, body: "slow down".into() })
    );
}

#[test]
fn reply_usage_must_be_an_object() {
    let resp = decode_completion_reply(r#"{"choices":[{"message":{"content":"x"}}],"usage":null}"#).unwrap();
    assert!(resp.usage.is_none());
    assert!(matches!(decode_completion_reply(r#"{"choices":[{"message":{}}]}"#), Err(ProviderError::Protocol(_))));
}
