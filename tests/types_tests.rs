use tinyclaw::types::{ChatMessage, ChatResponse, TokenUsage, ToolCall, ToolResult, UsageTracker};

#[test]
fn chat_message_constructors() {
    let sys = ChatMessage::system("Be helpful");
    assert_eq!(sys.role, "system");
    assert_eq!(sys.content, "Be helpful");

    let user = ChatMessage::user("Hello");
    assert_eq!(user.role, "user");

    let asst = ChatMessage::assistant("Hi there");
    assert_eq!(asst.role, "assistant");
}

#[test]
fn chat_response_helpers() {
    let empty = ChatResponse {
        text: None,
        tool_calls: vec![],
    };
    assert!(!empty.has_tool_calls());
    assert_eq!(empty.text_or_empty(), "");

    let with_tools = ChatResponse {
        text: Some("Let me check".into()),
        tool_calls: vec![ToolCall {
            id: "1".into(),
            name: "shell".into(),
            arguments: "{}".into(),
        }],
    };
    assert!(with_tools.has_tool_calls());
    assert_eq!(with_tools.text_or_empty(), "Let me check");
}

#[test]
fn duplicate_keeps_role_and_content() {
    let m = ChatMessage::user("again");
    let d = m.duplicate();
    assert_eq!(d.role, "user");
    assert_eq!(d.content, "again");
}

#[test]
fn usage_tracker_starts_at_zero() {
    let t = UsageTracker::new();
    assert_eq!(t.snapshot(), TokenUsage::default());
    assert_eq!(t.requests(), 0);
}

#[test]
fn usage_tracker_sums_every_call() {
    let t = UsageTracker::new();
    let shared = t.clone();
    for i in 1..=10u64 {
        let u = TokenUsage {
            prompt_tokens: i,
            completion_tokens: 2 * i,
            total_tokens: 3 * i,
        };
        if i % 2 == 0 {
            t.add(&u);
        } else {
            shared.add(&u);
        }
    }
    let s = t.snapshot();
    assert_eq!(s.prompt_tokens, 55);
    assert_eq!(s.completion_tokens, 110);
    assert_eq!(s.total_tokens, 165);
    assert_eq!(t.requests(), 10);
    assert_eq!(shared.snapshot(), s);
}

#[test]
fn usage_tracker_order_does_not_matter() {
    let calls = [(5u64, 7u64), (11, 13), (17, 19)];
    let forward = UsageTracker::new();
    for (p, c) in calls.iter() {
        forward.add(&TokenUsage { prompt_tokens: *p, completion_tokens: *c, total_tokens: p + c });
    }
    let backward = UsageTracker::new();
    for (p, c) in calls.iter().rev() {
        backward.add(&TokenUsage { prompt_tokens: *p, completion_tokens: *c, total_tokens: p + c });
    }
    assert_eq!(forward.snapshot(), backward.snapshot());
    assert_eq!(forward.snapshot().total_tokens, 72);
}

#[test]
fn tool_result_constructors() {
    let f = ToolResult::failure("boom".to_string());
    assert!(!f.success);
    assert_eq!(f.output, "");
    assert_eq!(f.error.as_deref(), Some("boom"));
    let o = ToolResult::ok("done".to_string());
    assert!(o.success);
    assert_eq!(o.output, "done");
    assert!(o.error.is_none());
}
