use tinyclaw::session::{
    new_session, new_session_id, now_iso, session_meta, session_path, session_preview,
    sessions_dir, updated_session,
};
use tinyclaw::types::ChatMessage;
use tinyclaw::ui::{AgentEvent, App, Key, KeyOutcome, Role};

fn test_messages() -> Vec<ChatMessage> {
    vec![
        ChatMessage::system("You are helpful."),
        ChatMessage::user("Hello"),
        ChatMessage::assistant("Hi there!"),
    ]
}

#[test]
fn session_ids_are_hex_millis() {
    assert_eq!(new_session_id(255), "ff");
    assert_eq!(new_session_id(0x18f3a2b4c5d), "18f3a2b4c5d");
    assert_ne!(new_session_id(1_700_000_000_000), new_session_id(1_700_000_000_001));
    assert_eq!(now_iso(1_700_000_000), "1700000000");
}

#[test]
fn session_locations() {
    assert_eq!(sessions_dir("/ws"), "/ws/sessions");
    assert_eq!(sessions_dir("/ws/"), "/ws/sessions");
    assert_eq!(session_path("/ws", "test-1"), "/ws/sessions/test-1.json");
}

#[test]
fn save_record_round_trip() {
    let s = new_session("test-1", "gpt-4", &test_messages(), "100");
    assert_eq!(s.id, "test-1");
    assert_eq!(s.model, "gpt-4");
    assert_eq!(s.messages.len(), 3);
    assert_eq!(s.messages[0].role, "system");
    assert_eq!(s.messages[1].content, "Hello");
    assert_eq!(s.created_at, "100");
    assert_eq!(s.updated_at, "100");
}

#[test]
fn update_preserves_created_at() {
    let first = new_session("test-2", "gpt-4", &test_messages(), "100");
    let mut msgs = test_messages();
    msgs.push(ChatMessage::user("Follow up"));
    let updated = updated_session(Some(first.created_at.clone()), "test-2", "gpt-4", &msgs, "200");
    assert_eq!(updated.created_at, first.created_at);
    assert_eq!(updated.updated_at, "200");
    assert_eq!(updated.messages.len(), 4);
    let fresh = updated_session(None, "t", "m", &msgs, "300");
    assert_eq!(fresh.created_at, "300");
}

#[test]
fn preview_truncates_long_messages() {
    let msgs = vec![ChatMessage::system("sys"), ChatMessage::user(&"x".repeat(200))];
    let preview = session_preview(&msgs);
    assert!(preview.len() <= 63);
    assert_eq!(preview, format!("{}...", "x".repeat(60)));
    let s = new_session("long", "gpt-4", &msgs, "1");
    let meta = session_meta(&s);
    assert_eq!(meta.message_count, 2);
    assert_eq!(meta.preview, preview);
    assert_eq!(session_preview(&vec![ChatMessage::system("only")]), "");
    let wide = vec![ChatMessage::user(&"é".repeat(40))];
    assert_eq!(session_preview(&wide), format!("{}...", "é".repeat(30)));
    let fits = vec![ChatMessage::user(&"é".repeat(30))];
    assert_eq!(session_preview(&fits), "é".repeat(30));
}

#[test]
fn app_starts_with_welcome() {
    let app = App::new("model-x".to_string());
    assert_eq!(app.messages.len(), 1);
    assert_eq!(app.messages[0].role, Role::Assistant);
    assert!(app.input.is_empty());
    assert!(!app.should_quit);
}

#[test]
fn app_streams_tokens_then_done() {
    let mut app = App::new("m".to_string());
    app.handle_agent_event(AgentEvent::Token("Hel".into()));
    app.handle_agent_event(AgentEvent::Token("lo".into()));
    assert_eq!(app.current_response, "Hello");
    app.handle_agent_event(AgentEvent::ToolStart("shell".into()));
    app.handle_agent_event(AgentEvent::ToolResult { name: "shell".into(), preview: "ok".into() });
    assert_eq!(app.messages[1].content, "[shell] ok");
    assert_eq!(app.messages[1].role, Role::Tool);
    app.handle_agent_event(AgentEvent::Done("final".into()));
    assert_eq!(app.messages[2].content, "Hello");
    assert!(app.current_response.is_empty());
    app.handle_agent_event(AgentEvent::Done("final".into()));
    assert_eq!(app.messages[3].content, "final");
    app.handle_agent_event(AgentEvent::Error("boom".into()));
    assert_eq!(app.messages[4].role, Role::Error);
}

#[test]
fn app_edits_and_submits_input() {
    let mut app = App::new("m".to_string());
    for c in "hé".chars() {
        assert_eq!(app.on_key(Key::Char(c), false), KeyOutcome::Nothing);
    }
    app.on_key(Key::Left, false);
    app.on_key(Key::Char('y'), false);
    assert_eq!(app.input_text(), "hyé");
    app.on_key(Key::Backspace, false);
    assert_eq!(app.input_text(), "hé");
    assert_eq!(app.on_key(Key::Char('z'), true), KeyOutcome::Nothing);
    assert_eq!(app.input_text(), "hé");
    assert_eq!(app.on_key(Key::Enter, false), KeyOutcome::Submit("hé".to_string()));
    assert!(app.input.is_empty());
    for c in "/quit".chars() {
        app.on_key(Key::Char(c), false);
    }
    assert_eq!(app.on_key(Key::Enter, false), KeyOutcome::Quit);
    assert!(app.should_quit);
}
