use tinyclaw::agent::{
    build_tool_instructions, find_tool, memory_context, panicked_output, render_outcome, render_results_block,
    tool_preview, AgentTurn, ReplyAction, ToolOutcome, ToolSpec, TurnError, MAX_TOOL_ITERATIONS,
};
use tinyclaw::json::JsonDoc;
use tinyclaw::history::{single_turn, trim_history, trim_history_to};
use tinyclaw::protocol::{decode_tool_call, parse_tool_calls};
use tinyclaw::types::{ChatMessage, ToolResult};

#[test]
fn two_blocks_without_text_parse_in_order() {
    let reply = [
        "<tool_call>{\"name\": \"shell\", \"arguments\": {\"command\": \"ls\"}}</tool_call>",
        "<tool_call>{\"name\": \"file_read\", \"arguments\": {\"path\": \"a.txt\"}}</tool_call>",
    ]
    .concat();
    let reply = reply.as_str();
    let (text, calls) = parse_tool_calls(reply);
    assert_eq!(text, "");
    assert_eq!(calls.len(), 2);
    assert_eq!(calls[0].name, "shell");
    assert_eq!(calls[1].name, "file_read");
    assert_eq!(calls[0].arguments.get("command").and_then(|v| v.as_string()).as_deref(), Some("ls"));
    assert_eq!(calls[1].arguments.get("path").and_then(|v| v.as_string()).as_deref(), Some("a.txt"));
}

#[test]
fn narrative_text_is_kept_around_calls() {
    let reply = "Let me look.\n<tool_call>\n{\"name\": \"shell\"}\n</tool_call>\n  Then answer.  ";
    let (text, calls) = parse_tool_calls(reply);
    assert_eq!(text, "Let me look.\nThen answer.");
    assert_eq!(calls.len(), 1);
    assert_eq!(calls[0].name, "shell");
    assert!(matches!(calls[0].arguments, JsonDoc::Object(ref es) if es.is_empty()));
}

#[test]
fn malformed_call_is_dropped() {
    let reply = "<tool_call>{not json}</tool_call>ok<tool_call>{\"name\":\"x\"}</tool_call>";
    let (text, calls) = parse_tool_calls(reply);
    assert_eq!(text, "ok");
    assert_eq!(calls.len(), 1);
    assert_eq!(calls[0].raw, "{\"name\":\"x\"}");
}

#[test]
fn unterminated_marker_ends_the_scan() {
    let reply = "intro <tool_call>{\"name\":\"x\"} and more";
    let (text, calls) = parse_tool_calls(reply);
    assert!(calls.is_empty());
    assert_eq!(text, "intro\n<tool_call>{\"name\":\"x\"} and more");
}

#[test]
fn decode_tool_call_defaults() {
    let c = decode_tool_call("{\"arguments\": 3}").unwrap();
    assert_eq!(c.name, "");
    assert!(matches!(c.arguments, JsonDoc::Number(Some(3))));
    assert!(decode_tool_call("nope").is_none());
}

#[test]
fn turn_without_calls_finishes() {
    let mut turn = AgentTurn::new(vec![ChatMessage::system("sys"), ChatMessage::user("hi")], 3);
    assert!(turn.may_call_model());
    match turn.on_reply("Just an answer.") {
        ReplyAction::Finish(t) => assert_eq!(t, "Just an answer."),
        other => panic!("unexpected {other:?}"),
    }
    assert_eq!(turn.history.len(), 3);
    assert_eq!(turn.history[2].role, "assistant");
}

#[test]
fn scripted_tool_calls_hit_the_iteration_limit() {
    let reply = "<tool_call>{\"name\": \"shell\", \"arguments\": {}}</tool_call>";
    let mut turn = AgentTurn::new(vec![ChatMessage::system("sys"), ChatMessage::user("go")], MAX_TOOL_ITERATIONS);
    let mut model_calls = 0;
    let outcome = loop {
        if !turn.may_call_model() {
            break Err(turn.limit_error());
        }
        model_calls += 1;
        match turn.on_reply(reply) {
            ReplyAction::Finish(t) => break Ok(t),
            ReplyAction::RunTools(calls) => {
                let outputs: Vec<(String, String)> = calls
                    .iter()
                    .map(|c| (c.name.clone(), render_outcome(&c.name, &ToolOutcome::Unknown)))
                    .collect();
                let block = render_results_block(&outputs);
                turn.record_tool_round(reply, &block);
            }
        }
    };
    assert_eq!(outcome, Err(TurnError::IterationLimitExceeded(MAX_TOOL_ITERATIONS)));
    assert_eq!(model_calls, MAX_TOOL_ITERATIONS);
    assert_eq!(turn.history.len(), 2 + 2 * MAX_TOOL_ITERATIONS);
    for k in 0..MAX_TOOL_ITERATIONS {
        assert_eq!(turn.history[2 + 2 * k].role, "assistant");
        assert_eq!(turn.history[2 + 2 * k].content, reply);
        assert_eq!(turn.history[3 + 2 * k].role, "user");
        assert_eq!(
            turn.history[3 + 2 * k].content,
            "[Tool results]\n<tool_result name=\"shell\">\nUnknown tool: shell\n</tool_result>\n"
        );
    }
}

#[test]
fn outcomes_render_as_fed_back() {
    let ok = ToolOutcome::Finished(ToolResult::ok("fine".into()));
    let failed = ToolOutcome::Finished(ToolResult::failure("denied".into()));
    let bare = ToolOutcome::Finished(ToolResult { success: false, output: "out".into(), error: None });
    assert_eq!(render_outcome("t", &ok), "fine");
    assert_eq!(render_outcome("t", &failed), "Error: denied");
    assert_eq!(render_outcome("t", &bare), "Error: out");
    assert_eq!(render_outcome("t", &ToolOutcome::Failed("bad args".into())), "Error executing t: bad args");
    assert_eq!(render_outcome("zz", &ToolOutcome::Unknown), "Unknown tool: zz");
    let (name, text) = panicked_output("join error");
    assert_eq!(name, "unknown");
    assert_eq!(text, "Task panicked: join error");
}

#[test]
fn results_block_keeps_parse_order() {
    let outputs = vec![("b".to_string(), "2".to_string()), ("a".to_string(), "1".to_string())];
    assert_eq!(
        render_results_block(&outputs),
        "<tool_result name=\"b\">\n2\n</tool_result>\n<tool_result name=\"a\">\n1\n</tool_result>\n"
    );
}

#[test]
fn preview_cuts_long_output() {
    let long = "é".repeat(130);
    let p = tool_preview(&long);
    assert_eq!(p, format!("{}...", "é".repeat(60)));
    let ascii = "a".repeat(121);
    assert_eq!(tool_preview(&ascii), format!("{}...", "a".repeat(120)));
    assert_eq!(tool_preview(&"a".repeat(120)), "a".repeat(120));
    let mixed = format!("{}é", "a".repeat(119));
    assert_eq!(tool_preview(&mixed), format!("{}...", "a".repeat(119)));
    assert_eq!(tool_preview("short"), "short");
}

#[test]
fn find_tool_takes_the_first_match() {
    let names = vec!["shell".to_string(), "file_read".to_string(), "shell".to_string()];
    assert_eq!(find_tool(&names, "shell"), Some(0));
    assert_eq!(find_tool(&names, "file_read"), Some(1));
    assert_eq!(find_tool(&names, "web"), None);
}

#[test]
fn tool_instructions_list_every_tool() {
    let tools = vec![ToolSpec {
        name: "file_patch".into(),
        description: "Patch".into(),
        schema: "{\"type\":\"object\"}".into(),
    }];
    let text = build_tool_instructions(&tools);
    assert!(text.starts_with("\n## Tool Use Protocol\n\n"));
    assert!(text.contains("<tool_call></tool_call>"));
    assert!(text.ends_with("### Available Tools\n\n**file_patch**: Patch\nParameters: `{\"type\":\"object\"}`\n\n"));
}

#[test]
fn trimming_keeps_system_and_latest_fifty() {
    let mut history = vec![ChatMessage::system("sys")];
    for i in 0..60 {
        history.push(ChatMessage::user(&format!("m{i}")));
    }
    trim_history(&mut history);
    assert_eq!(history.len(), 51);
    assert_eq!(history[0].role, "system");
    assert_eq!(history[1].content, "m10");
    assert_eq!(history[50].content, "m59");
}

#[test]
fn trimming_without_system_or_under_ceiling() {
    let mut short = vec![ChatMessage::user("a"), ChatMessage::assistant("b")];
    trim_history(&mut short);
    assert_eq!(short.len(), 2);
    let mut plain: Vec<ChatMessage> = (0..5).map(|i| ChatMessage::user(&i.to_string())).collect();
    trim_history_to(&mut plain, 3);
    assert_eq!(plain.len(), 3);
    assert_eq!(plain[0].content, "2");
}

#[test]
fn single_turn_takes_first_system_and_last_user() {
    let h = vec![
        ChatMessage::system("s1"),
        ChatMessage::user("u1"),
        ChatMessage::system("s2"),
        ChatMessage::user("u2"),
        ChatMessage::assistant("a"),
    ];
    let (system, user) = single_turn(&h);
    assert_eq!(system.as_deref(), Some("s1"));
    assert_eq!(user, "u2");
    let (none, empty) = single_turn(&vec![ChatMessage::assistant("x")]);
    assert!(none.is_none());
    assert_eq!(empty, "");
}

#[test]
fn memory_context_block() {
    assert_eq!(memory_context(&vec![]), "");
    let entries = vec![("user_msg".to_string(), "hi".to_string()), ("k".to_string(), "v".to_string())];
    assert_eq!(memory_context(&entries), "[Memory context]\n- user_msg: hi\n- k: v\n\n");
}
