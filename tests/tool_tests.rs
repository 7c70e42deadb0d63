use std::sync::Arc;
use tinyclaw::file_patch::{plan_patch, patch_error_message, FilePatchTool, PatchError, PatchRequest, PatchStep};
use tinyclaw::search_files::{skip_entry, split_lines, SearchFilesTool, SearchRequest, SearchState};
use tinyclaw::security::{AutonomyLevel, SecurityPolicy};
use tinyclaw::json::parse_json;
use tinyclaw::tools::ToolError;
use tinyclaw::types::ToolResult;
use tinyclaw::web_fetch::WebFetchTool;

fn test_security(workspace: &str) -> Arc<SecurityPolicy> {
    Arc::new(SecurityPolicy::new(AutonomyLevel::Supervised, workspace.to_string()))
}

fn request(path: &str, old: &str, new: &str) -> PatchRequest {
    PatchRequest { path: path.into(), old_string: old.into(), new_string: new.into() }
}

fn done(step: PatchStep) -> ToolResult {
    match step {
        PatchStep::Done(r) => r,
        other => panic!("expected a result, got {other:?}"),
    }
}

/// Runs a patch against an in-memory file at `/ws/test.txt`.
fn patch_in_memory(content: &str, old: &str, new: &str) -> (ToolResult, Option<String>) {
    let tool = FilePatchTool::new(test_security("/ws"));
    let req = request("test.txt", old, new);
    let path = match tool.start(&req) {
        PatchStep::Resolve(p) => p,
        other => panic!("unexpected {other:?}"),
    };
    assert_eq!(path, "/ws/test.txt");
    let canonical = match tool.on_resolved(Ok(path)) {
        PatchStep::Read(p) => p,
        other => panic!("unexpected {other:?}"),
    };
    match tool.on_read(&req, canonical, Ok(content.to_string())) {
        PatchStep::Write(_, new_content) => {
            let r = tool.on_written(&req, &new_content, Ok(()));
            (r, Some(new_content))
        }
        other => (done(other), None),
    }
}

#[test]
fn file_patch_name() {
    let tool = FilePatchTool::new(test_security("/tmp"));
    assert_eq!(tool.name(), "file_patch");
}

#[test]
fn file_patch_replaces_exact_match() {
    let (result, written) = patch_in_memory("hello world", "hello", "goodbye");
    assert!(result.success, "{:?}", result.error);
    assert_eq!(written.as_deref(), Some("goodbye world"));
    assert_eq!(result.output, "Patched test.txt (13 bytes)");
}

#[test]
fn file_patch_fails_when_not_found() {
    let (result, written) = patch_in_memory("hello world", "xyz", "abc");
    assert!(!result.success);
    assert!(result.error.as_deref().unwrap().contains("not found"));
    assert!(written.is_none());
}

#[test]
fn file_patch_fails_when_ambiguous() {
    let (result, written) = patch_in_memory("aaa bbb aaa", "aaa", "ccc");
    assert!(!result.success);
    assert!(result.error.as_deref().unwrap().contains("2 times"));
    assert!(written.is_none());
}

#[test]
fn plan_patch_counts_matches() {
    assert_eq!(plan_patch("aaa bbb aaa", "aaa", "ccc"), Err(PatchError::Ambiguous(2)));
    assert_eq!(plan_patch("aaaa", "aa", "b"), Err(PatchError::Ambiguous(2)));
    assert_eq!(plan_patch("abc", "", "x"), Err(PatchError::Ambiguous(4)));
    assert_eq!(plan_patch("", "", "x"), Ok("x".to_string()));
    assert_eq!(plan_patch("héllo wörld", "wörld", "world"), Ok("héllo world".to_string()));
    assert_eq!(
        patch_error_message(PatchError::Ambiguous(2)),
        "old_string found 2 times \u{2014} must match exactly once. Provide more context."
    );
}

#[test]
fn file_patch_blocks_path_traversal() {
    let tool = FilePatchTool::new(test_security("/ws"));
    let result = done(tool.start(&request("../../etc/passwd", "a", "b")));
    assert!(!result.success);
    assert_eq!(result.error.as_deref(), Some("Path not allowed by security policy: ../../etc/passwd"));
}

#[test]
fn symlink_escape_is_caught_after_resolution() {
    let tool = FilePatchTool::new(test_security("/ws"));
    let req = request("link.txt", "a", "b");
    let policy = test_security("/ws");
    assert!(policy.is_path_allowed("link.txt"));
    match tool.start(&req) {
        PatchStep::Resolve(p) => assert_eq!(p, "/ws/link.txt"),
        other => panic!("unexpected {other:?}"),
    }
    let result = done(tool.on_resolved(Ok("/etc/passwd".to_string())));
    assert!(!result.success);
    assert_eq!(result.error.as_deref(), Some("Resolved path escapes workspace: /etc/passwd"));
}

#[test]
fn read_only_autonomy_refuses_patches() {
    let tool = FilePatchTool::new(Arc::new(SecurityPolicy::new(AutonomyLevel::ReadOnly, "/ws".into())));
    let result = done(tool.start(&request("a.txt", "a", "b")));
    assert!(!result.success);
}

#[test]
fn path_checks() {
    let policy = SecurityPolicy::new(AutonomyLevel::Full, "/home/u/ws/".to_string());
    assert!(!policy.is_path_allowed("../../etc/passwd"));
    assert!(!policy.is_path_allowed("src/../../x"));
    assert!(!policy.is_path_allowed(".."));
    assert!(!policy.is_path_allowed("a\0b"));
    assert!(policy.is_path_allowed("src/..hidden/file"));
    assert!(policy.is_path_allowed("notes.txt"));
    assert!(policy.is_path_allowed("/home/u/ws/notes.txt"));
    assert!(!policy.is_path_allowed("/etc/passwd"));
    assert!(policy.is_resolved_path_allowed("/home/u/ws"));
    assert!(policy.is_resolved_path_allowed("/home/u/ws/a/b"));
    assert!(!policy.is_resolved_path_allowed("/home/u/ws2/a"));
    assert!(!policy.is_resolved_path_allowed("/home/u"));
    assert!(policy.allows_writes());
}

#[test]
fn patch_arguments_are_required() {
    let args = parse_json(br#"{"path": "a", "old_string": "x"}"#).unwrap();
    match FilePatchTool::parse_args(&args) {
        Err(e) => assert_eq!(e.message(), "Missing 'new_string' parameter"),
        Ok(r) => panic!("unexpected {r:?}"),
    }
    let full = parse_json(br#"{"path": "a", "old_string": "x", "new_string": "y"}"#).unwrap();
    let req = FilePatchTool::parse_args(&full).unwrap();
    assert_eq!(req.new_string, "y");
}

fn search_request(pattern: &str, glob: Option<&str>) -> SearchRequest {
    SearchRequest { pattern: pattern.into(), path: ".".into(), glob: glob.map(|g| g.to_string()) }
}

#[test]
fn search_files_name() {
    let tool = SearchFilesTool::new(test_security("/tmp"));
    assert_eq!(tool.name(), "search_files");
}

#[test]
fn search_files_finds_match() {
    let tool = SearchFilesTool::new(test_security("/ws"));
    let plan = tool.start(&search_request("foo", None)).ok().unwrap();
    assert_eq!(plan.directory, "/ws/.");
    let mut state = SearchState::new();
    state.scan_file(&plan, "hello.txt", "foo bar\nbaz qux\nfoo again");
    let result = state.finish();
    assert!(result.success);
    assert!(result.output.contains("2 matches"));
    assert_eq!(result.output, "2 matches:\nhello.txt:1: foo bar\nhello.txt:3: foo again\n");
}

#[test]
fn search_files_no_matches() {
    let tool = SearchFilesTool::new(test_security("/ws"));
    let plan = tool.start(&search_request("xyz123", None)).ok().unwrap();
    let mut state = SearchState::new();
    state.scan_file(&plan, "hello.txt", "nothing here");
    let result = state.finish();
    assert!(result.success);
    assert!(result.output.contains("No matches"));
}

#[test]
fn search_files_invalid_regex() {
    let tool = SearchFilesTool::new(test_security("/ws"));
    let result = match tool.start(&search_request("[invalid", None)) {
        Err(r) => r,
        Ok(_) => panic!("pattern accepted"),
    };
    assert!(!result.success);
    assert!(result.error.as_deref().unwrap().contains("Invalid regex"));
}

#[test]
fn search_files_with_glob() {
    let tool = SearchFilesTool::new(test_security("/ws"));
    let plan = tool.start(&search_request("fn", Some("*.rs"))).ok().unwrap();
    let mut state = SearchState::new();
    for (name, content) in [("code.rs", "fn main() {}"), ("readme.md", "fn not_code")] {
        if state.wants_file(&plan, name, content.len() as u64) {
            state.scan_file(&plan, name, content);
        }
    }
    let result = state.finish();
    assert!(result.success);
    assert!(result.output.contains("1 match"));
    assert!(result.output.contains("code.rs"));
}

#[test]
fn search_stops_at_the_cap() {
    let tool = SearchFilesTool::new(test_security("/ws"));
    let plan = tool.start(&search_request("x", None)).ok().unwrap();
    let mut state = SearchState::new();
    let content = "x\n".repeat(150);
    state.scan_file(&plan, "many.txt", &content);
    assert!(state.is_full());
    assert_eq!(state.match_count, 100);
    let out = state.finish().output;
    assert!(out.starts_with("100 matches:\n... truncated at 100 matches\n"));
    assert!(!state.wants_file(&plan, "big.txt", 2_000_000));
}

#[test]
fn search_at_exactly_the_cap_is_not_truncated() {
    let tool = SearchFilesTool::new(test_security("/ws"));
    let plan = tool.start(&search_request("x", None)).ok().unwrap();
    let mut state = SearchState::new();
    state.scan_file(&plan, "hundred.txt", &"x\n".repeat(100));
    assert!(!state.is_full());
    let out = state.finish().output;
    assert!(out.starts_with("100 matches:\nhundred.txt:1: x\n"));
    assert!(!out.contains("truncated"));
}

#[test]
fn search_arguments_have_defaults() {
    let args = parse_json(br#"{"pattern": "fn"}"#).unwrap();
    let req = SearchFilesTool::parse_args(&args).unwrap();
    assert_eq!(req.path, ".");
    assert!(req.glob.is_none());
    let none = parse_json(br#"{"path": "src"}"#).unwrap();
    assert!(matches!(SearchFilesTool::parse_args(&none), Err(ToolError::MissingParameter(_))));
}

#[test]
fn search_skips_hidden_and_build_directories() {
    assert!(skip_entry(".git"));
    assert!(skip_entry("target"));
    assert!(skip_entry("node_modules"));
    assert!(!skip_entry("src"));
}

#[test]
fn search_path_traversal_refused() {
    let tool = SearchFilesTool::new(test_security("/ws"));
    let req = SearchRequest { pattern: "a".into(), path: "../x".into(), glob: None };
    assert!(tool.start(&req).is_err());
    let escaped = match tool.on_resolved(Ok("/other".into())) {
        Err(r) => r,
        Ok(p) => panic!("accepted {p}"),
    };
    assert_eq!(escaped.error.as_deref(), Some("Search path escapes workspace"));
}

#[test]
fn lines_split_like_str_lines() {
    assert_eq!(split_lines("a\r\nb\n\nc"), vec!["a", "b", "", "c"]);
    assert_eq!(split_lines("a\n"), vec!["a"]);
    assert!(split_lines("").is_empty());
    assert_eq!(split_lines("x\r"), vec!["x\r"]);
}

#[test]
fn web_fetch_name() {
    let tool = WebFetchTool::new();
    assert_eq!(tool.name(), "web_fetch");
}

#[test]
fn web_fetch_rejects_non_http() {
    let tool = WebFetchTool::new();
    let result = tool.check_url("ftp://example.com").unwrap();
    assert!(!result.success);
    assert!(result.error.as_deref().unwrap().contains("http"));
    assert!(tool.check_url("https://example.com").is_none());
    assert!(tool.check_url("http://example.com").is_none());
}

#[test]
fn web_fetch_missing_url() {
    let args = parse_json(b"{}").unwrap();
    let result = WebFetchTool::parse_args(&args);
    assert!(result.is_err());
    assert!(matches!(result, Err(ToolError::MissingParameter(_))));
}

#[test]
fn web_fetch_reports_status_and_truncates() {
    let tool = WebFetchTool::new();
    let ok = tool.on_response(200, "200 OK", "body");
    assert!(ok.success);
    assert_eq!(ok.output, "HTTP 200 OK\nbody");
    let long = "y".repeat(50_001);
    let cut = tool.on_response(404, "404 Not Found", &long);
    assert!(!cut.success);
    assert_eq!(cut.error.as_deref(), Some("HTTP 404 Not Found"));
    assert!(cut.output.ends_with("\n... [truncated]"));
    assert_eq!(cut.output.len(), "HTTP 404 Not Found\n".len() + 50_000 + "\n... [truncated]".len());
    let wide = "é".repeat(30_000);
    let cut_wide = tool.on_response(200, "200 OK", &wide);
    assert_eq!(cut_wide.output, format!("HTTP 200 OK\n{}\n... [truncated]", "é".repeat(25_000)));
    let fits = "é".repeat(25_000);
    assert_eq!(tool.on_response(200, "200 OK", &fits).output, format!("HTTP 200 OK\n{fits}"));
    let failed = tool.on_request_error("timed out");
    assert_eq!(failed.error.as_deref(), Some("Request failed: timed out"));
}
