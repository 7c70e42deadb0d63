//! The values that flow between the agent loop, the providers and the tools.
use vstd::prelude::*;
use std::sync::atomic::{AtomicU64, Ordering};
use std::sync::Arc;

verus! {

pub open spec fn system_role() -> Seq<char> {
    seq!['s', 'y', 's', 't', 'e', 'm']
}

pub open spec fn user_role() -> Seq<char> {
    seq!['u', 's', 'e', 'r']
}

pub open spec fn assistant_role() -> Seq<char> {
    seq!['a', 's', 's', 'i', 's', 't', 'a', 'n', 't']
}

/// A single message in a conversation.
#[derive(Debug, Clone)]
pub struct ChatMessage {
    pub role: String,
    pub content: String,
}

/// The string `system`.
pub fn system_role_string() -> (r: String)
    ensures
        r@ == system_role(),
{
    let s = "system";
    proof {
        reveal_strlit("system");
    }
    let r = String::from_str(s);
    assert(r@ =~= system_role());
    r
}

/// The string `user`.
pub fn user_role_string() -> (r: String)
    ensures
        r@ == user_role(),
{
    let s = "user";
    proof {
        reveal_strlit("user");
    }
    let r = String::from_str(s);
    assert(r@ =~= user_role());
    r
}

/// The string `assistant`.
pub fn assistant_role_string() -> (r: String)
    ensures
        r@ == assistant_role(),
{
    let s = "assistant";
    proof {
        reveal_strlit("assistant");
    }
    let r = String::from_str(s);
    assert(r@ =~= assistant_role());
    r
}

/// Whether a string is `system`.
pub fn is_system_role(s: &String) -> (r: bool)
    ensures
        r == (s@ == system_role()),
{
    let t = system_role_string();
    *s == t
}

/// Whether a string is `user`.
pub fn is_user_role(s: &String) -> (r: bool)
    ensures
        r == (s@ == user_role()),
{
    let t = user_role_string();
    *s == t
}

impl ChatMessage {
    pub fn system(content: &str) -> (r: ChatMessage)
        ensures
            r.role@ == system_role(),
            r.content@ == content@,
    {
        ChatMessage { role: system_role_string(), content: String::from_str(content) }
    }

    pub fn user(content: &str) -> (r: ChatMessage)
        ensures
            r.role@ == user_role(),
            r.content@ == content@,
    {
        ChatMessage { role: user_role_string(), content: String::from_str(content) }
    }

    pub fn assistant(content: &str) -> (r: ChatMessage)
        ensures
            r.role@ == assistant_role(),
            r.content@ == content@,
    {
        ChatMessage { role: assistant_role_string(), content: String::from_str(content) }
    }

    /// A copy with the same role and content.
    pub fn duplicate(&self) -> (r: ChatMessage)
        ensures
            r == *self,
    {
        ChatMessage { role: self.role.clone(), content: self.content.clone() }
    }
}

/// A tool call requested by the model.
#[derive(Debug, Clone)]
pub struct ToolCall {
    pub id: String,
    pub name: String,
    pub arguments: String,
}

/// A model response that may contain text, tool calls, or both.
#[derive(Debug, Clone)]
pub struct ChatResponse {
    /// Text content of the response (may be absent if only tool calls).
    pub text: Option<String>,
    /// Tool calls requested by the model.
    pub tool_calls: Vec<ToolCall>,
}

impl ChatResponse {
    /// True when the model wants to invoke at least one tool.
    pub fn has_tool_calls(&self) -> (r: bool)
        ensures
            r == (self.tool_calls@.len() > 0),
    {
        !self.tool_calls.is_empty()
    }

    /// The text content, or the empty string.
    pub fn text_or_empty(&self) -> (r: &str)
        ensures
            r@ == (match self.text {
                Some(t) => t@,
                None => Seq::<char>::empty(),
            }),
    {
        match &self.text {
            Some(t) => t.as_str(),
            None => {
                let e = "";
                proof {
                    reveal_strlit("");
                }
                e
            },
        }
    }
}

/// Token usage of a single API call.
#[derive(Debug, Clone, Copy, PartialEq, Eq, Default)]
pub struct TokenUsage {
    pub prompt_tokens: u64,
    pub completion_tokens: u64,
    pub total_tokens: u64,
}

/// A tool result to feed back to the model.
#[derive(Debug, Clone)]
pub struct ToolResultMessage {
    pub tool_call_id: String,
    pub content: String,
}

/// A message in a multi-turn conversation, including tool interactions.
#[derive(Debug, Clone)]
pub enum ConversationMessage {
    /// Regular chat message (system, user, assistant).
    Chat(ChatMessage),
    /// Tool calls from the assistant (kept for history fidelity).
    AssistantToolCalls { text: Option<String>, tool_calls: Vec<ToolCall> },
    /// Result of a tool execution, fed back to the model.
    ToolResult(ToolResultMessage),
}

/// The outcome of one tool execution.
#[derive(Debug, Clone)]
pub struct ToolResult {
    pub success: bool,
    pub output: String,
    pub error: Option<String>,
}

/// A result that fails with the error `text`.
pub open spec fn fails_with(r: ToolResult, text: Seq<char>) -> bool {
    !r.success && match r.error {
        Some(e) => e@ == text,
        None => false,
    }
}

impl ToolResult {
    /// A failure with an empty output and the given error.
    pub fn failure(error: String) -> (r: ToolResult)
        ensures
            !r.success,
            r.output@.len() == 0,
            r.error == Some(error),
    {
        ToolResult { success: false, output: String::new(), error: Some(error) }
    }

    /// A success with the given output.
    pub fn ok(output: String) -> (r: ToolResult)
        ensures
            r.success,
            r.output == output,
            r.error is None,
    {
        ToolResult { success: true, output, error: None }
    }
}

/// Thread-safe cumulative token counters for a whole session. Clones share
/// the counters: every provider of a session adds into the same ones.
#[derive(Debug, Clone)]
pub struct UsageTracker {
    pub prompt_tokens: Arc<AtomicU64>,
    pub completion_tokens: Arc<AtomicU64>,
    pub total_tokens: Arc<AtomicU64>,
    pub request_count: Arc<AtomicU64>,
}

impl UsageTracker {
    pub fn new() -> (r: UsageTracker) {
        UsageTracker {
            prompt_tokens: Arc::new(AtomicU64::new(0)),
            completion_tokens: Arc::new(AtomicU64::new(0)),
            total_tokens: Arc::new(AtomicU64::new(0)),
            request_count: Arc::new(AtomicU64::new(0)),
        }
    }

    /// Adds the counts of one call and counts the call; each counter is one
    /// atomic (wrapping) addition, so concurrent adds are never lost.
    pub fn add(&self, usage: &TokenUsage) {
        self.prompt_tokens.fetch_add(usage.prompt_tokens, Ordering::Relaxed);
        self.completion_tokens.fetch_add(usage.completion_tokens, Ordering::Relaxed);
        self.total_tokens.fetch_add(usage.total_tokens, Ordering::Relaxed);
        self.request_count.fetch_add(1, Ordering::Relaxed);
    }

    pub fn snapshot(&self) -> TokenUsage {
        TokenUsage {
            prompt_tokens: self.prompt_tokens.load(Ordering::Relaxed),
            completion_tokens: self.completion_tokens.load(Ordering::Relaxed),
            total_tokens: self.total_tokens.load(Ordering::Relaxed),
        }
    }

    pub fn requests(&self) -> u64 {
        self.request_count.load(Ordering::Relaxed)
    }
}

/// The exact sums of the prompt, completion and total counts of a sequence
/// of calls.
pub open spec fn usage_sum(s: Seq<TokenUsage>) -> (int, int, int)
    decreases s.len(),
{
    if s.len() == 0 {
        (0, 0, 0)
    } else {
        let p = usage_sum(s.drop_last());
        (
            p.0 + s.last().prompt_tokens,
            p.1 + s.last().completion_tokens,
            p.2 + s.last().total_tokens,
        )
    }
}

proof fn lemma_usage_sum_remove(s: Seq<TokenUsage>, i: int)
    requires
        0 <= i < s.len(),
    ensures
        usage_sum(s).0 == usage_sum(s.remove(i)).0 + s[i].prompt_tokens,
        usage_sum(s).1 == usage_sum(s.remove(i)).1 + s[i].completion_tokens,
        usage_sum(s).2 == usage_sum(s.remove(i)).2 + s[i].total_tokens,
    decreases s.len(),
{
    if i == s.len() - 1 {
        assert(s.remove(i) =~= s.drop_last());
    } else {
        assert(s.remove(i).drop_last() =~= s.drop_last().remove(i));
        assert(s.remove(i).last() == s.last());
        lemma_usage_sum_remove(s.drop_last(), i);
    }
}

/// Accumulation does not depend on order: calls whose additions interleave
/// in any order (the same calls, as a multiset) leave the counters at the
/// same totals, the exact sums of their counts; none is lost.
pub proof fn lemma_accumulation_order_free(a: Seq<TokenUsage>, b: Seq<TokenUsage>)
    requires
        a.to_multiset() == b.to_multiset(),
    ensures
        usage_sum(a) == usage_sum(b),
    decreases a.len(),
{
    broadcast use vstd::seq_lib::group_to_multiset_ensures, vstd::multiset::group_multiset_axioms;

    if a.len() == 0 {
        vstd::seq_lib::to_multiset_len(a);
        vstd::seq_lib::to_multiset_len(b);
        assert(b =~= Seq::<TokenUsage>::empty());
    } else {
        let x = a.last();
        let rest = a.drop_last();
        assert(a =~= rest.push(x));
        vstd::seq_lib::to_multiset_build(rest, x);
        assert(b.to_multiset().count(x) > 0);
        vstd::seq_lib::to_multiset_contains(b, x);
        let i = choose|i: int| 0 <= i < b.len() && b[i] == x;
        vstd::seq_lib::to_multiset_remove(b, i);
        assert(b.remove(i).to_multiset() =~= rest.to_multiset());
        lemma_accumulation_order_free(rest, b.remove(i));
        lemma_usage_sum_remove(b, i);
    }
}

} // verus!
