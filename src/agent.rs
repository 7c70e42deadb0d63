//! The decisions of the agent loop: what a model reply leads to, how tool
//! outcomes are rendered and folded back into the history, and when the
//! iteration budget is spent. The caller performs the model calls and the
//! tool executions and hands their results to these functions.
use vstd::prelude::*;
use crate::protocol::{accepted, parse_tool_calls, scan, ParsedToolCall};
use crate::text::{byte_prefix, cut_to_bytes, exceeds_bytes, join_lines};
use crate::types::{assistant_role, user_role, ChatMessage, ToolResult};

verus! {

/// Maximum tool-use iterations per user message.
pub const MAX_TOOL_ITERATIONS: usize = 10;

/// A message as a pair of role and content.
pub open spec fn msg_view(m: ChatMessage) -> (Seq<char>, Seq<char>) {
    (m.role@, m.content@)
}

/// A history as a sequence of (role, content) pairs.
pub open spec fn history_view(h: Seq<ChatMessage>) -> Seq<(Seq<char>, Seq<char>)> {
    h.map_values(|m: ChatMessage| msg_view(m))
}

/// Whether a reply holds at least one call that will be run.
pub open spec fn has_calls(reply: Seq<char>) -> bool {
    accepted(scan(reply, 0).blocks).len() > 0
}

/// The answer that ends a turn: the narrative text, or the whole reply when
/// the narrative is empty.
pub open spec fn final_text(reply: Seq<char>) -> Seq<char> {
    let t = join_lines(scan(reply, 0).parts);
    if t.len() == 0 {
        reply
    } else {
        t
    }
}

/// `[Tool results]` and a newline, which open the message that carries the
/// results of one round.
pub open spec fn results_heading() -> Seq<char> {
    "[Tool results]\n"@
}

/// The state of a turn: its history, the tool rounds done, and the budget.
pub struct TurnModel {
    pub history: Seq<(Seq<char>, Seq<char>)>,
    pub rounds: nat,
    pub max: nat,
}

/// One round of tools: the reply and then the results are appended.
pub open spec fn after_round(m: TurnModel, reply: Seq<char>, block: Seq<char>) -> TurnModel {
    TurnModel {
        history: m.history.push((assistant_role(), reply)).push(
            (user_role(), results_heading() + block),
        ),
        rounds: m.rounds + 1,
        max: m.max,
    }
}

/// What a turn comes to when the model answers with `replies` in order and
/// the tools of round `i` produce `blocks[i]`: the final state, the answer
/// (`None` when the budget ran out first), and how many model calls were made.
pub open spec fn scripted_turn(m: TurnModel, replies: Seq<Seq<char>>, blocks: Seq<Seq<char>>) -> (
    TurnModel,
    Option<Seq<char>>,
    nat,
)
    decreases replies.len(),
{
    if m.rounds >= m.max || replies.len() == 0 {
        (m, None, 0)
    } else if !has_calls(replies[0]) {
        (
            TurnModel { history: m.history.push((assistant_role(), replies[0])), ..m },
            Some(final_text(replies[0])),
            1,
        )
    } else {
        let r = scripted_turn(
            after_round(m, replies[0], blocks[0]),
            replies.drop_first(),
            blocks.drop_first(),
        );
        (r.0, r.1, r.2 + 1)
    }
}

/// The history after `n` rounds of `replies` and `blocks`, from `h`.
pub open spec fn rounds_history(
    h: Seq<(Seq<char>, Seq<char>)>,
    replies: Seq<Seq<char>>,
    blocks: Seq<Seq<char>>,
    n: nat,
) -> Seq<(Seq<char>, Seq<char>)>
    decreases n,
{
    if n == 0 {
        h
    } else {
        rounds_history(
            h.push((assistant_role(), replies[0])).push((user_role(), results_heading() + blocks[0])),
            replies.drop_first(),
            blocks.drop_first(),
            (n - 1) as nat,
        )
    }
}

/// A model that answers every call with tool calls ends the turn with the
/// iteration limit after exactly `max` calls, and the history then holds
/// every intermediate reply and results message, in order.
pub proof fn lemma_tool_loop_hits_limit(m: TurnModel, replies: Seq<Seq<char>>, blocks: Seq<Seq<char>>)
    requires
        m.rounds <= m.max,
        replies.len() >= m.max - m.rounds,
        blocks.len() >= m.max - m.rounds,
        forall|i: int| 0 <= i < replies.len() ==> has_calls(#[trigger] replies[i]),
    ensures
        scripted_turn(m, replies, blocks).1 is None,
        scripted_turn(m, replies, blocks).2 == m.max - m.rounds,
        scripted_turn(m, replies, blocks).0.rounds == m.max,
        scripted_turn(m, replies, blocks).0.history == rounds_history(
            m.history,
            replies,
            blocks,
            (m.max - m.rounds) as nat,
        ),
        scripted_turn(m, replies, blocks).0.history.len() == m.history.len() + 2 * (m.max
            - m.rounds),
    decreases replies.len(),
{
    if m.rounds >= m.max {
    } else {
        assert(has_calls(replies[0]));
        let next = after_round(m, replies[0], blocks[0]);
        assert forall|i: int| 0 <= i < replies.drop_first().len() implies has_calls(
            #[trigger] replies.drop_first()[i],
        ) by {
            assert(replies.drop_first()[i] == replies[i + 1]);
        }
        lemma_tool_loop_hits_limit(next, replies.drop_first(), blocks.drop_first());
    }
}

/// What the loop does after a model reply.
#[derive(Debug)]
pub enum ReplyAction {
    /// The turn is over, with this answer.
    Finish(String),
    /// These calls are to be run (concurrently); their results come back
    /// through `record_tool_round`.
    RunTools(Vec<ParsedToolCall>),
}

/// Why a turn failed.
#[derive(Debug, Clone, Copy, PartialEq, Eq)]
pub enum TurnError {
    /// Every permitted model call asked for tools: the budget is spent.
    IterationLimitExceeded(usize),
}

/// One user turn in progress; it owns the history until the turn ends.
pub struct AgentTurn {
    pub history: Vec<ChatMessage>,
    pub rounds: usize,
    pub max_rounds: usize,
}

impl AgentTurn {
    pub open spec fn model(&self) -> TurnModel {
        TurnModel {
            history: history_view(self.history@),
            rounds: self.rounds as nat,
            max: self.max_rounds as nat,
        }
    }

    pub fn new(history: Vec<ChatMessage>, max_rounds: usize) -> (r: AgentTurn)
        ensures
            r.history@ == history@,
            r.rounds == 0,
            r.max_rounds == max_rounds,
    {
        AgentTurn { history, rounds: 0, max_rounds }
    }

    /// Whether the budget allows another model call.
    pub fn may_call_model(&self) -> (r: bool)
        ensures
            r == (self.rounds < self.max_rounds),
    {
        self.rounds < self.max_rounds
    }

    /// The error that ends a turn whose budget is spent.
    pub fn limit_error(&self) -> (r: TurnError)
        ensures
            r == TurnError::IterationLimitExceeded(self.max_rounds),
    {
        TurnError::IterationLimitExceeded(self.max_rounds)
    }

    /// Takes a model reply: without calls it ends the turn (the reply joins
    /// the history); with calls it hands them out in the order they stand.
    pub fn on_reply(&mut self, reply: &str) -> (r: ReplyAction)
        ensures
            final(self).rounds == old(self).rounds,
            final(self).max_rounds == old(self).max_rounds,
            !has_calls(reply@) ==> (r matches ReplyAction::Finish(t) && t@ == final_text(reply@)
                && final(self).model().history == old(self).model().history.push(
                (assistant_role(), reply@),
            )),
            has_calls(reply@) ==> (r matches ReplyAction::RunTools(calls) && calls@.map_values(
                |c: ParsedToolCall| c.raw@,
            ) == accepted(scan(reply@, 0).blocks) && final(self).history@ == old(self).history@),
    {
        let (text, calls) = parse_tool_calls(reply);
        if calls.len() == 0 {
            let ghost before = self.history@;
            let msg = ChatMessage::assistant(reply);
            self.history.push(msg);
            assert(history_view(self.history@) =~= history_view(before).push(
                (assistant_role(), reply@),
            ));
            if text.as_str().is_empty() {
                ReplyAction::Finish(String::from_str(reply))
            } else {
                ReplyAction::Finish(text)
            }
        } else {
            ReplyAction::RunTools(calls)
        }
    }

    /// Folds one round into the history: the reply that asked for the tools,
    /// then one user message with the results block.
    pub fn record_tool_round(&mut self, reply: &str, block: &str)
        requires
            old(self).rounds < old(self).max_rounds,
        ensures
            final(self).model() == after_round(old(self).model(), reply@, block@),
    {
        let ghost before = self.history@;
        self.history.push(ChatMessage::assistant(reply));
        let mut content = String::from_str("[Tool results]\n");
        content.append(block);
        self.history.push(ChatMessage::user(content.as_str()));
        self.rounds = self.rounds + 1;
        assert(history_view(self.history@) =~= history_view(before).push(
            (assistant_role(), reply@),
        ).push((user_role(), results_heading() + block@)));
    }
}

/// How one dispatched call ended.
#[derive(Debug, Clone)]
pub enum ToolOutcome {
    /// The tool ran and reported a result.
    Finished(ToolResult),
    /// The tool failed unexpectedly with this message.
    Failed(String),
    /// No tool of that name is registered.
    Unknown,
}

/// The text fed back to the model for one call.
pub open spec fn outcome_text(name: Seq<char>, o: ToolOutcome) -> Seq<char> {
    match o {
        ToolOutcome::Finished(r) => if r.success {
            r.output@
        } else {
            "Error: "@ + (match r.error {
                Some(e) => e@,
                None => r.output@,
            })
        },
        ToolOutcome::Failed(e) => "Error executing "@ + name + ": "@ + e@,
        ToolOutcome::Unknown => "Unknown tool: "@ + name,
    }
}

pub fn render_outcome(name: &str, outcome: &ToolOutcome) -> (r: String)
    ensures
        r@ == outcome_text(name@, *outcome),
{
    match outcome {
        ToolOutcome::Finished(res) => {
            if res.success {
                res.output.clone()
            } else {
                let mut s = String::from_str("Error: ");
                match &res.error {
                    Some(e) => s.append(e.as_str()),
                    None => s.append(res.output.as_str()),
                }
                s
            }
        },
        ToolOutcome::Failed(e) => {
            let mut s = String::from_str("Error executing ");
            s.append(name);
            s.append(": ");
            s.append(e.as_str());
            s
        },
        ToolOutcome::Unknown => {
            let mut s = String::from_str("Unknown tool: ");
            s.append(name);
            s
        },
    }
}

/// One entry of a results block.
pub open spec fn result_entry(name: Seq<char>, output: Seq<char>) -> Seq<char> {
    "<tool_result name=\""@ + name + "\">\n"@ + output + "\n</tool_result>\n"@
}

/// The entries of `outputs` (name, text) concatenated in order.
pub open spec fn results_block(outputs: Seq<(Seq<char>, Seq<char>)>) -> Seq<char>
    decreases outputs.len(),
{
    if outputs.len() == 0 {
        Seq::empty()
    } else {
        results_block(outputs.drop_last()) + result_entry(outputs.last().0, outputs.last().1)
    }
}

/// The block of results for one round, in the order the calls were parsed
/// (the order of `outputs`), whatever order they completed in.
pub fn render_results_block(outputs: &Vec<(String, String)>) -> (r: String)
    ensures
        r@ == results_block(outputs@.map_values(|p: (String, String)| (p.0@, p.1@))),
{
    let ghost v = outputs@.map_values(|p: (String, String)| (p.0@, p.1@));
    let mut block = String::new();
    let mut i: usize = 0;
    while i < outputs.len()
        invariant
            i <= outputs@.len(),
            v == outputs@.map_values(|p: (String, String)| (p.0@, p.1@)),
            block@ == results_block(v.subrange(0, i as int)),
        decreases outputs@.len() - i,
    {
        block.append("<tool_result name=\"");
        block.append(outputs[i].0.as_str());
        block.append("\">\n");
        block.append(outputs[i].1.as_str());
        block.append("\n</tool_result>\n");
        assert(v.subrange(0, i + 1).drop_last() =~= v.subrange(0, i as int));
        i = i + 1;
    }
    assert(v.subrange(0, i as int) =~= v);
    block
}

/// The text of a call whose task died before reporting.
pub fn panicked_output(message: &str) -> (r: (String, String))
    ensures
        r.0@ == "unknown"@,
        r.1@ == "Task panicked: "@ + message@,
{
    let mut out = String::from_str("Task panicked: ");
    out.append(message);
    (String::from_str("unknown"), out)
}

/// The most bytes of a tool output shown in a preview.
pub const PREVIEW_BYTES: usize = 120;

/// A preview of a tool output: the output itself when it fits in
/// `PREVIEW_BYTES` bytes, else its longest prefix within them followed by `...`.
pub fn tool_preview(output: &str) -> (r: String)
    ensures
        !exceeds_bytes(output@, PREVIEW_BYTES as int) ==> r@ == output@,
        exceeds_bytes(output@, PREVIEW_BYTES as int) ==> r@ == byte_prefix(
            output@,
            PREVIEW_BYTES as int,
        ) + "..."@,
{
    let (cut, truncated) = cut_to_bytes(output, PREVIEW_BYTES);
    if truncated {
        let mut r = cut;
        r.append("...");
        r
    } else {
        String::from_str(output)
    }
}

/// The index of the first tool named `name`.
pub fn find_tool(names: &Vec<String>, name: &str) -> (r: Option<usize>)
    ensures
        r matches Some(i) ==> i < names@.len() && names@[i as int]@ == name@ && forall|j: int|
            0 <= j < i ==> names@[j]@ != name@,
        r is None ==> forall|j: int| 0 <= j < names@.len() ==> names@[j]@ != name@,
{
    let target = String::from_str(name);
    let mut i: usize = 0;
    while i < names.len()
        invariant
            i <= names@.len(),
            target@ == name@,
            forall|j: int| 0 <= j < i ==> names@[j]@ != name@,
        decreases names@.len() - i,
    {
        if names[i] == target {
            return Some(i);
        }
        i = i + 1;
    }
    None
}

/// What the model is told about one tool.
#[derive(Debug, Clone)]
pub struct ToolSpec {
    pub name: String,
    pub description: String,
    /// The parameters schema, as JSON text.
    pub schema: String,
}

/// The protocol explanation that opens the tool instructions.
pub open spec fn instructions_header() -> Seq<char> {
    "\n## Tool Use Protocol\n\n"@
        + "To use a tool, wrap a JSON object in <tool_call></tool_call> tags:\n\n"@
        + "```\n<tool_call>\n{\"name\": \"tool_name\", \"arguments\": {\"param\": \"value\"}}\n</tool_call>\n```\n\n"@
        + "You may use multiple tool calls in a single response. "@
        + "After tool execution, results appear in <tool_result> tags. "@
        + "Continue reasoning with the results until you can give a final answer.\n\n"@
        + "### Available Tools\n\n"@
}

/// The entry of one tool.
pub open spec fn tool_entry(t: ToolSpec) -> Seq<char> {
    "**"@ + t.name@ + "**: "@ + t.description@ + "\nParameters: `"@ + t.schema@ + "`\n\n"@
}

/// The entries of the tools, in registry order.
pub open spec fn tool_entries(ts: Seq<ToolSpec>) -> Seq<char>
    decreases ts.len(),
{
    if ts.len() == 0 {
        Seq::empty()
    } else {
        tool_entries(ts.drop_last()) + tool_entry(ts.last())
    }
}

/// The tool-use instructions appended to the system prompt.
pub fn build_tool_instructions(tools: &Vec<ToolSpec>) -> (r: String)
    ensures
        r@ == instructions_header() + tool_entries(tools@),
{
    let mut s = String::from_str("\n## Tool Use Protocol\n\n");
    s.append("To use a tool, wrap a JSON object in <tool_call></tool_call> tags:\n\n");
    s.append(
        "```\n<tool_call>\n{\"name\": \"tool_name\", \"arguments\": {\"param\": \"value\"}}\n</tool_call>\n```\n\n",
    );
    s.append("You may use multiple tool calls in a single response. ");
    s.append("After tool execution, results appear in <tool_result> tags. ");
    s.append("Continue reasoning with the results until you can give a final answer.\n\n");
    s.append("### Available Tools\n\n");
    let mut i: usize = 0;
    while i < tools.len()
        invariant
            i <= tools@.len(),
            s@ == instructions_header() + tool_entries(tools@.subrange(0, i as int)),
        decreases tools@.len() - i,
    {
        s.append("**");
        s.append(tools[i].name.as_str());
        s.append("**: ");
        s.append(tools[i].description.as_str());
        s.append("\nParameters: `");
        s.append(tools[i].schema.as_str());
        s.append("`\n\n");
        assert(tools@.subrange(0, i + 1).drop_last() =~= tools@.subrange(0, i as int));
        i = i + 1;
    }
    assert(tools@.subrange(0, i as int) =~= tools@);
    s
}

/// The lines of recalled memories, each `- key: content` and a newline.
pub open spec fn memory_lines(entries: Seq<(Seq<char>, Seq<char>)>) -> Seq<char>
    decreases entries.len(),
{
    if entries.len() == 0 {
        Seq::empty()
    } else {
        memory_lines(entries.drop_last()) + "- "@ + entries.last().0 + ": "@ + entries.last().1
            + "\n"@
    }
}

/// The block prepended to a user message from recalled memories (key,
/// content): empty when nothing was recalled.
pub fn memory_context(entries: &Vec<(String, String)>) -> (r: String)
    ensures
        entries@.len() == 0 ==> r@.len() == 0,
        entries@.len() > 0 ==> r@ == "[Memory context]\n"@ + memory_lines(
            entries@.map_values(|p: (String, String)| (p.0@, p.1@)),
        ) + "\n"@,
{
    if entries.len() == 0 {
        return String::new();
    }
    let ghost v = entries@.map_values(|p: (String, String)| (p.0@, p.1@));
    let mut s = String::from_str("[Memory context]\n");
    let mut i: usize = 0;
    while i < entries.len()
        invariant
            i <= entries@.len(),
            v == entries@.map_values(|p: (String, String)| (p.0@, p.1@)),
            s@ == "[Memory context]\n"@ + memory_lines(v.subrange(0, i as int)),
        decreases entries@.len() - i,
    {
        s.append("- ");
        s.append(entries[i].0.as_str());
        s.append(": ");
        s.append(entries[i].1.as_str());
        s.append("\n");
        assert(v.subrange(0, i + 1).drop_last() =~= v.subrange(0, i as int));
        i = i + 1;
    }
    assert(v.subrange(0, i as int) =~= v);
    s.append("\n");
    s
}

} // verus!
