//! The state of the chat interface: the transcript, the input line, the
//! status, and how agent events and keys change them. Drawing is the caller's.
use vstd::prelude::*;
use crate::text::{push_char, trim_string};
use crate::types::UsageTracker;

verus! {

/// Who a transcript entry comes from.
#[derive(Debug, Clone, Copy, PartialEq, Eq)]
pub enum Role {
    User,
    Assistant,
    Tool,
    Error,
}

/// One entry of the transcript.
#[derive(Debug, Clone)]
pub struct DisplayMessage {
    pub role: Role,
    pub content: String,
}

/// What the agent is doing, as shown in the status line.
#[derive(Debug, Clone)]
pub enum UiStatus {
    Idle,
    Thinking,
    UsingTool(String),
}

/// An event sent by the agent to the interface.
#[derive(Debug, Clone)]
pub enum AgentEvent {
    Token(String),
    ToolStart(String),
    ToolResult { name: String, preview: String },
    Done(String),
    Error(String),
}

/// A key press, as far as the interface cares.
#[derive(Debug, Clone, Copy, PartialEq, Eq)]
pub enum Key {
    Char(char),
    Enter,
    Backspace,
    Left,
    Right,
    Home,
    End,
    PageUp,
    PageDown,
    CtrlC,
    Other,
}

/// What the caller does after a key.
#[derive(Debug, Clone, PartialEq, Eq)]
pub enum KeyOutcome {
    /// Nothing beyond the state change.
    Nothing,
    /// Leave the interface.
    Quit,
    /// Run this message (a slash command or a user turn).
    Submit(String),
}

pub open spec fn transcript(m: Seq<DisplayMessage>) -> Seq<(Role, Seq<char>)> {
    m.map_values(|d: DisplayMessage| (d.role, d.content@))
}

pub struct App {
    pub model_name: String,
    pub messages: Vec<DisplayMessage>,
    /// The input line, one element per character.
    pub input: Vec<char>,
    /// The cursor, as a character index into `input`.
    pub cursor_pos: usize,
    pub scroll_offset: u16,
    pub ui_status: UiStatus,
    pub current_response: String,
    pub should_quit: bool,
    pub usage_tracker: Option<UsageTracker>,
}

impl App {
    pub open spec fn wf(&self) -> bool {
        self.cursor_pos <= self.input@.len()
    }

    pub fn new(model_name: String) -> (r: App)
        ensures
            r.wf(),
            r.model_name == model_name,
            transcript(r.messages@) == seq![
                (Role::Assistant, "Welcome to TinyClaw! Type a message and press Enter."@),
            ],
            r.input@.len() == 0,
            r.cursor_pos == 0,
            r.scroll_offset == 0,
            r.ui_status is Idle,
            r.current_response@.len() == 0,
            !r.should_quit,
            r.usage_tracker is None,
    {
        let mut messages: Vec<DisplayMessage> = Vec::new();
        messages.push(
            DisplayMessage {
                role: Role::Assistant,
                content: String::from_str("Welcome to TinyClaw! Type a message and press Enter."),
            },
        );
        assert(transcript(messages@) =~= seq![
            (Role::Assistant, "Welcome to TinyClaw! Type a message and press Enter."@),
        ]);
        App {
            model_name,
            messages,
            input: Vec::new(),
            cursor_pos: 0,
            scroll_offset: 0,
            ui_status: UiStatus::Idle,
            current_response: String::new(),
            should_quit: false,
            usage_tracker: None,
        }
    }

    fn push_message(&mut self, role: Role, content: String)
        ensures
            transcript(final(self).messages@) == transcript(old(self).messages@).push((role, content@)),
            final(self).model_name == old(self).model_name,
            final(self).input == old(self).input,
            final(self).cursor_pos == old(self).cursor_pos,
            final(self).scroll_offset == old(self).scroll_offset,
            final(self).ui_status == old(self).ui_status,
            final(self).current_response == old(self).current_response,
            final(self).should_quit == old(self).should_quit,
    {
        let ghost before = self.messages@;
        self.messages.push(DisplayMessage { role, content });
        assert(transcript(self.messages@) =~= transcript(before).push((role, content@)));
    }

    /// Applies an agent event: tokens grow the response being streamed, a
    /// tool result is shown, and the end of a turn shows the answer (the
    /// streamed text if any, else the final one) or the error.
    pub fn handle_agent_event(&mut self, evt: AgentEvent)
        ensures
            final(self).model_name == old(self).model_name,
            final(self).input == old(self).input,
            final(self).cursor_pos == old(self).cursor_pos,
            final(self).should_quit == old(self).should_quit,
            (match evt {
                AgentEvent::Token(t) => final(self).current_response@ == old(self).current_response@
                    + t@ && final(self).scroll_offset == 0 && final(self).messages@ == old(
                    self,
                ).messages@ && final(self).ui_status == old(self).ui_status,
                AgentEvent::ToolStart(name) => final(self).ui_status == UiStatus::UsingTool(name)
                    && final(self).messages@ == old(self).messages@ && final(self).current_response
                    == old(self).current_response,
                AgentEvent::ToolResult { name, preview } => transcript(final(self).messages@)
                    == transcript(old(self).messages@).push(
                    (Role::Tool, "["@ + name@ + "] "@ + preview@),
                ) && final(self).ui_status is Thinking && final(self).current_response == old(
                    self,
                ).current_response,
                AgentEvent::Done(response) => transcript(final(self).messages@) == transcript(
                    old(self).messages@,
                ).push(
                    (
                        Role::Assistant,
                        if old(self).current_response@.len() == 0 {
                            response@
                        } else {
                            old(self).current_response@
                        },
                    ),
                ) && final(self).current_response@.len() == 0 && final(self).ui_status is Idle,
                AgentEvent::Error(err) => transcript(final(self).messages@) == transcript(
                    old(self).messages@,
                ).push((Role::Error, err@)) && final(self).current_response@.len() == 0
                    && final(self).ui_status is Idle,
            }),
    {
        match evt {
            AgentEvent::Token(text) => {
                self.current_response.append(text.as_str());
                self.scroll_offset = 0;
            },
            AgentEvent::ToolStart(name) => {
                self.ui_status = UiStatus::UsingTool(name);
            },
            AgentEvent::ToolResult { name, preview } => {
                let mut content = String::from_str("[");
                content.append(name.as_str());
                content.append("] ");
                content.append(preview.as_str());
                self.push_message(Role::Tool, content);
                self.ui_status = UiStatus::Thinking;
            },
            AgentEvent::Done(response) => {
                let content = if self.current_response.as_str().is_empty() {
                    response
                } else {
                    self.current_response.clone()
                };
                self.push_message(Role::Assistant, content);
                self.current_response = String::new();
                self.ui_status = UiStatus::Idle;
            },
            AgentEvent::Error(err) => {
                self.push_message(Role::Error, err);
                self.current_response = String::new();
                self.ui_status = UiStatus::Idle;
            },
        }
    }

    /// The input line as a string.
    pub fn input_text(&self) -> (r: String)
        ensures
            r@ == self.input@,
    {
        let mut s = String::new();
        let mut i: usize = 0;
        while i < self.input.len()
            invariant
                i <= self.input@.len(),
                s@ == self.input@.subrange(0, i as int),
            decreases self.input@.len() - i,
        {
            push_char(&mut s, self.input[i]);
            assert(s@ =~= self.input@.subrange(0, i + 1));
            i = i + 1;
        }
        assert(self.input@.subrange(0, i as int) =~= self.input@);
        s
    }

    /// Applies a key. While the agent runs, editing keys are ignored; Enter
    /// submits a non-blank line (clearing it), and `/quit` or `/exit` quits.
    pub fn on_key(&mut self, key: Key, agent_running: bool) -> (r: KeyOutcome)
        requires
            old(self).wf(),
        ensures
            final(self).wf(),
            final(self).messages == old(self).messages,
            key == Key::CtrlC ==> r == KeyOutcome::Quit && final(self).should_quit,
            (match key {
                Key::Char(c) => !agent_running ==> final(self).input@ == old(self).input@.insert(
                    old(self).cursor_pos as int,
                    c,
                ) && final(self).cursor_pos == old(self).cursor_pos + 1,
                _ => true,
            }),
            (agent_running && key != Key::CtrlC && key != Key::Home && key != Key::End && key
                != Key::PageUp && key != Key::PageDown) ==> final(self).input == old(self).input
                && r == KeyOutcome::Nothing,
    {
        match key {
            Key::CtrlC => {
                self.should_quit = true;
                KeyOutcome::Quit
            },
            Key::Enter => {
                if agent_running {
                    return KeyOutcome::Nothing;
                }
                let line = self.input_text();
                let trimmed = trim_string(line.as_str());
                if trimmed.as_str().is_empty() {
                    return KeyOutcome::Nothing;
                }
                self.input = Vec::new();
                self.cursor_pos = 0;
                if trimmed == String::from_str("/quit") || trimmed == String::from_str("/exit") {
                    self.should_quit = true;
                    return KeyOutcome::Quit;
                }
                KeyOutcome::Submit(line)
            },
            Key::Char(c) => {
                if agent_running {
                    return KeyOutcome::Nothing;
                }
                self.input.insert(self.cursor_pos, c);
                let n = self.input.len();
                assert(self.cursor_pos < n);
                self.cursor_pos = self.cursor_pos + 1;
                KeyOutcome::Nothing
            },
            Key::Backspace => {
                if !agent_running && self.cursor_pos > 0 {
                    self.cursor_pos = self.cursor_pos - 1;
                    self.input.remove(self.cursor_pos);
                }
                KeyOutcome::Nothing
            },
            Key::Left => {
                if !agent_running && self.cursor_pos > 0 {
                    self.cursor_pos = self.cursor_pos - 1;
                }
                KeyOutcome::Nothing
            },
            Key::Right => {
                if !agent_running && self.cursor_pos < self.input.len() {
                    self.cursor_pos = self.cursor_pos + 1;
                }
                KeyOutcome::Nothing
            },
            Key::Home => {
                self.cursor_pos = 0;
                KeyOutcome::Nothing
            },
            Key::End => {
                self.cursor_pos = self.input.len();
                KeyOutcome::Nothing
            },
            Key::PageUp => {
                self.scroll_offset = self.scroll_offset.saturating_add(10);
                KeyOutcome::Nothing
            },
            Key::PageDown => {
                self.scroll_offset = self.scroll_offset.saturating_sub(10);
                KeyOutcome::Nothing
            },
            Key::Other => KeyOutcome::Nothing,
        }
    }
}

} // verus!
