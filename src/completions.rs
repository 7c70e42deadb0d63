//! The OpenAI-style chat-completions vendors: OpenAI itself and OpenRouter.
//! A system prompt travels as the first message; the key is a bearer token.
use vstd::prelude::*;
use crate::anthropic::{opt_str_view, opt_view};
use vstd::string::StringSliceAdditionalSpecFns;
use crate::providers::{
    answered_as,
    decode_completion_reply, first_text, headers_view, record_reply_usage, ProviderError,
    RequestPlan, VendorReply,
};
use crate::types::{system_role, user_role, ChatMessage, UsageTracker};

verus! {

/// The messages of a single-turn request: the system prompt, if any, then
/// the user message, as (role, content) pairs.
pub open spec fn single_turn_messages(system: Option<Seq<char>>, message: Seq<char>) -> Seq<(Seq<char>, Seq<char>)> {
    match system {
        Some(s) => seq![(system_role(), s), (user_role(), message)],
        None => seq![(user_role(), message)],
    }
}

pub open spec fn messages_view(m: Seq<ChatMessage>) -> Seq<(Seq<char>, Seq<char>)> {
    m.map_values(|c: ChatMessage| (c.role@, c.content@))
}

fn turn_messages(system_prompt: Option<&str>, message: &str) -> (r: Vec<ChatMessage>)
    ensures
        messages_view(r@) == single_turn_messages(opt_str_view(system_prompt), message@),
{
    let mut messages: Vec<ChatMessage> = Vec::new();
    match system_prompt {
        Some(s) => messages.push(ChatMessage::system(s)),
        None => {},
    }
    messages.push(ChatMessage::user(message));
    assert(messages_view(messages@) =~= single_turn_messages(opt_str_view(system_prompt), message@));
    messages
}

fn copy_messages(history: &Vec<ChatMessage>) -> (r: Vec<ChatMessage>)
    ensures
        r@ == history@,
{
    let mut out: Vec<ChatMessage> = Vec::new();
    let mut i: usize = 0;
    while i < history.len()
        invariant
            i <= history@.len(),
            out@ == history@.subrange(0, i as int),
        decreases history@.len() - i,
    {
        out.push(history[i].duplicate());
        assert(out@ =~= history@.subrange(0, i + 1));
        i = i + 1;
    }
    assert(history@.subrange(0, i as int) =~= history@);
    out
}

fn bearer_header(key: &str) -> (r: (String, String))
    ensures
        r.0@ == "Authorization"@,
        r.1@ == "Bearer "@ + key@,
{
    let mut v = String::from_str("Bearer ");
    v.append(key);
    (String::from_str("Authorization"), v)
}

pub struct OpenAiProvider {
    pub api_key: Option<String>,
    pub usage_tracker: Option<UsageTracker>,
}

impl OpenAiProvider {
    /// The key is kept as given (an empty key is still a key).
    pub fn new(api_key: Option<&str>) -> (r: OpenAiProvider)
        ensures
            opt_view(r.api_key) == opt_str_view(api_key),
            r.usage_tracker is None,
    {
        let api_key = match api_key {
            Some(k) => Some(String::from_str(k)),
            None => None,
        };
        OpenAiProvider { api_key, usage_tracker: None }
    }

    pub fn set_usage_tracker(&mut self, tracker: UsageTracker)
        ensures
            final(self).usage_tracker == Some(tracker),
            final(self).api_key == old(self).api_key,
    {
        self.usage_tracker = Some(tracker);
    }

    /// The request of a single-turn chat; without a key there is none (and so
    /// no network call), only the credential error.
    pub fn prepare_chat(&self, system_prompt: Option<&str>, message: &str, model: &str) -> (r: Result<RequestPlan, ProviderError>)
        ensures
            self.api_key is None <==> (r matches Err(ProviderError::Credential(_))),
            (r matches Err(ProviderError::Credential(m)) ==> m@
                == "OpenAI API key not set. Set OPENAI_API_KEY or edit config.toml."@),
            (r matches Ok(p) ==> self.api_key matches Some(k) && p.url@
                == "https://api.openai.com/v1/chat/completions"@ && headers_view(p.headers@) == seq![
                ("Authorization"@, "Bearer "@ + k@),
            ] && p.model@ == model@ && p.max_tokens is None && p.system is None && messages_view(
                p.messages@,
            ) == single_turn_messages(opt_str_view(system_prompt), message@) && !p.stream),
    {
        let key = match &self.api_key {
            Some(k) => k,
            None => {
                return Err(
                    ProviderError::Credential(
                        String::from_str("OpenAI API key not set. Set OPENAI_API_KEY or edit config.toml."),
                    ),
                )
            },
        };
        let mut headers: Vec<(String, String)> = Vec::new();
        headers.push(bearer_header(key.as_str()));
        assert(headers_view(headers@) =~= seq![("Authorization"@, "Bearer "@ + key@)]);
        Ok(RequestPlan {
            url: String::from_str("https://api.openai.com/v1/chat/completions"),
            headers,
            model: String::from_str(model),
            max_tokens: None,
            system: None,
            messages: turn_messages(system_prompt, message),
            stream: false,
        })
    }

    /// The answer of a decoded reply: usage goes to the tracker, and the
    /// first choice is the answer.
    pub fn finish_reply(&self, reply: VendorReply) -> (r: Result<String, ProviderError>)
        ensures
            reply.texts@.len() > 0 ==> r == Ok::<String, ProviderError>(reply.texts@[0]),
            reply.texts@.len() == 0 ==> (r matches Err(ProviderError::EmptyResponse(m)) && m@
                == "No response from OpenAI"@),
    {
        record_reply_usage(&self.usage_tracker, &reply);
        first_text(reply, "No response from OpenAI")
    }

    /// The answer of a reply body, which must decode as a completion.
    pub fn finish_chat(&self, body: &str) -> (r: Result<String, ProviderError>)
        ensures
            answered_as(r, body.spec_bytes(), false, "No response from OpenAI"@),
    {
        match decode_completion_reply(body) {
            Ok(reply) => self.finish_reply(reply),
            Err(e) => Err(e),
        }
    }
}

/// The headers of every OpenRouter request.
pub open spec fn openrouter_headers(key: Seq<char>) -> Seq<(Seq<char>, Seq<char>)> {
    seq![
        ("Authorization"@, "Bearer "@ + key),
        ("HTTP-Referer"@, "https://github.com/theonlyhennygod/tinyclaw"@),
        ("X-Title"@, "TinyClaw"@),
    ]
}

pub struct OpenRouterProvider {
    pub api_key: Option<String>,
    pub usage_tracker: Option<UsageTracker>,
}

impl OpenRouterProvider {
    pub fn new(api_key: Option<&str>) -> (r: OpenRouterProvider)
        ensures
            opt_view(r.api_key) == opt_str_view(api_key),
            r.usage_tracker is None,
    {
        let api_key = match api_key {
            Some(k) => Some(String::from_str(k)),
            None => None,
        };
        OpenRouterProvider { api_key, usage_tracker: None }
    }

    pub fn supports_streaming(&self) -> (r: bool)
        ensures
            r,
    {
        true
    }

    pub fn set_usage_tracker(&mut self, tracker: UsageTracker)
        ensures
            final(self).usage_tracker == Some(tracker),
            final(self).api_key == old(self).api_key,
    {
        self.usage_tracker = Some(tracker);
    }

    fn headers(key: &str) -> (r: Vec<(String, String)>)
        ensures
            headers_view(r@) == openrouter_headers(key@),
    {
        let mut h: Vec<(String, String)> = Vec::new();
        h.push(bearer_header(key));
        h.push(
            (
                String::from_str("HTTP-Referer"),
                String::from_str("https://github.com/theonlyhennygod/tinyclaw"),
            ),
        );
        h.push((String::from_str("X-Title"), String::from_str("TinyClaw")));
        assert(headers_view(h@) =~= openrouter_headers(key@));
        h
    }

    /// The connection warm-up request (URL and headers), made only when a key
    /// is configured.
    pub fn warmup_request(&self) -> (r: Option<(String, Vec<(String, String)>)>)
        ensures
            self.api_key is None <==> r is None,
            (r matches Some(q) ==> self.api_key matches Some(k) && q.0@
                == "https://openrouter.ai/api/v1/auth/key"@ && headers_view(q.1@) == seq![
                ("Authorization"@, "Bearer "@ + k@),
            ]),
    {
        match &self.api_key {
            Some(k) => {
                let mut h: Vec<(String, String)> = Vec::new();
                h.push(bearer_header(k.as_str()));
                assert(headers_view(h@) =~= seq![("Authorization"@, "Bearer "@ + k@)]);
                Some((String::from_str("https://openrouter.ai/api/v1/auth/key"), h))
            },
            None => None,
        }
    }

    /// The request of a single-turn chat; without a key, only the credential
    /// error.
    pub fn prepare_chat(&self, system_prompt: Option<&str>, message: &str, model: &str) -> (r: Result<RequestPlan, ProviderError>)
        ensures
            self.api_key is None <==> (r matches Err(ProviderError::Credential(_))),
            (r matches Err(ProviderError::Credential(m)) ==> m@ == openrouter_missing_key()),
            (r matches Ok(p) ==> self.api_key matches Some(k) && p.url@
                == "https://openrouter.ai/api/v1/chat/completions"@ && headers_view(p.headers@)
                == openrouter_headers(k@) && p.model@ == model@ && p.max_tokens is None
                && p.system is None && messages_view(p.messages@) == single_turn_messages(
                opt_str_view(system_prompt),
                message@,
            ) && !p.stream),
    {
        let key = match &self.api_key {
            Some(k) => k,
            None => return Err(ProviderError::Credential(openrouter_missing_key_message())),
        };
        Ok(RequestPlan {
            url: String::from_str("https://openrouter.ai/api/v1/chat/completions"),
            headers: OpenRouterProvider::headers(key.as_str()),
            model: String::from_str(model),
            max_tokens: None,
            system: None,
            messages: turn_messages(system_prompt, message),
            stream: false,
        })
    }

    /// The request of a chat over a whole history, sent as it is, streamed
    /// or not; without a key, only the credential error.
    pub fn prepare_history(&self, history: &Vec<ChatMessage>, model: &str, stream: bool) -> (r: Result<RequestPlan, ProviderError>)
        ensures
            self.api_key is None <==> (r matches Err(ProviderError::Credential(_))),
            (r matches Err(ProviderError::Credential(m)) ==> m@ == openrouter_missing_key()),
            (r matches Ok(p) ==> self.api_key matches Some(k) && p.url@
                == "https://openrouter.ai/api/v1/chat/completions"@ && headers_view(p.headers@)
                == openrouter_headers(k@) && p.model@ == model@ && p.max_tokens is None
                && p.system is None && p.messages@ == history@ && p.stream == stream),
    {
        let key = match &self.api_key {
            Some(k) => k,
            None => return Err(ProviderError::Credential(openrouter_missing_key_message())),
        };
        Ok(RequestPlan {
            url: String::from_str("https://openrouter.ai/api/v1/chat/completions"),
            headers: OpenRouterProvider::headers(key.as_str()),
            model: String::from_str(model),
            max_tokens: None,
            system: None,
            messages: copy_messages(history),
            stream,
        })
    }

    /// The answer of a decoded reply: usage goes to the tracker, and the
    /// first choice is the answer.
    pub fn finish_reply(&self, reply: VendorReply) -> (r: Result<String, ProviderError>)
        ensures
            reply.texts@.len() > 0 ==> r == Ok::<String, ProviderError>(reply.texts@[0]),
            reply.texts@.len() == 0 ==> (r matches Err(ProviderError::EmptyResponse(m)) && m@
                == "No response from OpenRouter"@),
    {
        record_reply_usage(&self.usage_tracker, &reply);
        first_text(reply, "No response from OpenRouter")
    }

    /// The answer of a reply body, which must decode as a completion.
    pub fn finish_chat(&self, body: &str) -> (r: Result<String, ProviderError>)
        ensures
            answered_as(r, body.spec_bytes(), false, "No response from OpenRouter"@),
    {
        match decode_completion_reply(body) {
            Ok(reply) => self.finish_reply(reply),
            Err(e) => Err(e),
        }
    }
}

/// The error of an OpenRouter call without a key.
pub open spec fn openrouter_missing_key() -> Seq<char> {
    "OpenRouter API key not set. Run `tinyclaw onboard` or set OPENROUTER_API_KEY env var."@
}

fn openrouter_missing_key_message() -> (r: String)
    ensures
        r@ == openrouter_missing_key(),
{
    String::from_str(
        "OpenRouter API key not set. Run `tinyclaw onboard` or set OPENROUTER_API_KEY env var.",
    )
}

} // verus!
