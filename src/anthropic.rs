//! The Anthropic messages API: key or setup-token authentication, a system
//! prompt beside the messages, and SSE events typed by `type`.
use vstd::prelude::*;
use vstd::string::StringSliceAdditionalSpecFns;
use crate::providers::{
    answered_as,
    decode_anthropic_reply, first_text, headers_view, record_reply_usage, ProviderError,
    RequestPlan, VendorReply,
};
use crate::text::{starts_with, strip_trailing, strip_trailing_string, trim, trim_string};
use crate::types::{is_system_role, system_role, user_role, ChatMessage, UsageTracker};

verus! {

/// The credential as kept: trimmed, and absent when empty.
pub open spec fn kept_credential(api_key: Option<Seq<char>>) -> Option<Seq<char>> {
    match api_key {
        Some(k) => if trim(k).len() > 0 {
            Some(trim(k))
        } else {
            None
        },
        None => None,
    }
}

pub open spec fn opt_view(o: Option<String>) -> Option<Seq<char>> {
    match o {
        Some(s) => Some(s@),
        None => None,
    }
}

pub open spec fn opt_str_view(o: Option<&str>) -> Option<Seq<char>> {
    match o {
        Some(s) => Some(s@),
        None => None,
    }
}

/// A setup token (`sk-ant-oat01-...`) authenticates as a bearer token.
pub open spec fn is_setup_token_spec(t: Seq<char>) -> bool {
    "sk-ant-oat01-"@.len() <= t.len() && t.subrange(0, "sk-ant-oat01-"@.len() as int)
        == "sk-ant-oat01-"@
}

/// The authentication header for a credential.
pub open spec fn auth_header(cred: Seq<char>) -> (Seq<char>, Seq<char>) {
    if is_setup_token_spec(cred) {
        ("Authorization"@, "Bearer "@ + cred)
    } else {
        ("x-api-key"@, cred)
    }
}

/// The headers of every messages request.
pub open spec fn anthropic_headers(cred: Seq<char>) -> Seq<(Seq<char>, Seq<char>)> {
    seq![("anthropic-version"@, "2023-06-01"@), ("content-type"@, "application/json"@), auth_header(cred)]
}

/// The messages of a history other than system messages, in order.
pub open spec fn non_system(h: Seq<ChatMessage>) -> Seq<ChatMessage>
    decreases h.len(),
{
    if h.len() == 0 {
        Seq::empty()
    } else if h.last().role@ == system_role() {
        non_system(h.drop_last())
    } else {
        non_system(h.drop_last()).push(h.last())
    }
}

/// The content of the last system message of a history.
pub open spec fn last_system(h: Seq<ChatMessage>) -> Option<Seq<char>>
    decreases h.len(),
{
    if h.len() == 0 {
        None
    } else if h.last().role@ == system_role() {
        Some(h.last().content@)
    } else {
        last_system(h.drop_last())
    }
}

pub struct AnthropicProvider {
    pub credential: Option<String>,
    pub base_url: String,
    pub usage_tracker: Option<UsageTracker>,
}

impl AnthropicProvider {
    pub fn new(api_key: Option<&str>) -> (r: AnthropicProvider)
        ensures
            opt_view(r.credential) == kept_credential(opt_str_view(api_key)),
            r.base_url@ == "https://api.anthropic.com"@,
            r.usage_tracker is None,
    {
        AnthropicProvider::with_base_url(api_key, None)
    }

    /// A provider for another endpoint; trailing slashes of the URL go.
    /// Credentials are only checked when a call is made.
    pub fn with_base_url(api_key: Option<&str>, base_url: Option<&str>) -> (r: AnthropicProvider)
        ensures
            opt_view(r.credential) == kept_credential(opt_str_view(api_key)),
            r.base_url@ == (match base_url {
                Some(u) => strip_trailing(u@, '/'),
                None => "https://api.anthropic.com"@,
            }),
            r.usage_tracker is None,
    {
        let base = match base_url {
            Some(u) => strip_trailing_string(u, '/'),
            None => String::from_str("https://api.anthropic.com"),
        };
        let credential = match api_key {
            Some(k) => {
                let t = trim_string(k);
                if t.as_str().is_empty() {
                    None
                } else {
                    Some(t)
                }
            },
            None => None,
        };
        AnthropicProvider { credential, base_url: base, usage_tracker: None }
    }

    pub fn is_setup_token(token: &str) -> (r: bool)
        ensures
            r == is_setup_token_spec(token@),
    {
        starts_with(token, "sk-ant-oat01-")
    }

    pub fn supports_streaming(&self) -> (r: bool)
        ensures
            r,
    {
        true
    }

    pub fn set_usage_tracker(&mut self, tracker: UsageTracker)
        ensures
            final(self).usage_tracker == Some(tracker),
            final(self).credential == old(self).credential,
            final(self).base_url == old(self).base_url,
    {
        self.usage_tracker = Some(tracker);
    }

    fn headers(credential: &str) -> (r: Vec<(String, String)>)
        ensures
            headers_view(r@) == anthropic_headers(credential@),
    {
        let mut h: Vec<(String, String)> = Vec::new();
        h.push((String::from_str("anthropic-version"), String::from_str("2023-06-01")));
        h.push((String::from_str("content-type"), String::from_str("application/json")));
        if AnthropicProvider::is_setup_token(credential) {
            let mut v = String::from_str("Bearer ");
            v.append(credential);
            h.push((String::from_str("Authorization"), v));
        } else {
            h.push((String::from_str("x-api-key"), String::from_str(credential)));
        }
        assert(headers_view(h@) =~= anthropic_headers(credential@));
        h
    }

    fn messages_url(&self) -> (r: String)
        ensures
            r@ == self.base_url@ + "/v1/messages"@,
    {
        let mut u = self.base_url.clone();
        u.append("/v1/messages");
        u
    }

    /// The request of a single-turn chat; without a credential there is none
    /// (and so no network call), only the credential error.
    pub fn prepare_chat(&self, system_prompt: Option<&str>, message: &str, model: &str) -> (r: Result<RequestPlan, ProviderError>)
        ensures
            self.credential is None <==> (r matches Err(ProviderError::Credential(_))),
            (r matches Err(ProviderError::Credential(m)) ==> m@ == missing_key_text()),
            (r matches Ok(p) ==> self.credential matches Some(c) && p.url@ == self.base_url@
                + "/v1/messages"@ && headers_view(p.headers@) == anthropic_headers(c@) && p.model@
                == model@ && p.max_tokens == Some(4096u32) && opt_view(p.system) == opt_str_view(
                system_prompt,
            ) && p.messages@.len() == 1 && p.messages@[0].role@ == user_role()
                && p.messages@[0].content@ == message@ && !p.stream),
    {
        let cred = match &self.credential {
            Some(c) => c,
            None => {
                return Err(
                    ProviderError::Credential(
                        String::from_str(
                            "Anthropic credentials not set. Set ANTHROPIC_API_KEY or ANTHROPIC_OAUTH_TOKEN (setup-token).",
                        ),
                    ),
                )
            },
        };
        let mut messages: Vec<ChatMessage> = Vec::new();
        messages.push(ChatMessage::user(message));
        let system = match system_prompt {
            Some(s) => Some(String::from_str(s)),
            None => None,
        };
        Ok(RequestPlan {
            url: self.messages_url(),
            headers: AnthropicProvider::headers(cred.as_str()),
            model: String::from_str(model),
            max_tokens: Some(4096),
            system,
            messages,
            stream: false,
        })
    }

    /// The request of a streaming chat over a whole history: the last system
    /// message goes beside the others, which keep their order.
    pub fn prepare_stream(&self, history: &Vec<ChatMessage>, model: &str) -> (r: Result<RequestPlan, ProviderError>)
        ensures
            self.credential is None <==> (r matches Err(ProviderError::Credential(_))),
            (r matches Err(ProviderError::Credential(m)) ==> m@ == "Anthropic credentials not set."@),
            (r matches Ok(p) ==> self.credential matches Some(c) && p.url@ == self.base_url@
                + "/v1/messages"@ && headers_view(p.headers@) == anthropic_headers(c@) && p.model@
                == model@ && p.max_tokens == Some(4096u32) && opt_view(p.system) == last_system(
                history@,
            ) && p.messages@ == non_system(history@) && p.stream),
    {
        let cred = match &self.credential {
            Some(c) => c,
            None => return Err(ProviderError::Credential(String::from_str("Anthropic credentials not set."))),
        };
        let mut system: Option<String> = None;
        let mut messages: Vec<ChatMessage> = Vec::new();
        let mut i: usize = 0;
        while i < history.len()
            invariant
                i <= history@.len(),
                opt_view(system) == last_system(history@.subrange(0, i as int)),
                messages@ == non_system(history@.subrange(0, i as int)),
            decreases history@.len() - i,
        {
            assert(history@.subrange(0, i + 1).drop_last() =~= history@.subrange(0, i as int));
            if is_system_role(&history[i].role) {
                system = Some(history[i].content.clone());
            } else {
                messages.push(history[i].duplicate());
            }
            i = i + 1;
        }
        assert(history@.subrange(0, i as int) =~= history@);
        Ok(RequestPlan {
            url: self.messages_url(),
            headers: AnthropicProvider::headers(cred.as_str()),
            model: String::from_str(model),
            max_tokens: Some(4096),
            system,
            messages,
            stream: true,
        })
    }

    /// The answer of a decoded reply: usage goes to the tracker, and the
    /// first content block is the answer.
    pub fn finish_reply(&self, reply: VendorReply) -> (r: Result<String, ProviderError>)
        ensures
            reply.texts@.len() > 0 ==> r == Ok::<String, ProviderError>(reply.texts@[0]),
            reply.texts@.len() == 0 ==> (r matches Err(ProviderError::EmptyResponse(m)) && m@
                == "No response from Anthropic"@),
    {
        record_reply_usage(&self.usage_tracker, &reply);
        first_text(reply, "No response from Anthropic")
    }

    /// The answer of a reply body, which must decode as a messages reply.
    pub fn finish_chat(&self, body: &str) -> (r: Result<String, ProviderError>)
        ensures
            answered_as(r, body.spec_bytes(), true, "No response from Anthropic"@),
    {
        match decode_anthropic_reply(body) {
            Ok(reply) => self.finish_reply(reply),
            Err(e) => Err(e),
        }
    }
}

/// The error of a single-turn chat without credentials.
pub open spec fn missing_key_text() -> Seq<char> {
    "Anthropic credentials not set. Set ANTHROPIC_API_KEY or ANTHROPIC_OAUTH_TOKEN (setup-token)."@
}

} // verus!
