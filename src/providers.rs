//! The uniform chat contract over the vendors' HTTP/SSE protocols. Each
//! provider decides here what request to send (and refuses to send one
//! without credentials), how a reply body or a stream of SSE chunks turns into
//! text, and what the usage tracker is told; the caller moves the bytes.
use vstd::prelude::*;
use vstd::string::StringSliceAdditionalSpecFns;
use crate::json::{count_field, count_member, field_of, json_doc_of, opt_doc, parse_json, str_of, string_field, JsonDoc};
use crate::stream::texts_view;
use crate::types::{ChatMessage, TokenUsage, UsageTracker};

verus! {

/// Why a chat call failed.
#[derive(Debug, Clone, PartialEq, Eq)]
pub enum ProviderError {
    /// No API key or token is configured; never retried.
    Credential(String),
    /// The vendor answered with a non-2xx status.
    Http { status: u16, body: String },
    /// The reply does not have the expected shape.
    Protocol(String),
    /// The reply holds no content.
    EmptyResponse(String),
    /// The request did not reach the vendor or the connection broke.
    Transport(String),
}

impl ProviderError {
    /// The text shown to the user.
    pub fn message(&self) -> (r: String)
        ensures
            (match self {
                ProviderError::Credential(m) => r@ == m@,
                ProviderError::Protocol(m) => r@ == m@,
                ProviderError::EmptyResponse(m) => r@ == m@,
                ProviderError::Transport(m) => r@ == m@,
                ProviderError::Http { status, body } => r@ == "HTTP "@ + crate::text::digits(
                    *status as nat,
                    10,
                ) + ": "@ + body@,
            }),
    {
        match self {
            ProviderError::Credential(m) => m.clone(),
            ProviderError::Protocol(m) => m.clone(),
            ProviderError::EmptyResponse(m) => m.clone(),
            ProviderError::Transport(m) => m.clone(),
            ProviderError::Http { status, body } => {
                let mut s = String::from_str("HTTP ");
                let d = crate::text::decimal(*status as u64);
                s.append(d.as_str());
                s.append(": ");
                s.append(body.as_str());
                s
            },
        }
    }
}

/// Errors that a retry may cure: rate limiting, server errors, transport.
pub open spec fn retryable(e: ProviderError) -> bool {
    match e {
        ProviderError::Http { status, .. } => status == 429 || (500 <= status && status <= 599),
        ProviderError::Transport(_) => true,
        _ => false,
    }
}

pub fn is_retryable(e: &ProviderError) -> (r: bool)
    ensures
        r == retryable(*e),
{
    match e {
        ProviderError::Http { status, .. } => *status == 429 || (500 <= *status && *status <= 599),
        ProviderError::Transport(_) => true,
        _ => false,
    }
}

/// How often and how patiently the router retries.
#[derive(Debug, Clone, Copy, PartialEq, Eq)]
pub struct ReliabilityPolicy {
    pub max_retries: u32,
    pub base_backoff_ms: u64,
}

/// `base` doubled `n` times, saturating at `u64::MAX`.
pub open spec fn doubled(base: u64, n: nat) -> u64
    decreases n,
{
    if n == 0 {
        base
    } else {
        let d = doubled(base, (n - 1) as nat);
        if d > u64::MAX / 2 {
            u64::MAX
        } else {
            (2 * d) as u64
        }
    }
}

/// What the router does after a failed attempt.
#[derive(Debug, Clone, Copy, PartialEq, Eq)]
pub enum RetryDecision {
    /// Wait this many milliseconds, then try again.
    RetryAfter(u64),
    /// Hand the error to the caller unchanged.
    GiveUp,
}

/// After the failure `e` of a call that was already retried `retries`
/// times: retry with exponential backoff while the error is retryable and
/// the budget lasts, give up otherwise.
pub fn decide_retry(policy: &ReliabilityPolicy, retries: u32, e: &ProviderError) -> (r: RetryDecision)
    ensures
        retryable(*e) && retries < policy.max_retries ==> r == RetryDecision::RetryAfter(
            doubled(policy.base_backoff_ms, retries as nat),
        ),
        !(retryable(*e) && retries < policy.max_retries) ==> r == RetryDecision::GiveUp,
{
    if !is_retryable(e) || retries >= policy.max_retries {
        return RetryDecision::GiveUp;
    }
    let mut d: u64 = policy.base_backoff_ms;
    let mut i: u32 = 0;
    while i < retries
        invariant
            i <= retries,
            d == doubled(policy.base_backoff_ms, i as nat),
        decreases retries - i,
    {
        d = if d > u64::MAX / 2 { u64::MAX } else { 2 * d };
        i = i + 1;
    }
    RetryDecision::RetryAfter(d)
}

/// An HTTP request that a provider wants sent: the temperature is added by
/// the caller, which also encodes the body for the vendor.
#[derive(Debug, Clone)]
pub struct RequestPlan {
    pub url: String,
    pub headers: Vec<(String, String)>,
    pub model: String,
    /// `max_tokens`, for the vendors that require it.
    pub max_tokens: Option<u32>,
    /// A system prompt sent beside the messages (not among them).
    pub system: Option<String>,
    pub messages: Vec<ChatMessage>,
    pub stream: bool,
}

/// The headers of a plan as pairs of views.
pub open spec fn headers_view(h: Seq<(String, String)>) -> Seq<(Seq<char>, Seq<char>)> {
    h.map_values(|p: (String, String)| (p.0@, p.1@))
}

/// The content blocks (or choices) of a reply, and its usage if reported.
#[derive(Debug, Clone)]
pub struct VendorReply {
    pub texts: Vec<String>,
    pub usage: Option<TokenUsage>,
}

/// The first text of a reply; a reply without any is an empty response.
pub fn first_text(reply: VendorReply, empty_message: &str) -> (r: Result<String, ProviderError>)
    ensures
        reply.texts@.len() > 0 ==> r == Ok::<String, ProviderError>(reply.texts@[0]),
        reply.texts@.len() == 0 ==> (r matches Err(ProviderError::EmptyResponse(m)) && m@
            == empty_message@),
{
    let mut texts = reply.texts;
    if texts.len() == 0 {
        Err(ProviderError::EmptyResponse(String::from_str(empty_message)))
    } else {
        Ok(texts.swap_remove(0))
    }
}

/// Adds the usage of a reply, when reported, to the tracker, when attached.
pub fn record_usage(tracker: &Option<UsageTracker>, usage: &Option<TokenUsage>) {
    match (tracker, usage) {
        (Some(t), Some(u)) => t.add(u),
        _ => {},
    }
}

/// Adds the usage of a decoded reply to the tracker.
pub fn record_reply_usage(tracker: &Option<UsageTracker>, reply: &VendorReply) {
    record_usage(tracker, &reply.usage);
}

/// `a + b`, saturating at `u64::MAX`.
pub open spec fn sat_add(a: u64, b: u64) -> u64 {
    if a + b > u64::MAX {
        u64::MAX
    } else {
        (a + b) as u64
    }
}

/// The usage in an Anthropic `usage` object: total is input plus output.
pub open spec fn anthropic_usage_of(u: Option<JsonDoc>) -> Option<TokenUsage> {
    match u {
        Some(JsonDoc::Object(_)) => Some(
            TokenUsage {
                prompt_tokens: count_field(u, "input_tokens"@),
                completion_tokens: count_field(u, "output_tokens"@),
                total_tokens: sat_add(
                    count_field(u, "input_tokens"@),
                    count_field(u, "output_tokens"@),
                ),
            },
        ),
        _ => None,
    }
}

/// The usage in an OpenAI-style `usage` object, as reported.
pub open spec fn reported_usage_of(u: Option<JsonDoc>) -> Option<TokenUsage> {
    match u {
        Some(JsonDoc::Object(_)) => Some(
            TokenUsage {
                prompt_tokens: count_field(u, "prompt_tokens"@),
                completion_tokens: count_field(u, "completion_tokens"@),
                total_tokens: count_field(u, "total_tokens"@),
            },
        ),
        _ => None,
    }
}

pub fn anthropic_usage(u: Option<&JsonDoc>) -> (r: Option<TokenUsage>)
    ensures
        r == anthropic_usage_of(opt_doc(u)),
{
    match u {
        Some(d) => match d {
            JsonDoc::Object(_) => {
                let input = count_member(d, "input_tokens");
                let output = count_member(d, "output_tokens");
                Some(
                    TokenUsage {
                        prompt_tokens: input,
                        completion_tokens: output,
                        total_tokens: input.saturating_add(output),
                    },
                )
            },
            _ => None,
        },
        None => None,
    }
}

pub fn reported_usage(u: Option<&JsonDoc>) -> (r: Option<TokenUsage>)
    ensures
        r == reported_usage_of(opt_doc(u)),
{
    match u {
        Some(d) => match d {
            JsonDoc::Object(_) => Some(
                TokenUsage {
                    prompt_tokens: count_member(d, "prompt_tokens"),
                    completion_tokens: count_member(d, "completion_tokens"),
                    total_tokens: count_member(d, "total_tokens"),
                },
            ),
            _ => None,
        },
        None => None,
    }
}

/// The text of a content block (its `text`) or of a choice (its
/// `message.content`).
pub open spec fn item_text(item: JsonDoc, anthropic: bool) -> Option<Seq<char>> {
    if anthropic {
        str_of(field_of(Some(item), "text"@))
    } else {
        str_of(field_of(field_of(Some(item), "message"@), "content"@))
    }
}

/// The texts of all items, or `None` when one has no text.
pub open spec fn item_texts(items: Seq<JsonDoc>, anthropic: bool) -> Option<Seq<Seq<char>>>
    decreases items.len(),
{
    if items.len() == 0 {
        Some(Seq::empty())
    } else {
        match (item_texts(items.drop_last(), anthropic), item_text(items.last(), anthropic)) {
            (Some(ts), Some(t)) => Some(ts.push(t)),
            _ => None,
        }
    }
}

/// A reply body decoded: the texts of its content blocks (Anthropic) or
/// choices, and its usage; `None` when the body does not have that shape.
pub open spec fn reply_of(body: Seq<u8>, anthropic: bool) -> Option<(Seq<Seq<char>>, Option<TokenUsage>)> {
    let d = json_doc_of(body);
    let list = if anthropic {
        "content"@
    } else {
        "choices"@
    };
    match field_of(d, list) {
        Some(JsonDoc::Array(items)) => match item_texts(items@, anthropic) {
            Some(ts) => Some(
                (
                    ts,
                    if anthropic {
                        anthropic_usage_of(field_of(d, "usage"@))
                    } else {
                        reported_usage_of(field_of(d, "usage"@))
                    },
                ),
            ),
            None => None,
        },
        _ => None,
    }
}

/// What a decode promises: the reply when the body has the shape, else a
/// protocol error.
pub open spec fn decoded_as(r: Result<VendorReply, ProviderError>, body: Seq<u8>, anthropic: bool) -> bool {
    match reply_of(body, anthropic) {
        Some(x) => match r {
            Ok(reply) => texts_view(reply.texts@) == x.0 && reply.usage == x.1,
            Err(_) => false,
        },
        None => r matches Err(ProviderError::Protocol(_)),
    }
}

fn item_text_exec(item: &JsonDoc, anthropic: bool) -> (r: Option<String>)
    ensures
        (match r {
            Some(t) => item_text(*item, anthropic) == Some(t@),
            None => item_text(*item, anthropic) is None,
        }),
{
    if anthropic {
        string_field(Some(item), "text")
    } else {
        string_field(item.get("message"), "content")
    }
}

fn decode_reply(body: &[u8], anthropic: bool) -> (r: Result<VendorReply, ProviderError>)
    ensures
        decoded_as(r, body@, anthropic),
{
    let d = parse_json(body);
    let list = if anthropic { "content" } else { "choices" };
    let items = match &d {
        Some(doc) => match doc.get(list) {
            Some(x) => x.as_array(),
            None => None,
        },
        None => None,
    };
    let items = match items {
        Some(a) => a,
        None => return Err(ProviderError::Protocol(String::from_str("Reply without the expected list"))),
    };
    let ghost key = if anthropic {
        "content"@
    } else {
        "choices"@
    };
    assert(field_of(json_doc_of(body@), key) == Some(JsonDoc::Array(*items)));
    let mut texts: Vec<String> = Vec::new();
    let mut i: usize = 0;
    assert(items@.subrange(0, 0) =~= Seq::<JsonDoc>::empty());
    while i < items.len()
        invariant
            i <= items@.len(),
            item_texts(items@.subrange(0, i as int), anthropic) == Some(texts_view(texts@)),
            key == (if anthropic {
                "content"@
            } else {
                "choices"@
            }),
            field_of(json_doc_of(body@), key) == Some(JsonDoc::Array(*items)),
        decreases items@.len() - i,
    {
        assert(items@.subrange(0, i + 1).drop_last() =~= items@.subrange(0, i as int));
        let ghost before = texts@;
        match item_text_exec(&items[i], anthropic) {
            Some(t) => {
                texts.push(t);
                assert(texts_view(texts@) =~= texts_view(before).push(t@));
            },
            None => {
                assert(item_texts(items@.subrange(0, i + 1), anthropic) is None);
                proof {
                    lemma_item_texts_none(items@, anthropic, i + 1);
                }
                assert(reply_of(body@, anthropic) is None);
                assert(items@.subrange(0, items@.len() as int) =~= items@);
                return Err(ProviderError::Protocol(String::from_str("Reply item without text")));
            },
        }
        i = i + 1;
    }
    assert(items@.subrange(0, i as int) =~= items@);
    let usage = match &d {
        Some(doc) => if anthropic {
            anthropic_usage(doc.get("usage"))
        } else {
            reported_usage(doc.get("usage"))
        },
        None => None,
    };
    Ok(VendorReply { texts, usage })
}

proof fn lemma_item_texts_none(items: Seq<JsonDoc>, anthropic: bool, k: int)
    requires
        0 <= k <= items.len(),
        item_texts(items.subrange(0, k), anthropic) is None,
    ensures
        item_texts(items, anthropic) is None,
    decreases items.len() - k,
{
    if k == items.len() {
        assert(items.subrange(0, k) =~= items);
    } else {
        assert(items.subrange(0, k + 1).drop_last() =~= items.subrange(0, k));
        lemma_item_texts_none(items, anthropic, k + 1);
    }
}

/// Decodes an Anthropic messages reply: `content` must be a list of blocks
/// with a string `text` each; `usage` is optional.
pub fn decode_anthropic_reply(body: &str) -> (r: Result<VendorReply, ProviderError>)
    ensures
        decoded_as(r, body.spec_bytes(), true),
{
    decode_reply(body.as_bytes(), true)
}

/// Decodes an OpenAI-style completion: `choices` must be a list whose
/// entries hold a string `message.content`; `usage` is optional.
pub fn decode_completion_reply(body: &str) -> (r: Result<VendorReply, ProviderError>)
    ensures
        decoded_as(r, body.spec_bytes(), false),
{
    decode_reply(body.as_bytes(), false)
}

/// The outcome of an HTTP status: a non-2xx status is an HTTP error with
/// the status and the body.
pub fn check_status(status: u16, body: &str) -> (r: Result<(), ProviderError>)
    ensures
        (200 <= status && status <= 299) ==> r is Ok,
        !(200 <= status && status <= 299) ==> (r matches Err(ProviderError::Http { status: s, body: b })
            && s == status && b@ == body@),
{
    if 200 <= status && status <= 299 {
        Ok(())
    } else {
        Err(ProviderError::Http { status, body: String::from_str(body) })
    }
}

/// What answering from a reply body promises: a protocol error when it does
/// not decode, an empty response when it holds no text, else its first text.
pub open spec fn answered_as(
    r: Result<String, ProviderError>,
    body: Seq<u8>,
    anthropic: bool,
    empty_message: Seq<char>,
) -> bool {
    match reply_of(body, anthropic) {
        None => r matches Err(ProviderError::Protocol(_)),
        Some(x) => if x.0.len() > 0 {
            match r {
                Ok(t) => t@ == x.0[0],
                Err(_) => false,
            }
        } else {
            match r {
                Err(ProviderError::EmptyResponse(m)) => m@ == empty_message,
                _ => false,
            }
        },
    }
}

} // verus!
