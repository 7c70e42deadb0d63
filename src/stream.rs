//! Streaming chat: SSE chunks in, text deltas out. Each delta is forwarded
//! as soon as its line is complete, the full text is their concatenation, and
//! usage reported mid-stream reaches the tracker when it is seen.
use vstd::prelude::*;
use crate::json::{field_of, json_doc_of, opt_doc, parse_json, str_of, string_field, JsonDoc};
use crate::providers::{
    anthropic_usage, anthropic_usage_of, record_usage, reported_usage, reported_usage_of,
    ProviderError,
};
use crate::sse::{
    feed_bytes, initial_model, lemma_feed_bytes_append, line_event, without_events, SseDecoder,
    SseEvent, SseEventModel, SseModel,
};
use crate::types::{TokenUsage, UsageTracker};

verus! {

/// Which vendor's event shapes a stream carries.
#[derive(Debug, Clone, Copy, PartialEq, Eq)]
pub enum StreamVendor {
    /// `content_block_delta` events carry text; `message_start` and
    /// `message_delta` carry usage.
    Anthropic,
    /// Chunks carry `choices[].delta.content` and, at the end, `usage`.
    OpenRouter,
}

/// Pieces of text concatenated in order.
pub open spec fn concat(ts: Seq<Seq<char>>) -> Seq<char>
    decreases ts.len(),
{
    if ts.len() == 0 {
        Seq::empty()
    } else {
        concat(ts.drop_last()) + ts.last()
    }
}

pub open spec fn texts_view(ts: Seq<String>) -> Seq<Seq<char>> {
    ts.map_values(|t: String| t@)
}

/// Every piece holds at least one character.
pub open spec fn all_nonempty(ts: Seq<String>) -> bool {
    forall|i: int| 0 <= i < ts.len() ==> (#[trigger] ts[i])@.len() > 0
}

/// The event kind of a payload.
pub open spec fn kind_of(d: Option<JsonDoc>) -> Option<Seq<char>> {
    str_of(field_of(d, "type"@))
}

/// A text as a list of deltas: none when empty.
pub open spec fn nonempty(t: Option<Seq<char>>) -> Seq<Seq<char>> {
    match t {
        Some(x) => if x.len() > 0 {
            seq![x]
        } else {
            Seq::empty()
        },
        None => Seq::empty(),
    }
}

/// What one Anthropic event carries: a `content_block_delta` gives its
/// non-empty `delta.text`; `message_start` gives the usage in
/// `message.usage`, `message_delta` the one in `usage`; anything else,
/// malformed JSON included, gives nothing.
pub open spec fn anthropic_effect(payload: Seq<u8>) -> (Seq<Seq<char>>, Option<TokenUsage>) {
    let d = json_doc_of(payload);
    if kind_of(d) == Some("content_block_delta"@) {
        (nonempty(str_of(field_of(field_of(d, "delta"@), "text"@))), None)
    } else if kind_of(d) == Some("message_delta"@) {
        (Seq::empty(), anthropic_usage_of(field_of(d, "usage"@)))
    } else if kind_of(d) == Some("message_start"@) {
        (Seq::empty(), anthropic_usage_of(field_of(field_of(d, "message"@), "usage"@)))
    } else {
        (Seq::empty(), None)
    }
}

/// The non-empty `delta.content` texts of a list of choices, in order.
pub open spec fn delta_texts(cs: Seq<JsonDoc>) -> Seq<Seq<char>>
    decreases cs.len(),
{
    if cs.len() == 0 {
        Seq::empty()
    } else {
        delta_texts(cs.drop_last()) + nonempty(
            str_of(field_of(field_of(Some(cs.last()), "delta"@), "content"@)),
        )
    }
}

/// What one OpenRouter chunk carries: the non-empty `choices[i].delta.content`
/// texts in order and the `usage`; a chunk without a `choices` list gives
/// nothing.
pub open spec fn openrouter_effect(payload: Seq<u8>) -> (Seq<Seq<char>>, Option<TokenUsage>) {
    let d = json_doc_of(payload);
    match field_of(d, "choices"@) {
        Some(JsonDoc::Array(cs)) => (delta_texts(cs@), reported_usage_of(field_of(d, "usage"@))),
        _ => (Seq::empty(), None),
    }
}

pub open spec fn effect(v: StreamVendor, payload: Seq<u8>) -> (Seq<Seq<char>>, Option<TokenUsage>) {
    match v {
        StreamVendor::Anthropic => anthropic_effect(payload),
        StreamVendor::OpenRouter => openrouter_effect(payload),
    }
}

/// The deltas of a sequence of events, in order.
pub open spec fn events_tokens(v: StreamVendor, evs: Seq<SseEventModel>) -> Seq<Seq<char>>
    decreases evs.len(),
{
    if evs.len() == 0 {
        Seq::empty()
    } else {
        events_tokens(v, evs.drop_last()) + match evs.last() {
            SseEventModel::Data(p) => effect(v, p).0,
            SseEventModel::Done => Seq::empty(),
        }
    }
}

fn push_text(tokens: &mut Vec<String>, t: Option<String>)
    ensures
        texts_view(final(tokens)@) == texts_view(old(tokens)@) + nonempty(
            match t {
                Some(x) => Some(x@),
                None => None,
            },
        ),
{
    let ghost before = texts_view(tokens@);
    match t {
        Some(x) => {
            if !x.as_str().is_empty() {
                tokens.push(x);
                assert(texts_view(tokens@) =~= before + seq![tokens@.last()@]);
            } else {
                assert(texts_view(tokens@) =~= before + Seq::<Seq<char>>::empty());
            }
        },
        None => {
            assert(texts_view(tokens@) =~= before + Seq::<Seq<char>>::empty());
        },
    }
}

fn text_equals(s: &Option<String>, lit: &str) -> (r: bool)
    ensures
        r == (match s {
            Some(x) => x@ == lit@,
            None => false,
        }),
{
    match s {
        Some(x) => *x == String::from_str(lit),
        None => false,
    }
}

/// The deltas and usage of one Anthropic event.
pub fn anthropic_event(payload: &[u8]) -> (r: (Vec<String>, Option<TokenUsage>))
    ensures
        texts_view(r.0@) == anthropic_effect(payload@).0,
        r.1 == anthropic_effect(payload@).1,
{
    let mut tokens: Vec<String> = Vec::new();
    let d = parse_json(payload);
    let dref: Option<&JsonDoc> = match &d {
        Some(x) => Some(x),
        None => None,
    };
    let kind = string_field(dref, "type");
    if text_equals(&kind, "content_block_delta") {
        let delta = match &d {
            Some(x) => x.get("delta"),
            None => None,
        };
        let text = string_field(delta, "text");
        push_text(&mut tokens, text);
        assert(texts_view(tokens@) =~= anthropic_effect(payload@).0);
        (tokens, None)
    } else if text_equals(&kind, "message_delta") {
        let u = match &d {
            Some(x) => anthropic_usage(x.get("usage")),
            None => None,
        };
        assert(texts_view(tokens@) =~= anthropic_effect(payload@).0);
        (tokens, u)
    } else if text_equals(&kind, "message_start") {
        let message = match &d {
            Some(x) => x.get("message"),
            None => None,
        };
        let u = match message {
            Some(m) => anthropic_usage(m.get("usage")),
            None => None,
        };
        assert(texts_view(tokens@) =~= anthropic_effect(payload@).0);
        (tokens, u)
    } else {
        assert(texts_view(tokens@) =~= anthropic_effect(payload@).0);
        (tokens, None)
    }
}

/// The deltas and usage of one OpenRouter chunk.
pub fn openrouter_event(payload: &[u8]) -> (r: (Vec<String>, Option<TokenUsage>))
    ensures
        texts_view(r.0@) == openrouter_effect(payload@).0,
        r.1 == openrouter_effect(payload@).1,
{
    let mut tokens: Vec<String> = Vec::new();
    let d = parse_json(payload);
    let choices = match &d {
        Some(x) => match x.get("choices") {
            Some(c) => c.as_array(),
            None => None,
        },
        None => None,
    };
    let choices = match choices {
        Some(a) => a,
        None => {
            assert(texts_view(tokens@) =~= openrouter_effect(payload@).0);
            return (tokens, None);
        },
    };
    let mut i: usize = 0;
    assert(texts_view(tokens@) =~= delta_texts(choices@.subrange(0, 0)));
    while i < choices.len()
        invariant
            i <= choices@.len(),
            texts_view(tokens@) == delta_texts(choices@.subrange(0, i as int)),
        decreases choices@.len() - i,
    {
        assert(choices@.subrange(0, i + 1).drop_last() =~= choices@.subrange(0, i as int));
        let content = string_field(choices[i].get("delta"), "content");
        push_text(&mut tokens, content);
        i = i + 1;
    }
    assert(choices@.subrange(0, i as int) =~= choices@);
    let usage = match &d {
        Some(x) => reported_usage(x.get("usage")),
        None => None,
    };
    (tokens, usage)
}

/// A streaming reply in progress.
pub struct ChatStream {
    pub decoder: SseDecoder,
    pub text: String,
    pub vendor: StreamVendor,
}

impl ChatStream {
    pub fn new(vendor: StreamVendor) -> (r: ChatStream)
        ensures
            r.decoder.model() == initial_model(),
            r.text@.len() == 0,
            r.vendor == vendor,
    {
        ChatStream { decoder: SseDecoder::new(), text: String::new(), vendor }
    }

    /// Whether `[DONE]` has been seen: the caller may stop reading.
    pub fn is_done(&self) -> (r: bool)
        ensures
            r == self.decoder.done,
    {
        self.decoder.done
    }

    /// Takes the next chunk of bytes and returns the text deltas that it
    /// completes, in the order they arrived; they extend the full text.
    pub fn on_chunk(&mut self, chunk: &[u8], tracker: &Option<UsageTracker>) -> (tokens: Vec<String>)
        ensures
            final(self).decoder.model() == without_events(feed_bytes(old(self).decoder.model(), chunk@)),
            final(self).vendor == old(self).vendor,
            texts_view(tokens@) == events_tokens(
                old(self).vendor,
                feed_bytes(old(self).decoder.model(), chunk@).events,
            ),
            final(self).text@ == old(self).text@ + concat(texts_view(tokens@)),
    {
        let events = self.decoder.feed(chunk);
        let ghost start = self.text@;
        let ghost decoded = self.decoder.model();
        let ghost vendor = self.vendor;
        let ghost evs = events@.map_values(|e: SseEvent| e@);
        let mut tokens: Vec<String> = Vec::new();
        let mut i: usize = 0;
        assert(evs.subrange(0, 0) =~= Seq::<SseEventModel>::empty());
        while i < events.len()
            invariant
                i <= events@.len(),
                evs == events@.map_values(|e: SseEvent| e@),
                self.text@ == start + concat(texts_view(tokens@)),
                texts_view(tokens@) == events_tokens(vendor, evs.subrange(0, i as int)),
                self.decoder.model() == decoded,
                self.vendor == vendor,
            decreases events@.len() - i,
        {
            assert(evs.subrange(0, i + 1).drop_last() =~= evs.subrange(0, i as int));
            assert(evs.subrange(0, i + 1).last() == events@[i as int]@);
            match &events[i] {
                SseEvent::Data(p) => {
                    let (ts, usage) = match self.vendor {
                        StreamVendor::Anthropic => anthropic_event(p.as_slice()),
                        StreamVendor::OpenRouter => openrouter_event(p.as_slice()),
                    };
                    record_usage(tracker, &usage);
                    let ghost base = texts_view(tokens@);
                    let mut j: usize = 0;
                    assert(texts_view(ts@).subrange(0, 0) =~= Seq::<Seq<char>>::empty());
                    assert(base + texts_view(ts@).subrange(0, 0) =~= base);
                    while j < ts.len()
                        invariant
                            j <= ts@.len(),
                            texts_view(tokens@) == base + texts_view(ts@).subrange(0, j as int),
                            self.text@ == start + concat(texts_view(tokens@)),
                            self.decoder.model() == decoded,
                            self.vendor == vendor,
                        decreases ts@.len() - j,
                    {
                        let t = ts[j].clone();
                        let ghost before = tokens@;
                        self.text.append(t.as_str());
                        tokens.push(t);
                        assert(texts_view(tokens@) =~= texts_view(before).push(ts@[j as int]@));
                        assert(texts_view(tokens@).drop_last() =~= texts_view(before));
                        assert(texts_view(ts@).subrange(0, j + 1) =~= texts_view(ts@).subrange(
                            0,
                            j as int,
                        ).push(ts@[j as int]@));
                        assert(texts_view(tokens@) =~= base + texts_view(ts@).subrange(0, j + 1));
                        j = j + 1;
                    }
                    assert(texts_view(ts@).subrange(0, j as int) =~= texts_view(ts@));
                },
                SseEvent::Done => {
                    assert(texts_view(tokens@) =~= texts_view(tokens@) + Seq::<Seq<char>>::empty());
                },
            }
            i = i + 1;
        }
        assert(evs.subrange(0, i as int) =~= evs);
        tokens
    }

    /// The full text at the end of the stream; a stream without any text is
    /// an empty response.
    pub fn finish(self, empty_message: &str) -> (r: Result<String, ProviderError>)
        ensures
            self.text@.len() > 0 ==> r == Ok::<String, ProviderError>(self.text),
            self.text@.len() == 0 ==> (r matches Err(ProviderError::EmptyResponse(m)) && m@
                == empty_message@),
    {
        if self.text.as_str().is_empty() {
            Err(ProviderError::EmptyResponse(String::from_str(empty_message)))
        } else {
            Ok(self.text)
        }
    }
}

proof fn lemma_events_tokens_append(v: StreamVendor, a: Seq<SseEventModel>, b: Seq<SseEventModel>)
    ensures
        events_tokens(v, a + b) == events_tokens(v, a) + events_tokens(v, b),
    decreases b.len(),
{
    if b.len() == 0 {
        assert(a + b =~= a);
        assert(events_tokens(v, a) + events_tokens(v, b) =~= events_tokens(v, a));
    } else {
        assert((a + b).drop_last() =~= a + b.drop_last());
        lemma_events_tokens_append(v, a, b.drop_last());
        let tail = match b.last() {
            SseEventModel::Data(p) => effect(v, p).0,
            SseEventModel::Done => Seq::<Seq<char>>::empty(),
        };
        assert(events_tokens(v, a) + events_tokens(v, b.drop_last()) + tail =~= events_tokens(v, a)
            + (events_tokens(v, b.drop_last()) + tail));
    }
}

proof fn lemma_feed_keeps_record(m: SseModel, s: Seq<u8>)
    ensures
        feed_bytes(m, s).events == m.events + feed_bytes(without_events(m), s).events,
        without_events(feed_bytes(m, s)) == without_events(feed_bytes(without_events(m), s)),
    decreases s.len(),
{
    if s.len() == 0 {
        assert(m.events + Seq::<SseEventModel>::empty() =~= m.events);
    } else {
        lemma_feed_keeps_record(m, s.drop_last());
        let x = feed_bytes(m, s.drop_last());
        let y = feed_bytes(without_events(m), s.drop_last());
        if s.last() == 10u8 && !x.done {
            match line_event(x.pending) {
                Some(e) => {
                    assert(x.events.push(e) =~= m.events + y.events.push(e));
                },
                None => {},
            }
        }
    }
}

/// Splitting a stream into two chunks at any byte offset changes nothing:
/// the deltas forwarded for the first chunk and then the second are those of
/// the whole stream delivered at once, and the decoder ends in the same state.
pub proof fn lemma_stream_tokens_chunk_invariant(v: StreamVendor, m: SseModel, a: Seq<u8>, b: Seq<u8>)
    requires
        m.events == Seq::<SseEventModel>::empty(),
    ensures
        events_tokens(v, feed_bytes(m, a).events) + events_tokens(
            v,
            feed_bytes(without_events(feed_bytes(m, a)), b).events,
        ) == events_tokens(v, feed_bytes(m, a + b).events),
        without_events(feed_bytes(without_events(feed_bytes(m, a)), b)) == without_events(
            feed_bytes(m, a + b),
        ),
{
    lemma_feed_bytes_append(m, a, b);
    let ma = feed_bytes(m, a);
    lemma_feed_keeps_record(ma, b);
    lemma_events_tokens_append(v, ma.events, feed_bytes(without_events(ma), b).events);
}

} // verus!
