use tinyclaw::providers::ProviderError;
use tinyclaw::sse::{classify_line, SseDecoder, SseEvent};
use tinyclaw::stream::{ChatStream, StreamVendor};
use tinyclaw::types::UsageTracker;

const ANTHROPIC_STREAM: [&str; 10] = [
    "event: message_start\n",
    "data: {\"type\":\"message_start\",\"message\":{\"usage\":{\"input_tokens\":9,\"output_tokens\":1}}}\n",
    "\n",
    ": keep-alive\n",
    "data: {\"type\":\"content_block_delta\",\"delta\":{\"text\":\"Hel\"}}\r\n",
    "data: {not json}\n",
    "data: {\"type\":\"content_block_delta\",\"delta\":{\"text\":\"lo \u{1F980}\"}}\n",
    "data: {\"type\":\"message_delta\",\"usage\":{\"output_tokens\":4}}\n",
    "data: [DONE]\n",
    "data: {\"type\":\"content_block_delta\",\"delta\":{\"text\":\"late\"}}\n",
];

fn run(chunks: &[&[u8]], vendor: StreamVendor) -> (Vec<String>, ChatStream, UsageTracker) {
    let tracker = UsageTracker::new();
    let attached = Some(tracker.clone());
    let mut stream = ChatStream::new(vendor);
    let mut tokens = Vec::new();
    for c in chunks {
        tokens.extend(stream.on_chunk(c, &attached));
    }
    (tokens, stream, tracker)
}

#[test]
fn sse_stream_in_one_chunk() {
    let joined = ANTHROPIC_STREAM.concat();
    let bytes = joined.as_bytes();
    let (tokens, stream, tracker) = run(&[bytes], StreamVendor::Anthropic);
    assert_eq!(tokens, vec!["Hel".to_string(), "lo \u{1F980}".to_string()]);
    assert!(stream.is_done());
    assert_eq!(stream.finish("No response").unwrap(), "Hello \u{1F980}");
    assert_eq!(tracker.snapshot().prompt_tokens, 9);
    assert_eq!(tracker.snapshot().completion_tokens, 5);
    assert_eq!(tracker.requests(), 2);
}

#[test]
fn sse_chunk_boundaries_do_not_matter() {
    let joined = ANTHROPIC_STREAM.concat();
    let bytes = joined.as_bytes();
    let (whole, whole_stream, _) = run(&[bytes], StreamVendor::Anthropic);
    let whole_text = whole_stream.finish("x").unwrap();
    for split in 0..=bytes.len() {
        let (a, b) = bytes.split_at(split);
        let (tokens, stream, _) = run(&[a, b], StreamVendor::Anthropic);
        assert_eq!(tokens, whole, "split at {split}");
        assert_eq!(stream.finish("x").unwrap(), whole_text);
    }
    let singles: Vec<&[u8]> = bytes.chunks(1).collect();
    let (tokens, stream, _) = run(&singles, StreamVendor::Anthropic);
    assert_eq!(tokens, whole);
    assert_eq!(stream.finish("x").unwrap(), whole_text);
}

#[test]
fn openrouter_stream_collects_deltas() {
    let text = [
        "data: {\"choices\":[{\"delta\":{\"content\":\"A\"}}]}\n",
        "data: {\"choices\":[{\"delta\":{\"content\":\"\"}}]}\n",
        "data: {\"choices\":[{\"delta\":{\"content\":\"B\"}}],\"usage\":{\"prompt_tokens\":2,\"completion_tokens\":3,\"total_tokens\":5}}\n",
        "data: [DONE]\n",
    ]
    .concat();
    let (tokens, stream, tracker) = run(&[text.as_bytes()], StreamVendor::OpenRouter);
    assert_eq!(tokens, vec!["A".to_string(), "B".to_string()]);
    assert_eq!(stream.finish("x").unwrap(), "AB");
    assert_eq!(tracker.snapshot().total_tokens, 5);
}

#[test]
fn stream_without_text_is_empty_response() {
    let (tokens, stream, _) = run(&[b"data: [DONE]\n"], StreamVendor::OpenRouter);
    assert!(tokens.is_empty());
    match stream.finish("No response from OpenRouter stream") {
        Err(ProviderError::EmptyResponse(m)) => assert_eq!(m, "No response from OpenRouter stream"),
        other => panic!("unexpected {other:?}"),
    }
}

#[test]
fn unfinished_line_waits_for_its_newline() {
    let mut d = SseDecoder::new();
    assert!(d.feed(b"data: [DO").is_empty());
    assert_eq!(d.pending, b"data: [DO".to_vec());
    let events = d.feed(b"NE]\r\n");
    assert_eq!(events.len(), 1);
    assert!(matches!(events[0], SseEvent::Done));
    assert!(d.done);
}

#[test]
fn classify_line_cases() {
    assert!(classify_line(&b"".to_vec()).is_none());
    assert!(classify_line(&b": comment".to_vec()).is_none());
    assert!(classify_line(&b"event: ping".to_vec()).is_none());
    assert!(classify_line(&b"data:{}".to_vec()).is_none());
    match classify_line(&b"data: {\"a\":1}\r\r".to_vec()) {
        Some(SseEvent::Data(p)) => assert_eq!(p, b"{\"a\":1}".to_vec()),
        other => panic!("unexpected {other:?}"),
    }
    assert!(matches!(classify_line(&b"data: [DONE]".to_vec()), Some(SseEvent::Done)));
}
