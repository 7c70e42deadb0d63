//! HTTP GET of a URL for the model: only `http://` and `https://` URLs are
//! fetched, long bodies are cut with a visible marker, and the status is
//! reported on success and on failure.
use vstd::prelude::*;
use crate::json::{field_of, str_of, string_field, JsonDoc};
use crate::text::{byte_prefix, cut_to_bytes, exceeds_bytes, starts_with};
use crate::tools::{missing_parameter, ToolError};
use crate::types::{fails_with, ToolResult};

verus! {

/// The most bytes of a body passed on.
pub const MAX_BODY_BYTES: usize = 50000;

/// The request timeout, in seconds.
pub const FETCH_TIMEOUT_SECS: u64 = 15;

pub open spec fn has_prefix(s: Seq<char>, p: Seq<char>) -> bool {
    p.len() <= s.len() && s.subrange(0, p.len() as int) == p
}

/// The URL has a scheme that may be fetched.
pub open spec fn fetchable(url: Seq<char>) -> bool {
    has_prefix(url, "http://"@) || has_prefix(url, "https://"@)
}

/// The body as passed on: when longer than `MAX_BODY_BYTES` bytes, cut at
/// the last character boundary within them, with a marker.
pub open spec fn shown_body(body: Seq<char>) -> Seq<char> {
    if exceeds_bytes(body, MAX_BODY_BYTES as int) {
        byte_prefix(body, MAX_BODY_BYTES as int) + "\n... [truncated]"@
    } else {
        body
    }
}

/// HTTP GET tool that fetches a URL and returns the body as text.
pub struct WebFetchTool {}

impl WebFetchTool {
    pub fn new() -> (r: WebFetchTool) {
        WebFetchTool {  }
    }

    pub fn name(&self) -> (r: &'static str)
        ensures
            r@ == "web_fetch"@,
    {
        "web_fetch"
    }

    pub fn description(&self) -> (r: &'static str)
        ensures
            r@ == "Fetch a URL via HTTP GET and return the response body as text"@,
    {
        "Fetch a URL via HTTP GET and return the response body as text"
    }

    /// The URL argument; its absence is a hard error.
    pub fn parse_args(args: &JsonDoc) -> (r: Result<String, ToolError>)
        ensures
            (match str_of(field_of(Some(*args), "url"@)) {
                Some(u) => r matches Ok(x) && x@ == u,
                None => r matches Err(ToolError::MissingParameter(m)) && m@ == "url"@,
            }),
    {
        match string_field(Some(args), "url") {
            Some(u) => Ok(u),
            None => Err(missing_parameter("url")),
        }
    }

    /// Whether a URL may be fetched; if not, the failure to report.
    pub fn check_url(&self, url: &str) -> (r: Option<ToolResult>)
        ensures
            fetchable(url@) <==> r is None,
            (r matches Some(res) ==> fails_with(res, "URL must start with http:// or https://"@)),
    {
        if starts_with(url, "http://") || starts_with(url, "https://") {
            None
        } else {
            Some(ToolResult::failure(String::from_str("URL must start with http:// or https://")))
        }
    }

    /// The result of a response: `HTTP <status>` and the (possibly cut) body;
    /// a non-2xx code fails with the status as its error.
    pub fn on_response(&self, code: u16, status: &str, body: &str) -> (r: ToolResult)
        ensures
            r.success == (200 <= code && code <= 299),
            r.output@ == "HTTP "@ + status@ + "\n"@ + shown_body(body@),
            r.success ==> r.error is None,
            !r.success ==> fails_with(r, "HTTP "@ + status@),
    {
        let mut out = String::from_str("HTTP ");
        out.append(status);
        out.append("\n");
        let (cut, truncated) = cut_to_bytes(body, MAX_BODY_BYTES);
        if truncated {
            out.append(cut.as_str());
            out.append("\n... [truncated]");
        } else {
            proof {
                crate::text::lemma_fit_chars_bound(body@, MAX_BODY_BYTES as int);
            }
            assert(cut@ =~= body@);
            out.append(body);
        }
        if 200 <= code && code <= 299 {
            ToolResult { success: true, output: out, error: None }
        } else {
            let mut e = String::from_str("HTTP ");
            e.append(status);
            ToolResult { success: false, output: out, error: Some(e) }
        }
    }

    /// The result when the request could not be made.
    pub fn on_request_error(&self, message: &str) -> (r: ToolResult)
        ensures
            fails_with(r, "Request failed: "@ + message@),
            r.output@.len() == 0,
    {
        let mut e = String::from_str("Request failed: ");
        e.append(message);
        ToolResult::failure(e)
    }
}

} // verus!
