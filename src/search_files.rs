//! Regex search across the files of the workspace. The caller walks the
//! directory tree and reads the files; what is skipped, which lines match,
//! where the count stops and how the report reads is decided here.
use vstd::prelude::*;
use std::sync::Arc;
use crate::file_patch::joined;
use crate::json::{field_of, str_of, string_field, JsonDoc};
use crate::security::SecurityPolicy;
use crate::stream::texts_view;
use crate::text::{chars_of, decimal, digits, substring};
use crate::tools::{missing_parameter, ToolError};
use crate::types::{fails_with, ToolResult};

verus! {

#[verifier::external_type_specification]
#[verifier::external_body]
pub struct ExRegex(regex::Regex);

#[verifier::external_type_specification]
#[verifier::external_body]
pub struct ExGlobPattern(glob::Pattern);

/// Whether the regex crate compiles a pattern; this depends on the pattern alone.
pub uninterp spec fn regex_compiles(pattern: Seq<char>) -> bool;

/// Whether the regex of `pattern` finds a match in `line`.
pub uninterp spec fn regex_finds(pattern: Seq<char>, line: Seq<char>) -> bool;

/// Whether the glob crate accepts a pattern.
pub uninterp spec fn glob_compiles(pattern: Seq<char>) -> bool;

/// Whether a file name matches the glob `pattern`.
pub uninterp spec fn glob_matches(pattern: Seq<char>, name: Seq<char>) -> bool;

/// A compiled line pattern, with the text it was compiled from.
pub struct LinePattern {
    source: String,
    re: regex::Regex,
}

impl LinePattern {
    pub closed spec fn pattern(&self) -> Seq<char> {
        self.source@
    }
}

/// A compiled file-name filter, with the text it was compiled from.
pub struct NamePattern {
    source: String,
    glob: glob::Pattern,
}

impl NamePattern {
    pub closed spec fn pattern(&self) -> Seq<char> {
        self.source@
    }
}

/// Relies on regex::Regex::new: `Ok` exactly when the pattern compiles; the
/// error is the crate's description.
#[verifier::external_body]
fn compile_regex(pattern: &str) -> (r: Result<LinePattern, String>)
    ensures
        r is Ok <==> regex_compiles(pattern@),
        (r matches Ok(p) ==> p.pattern() == pattern@),
{
    match regex::Regex::new(pattern) {
        Ok(re) => Ok(LinePattern { source: pattern.to_string(), re }),
        Err(e) => Err(e.to_string()),
    }
}

/// Relies on regex::Regex::is_match: whether the line holds a match.
#[verifier::external_body]
fn regex_is_match(p: &LinePattern, line: &str) -> (r: bool)
    ensures
        r == regex_finds(p.pattern(), line@),
{
    p.re.is_match(line)
}

/// Relies on glob::Pattern::new: `Some` exactly when the pattern is valid.
#[verifier::external_body]
fn compile_glob(pattern: &str) -> (r: Option<NamePattern>)
    ensures
        r is Some <==> glob_compiles(pattern@),
        (r matches Some(p) ==> p.pattern() == pattern@),
{
    match glob::Pattern::new(pattern) {
        Ok(glob) => Some(NamePattern { source: pattern.to_string(), glob }),
        Err(_) => None,
    }
}

/// Relies on glob::Pattern::matches: whether a file name matches.
#[verifier::external_body]
fn glob_is_match(p: &NamePattern, name: &str) -> (r: bool)
    ensures
        r == glob_matches(p.pattern(), name@),
{
    p.glob.matches(name)
}

/// The most matches reported.
pub const MAX_MATCHES: usize = 100;

/// Files larger than this many bytes are not searched.
pub const MAX_FILE_BYTES: u64 = 1000000;

/// Hidden entries and the usual build and dependency directories are skipped.
pub open spec fn skipped_name(name: Seq<char>) -> bool {
    (name.len() > 0 && name[0] == '.') || name == "target"@ || name == "node_modules"@
}

pub fn skip_entry(name: &str) -> (r: bool)
    ensures
        r == skipped_name(name@),
{
    let c = chars_of(name);
    if c.len() > 0 && c[0] == '.' {
        return true;
    }
    let s = String::from_str(name);
    s == String::from_str("target") || s == String::from_str("node_modules")
}

/// The lines of a text as `str::lines` gives them: split at `\n`, a `\r`
/// before the `\n` dropped, and no empty line after a final `\n`.
pub struct LinesModel {
    pub done: Seq<Seq<char>>,
    pub current: Seq<char>,
}

pub open spec fn without_cr(l: Seq<char>) -> Seq<char> {
    if l.len() > 0 && l.last() == '\r' {
        l.drop_last()
    } else {
        l
    }
}

pub open spec fn split_prefix(s: Seq<char>) -> LinesModel
    decreases s.len(),
{
    if s.len() == 0 {
        LinesModel { done: Seq::empty(), current: Seq::empty() }
    } else {
        let m = split_prefix(s.drop_last());
        if s.last() == '\n' {
            LinesModel { done: m.done.push(without_cr(m.current)), current: Seq::empty() }
        } else {
            LinesModel { done: m.done, current: m.current.push(s.last()) }
        }
    }
}

pub open spec fn lines_of(s: Seq<char>) -> Seq<Seq<char>> {
    let m = split_prefix(s);
    if m.current.len() > 0 {
        m.done.push(m.current)
    } else {
        m.done
    }
}

/// The lines of a text.
pub fn split_lines(s: &str) -> (r: Vec<String>)
    ensures
        texts_view(r@) == lines_of(s@),
{
    let c = chars_of(s);
    let mut lines: Vec<String> = Vec::new();
    let mut start: usize = 0;
    let mut i: usize = 0;
    while i < c.len()
        invariant
            c@ == s@,
            start <= i <= c@.len(),
            texts_view(lines@) == split_prefix(c@.subrange(0, i as int)).done,
            split_prefix(c@.subrange(0, i as int)).current == c@.subrange(start as int, i as int),
        decreases c@.len() - i,
    {
        assert(c@.subrange(0, i + 1).drop_last() =~= c@.subrange(0, i as int));
        if c[i] == '\n' {
            let end: usize = if i > start && c[i - 1] == '\r' { i - 1 } else { i };
            let line = substring(s, start, end);
            let ghost before = lines@;
            lines.push(line);
            assert(texts_view(lines@) =~= texts_view(before).push(line@));
            assert(without_cr(c@.subrange(start as int, i as int)) =~= c@.subrange(start as int, end as int));
            start = i + 1;
            assert(c@.subrange(start as int, i + 1) =~= Seq::<char>::empty());
        } else {
            assert(c@.subrange(start as int, i + 1) =~= c@.subrange(start as int, i as int).push(c@[i as int]));
        }
        i = i + 1;
    }
    assert(c@.subrange(0, i as int) =~= c@);
    if start < c.len() {
        let line = substring(s, start, c.len());
        let ghost before = lines@;
        lines.push(line);
        assert(texts_view(lines@) =~= texts_view(before).push(line@));
    }
    lines
}

/// One reported match: `rel:number: line` and a newline.
pub open spec fn match_entry(rel: Seq<char>, number: nat, line: Seq<char>) -> Seq<char> {
    rel + ":"@ + digits(number, 10) + ": "@ + line + "\n"@
}

/// The report, the count and whether a match beyond `max` was seen, after
/// scanning the first `n` lines of a file from `results`, `count` and
/// `overflow`: matches up to `max` are reported, one more marks the overflow.
pub open spec fn scan_lines(
    pattern: Seq<char>,
    rel: Seq<char>,
    lines: Seq<Seq<char>>,
    n: nat,
    results: Seq<char>,
    count: nat,
    overflow: bool,
    max: nat,
) -> (Seq<char>, nat, bool)
    decreases n,
{
    if n == 0 || n > lines.len() {
        (results, count, overflow)
    } else {
        let prev = scan_lines(pattern, rel, lines, (n - 1) as nat, results, count, overflow, max);
        if prev.2 || !regex_finds(pattern, lines[n - 1]) {
            prev
        } else if prev.1 < max {
            (prev.0 + match_entry(rel, n, lines[n - 1]), prev.1 + 1, false)
        } else {
            (prev.0, prev.1, true)
        }
    }
}

/// The arguments of a search.
#[derive(Debug, Clone)]
pub struct SearchRequest {
    pub pattern: String,
    /// The directory to search, relative to the workspace (`.` by default).
    pub path: String,
    pub glob: Option<String>,
}

/// A search ready to walk: where, for what, and which files.
pub struct SearchPlan {
    pub directory: String,
    pub pattern: LinePattern,
    pub filter: Option<NamePattern>,
}

/// The matches found so far.
pub struct SearchState {
    pub results: String,
    pub match_count: usize,
    /// A match beyond the cap was seen, so some matches are not reported.
    pub truncated: bool,
}

impl SearchState {
    pub fn new() -> (r: SearchState)
        ensures
            r.results@.len() == 0,
            r.match_count == 0,
            !r.truncated,
    {
        SearchState { results: String::new(), match_count: 0, truncated: false }
    }

    /// Whether a match beyond the cap was seen: the walk stops.
    pub fn is_full(&self) -> (r: bool)
        ensures
            r == self.truncated,
    {
        self.truncated
    }

    /// Whether a file is searched: it must pass the name filter and the size
    /// ceiling.
    pub fn wants_file(&self, plan: &SearchPlan, name: &str, size: u64) -> (r: bool)
        ensures
            r == ((match plan.filter {
                Some(f) => glob_matches(f.pattern(), name@),
                None => true,
            }) && size <= MAX_FILE_BYTES),
    {
        let passes = match &plan.filter {
            Some(f) => glob_is_match(f, name),
            None => true,
        };
        passes && size <= MAX_FILE_BYTES
    }

    /// Scans the lines of one file, reported as `rel`.
    pub fn scan_file(&mut self, plan: &SearchPlan, rel: &str, content: &str)
        ensures
            (final(self).results@, final(self).match_count as nat, final(self).truncated)
                == scan_lines(
                plan.pattern.pattern(),
                rel@,
                lines_of(content@),
                lines_of(content@).len(),
                old(self).results@,
                old(self).match_count as nat,
                old(self).truncated,
                MAX_MATCHES as nat,
            ),
    {
        let lines = split_lines(content);
        let ghost lv = texts_view(lines@);
        let ghost r0 = self.results@;
        let ghost c0 = self.match_count as nat;
        let ghost t0 = self.truncated;
        let mut i: usize = 0;
        while i < lines.len()
            invariant
                i <= lines@.len(),
                lv == texts_view(lines@),
                lv == lines_of(content@),
                (self.results@, self.match_count as nat, self.truncated) == scan_lines(
                    plan.pattern.pattern(),
                    rel@,
                    lv,
                    i as nat,
                    r0,
                    c0,
                    t0,
                    MAX_MATCHES as nat,
                ),
            decreases lines@.len() - i,
        {
            if !self.truncated && regex_is_match(&plan.pattern, lines[i].as_str()) {
                if self.match_count >= MAX_MATCHES {
                    self.truncated = true;
                    i = i + 1;
                    continue;
                }
                self.results.append(rel);
                self.results.append(":");
                let d = decimal((i + 1) as u64);
                self.results.append(d.as_str());
                self.results.append(": ");
                self.results.append(lines[i].as_str());
                self.results.append("\n");
                self.match_count = self.match_count + 1;
            }
            i = i + 1;
        }
    }

    /// The report of the search.
    pub fn finish(&self) -> (r: ToolResult)
        ensures
            r.success,
            r.error is None,
            self.match_count == 0 ==> r.output@ == "No matches found."@,
            self.match_count > 0 ==> r.output@ == digits(self.match_count as nat, 10) + " matches:"@
                + (if self.truncated {
                "\n... truncated at 100 matches"@
            } else {
                Seq::<char>::empty()
            }) + "\n"@ + self.results@,
    {
        if self.match_count == 0 {
            return ToolResult::ok(String::from_str("No matches found."));
        }
        let mut out = decimal(self.match_count as u64);
        out.append(" matches:");
        if self.truncated {
            out.append("\n... truncated at 100 matches");
        }
        out.append("\n");
        out.append(self.results.as_str());
        ToolResult::ok(out)
    }
}

/// Regex search across workspace files.
pub struct SearchFilesTool {
    pub security: Arc<SecurityPolicy>,
}

impl SearchFilesTool {
    pub fn new(security: Arc<SecurityPolicy>) -> (r: SearchFilesTool)
        ensures
            r.security == security,
    {
        SearchFilesTool { security }
    }

    pub fn name(&self) -> (r: &'static str)
        ensures
            r@ == "search_files"@,
    {
        "search_files"
    }

    pub fn description(&self) -> (r: &'static str)
        ensures
            r@ == "Search for a regex pattern across files in the workspace"@,
    {
        "Search for a regex pattern across files in the workspace"
    }

    /// Reads `pattern` (required), `path` (default `.`) and `glob`.
    pub fn parse_args(args: &JsonDoc) -> (r: Result<SearchRequest, ToolError>)
        ensures
            (match str_of(field_of(Some(*args), "pattern"@)) {
                Some(p) => r matches Ok(req) && req.pattern@ == p && req.path@ == (match str_of(
                    field_of(Some(*args), "path"@),
                ) {
                    Some(d) => d,
                    None => "."@,
                }) && (match str_of(field_of(Some(*args), "glob"@)) {
                    Some(g) => req.glob matches Some(x) && x@ == g,
                    None => req.glob is None,
                }),
                None => r matches Err(ToolError::MissingParameter(m)) && m@ == "pattern"@,
            }),
    {
        let pattern = match string_field(Some(args), "pattern") {
            Some(p) => p,
            None => return Err(missing_parameter("pattern")),
        };
        let path = match string_field(Some(args), "path") {
            Some(p) => p,
            None => String::from_str("."),
        };
        let glob = string_field(Some(args), "glob");
        Ok(SearchRequest { pattern, path, glob })
    }

    /// The first step: the syntactic path check, then the pattern; an
    /// invalid glob means no filter.
    pub fn start(&self, req: &SearchRequest) -> (r: Result<SearchPlan, ToolResult>)
        ensures
            !self.security.path_allowed(req.path@) ==> (r matches Err(res) && fails_with(
                res,
                "Path not allowed by security policy: "@ + req.path@,
            )),
            self.security.path_allowed(req.path@) ==> (r is Ok <==> regex_compiles(req.pattern@)),
            self.security.path_allowed(req.path@) && !regex_compiles(req.pattern@) ==> (r matches Err(
                res,
            ) && exists|m: Seq<char>| fails_with(res, "Invalid regex: "@ + m)),
            (r matches Ok(p) ==> p.directory@ == joined(self.security.workspace_dir@, req.path@)
                && p.pattern.pattern() == req.pattern@ && (match req.glob {
                Some(g) => (p.filter is Some <==> glob_compiles(g@)),
                None => p.filter is None,
            })),
    {
        if !self.security.is_path_allowed(req.path.as_str()) {
            let mut e = String::from_str("Path not allowed by security policy: ");
            e.append(req.path.as_str());
            return Err(ToolResult::failure(e));
        }
        let pattern = match compile_regex(req.pattern.as_str()) {
            Ok(p) => p,
            Err(msg) => {
                let mut e = String::from_str("Invalid regex: ");
                e.append(msg.as_str());
                return Err(ToolResult::failure(e));
            },
        };
        let filter = match &req.glob {
            Some(g) => compile_glob(g.as_str()),
            None => None,
        };
        let directory = crate::file_patch::join_path(self.security.workspace_dir.as_str(), req.path.as_str());
        Ok(SearchPlan { directory, pattern, filter })
    }

    /// After resolution of the directory: it must lie in the workspace.
    pub fn on_resolved(&self, resolved: Result<String, String>) -> (r: Result<String, ToolResult>)
        ensures
            (match resolved {
                Err(e) => r matches Err(res) && fails_with(res, "Cannot resolve search path: "@ + e@),
                Ok(p) => if self.security.resolved_allowed(p@) {
                    r == Ok::<String, ToolResult>(p)
                } else {
                    r matches Err(res) && fails_with(res, "Search path escapes workspace"@)
                },
            }),
    {
        match resolved {
            Err(e) => {
                let mut m = String::from_str("Cannot resolve search path: ");
                m.append(e.as_str());
                Err(ToolResult::failure(m))
            },
            Ok(p) => {
                if self.security.is_resolved_path_allowed(p.as_str()) {
                    Ok(p)
                } else {
                    Err(ToolResult::failure(String::from_str("Search path escapes workspace")))
                }
            },
        }
    }
}

} // verus!
