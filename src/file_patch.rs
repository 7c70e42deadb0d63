//! Targeted file editing: a unique occurrence of `old_string` is replaced by
//! `new_string`. The steps that touch the filesystem (resolve, read, write)
//! are performed by the caller between the decisions made here.
use vstd::prelude::*;
use std::sync::Arc;
use vstd::string::StringSliceAdditionalSpecFns;
use crate::json::{field_of, str_of, string_field, JsonDoc};
use crate::security::{AutonomyLevel, SecurityPolicy};
use crate::text::{
    chars_of, decimal, digits, find_at_or_after, find_from, lemma_find_from_bounds, occurs_at,
    substring,
};
use crate::tools::{missing_parameter, ToolError};
use crate::types::{fails_with, ToolResult};

verus! {

/// The number of non-overlapping occurrences of `p` in `s` from index `i`,
/// counted left to right as `str::matches` counts them (an empty pattern
/// matches at every position).
pub open spec fn count_matches(s: Seq<char>, p: Seq<char>, i: int) -> nat
    decreases s.len() + 1 - i,
{
    if i < 0 {
        0
    } else {
        match find_from(s, p, i) {
            None => 0,
            Some(k) => {
                proof {
                    lemma_find_from_bounds(s, p, i);
                }
                1 + count_matches(s, p, k + if p.len() == 0 { 1 } else { p.len() as int })
            },
        }
    }
}

/// `s` with its first occurrence of `old` (at index `k`) replaced by `new`.
pub open spec fn replaced_at(s: Seq<char>, k: int, old: Seq<char>, new: Seq<char>) -> Seq<char> {
    s.subrange(0, k) + new + s.subrange(k + old.len(), s.len() as int)
}

/// A count as a `usize`, saturated at `usize::MAX`.
pub open spec fn saturated(n: nat) -> usize {
    if n <= usize::MAX {
        n as usize
    } else {
        usize::MAX
    }
}

/// Why a patch cannot be applied.
#[derive(Debug, Clone, Copy, PartialEq, Eq)]
pub enum PatchError {
    /// `old_string` does not occur.
    NotFound,
    /// `old_string` occurs this many times (at least two).
    Ambiguous(usize),
}

/// An empty pattern matches at each of the `len + 1` positions.
proof fn lemma_count_empty(s: Seq<char>, i: int)
    requires
        0 <= i <= s.len(),
    ensures
        count_matches(s, Seq::empty(), i) == s.len() + 1 - i,
    decreases s.len() + 1 - i,
{
    let e = Seq::<char>::empty();
    assert(s.subrange(i, i) =~= e);
    assert(occurs_at(s, e, i));
    assert(find_from(s, e, i) == Some(i));
    assert(count_matches(s, e, i) == 1 + count_matches(s, e, i + 1));
    if i < s.len() {
        lemma_count_empty(s, i + 1);
    } else {
        assert(find_from(s, e, i + 1) is None);
        assert(count_matches(s, e, i + 1) == 0);
    }
}

/// Counts the occurrences of a non-empty `pat` in `s`.
pub fn count_occurrences(s: &Vec<char>, pat: &Vec<char>) -> (r: usize)
    requires
        pat@.len() > 0,
    ensures
        r == count_matches(s@, pat@, 0),
{
    let mut n: usize = 0;
    let mut i: usize = 0;
    let step: usize = pat.len();
    while i <= s.len()
        invariant
            count_matches(s@, pat@, 0) == n + count_matches(s@, pat@, i as int),
            step == pat@.len(),
            step > 0,
            n <= i,
        decreases s@.len() + 1 - i,
    {
        proof {
            lemma_find_from_bounds(s@, pat@, i as int);
        }
        match find_at_or_after(s, pat, i) {
            None => {
                return n;
            },
            Some(k) => {
                n = n + 1;
                if k + step > s.len() {
                    assert(count_matches(s@, pat@, k + step) == 0) by {
                        assert(find_from(s@, pat@, k + step) is None);
                    }
                    return n;
                }
                i = k + step;
            },
        }
    }
    assert(count_matches(s@, pat@, i as int) == 0) by {
        assert(find_from(s@, pat@, i as int) is None);
    }
    n
}

/// The patched content, when `old` occurs exactly once in `content`.
pub fn plan_patch(content: &str, old: &str, new: &str) -> (r: Result<String, PatchError>)
    ensures
        count_matches(content@, old@, 0) == 0 ==> r == Err::<String, PatchError>(PatchError::NotFound),
        count_matches(content@, old@, 0) >= 2 ==> r == Err::<String, PatchError>(
            PatchError::Ambiguous(saturated(count_matches(content@, old@, 0))),
        ),
        count_matches(content@, old@, 0) == 1 ==> (r matches Ok(s) && s@ == replaced_at(
            content@,
            find_from(content@, old@, 0)->0,
            old@,
            new@,
        )),
{
    let c = chars_of(content);
    let o = chars_of(old);
    if o.len() == 0 {
        proof {
            lemma_count_empty(c@, 0);
            assert(o@ =~= Seq::<char>::empty());
        }
        if c.len() == 0 {
            assert(content@.subrange(0, 0) =~= Seq::<char>::empty());
            assert(find_from(content@, old@, 0) == Some(0int)) by {
                assert(occurs_at(content@, old@, 0));
            }
            assert(replaced_at(content@, 0, old@, new@) =~= new@);
            return Ok(String::from_str(new));
        }
        let n = c.len();
        return Err(PatchError::Ambiguous(if n < usize::MAX { n + 1 } else { usize::MAX }));
    }
    let count = count_occurrences(&c, &o);
    if count == 0 {
        return Err(PatchError::NotFound);
    }
    if count > 1 {
        return Err(PatchError::Ambiguous(count));
    }
    proof {
        lemma_find_from_bounds(c@, o@, 0);
    }
    match find_at_or_after(&c, &o, 0) {
        None => Err(PatchError::NotFound),
        Some(k) => {
            let n = c.len();
            assert(occurs_at(c@, o@, k as int));
            let mut out = substring(content, 0, k);
            out.append(new);
            let tail = substring(content, k + o.len(), n);
            out.append(tail.as_str());
            Ok(out)
        },
    }
}

/// What a patch error tells the model.
pub open spec fn patch_error_text(e: PatchError) -> Seq<char> {
    match e {
        PatchError::NotFound => "old_string not found in file"@,
        PatchError::Ambiguous(n) => "old_string found "@ + digits(n as nat, 10)
            + " times \u{2014} must match exactly once. Provide more context."@,
    }
}

pub fn patch_error_message(e: PatchError) -> (r: String)
    ensures
        r@ == patch_error_text(e),
{
    match e {
        PatchError::NotFound => String::from_str("old_string not found in file"),
        PatchError::Ambiguous(n) => {
            let mut s = String::from_str("old_string found ");
            let d = decimal(n as u64);
            s.append(d.as_str());
            s.append(" times \u{2014} must match exactly once. Provide more context.");
            s
        },
    }
}

/// `p` joined onto `root`, as `Path::join` joins a path: an absolute `p`
/// replaces the root.
pub open spec fn joined(root: Seq<char>, p: Seq<char>) -> Seq<char> {
    if (p.len() > 0 && p[0] == '/') || root.len() == 0 {
        p
    } else if root.last() == '/' {
        root + p
    } else {
        root + seq!['/'] + p
    }
}

pub fn join_path(root: &str, p: &str) -> (r: String)
    ensures
        r@ == joined(root@, p@),
{
    let pc = chars_of(p);
    let rc = chars_of(root);
    if (pc.len() > 0 && pc[0] == '/') || rc.len() == 0 {
        String::from_str(p)
    } else if rc[rc.len() - 1] == '/' {
        let mut s = String::from_str(root);
        s.append(p);
        s
    } else {
        let mut s = String::from_str(root);
        s.append("/");
        s.append(p);
        assert("/"@ =~= seq!['/']) by {
            reveal_strlit("/");
        }
        s
    }
}

/// The arguments of a patch request.
#[derive(Debug, Clone)]
pub struct PatchRequest {
    pub path: String,
    pub old_string: String,
    pub new_string: String,
}

/// The next thing to do for a patch request.
#[derive(Debug)]
pub enum PatchStep {
    /// Canonicalize this path (resolving symlinks), then call `on_resolved`.
    Resolve(String),
    /// Read the file at this canonical path, then call `on_read`.
    Read(String),
    /// Write this content to this canonical path, then call `on_written`.
    Write(String, String),
    /// Finished, with this result.
    Done(ToolResult),
}

/// A finished step that fails with the error `text`.
pub open spec fn failed_with(step: PatchStep, text: Seq<char>) -> bool {
    match step {
        PatchStep::Done(r) => fails_with(r, text),
        _ => false,
    }
}

/// A finished step that fails.
pub open spec fn failed(step: PatchStep) -> bool {
    match step {
        PatchStep::Done(r) => !r.success,
        _ => false,
    }
}

/// The path that a step asks to canonicalize, if it is that step.
pub open spec fn resolve_target(step: PatchStep) -> Option<Seq<char>> {
    match step {
        PatchStep::Resolve(p) => Some(p@),
        _ => None,
    }
}

/// The path that a step asks to read, if it is that step.
pub open spec fn read_target(step: PatchStep) -> Option<Seq<char>> {
    match step {
        PatchStep::Read(p) => Some(p@),
        _ => None,
    }
}

/// The path and content that a step asks to write, if it is that step.
pub open spec fn write_target(step: PatchStep) -> Option<(Seq<char>, Seq<char>)> {
    match step {
        PatchStep::Write(p, c) => Some((p@, c@)),
        _ => None,
    }
}

/// Targeted file editing via `old_string`/`new_string` replacement.
pub struct FilePatchTool {
    pub security: Arc<SecurityPolicy>,
}

impl FilePatchTool {
    pub fn new(security: Arc<SecurityPolicy>) -> (r: FilePatchTool)
        ensures
            r.security == security,
    {
        FilePatchTool { security }
    }

    pub fn name(&self) -> (r: &'static str)
        ensures
            r@ == "file_patch"@,
    {
        "file_patch"
    }

    pub fn description(&self) -> (r: &'static str)
        ensures
            r@ == "Apply a targeted edit to a file by replacing an exact string match"@,
    {
        "Apply a targeted edit to a file by replacing an exact string match"
    }

    /// Reads `path`, `old_string` and `new_string` out of the arguments; a
    /// missing one is a hard error, not a tool failure.
    pub fn parse_args(args: &JsonDoc) -> (r: Result<PatchRequest, ToolError>)
        ensures
            (match (
                str_of(field_of(Some(*args), "path"@)),
                str_of(field_of(Some(*args), "old_string"@)),
                str_of(field_of(Some(*args), "new_string"@)),
            ) {
                (Some(p), Some(o), Some(n)) => r matches Ok(req) && req.path@ == p
                    && req.old_string@ == o && req.new_string@ == n,
                (None, _, _) => r matches Err(ToolError::MissingParameter(m)) && m@ == "path"@,
                (Some(_), None, _) => r matches Err(ToolError::MissingParameter(m)) && m@
                    == "old_string"@,
                (Some(_), Some(_), None) => r matches Err(ToolError::MissingParameter(m)) && m@
                    == "new_string"@,
            }),
    {
        let path = match string_field(Some(args), "path") {
            Some(p) => p,
            None => return Err(missing_parameter("path")),
        };
        let old_string = match string_field(Some(args), "old_string") {
            Some(p) => p,
            None => return Err(missing_parameter("old_string")),
        };
        let new_string = match string_field(Some(args), "new_string") {
            Some(p) => p,
            None => return Err(missing_parameter("new_string")),
        };
        Ok(PatchRequest { path, old_string, new_string })
    }

    /// The first step: the autonomy level and the syntactic path check come
    /// before anything touches the filesystem.
    pub fn start(&self, req: &PatchRequest) -> (r: PatchStep)
        ensures
            self.security.autonomy == AutonomyLevel::ReadOnly ==> failed(r),
            self.security.autonomy != AutonomyLevel::ReadOnly && !self.security.path_allowed(
                req.path@,
            ) ==> failed_with(r, "Path not allowed by security policy: "@ + req.path@),
            self.security.autonomy != AutonomyLevel::ReadOnly && self.security.path_allowed(
                req.path@,
            ) ==> resolve_target(r) == Some(joined(self.security.workspace_dir@, req.path@)),
    {
        if !self.security.allows_writes() {
            return PatchStep::Done(
                ToolResult::failure(String::from_str("Write access denied: autonomy level is read-only")),
            );
        }
        if !self.security.is_path_allowed(req.path.as_str()) {
            let mut e = String::from_str("Path not allowed by security policy: ");
            e.append(req.path.as_str());
            return PatchStep::Done(ToolResult::failure(e));
        }
        PatchStep::Resolve(join_path(self.security.workspace_dir.as_str(), req.path.as_str()))
    }

    /// After resolution: the canonical path must still lie in the workspace,
    /// which catches a symlink that points outside it.
    pub fn on_resolved(&self, resolved: Result<String, String>) -> (r: PatchStep)
        ensures
            (match resolved {
                Err(e) => failed_with(r, "Cannot resolve path: "@ + e@),
                Ok(p) => if self.security.resolved_allowed(p@) {
                    read_target(r) == Some(p@)
                } else {
                    failed_with(r, "Resolved path escapes workspace: "@ + p@)
                },
            }),
    {
        match resolved {
            Err(e) => {
                let mut m = String::from_str("Cannot resolve path: ");
                m.append(e.as_str());
                PatchStep::Done(ToolResult::failure(m))
            },
            Ok(p) => {
                if !self.security.is_resolved_path_allowed(p.as_str()) {
                    let mut m = String::from_str("Resolved path escapes workspace: ");
                    m.append(p.as_str());
                    PatchStep::Done(ToolResult::failure(m))
                } else {
                    PatchStep::Read(p)
                }
            },
        }
    }

    /// After reading: the patch is applied in memory when the match is unique.
    pub fn on_read(&self, req: &PatchRequest, resolved: String, content: Result<String, String>) -> (r: PatchStep)
        ensures
            (match content {
                Err(e) => failed_with(r, "Failed to read file: "@ + e@),
                Ok(c) => if count_matches(c@, req.old_string@, 0) == 1 {
                    write_target(r) == Some(
                        (
                            resolved@,
                            replaced_at(
                                c@,
                                find_from(c@, req.old_string@, 0)->0,
                                req.old_string@,
                                req.new_string@,
                            ),
                        ),
                    )
                } else if count_matches(c@, req.old_string@, 0) == 0 {
                    failed_with(r, patch_error_text(PatchError::NotFound))
                } else {
                    failed_with(
                        r,
                        patch_error_text(
                            PatchError::Ambiguous(saturated(count_matches(c@, req.old_string@, 0))),
                        ),
                    )
                },
            }),
    {
        match content {
            Err(e) => {
                let mut m = String::from_str("Failed to read file: ");
                m.append(e.as_str());
                PatchStep::Done(ToolResult::failure(m))
            },
            Ok(c) => match plan_patch(c.as_str(), req.old_string.as_str(), req.new_string.as_str()) {
                Ok(n) => PatchStep::Write(resolved, n),
                Err(pe) => PatchStep::Done(ToolResult::failure(patch_error_message(pe))),
            },
        }
    }

    /// After writing: the result reports the path and the new size in bytes.
    pub fn on_written(&self, req: &PatchRequest, new_content: &str, written: Result<(), String>) -> (r: ToolResult)
        ensures
            (match written {
                Err(e) => fails_with(r, "Failed to write file: "@ + e@),
                Ok(_) => r.success,
            }),
            (written is Ok ==> r.success && r.output@ == "Patched "@ + req.path@ + " ("@ + digits(
                new_content.len() as nat,
                10,
            ) + " bytes)"@),
    {
        match written {
            Err(e) => {
                let mut m = String::from_str("Failed to write file: ");
                m.append(e.as_str());
                ToolResult::failure(m)
            },
            Ok(()) => {
                let mut m = String::from_str("Patched ");
                m.append(req.path.as_str());
                m.append(" (");
                let d = decimal(new_content.len() as u64);
                m.append(d.as_str());
                m.append(" bytes)");
                ToolResult::ok(m)
            },
        }
    }
}

} // verus!
