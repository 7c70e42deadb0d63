//! The sandbox policy consulted before any tool touches the filesystem: a
//! syntactic check on the requested path, a check on the canonical path
//! after resolution, and the autonomy level that gates writes.
use vstd::prelude::*;
use crate::text::chars_of;

verus! {

/// How much the agent may do without confirmation.
#[derive(Debug, Clone, Copy, PartialEq, Eq)]
pub enum AutonomyLevel {
    /// Reads only: no file writes, no shell.
    ReadOnly,
    /// Acts within the workspace.
    Supervised,
    /// Acts within the workspace without asking.
    Full,
}

/// The policy of one session.
#[derive(Debug, Clone)]
pub struct SecurityPolicy {
    pub autonomy: AutonomyLevel,
    /// The workspace root, as an absolute canonical path.
    pub workspace_dir: String,
}

/// A `..` segment stands at index `i` of `p`.
pub open spec fn parent_segment_at(p: Seq<char>, i: int) -> bool {
    0 <= i && i + 2 <= p.len() && (i == 0 || p[i - 1] == '/') && p[i] == '.' && p[i + 1] == '.'
        && (i + 2 == p.len() || p[i + 2] == '/')
}

/// The path climbs out through a `..` segment somewhere.
pub open spec fn has_parent_segment(p: Seq<char>) -> bool {
    exists|i: int| parent_segment_at(p, i)
}

/// `root` without its trailing slashes.
pub open spec fn strip_slashes(root: Seq<char>) -> Seq<char>
    decreases root.len(),
{
    if root.len() > 0 && root.last() == '/' {
        strip_slashes(root.drop_last())
    } else {
        root
    }
}

/// `p` is `root` or lies below it, comparing whole components.
pub open spec fn within(root: Seq<char>, p: Seq<char>) -> bool {
    let r = strip_slashes(root);
    p == r || (p.len() > r.len() && p.subrange(0, r.len() as int) == r && p[r.len() as int] == '/')
}

impl SecurityPolicy {
    /// The syntactic check: no NUL, no `..` segment, and an absolute path
    /// only inside the workspace.
    pub open spec fn path_allowed(&self, p: Seq<char>) -> bool {
        &&& !p.contains('\0')
        &&& !has_parent_segment(p)
        &&& (p.len() > 0 && p[0] == '/') ==> within(self.workspace_dir@, p)
    }

    /// The semantic check on a canonical (symlink-free) path.
    pub open spec fn resolved_allowed(&self, p: Seq<char>) -> bool {
        within(self.workspace_dir@, p)
    }

    pub fn new(autonomy: AutonomyLevel, workspace_dir: String) -> (r: SecurityPolicy)
        ensures
            r.autonomy == autonomy,
            r.workspace_dir == workspace_dir,
    {
        SecurityPolicy { autonomy, workspace_dir }
    }

    /// Whether tools that write or execute may run at all.
    pub fn allows_writes(&self) -> (r: bool)
        ensures
            r == (self.autonomy != AutonomyLevel::ReadOnly),
    {
        !matches!(self.autonomy, AutonomyLevel::ReadOnly)
    }

    /// Checks a requested path without touching the filesystem.
    pub fn is_path_allowed(&self, path: &str) -> (r: bool)
        ensures
            r == self.path_allowed(path@),
    {
        let p = chars_of(path);
        let mut i: usize = 0;
        while i < p.len()
            invariant
                p@ == path@,
                i <= p@.len(),
                forall|j: int| 0 <= j < i ==> p@[j] != '\0',
                forall|j: int| 0 <= j < i ==> !parent_segment_at(p@, j),
            decreases p@.len() - i,
        {
            if p[i] == '\0' {
                return false;
            }
            if (i == 0 || p[i - 1] == '/') && i + 1 < p.len() && p[i] == '.' && p[i + 1] == '.' && (
            i + 2 == p.len() || p[i + 2] == '/') {
                assert(parent_segment_at(p@, i as int));
                return false;
            }
            i = i + 1;
        }
        assert forall|j: int| !parent_segment_at(p@, j) by {
            if 0 <= j < p@.len() {
            }
        }
        if p.len() > 0 && p[0] == '/' {
            within_root(&self.workspace_dir, &p)
        } else {
            true
        }
    }

    /// Checks a canonical path, after symlinks are resolved.
    pub fn is_resolved_path_allowed(&self, resolved: &str) -> (r: bool)
        ensures
            r == self.resolved_allowed(resolved@),
    {
        let p = chars_of(resolved);
        within_root(&self.workspace_dir, &p)
    }
}

fn within_root(root: &String, p: &Vec<char>) -> (r: bool)
    ensures
        r == within(root@, p@),
{
    let rc = chars_of(root.as_str());
    let mut n: usize = rc.len();
    assert(rc@.subrange(0, n as int) =~= rc@);
    while n > 0 && rc[n - 1] == '/'
        invariant
            n <= rc@.len(),
            strip_slashes(rc@) == strip_slashes(rc@.subrange(0, n as int)),
        decreases n,
    {
        assert(rc@.subrange(0, n as int).drop_last() =~= rc@.subrange(0, n - 1));
        n = n - 1;
    }
    let ghost r = rc@.subrange(0, n as int);
    assert(strip_slashes(r) == r);
    if p.len() < n {
        assert(p@ != r);
        return false;
    }
    let mut j: usize = 0;
    while j < n
        invariant
            j <= n <= p@.len(),
            n <= rc@.len(),
            rc@ == root@,
            strip_slashes(root@) == r,
            r == rc@.subrange(0, n as int),
            forall|t: int| 0 <= t < j ==> p@[t] == r[t],
        decreases n - j,
    {
        if p[j] != rc[j] {
            assert(p@.subrange(0, n as int)[j as int] != r[j as int]);
            assert(p@.subrange(0, n as int) != r);
            assert(p@ != r) by {
                if p@ == r {
                    assert(p@[j as int] == r[j as int]);
                }
            }
            return false;
        }
        j = j + 1;
    }
    assert(p@.subrange(0, n as int) =~= r);
    if p.len() == n {
        assert(p@ =~= r);
        true
    } else {
        p[n] == '/'
    }
}

/// `../../etc/passwd` climbs out of the workspace: the syntactic check
/// refuses it whatever the workspace.
pub proof fn lemma_traversal_refused(policy: SecurityPolicy)
    ensures
        !policy.path_allowed(seq!['.', '.', '/', '.', '.', '/', 'e', 't', 'c', '/', 'p', 'a', 's', 's', 'w', 'd']),
{
    let p = seq!['.', '.', '/', '.', '.', '/', 'e', 't', 'c', '/', 'p', 'a', 's', 's', 'w', 'd'];
    assert(parent_segment_at(p, 0));
}

} // verus!
