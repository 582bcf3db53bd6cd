//! Which file-system change notifications of a watched repository matter.
use crate::text::{chars_of, contains_str, ends_with_str, finishes_with, has_text, same_text};
use vstd::prelude::*;

verus! {

/// Payload announcing that files of a repository changed.
#[derive(Clone, Debug)]
pub struct FileChangeEvent {
    pub repo_path: String,
    pub timestamp: u64,
}

/// Payload announcing that the checked-out branch of a repository changed.
#[derive(Clone, Debug)]
pub struct BranchChangeEvent {
    pub repo_path: String,
    pub timestamp: u64,
}

/// Path fragments whose changes are not reported.
pub open spec fn ignored_fragment(p: Seq<char>) -> bool {
    has_text(p, ".git/objects"@) || has_text(p, ".git/logs"@) || has_text(p, ".git/hooks"@)
        || has_text(p, ".git/refs"@) || has_text(p, "node_modules"@) || has_text(p, "target"@)
        || has_text(p, ".next"@) || has_text(p, "dist"@) || has_text(p, "build"@) || has_text(
        p,
        "__pycache__"@,
    ) || has_text(p, ".turbo"@)
}

/// Whether a change at `path` is not reported: the path holds one of the
/// ignored fragments (object store, logs, hooks, refs, build outputs).
pub fn should_ignore_path(path: &str) -> (r: bool)
    ensures
        r == ignored_fragment(path@),
{
    let p = chars_of(path);
    contains_str(&p, ".git/objects") || contains_str(&p, ".git/logs") || contains_str(
        &p,
        ".git/hooks",
    ) || contains_str(&p, ".git/refs") || contains_str(&p, "node_modules") || contains_str(
        &p,
        "target",
    ) || contains_str(&p, ".next") || contains_str(&p, "dist") || contains_str(&p, "build")
        || contains_str(&p, "__pycache__") || contains_str(&p, ".turbo")
}

/// The path names the repository's HEAD file: its last two components are
/// `.git` and `HEAD`, or its last component is `.git\HEAD`.
pub open spec fn head_file_path(p: Seq<char>) -> bool {
    p == ".git/HEAD"@ || finishes_with(p, "/.git/HEAD"@) || p == ".git\\HEAD"@ || finishes_with(
        p,
        "/.git\\HEAD"@,
    )
}

/// Whether a change at `path` is a change of the checked-out branch.
pub fn is_git_head_file(path: &str) -> (r: bool)
    ensures
        r == head_file_path(path@),
{
    let p = chars_of(path);
    same_text(path, ".git/HEAD") || ends_with_str(&p, "/.git/HEAD") || same_text(path, ".git\\HEAD")
        || ends_with_str(&p, "/.git\\HEAD")
}

/// A change at `p` is reported as a change of files.
pub open spec fn file_change(p: Seq<char>) -> bool {
    !ignored_fragment(p) && !head_file_path(p)
}

/// For a batch of changed paths: whether the checked-out branch changed,
/// and whether any file change is to be reported.
pub fn changes_of(paths: &Vec<String>) -> (r: (bool, bool))
    ensures
        r.0 == exists|i: int| 0 <= i < paths@.len() && head_file_path(#[trigger] paths@[i]@),
        r.1 == exists|i: int| 0 <= i < paths@.len() && file_change(#[trigger] paths@[i]@),
{
    let mut branch = false;
    let mut files = false;
    let mut i: usize = 0;
    while i < paths.len()
        invariant
            i <= paths@.len(),
            branch == exists|j: int| 0 <= j < i && head_file_path(#[trigger] paths@[j]@),
            files == exists|j: int| 0 <= j < i && file_change(#[trigger] paths@[j]@),
        decreases paths@.len() - i,
    {
        let p = paths[i].as_str();
        let head = is_git_head_file(p);
        let ignored = should_ignore_path(p);
        if head {
            branch = true;
        }
        if !ignored && !head {
            files = true;
        }
        proof {
            if !head {
                if exists|j: int| 0 <= j < i + 1 && head_file_path(#[trigger] paths@[j]@) {
                    let j = choose|j: int| 0 <= j < i + 1 && head_file_path(#[trigger] paths@[j]@);
                    assert(j < i);
                }
            }
            if ignored || head {
                if exists|j: int| 0 <= j < i + 1 && file_change(#[trigger] paths@[j]@) {
                    let j = choose|j: int| 0 <= j < i + 1 && file_change(#[trigger] paths@[j]@);
                    assert(j < i);
                }
            }
        }
        i += 1;
    }
    (branch, files)
}

} // verus!
