//! Records of repository state handed to the user interface, and the rules
//! that derive them from raw values.
use crate::text::{
    begins_with, chars_of, has_text, index_of, lemma_index_of, line_ranges, same_text,
    slice_chars, starts_with_str, string_of, text_lines, trim_range, trim_text, trimmed, word_ranges,
    words, contains_str,
};
use crate::number::{count_or_zero, unsigned_value};
use chrono::TimeZone as _;
use vstd::prelude::*;

verus! {

#[derive(Clone, Debug)]
pub struct CommitInfo {
    pub id: String,
    pub short_id: String,
    pub message: String,
    pub author: String,
    pub author_email: String,
    pub date: String,
    pub parent_ids: Vec<String>,
}

#[derive(Clone, Debug)]
pub struct BranchInfo {
    pub name: String,
    pub is_head: bool,
    pub is_remote: bool,
    pub upstream: Option<String>,
    pub ahead: Option<u32>,
    pub behind: Option<u32>,
}

#[derive(Clone, Debug)]
pub struct BranchHead {
    pub name: String,
    pub commit_sha: String,
    pub is_head: bool,
}

#[derive(Clone, Debug)]
pub struct TagInfo {
    pub name: String,
    pub commit_sha: String,
}

#[derive(Clone, Debug)]
pub struct RepositoryInfo {
    pub path: String,
    pub name: String,
    pub current_branch: Option<String>,
    pub is_bare: bool,
    pub is_empty: bool,
}

/// A changed path and how it changed.
#[derive(Clone, Debug)]
pub struct FileStatus {
    pub path: String,
    /// "new", "modified", "deleted", "renamed", "untracked" or "unknown".
    pub status: String,
    pub staged: bool,
}

/// Changed paths, split into those with working-tree changes and those with
/// staged changes.
#[derive(Clone, Debug)]
pub struct FileStatusSeparated {
    pub unstaged: Vec<FileStatus>,
    pub staged: Vec<FileStatus>,
}

/// The status flags of one path, as the object store reports them.
#[derive(Clone, Copy, Debug)]
pub struct EntryStatus {
    pub index_new: bool,
    pub index_modified: bool,
    pub index_deleted: bool,
    pub index_renamed: bool,
    pub wt_new: bool,
    pub wt_modified: bool,
    pub wt_deleted: bool,
    pub wt_renamed: bool,
}

/// The one status of a path in the combined list: staged changes first.
pub open spec fn combined_status(s: EntryStatus) -> (Seq<char>, bool) {
    if s.index_new {
        ("new"@, true)
    } else if s.index_modified {
        ("modified"@, true)
    } else if s.index_deleted {
        ("deleted"@, true)
    } else if s.wt_new {
        ("untracked"@, false)
    } else if s.wt_modified {
        ("modified"@, false)
    } else if s.wt_deleted {
        ("deleted"@, false)
    } else {
        ("unknown"@, false)
    }
}

/// The staged status of a path, if it has staged changes.
pub open spec fn staged_status(s: EntryStatus) -> Option<Seq<char>> {
    if s.index_new {
        Some("new"@)
    } else if s.index_modified {
        Some("modified"@)
    } else if s.index_deleted {
        Some("deleted"@)
    } else if s.index_renamed {
        Some("renamed"@)
    } else {
        None
    }
}

/// The working-tree status of a path, if it has working-tree changes.
pub open spec fn unstaged_status(s: EntryStatus) -> Option<Seq<char>> {
    if s.wt_new {
        Some("untracked"@)
    } else if s.wt_modified {
        Some("modified"@)
    } else if s.wt_deleted {
        Some("deleted"@)
    } else if s.wt_renamed {
        Some("renamed"@)
    } else {
        None
    }
}

/// The entry of `path` in the combined status list.
pub fn file_status(path: &str, s: EntryStatus) -> (r: FileStatus)
    ensures
        r.path@ == path@,
        (r.status@, r.staged) == combined_status(s),
{
    let (status, staged) = if s.index_new {
        ("new", true)
    } else if s.index_modified {
        ("modified", true)
    } else if s.index_deleted {
        ("deleted", true)
    } else if s.wt_new {
        ("untracked", false)
    } else if s.wt_modified {
        ("modified", false)
    } else if s.wt_deleted {
        ("deleted", false)
    } else {
        ("unknown", false)
    };
    FileStatus { path: String::from_str(path), status: String::from_str(status), staged }
}

/// The entries of `path` in the staged and in the unstaged list.
pub fn separated_status(path: &str, s: EntryStatus) -> (r: (Option<FileStatus>, Option<FileStatus>))
    ensures
        match r.0 {
            Some(f) => staged_status(s) == Some(f.status@) && f.staged && f.path@ == path@,
            None => staged_status(s) is None,
        },
        match r.1 {
            Some(f) => unstaged_status(s) == Some(f.status@) && !f.staged && f.path@ == path@,
            None => unstaged_status(s) is None,
        },
{
    let staged = if s.index_new {
        Some("new")
    } else if s.index_modified {
        Some("modified")
    } else if s.index_deleted {
        Some("deleted")
    } else if s.index_renamed {
        Some("renamed")
    } else {
        None
    };
    let unstaged = if s.wt_new {
        Some("untracked")
    } else if s.wt_modified {
        Some("modified")
    } else if s.wt_deleted {
        Some("deleted")
    } else if s.wt_renamed {
        Some("renamed")
    } else {
        None
    };
    let a = match staged {
        Some(t) => Some(
            FileStatus { path: String::from_str(path), status: String::from_str(t), staged: true },
        ),
        None => None,
    };
    let b = match unstaged {
        Some(t) => Some(
            FileStatus { path: String::from_str(path), status: String::from_str(t), staged: false },
        ),
        None => None,
    };
    (a, b)
}

/// A commit message split into subject and body.
#[derive(Clone, Debug)]
pub struct CommitMessage {
    pub subject: String,
    pub body: String,
}

/// The subject is the first line trimmed; the body is the rest trimmed.
pub open spec fn split_message(m: Seq<char>) -> (Seq<char>, Seq<char>) {
    let k = index_of(m, '\n');
    if k < m.len() {
        (trimmed(m.take(k as int)), trimmed(m.skip(k + 1 as int)))
    } else {
        (trimmed(m), seq![])
    }
}

/// Splits a commit message into subject and body.
pub fn split_commit_message(message: &str) -> (r: CommitMessage)
    ensures
        (r.subject@, r.body@) == split_message(message@),
{
    let m = chars_of(message);
    let n = m.len();
    let mut i: usize = 0;
    while i < n && m[i] != '\n'
        invariant
            n == m@.len(),
            i <= n,
            forall|j: int| 0 <= j < i ==> m@[j] != '\n',
        decreases n - i,
    {
        i += 1;
    }
    proof {
        lemma_index_of(m@, '\n', i as int);
    }
    if i < n {
        let (a, b) = trim_range(&m, 0, i);
        let (c, d) = trim_range(&m, i + 1, n);
        assert(m@.subrange(0, i as int) =~= m@.take(i as int));
        assert(m@.subrange(i + 1, n as int) =~= m@.skip(i + 1));
        CommitMessage { subject: string_of(&slice_chars(&m, a, b)), body: string_of(&slice_chars(&m, c, d)) }
    } else {
        let (a, b) = trim_range(&m, 0, n);
        assert(m@.subrange(0, n as int) =~= m@);
        CommitMessage { subject: string_of(&slice_chars(&m, a, b)), body: String::new() }
    }
}

/// What a merge would do, computed without touching the working tree.
#[derive(Clone, Debug)]
pub struct MergePreview {
    pub source_branch: String,
    pub target_branch: String,
    pub commits_ahead: usize,
    pub can_fast_forward: bool,
    pub has_conflicts: bool,
    pub conflicting_files: Vec<String>,
}

/// The three-way merge-tree output shows a conflict.
pub open spec fn shows_conflicts(o: Seq<char>) -> bool {
    has_text(o, "<<<<<<<"@) || has_text(o, "changed in both"@) || has_text(o, "added in both"@)
}

/// A line that opens the entries of one conflicting path.
pub open spec fn opens_conflict(l: Seq<char>) -> bool {
    has_text(l, "changed in both"@) || has_text(l, "added in both"@)
}

/// Words joined by single spaces.
pub open spec fn join_words(ws: Seq<Seq<char>>) -> Seq<char>
    decreases ws.len(),
{
    if ws.len() == 0 {
        seq![]
    } else if ws.len() == 1 {
        ws[0]
    } else {
        join_words(ws.drop_last()) + " "@ + ws.last()
    }
}

/// The path of an entry line "  <stage> <mode> <id> <path>", when it has
/// at least four words.
pub open spec fn entry_path(l: Seq<char>) -> Option<Seq<char>> {
    if begins_with(l, "  "@) && words(l).len() >= 4 {
        Some(join_words(words(l).skip(3)))
    } else {
        None
    }
}

/// The paths of the entry lines inside conflict sections, each once, in
/// order of first appearance; an empty line closes a section.
pub open spec fn conflict_paths(ls: Seq<Seq<char>>, inside: bool, acc: Seq<Seq<char>>) -> Seq<
    Seq<char>,
>
    decreases ls.len(),
{
    if ls.len() == 0 {
        acc
    } else {
        let l = ls[0];
        if opens_conflict(l) {
            conflict_paths(ls.drop_first(), true, acc)
        } else {
            let acc2 = match entry_path(l) {
                Some(p) => if inside && p.len() > 0 && !acc.contains(p) {
                    acc.push(p)
                } else {
                    acc
                },
                None => acc,
            };
            conflict_paths(ls.drop_first(), inside && l.len() > 0, acc2)
        }
    }
}

/// The conflicting paths a merge-tree output names.
pub open spec fn merge_conflicts_of(o: Seq<char>) -> Seq<Seq<char>> {
    if shows_conflicts(o) {
        conflict_paths(text_lines(o), false, seq![])
    } else {
        seq![]
    }
}

fn joined_tail(l: &Vec<char>, ws: &Vec<(usize, usize)>) -> (r: String)
    requires
        ws@.len() >= 4,
        ws@.len() == words(l@).len(),
        forall|k: int| 0 <= k < ws@.len() ==> #[trigger] ws@[k].0 <= ws@[k].1 <= l@.len(),
        forall|k: int|
            0 <= k < ws@.len() ==> l@.subrange(ws@[k].0 as int, ws@[k].1 as int)
                == #[trigger] words(l@)[k],
    ensures
        r@ == join_words(words(l@).skip(3)),
{
    let ghost w = words(l@);
    let mut out = String::new();
    let mut k: usize = 3;
    assert(w.subrange(3, 3) =~= seq![]);
    while k < ws.len()
        invariant
            w == words(l@),
            ws@.len() == w.len(),
            3 <= k <= ws@.len(),
            forall|j: int| 0 <= j < ws@.len() ==> #[trigger] ws@[j].0 <= ws@[j].1 <= l@.len(),
            forall|j: int|
                0 <= j < ws@.len() ==> l@.subrange(ws@[j].0 as int, ws@[j].1 as int)
                    == #[trigger] w[j],
            out@ == join_words(w.subrange(3, k as int)),
        decreases ws@.len() - k,
    {
        let (a, b) = ws[k];
        let word = slice_chars(l, a, b);
        assert(word@ == w[k as int]);
        let ghost before = out@;
        if k > 3 {
            out.append(" ");
        }
        out.append(string_of(&word).as_str());
        proof {
            reveal_strlit(" ");
            let t = w.subrange(3, k + 1);
            assert(t.drop_last() =~= w.subrange(3, k as int));
            assert(t.last() == w[k as int]);
            if k == 3 {
                assert(out@ =~= join_words(t));
            } else {
                assert(out@ =~= before + " "@ + w[k as int]);
            }
        }
        k += 1;
    }
    assert(w.subrange(3, k as int) =~= w.skip(3));
    out
}

fn entry_path_of(l: &Vec<char>) -> (r: Option<String>)
    ensures
        match r {
            Some(p) => entry_path(l@) == Some(p@),
            None => entry_path(l@) is None,
        },
{
    if !starts_with_str(l, "  ") {
        return None;
    }
    let ws = word_ranges(l, 0, l.len());
    assert(l@.subrange(0, l@.len() as int) =~= l@);
    if ws.len() < 4 {
        return None;
    }
    Some(joined_tail(l, &ws))
}

fn listed(files: &Vec<String>, p: &String) -> (r: bool)
    ensures
        r == files@.map_values(|s: String| s@).contains(p@),
{
    let ghost fs = files@.map_values(|s: String| s@);
    let mut j: usize = 0;
    while j < files.len()
        invariant
            fs == files@.map_values(|s: String| s@),
            j <= files@.len(),
            forall|m: int| 0 <= m < j ==> fs[m] != p@,
        decreases files@.len() - j,
    {
        if same_text(files[j].as_str(), p.as_str()) {
            assert(fs[j as int] == p@);
            return true;
        }
        j += 1;
    }
    false
}

/// Whether a merge-tree output shows conflicts, and the conflicting paths
/// it names.
pub fn merge_tree_conflicts(output: &str) -> (r: (bool, Vec<String>))
    ensures
        r.0 == shows_conflicts(output@),
        r.1@.map_values(|s: String| s@) == merge_conflicts_of(output@),
{
    let o = chars_of(output);
    let conflicts = contains_str(&o, "<<<<<<<") || contains_str(&o, "changed in both")
        || contains_str(&o, "added in both");
    let mut files: Vec<String> = Vec::new();
    if !conflicts {
        assert(files@.map_values(|s: String| s@) =~= seq![]);
        return (false, files);
    }
    let ranges = line_ranges(&o);
    let ghost ls = text_lines(o@);
    let mut inside = false;
    let mut i: usize = 0;
    assert(ls.skip(0) =~= ls);
    assert(files@.map_values(|s: String| s@) =~= seq![]);
    while i < ranges.len()
        invariant
            ls == text_lines(o@),
            ranges@.len() == ls.len(),
            forall|k: int|
                0 <= k < ranges@.len() ==> #[trigger] ranges@[k].0 <= ranges@[k].1 <= o@.len(),
            forall|k: int|
                0 <= k < ranges@.len() ==> o@.subrange(ranges@[k].0 as int, ranges@[k].1 as int)
                    == #[trigger] ls[k],
            i <= ranges@.len(),
            conflict_paths(ls.skip(i as int), inside, files@.map_values(|s: String| s@))
                == conflict_paths(ls, false, seq![]),
        decreases ranges@.len() - i,
    {
        let (lo, hi) = ranges[i];
        let l = slice_chars(&o, lo, hi);
        let ghost rest = ls.skip(i as int);
        assert(l@ == rest[0]);
        assert(rest.drop_first() =~= ls.skip(i + 1));
        if contains_str(&l, "changed in both") || contains_str(&l, "added in both") {
            inside = true;
        } else {
            if let Some(p) = entry_path_of(&l) {
                if inside && p.unicode_len() > 0 && !listed(&files, &p) {
                    let ghost before = files@;
                    files.push(p);
                    assert(files@.map_values(|s: String| s@) =~= before.map_values(
                        |s: String| s@,
                    ).push(p@));
                }
            }
            inside = inside && l.len() > 0;
        }
        i += 1;
    }
    assert(ls.skip(i as int) =~= seq![]);
    (true, files)
}

/// A count printed by a command, zero when it is not a number that fits.
pub open spec fn count_of(out: Seq<char>) -> usize {
    match unsigned_value(trimmed(out)) {
        Some(x) => if x <= usize::MAX {
            x as usize
        } else {
            0
        },
        None => 0,
    }
}

/// The preview of merging `source_branch` into the checked-out branch, from
/// the outputs of the commands that ask for the current branch name, the
/// merge base, the number of commits the source is ahead, the head commit,
/// and the three-way merge tree. A fast-forward is possible when the head
/// commit is the merge base.
pub fn merge_preview(
    source_branch: &str,
    current_branch_out: &str,
    merge_base_out: &str,
    ahead_out: &str,
    head_out: &str,
    merge_tree_out: &str,
) -> (r: MergePreview)
    ensures
        r.source_branch@ == source_branch@,
        r.target_branch@ == trimmed(current_branch_out@),
        r.commits_ahead == count_of(ahead_out@),
        r.can_fast_forward == (trimmed(head_out@) == trimmed(merge_base_out@)),
        r.has_conflicts == shows_conflicts(merge_tree_out@),
        r.conflicting_files@.map_values(|s: String| s@) == merge_conflicts_of(merge_tree_out@),
{
    let head = trim_text(head_out);
    let base = trim_text(merge_base_out);
    let (has_conflicts, conflicting_files) = merge_tree_conflicts(merge_tree_out);
    MergePreview {
        source_branch: String::from_str(source_branch),
        target_branch: trim_text(current_branch_out),
        commits_ahead: count_or_zero(ahead_out),
        can_fast_forward: same_text(head.as_str(), base.as_str()),
        has_conflicts,
        conflicting_files,
    }
}

/// What chrono prints for a UTC time as "%Y-%m-%d %H:%M:%S".
pub uninterp spec fn utc_date_text(seconds: i64) -> Seq<char>;

/// Seconds from the epoch that chrono can always represent: its dates run
/// from year -262143 to year 262142, well beyond this many seconds either way.
pub open spec fn representable_time(seconds: i64) -> bool {
    -8_000_000_000_000 <= seconds <= 8_000_000_000_000
}

/// Relies on chrono's `Utc.timestamp_opt` and `format`: the UTC date and
/// time of `seconds` after the epoch, which chrono gives for every time in
/// its date range.
#[verifier::external_body]
fn utc_date(seconds: i64) -> (r: Option<String>)
    ensures
        r matches Some(t) ==> t@ == utc_date_text(seconds),
        representable_time(seconds) ==> r is Some,
{
    match chrono::Utc.timestamp_opt(seconds, 0).single() {
        Some(d) => Some(d.format("%Y-%m-%d %H:%M:%S").to_string()),
        None => None,
    }
}

/// The date of a commit made `seconds` after the epoch; empty when the time
/// cannot be represented.
pub fn commit_date(seconds: i64) -> (r: String)
    ensures
        r@ == utc_date_text(seconds) || r@.len() == 0,
        representable_time(seconds) ==> r@ == utc_date_text(seconds),
{
    match utc_date(seconds) {
        Some(t) => t,
        None => String::new(),
    }
}

/// The abbreviated form of a commit id: its first seven characters, or the
/// whole id when it is shorter.
pub open spec fn short_id_of(id: Seq<char>) -> Seq<char> {
    if id.len() <= 7 {
        id
    } else {
        id.take(7)
    }
}

/// The record of one commit; an unnamed author is "Unknown".
pub fn commit_info(
    id: &str,
    message: &str,
    author: Option<&str>,
    author_email: Option<&str>,
    seconds: i64,
    parent_ids: Vec<String>,
) -> (r: CommitInfo)
    ensures
        r.id@ == id@,
        r.short_id@ == short_id_of(id@),
        r.message@ == trimmed(message@),
        r.author@ == (match author {
            Some(a) => a@,
            None => "Unknown"@,
        }),
        r.author_email@ == (match author_email {
            Some(e) => e@,
            None => ""@,
        }),
        r.date@ == utc_date_text(seconds) || r.date@.len() == 0,
        representable_time(seconds) ==> r.date@ == utc_date_text(seconds),
        r.parent_ids@ == parent_ids@,
{
    let v = chars_of(id);
    let short = if v.len() <= 7 {
        String::from_str(id)
    } else {
        let s = string_of(&slice_chars(&v, 0, 7));
        assert(v@.subrange(0, 7) =~= v@.take(7));
        s
    };
    CommitInfo {
        id: String::from_str(id),
        short_id: short,
        message: trim_text(message),
        author: String::from_str(
            match author {
                Some(a) => a,
                None => "Unknown",
            },
        ),
        author_email: String::from_str(
            match author_email {
                Some(e) => e,
                None => "",
            },
        ),
        date: commit_date(seconds),
        parent_ids,
    }
}

} // verus!
