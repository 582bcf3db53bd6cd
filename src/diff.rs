//! The diff model of one file and the builders that fill it: from the
//! callback stream of a diff engine, or from a whole file's bytes for an
//! untracked or deleted file.
use crate::text::{
    chars_of, ends_with_str, finishes_with, line_ranges, lower_of, lowercase, push_char,
    string_of_range, text_lines,
};
use crate::patch::{line_marker, HunkLineView, HunkView};
use vstd::prelude::*;

verus! {

/// How many leading bytes are inspected for a null byte.
pub const BINARY_PROBE_LEN: usize = 8000;

#[derive(Clone, Debug)]
pub struct DiffLine {
    pub content: String,
    /// "add", "delete" or "context".
    pub line_type: String,
    pub old_line_no: Option<u32>,
    pub new_line_no: Option<u32>,
}

#[derive(Clone, Debug)]
pub struct DiffHunk {
    pub old_start: u32,
    pub old_lines: u32,
    pub new_start: u32,
    pub new_lines: u32,
    pub lines: Vec<DiffLine>,
}

/// One file's change between two comparison points.
#[derive(Clone, Debug)]
pub struct DiffInfo {
    pub file_path: String,
    pub old_content: Option<String>,
    pub new_content: Option<String>,
    pub hunks: Vec<DiffHunk>,
    pub is_binary: bool,
    /// "image", "pdf" or "other", for binary files.
    pub binary_type: Option<String>,
    pub file_size: Option<u64>,
}

pub struct DiffLineView {
    pub content: Seq<char>,
    pub line_type: Seq<char>,
    pub old_line_no: Option<u32>,
    pub new_line_no: Option<u32>,
}

pub struct DiffHunkView {
    pub old_start: nat,
    pub old_lines: nat,
    pub new_start: nat,
    pub new_lines: nat,
    pub lines: Seq<DiffLineView>,
}

pub struct DiffInfoView {
    pub file_path: Seq<char>,
    pub old_content: Option<Seq<char>>,
    pub new_content: Option<Seq<char>>,
    pub hunks: Seq<DiffHunkView>,
    pub is_binary: bool,
    pub binary_type: Option<Seq<char>>,
    pub file_size: Option<u64>,
}

pub open spec fn opt_chars(o: Option<String>) -> Option<Seq<char>> {
    match o {
        Some(s) => Some(s@),
        None => None,
    }
}

impl View for DiffLine {
    type V = DiffLineView;

    open spec fn view(&self) -> DiffLineView {
        DiffLineView {
            content: self.content@,
            line_type: self.line_type@,
            old_line_no: self.old_line_no,
            new_line_no: self.new_line_no,
        }
    }
}

impl View for DiffHunk {
    type V = DiffHunkView;

    open spec fn view(&self) -> DiffHunkView {
        DiffHunkView {
            old_start: self.old_start as nat,
            old_lines: self.old_lines as nat,
            new_start: self.new_start as nat,
            new_lines: self.new_lines as nat,
            lines: self.lines@.map_values(|l: DiffLine| l@),
        }
    }
}

impl View for DiffInfo {
    type V = DiffInfoView;

    open spec fn view(&self) -> DiffInfoView {
        DiffInfoView {
            file_path: self.file_path@,
            old_content: opt_chars(self.old_content),
            new_content: opt_chars(self.new_content),
            hunks: self.hunks@.map_values(|h: DiffHunk| h@),
            is_binary: self.is_binary,
            binary_type: opt_chars(self.binary_type),
            file_size: self.file_size,
        }
    }
}

impl DiffLineView {
    /// Added lines have no old number, deleted lines no new number, context
    /// lines both.
    pub open spec fn numbers_match_type(self) -> bool {
        if self.line_type == "add"@ {
            self.old_line_no is None && self.new_line_no is Some
        } else if self.line_type == "delete"@ {
            self.old_line_no is Some && self.new_line_no is None
        } else {
            self.line_type == "context"@ && self.old_line_no is Some && self.new_line_no is Some
        }
    }
}

// ---------------------------------------------------------------------------
// Binary detection
// ---------------------------------------------------------------------------

/// Content is binary when a null byte occurs among its first 8000 bytes.
pub open spec fn binary_content(b: Seq<u8>) -> bool {
    exists|i: int| 0 <= i < b.len() && i < BINARY_PROBE_LEN && b[i] == 0
}

/// Whether a null byte occurs among the first 8000 bytes of `content`.
pub fn is_binary_content(content: &[u8]) -> (r: bool)
    ensures
        r == binary_content(content@),
{
    let n: usize = if content.len() < BINARY_PROBE_LEN {
        content.len()
    } else {
        BINARY_PROBE_LEN
    };
    let mut i: usize = 0;
    while i < n
        invariant
            n <= content@.len(),
            n <= BINARY_PROBE_LEN,
            n == content@.len() || n == BINARY_PROBE_LEN,
            i <= n,
            forall|j: int| 0 <= j < i ==> content@[j] != 0,
        decreases n - i,
    {
        if content[i] == 0 {
            return true;
        }
        i += 1;
    }
    false
}

/// The rendering kind of a binary file, from its lower-cased path.
pub open spec fn binary_kind_of(l: Seq<char>) -> Seq<char> {
    if finishes_with(l, ".png"@) || finishes_with(l, ".jpg"@) || finishes_with(l, ".jpeg"@)
        || finishes_with(l, ".gif"@) || finishes_with(l, ".bmp"@) || finishes_with(l, ".webp"@)
        || finishes_with(l, ".svg"@) || finishes_with(l, ".ico"@) {
        "image"@
    } else if finishes_with(l, ".pdf"@) {
        "pdf"@
    } else {
        "other"@
    }
}

/// The rendering kind of a binary file whose path is already lower-cased.
pub fn binary_kind_of_lowered(lowered: &str) -> (r: String)
    ensures
        r@ == binary_kind_of(lowered@),
{
    let l = chars_of(lowered);
    if ends_with_str(&l, ".png") || ends_with_str(&l, ".jpg") || ends_with_str(&l, ".jpeg")
        || ends_with_str(&l, ".gif") || ends_with_str(&l, ".bmp") || ends_with_str(&l, ".webp")
        || ends_with_str(&l, ".svg") || ends_with_str(&l, ".ico") {
        String::from_str("image")
    } else if ends_with_str(&l, ".pdf") {
        String::from_str("pdf")
    } else {
        String::from_str("other")
    }
}

/// The rendering kind of a binary file, by its extension in any case.
pub fn get_binary_type(file_path: &str) -> (r: Option<String>)
    ensures
        opt_chars(r) == Some(binary_kind_of(lower_of(file_path@))),
{
    let lowered = lowercase(file_path);
    Some(binary_kind_of_lowered(lowered.as_str()))
}

// ---------------------------------------------------------------------------
// Whole-file diffs
// ---------------------------------------------------------------------------

/// What `String::from_utf8_lossy` makes of some bytes.
pub uninterp spec fn utf8_lossy_of(b: Seq<u8>) -> Seq<char>;

/// Relies on `String::from_utf8_lossy`: the text depends on the bytes alone.
#[verifier::external_body]
fn lossy_text(b: &[u8]) -> (r: String)
    ensures
        r@ == utf8_lossy_of(b@),
{
    String::from_utf8_lossy(b).into_owned()
}

/// Line `i` (from zero) of a file shown whole: its text with one newline,
/// tagged "add" with new number `i + 1`, or "delete" with old number `i + 1`.
pub open spec fn whole_file_line(l: Seq<char>, i: int, added: bool) -> DiffLineView {
    DiffLineView {
        content: l + "\n"@,
        line_type: if added {
            "add"@
        } else {
            "delete"@
        },
        old_line_no: if added {
            None
        } else {
            Some((i + 1) as u32)
        },
        new_line_no: if added {
            Some((i + 1) as u32)
        } else {
            None
        },
    }
}

/// The one hunk of a file shown whole: old range (0,0) and new range (1,N)
/// for an added file, old range (1,N) and new range (0,0) for a deleted one.
pub open spec fn whole_file_hunk(ls: Seq<Seq<char>>, added: bool) -> DiffHunkView {
    DiffHunkView {
        old_start: if added {
            0
        } else {
            1
        },
        old_lines: if added {
            0
        } else {
            ls.len()
        },
        new_start: if added {
            1
        } else {
            0
        },
        new_lines: if added {
            ls.len()
        } else {
            0
        },
        lines: Seq::new(ls.len(), |i: int| whole_file_line(ls[i], i, added)),
    }
}

/// The lines of a file's content: the lines of its text with invalid byte
/// sequences replaced.
pub open spec fn file_lines(content: Seq<u8>) -> Seq<Seq<char>> {
    text_lines(utf8_lossy_of(content))
}

/// The diff of a file shown whole, as added (`added`) or deleted;
/// `store_binary` is the object store's own binary flag. A text file whose
/// lines cannot all be numbered with 32 bits has none.
pub open spec fn whole_file_view(
    path: Seq<char>,
    content: Seq<u8>,
    added: bool,
    store_binary: bool,
) -> Option<DiffInfoView> {
    if store_binary || binary_content(content) {
        Some(
            DiffInfoView {
                file_path: path,
                old_content: None,
                new_content: None,
                hunks: seq![],
                is_binary: true,
                binary_type: Some(binary_kind_of(lower_of(path))),
                file_size: Some(content.len() as u64),
            },
        )
    } else if file_lines(content).len() > u32::MAX {
        None
    } else {
        Some(
            DiffInfoView {
                file_path: path,
                old_content: if added {
                    None
                } else {
                    Some(utf8_lossy_of(content))
                },
                new_content: if added {
                    Some(utf8_lossy_of(content))
                } else {
                    None
                },
                hunks: seq![whole_file_hunk(file_lines(content), added)],
                is_binary: false,
                binary_type: None,
                file_size: Some(content.len() as u64),
            },
        )
    }
}

pub open spec fn diff_view(o: Option<DiffInfo>) -> Option<DiffInfoView> {
    match o {
        Some(d) => Some(d@),
        None => None,
    }
}

fn whole_file_diff(file_path: &str, content: &[u8], added: bool, store_binary: bool) -> (r: Option<
    DiffInfo,
>)
    ensures
        diff_view(r) == whole_file_view(file_path@, content@, added, store_binary),
{
    let file_size = content.len() as u64;
    if store_binary || is_binary_content(content) {
        let r = DiffInfo {
            file_path: String::from_str(file_path),
            old_content: None,
            new_content: None,
            hunks: Vec::new(),
            is_binary: true,
            binary_type: get_binary_type(file_path),
            file_size: Some(file_size),
        };
        assert(r@.hunks =~= seq![]);
        return Some(r);
    }
    let text = lossy_text(content);
    let v = chars_of(text.as_str());
    let ranges = line_ranges(&v);
    let ghost ls = file_lines(content@);
    if ranges.len() > 4294967295usize {
        return None;
    }
    let mut lines: Vec<DiffLine> = Vec::new();
    let mut i: usize = 0;
    while i < ranges.len()
        invariant
            v@ == utf8_lossy_of(content@),
            ls == text_lines(v@),
            ranges@.len() == ls.len(),
            ls.len() <= u32::MAX,
            forall|k: int|
                0 <= k < ranges@.len() ==> #[trigger] ranges@[k].0 <= ranges@[k].1 <= v@.len(),
            forall|k: int|
                0 <= k < ranges@.len() ==> v@.subrange(ranges@[k].0 as int, ranges@[k].1 as int)
                    == #[trigger] ls[k],
            i <= ranges@.len(),
            lines@.len() == i,
            forall|k: int|
                0 <= k < i ==> (#[trigger] lines@[k])@ == whole_file_line(ls[k], k, added),
        decreases ranges@.len() - i,
    {
        let (lo, hi) = ranges[i];
        let mut line_text = string_of_range(&v, lo, hi);
        push_char(&mut line_text, '\n');
        proof {
            reveal_strlit("\n");
        }
        assert(line_text@ =~= ls[i as int] + "\n"@);
        let no: u32 = (i + 1) as u32;
        let line = DiffLine {
            content: line_text,
            line_type: if added {
                String::from_str("add")
            } else {
                String::from_str("delete")
            },
            old_line_no: if added {
                None
            } else {
                Some(no)
            },
            new_line_no: if added {
                Some(no)
            } else {
                None
            },
        };
        assert(line@ == whole_file_line(ls[i as int], i as int, added));
        lines.push(line);
        i += 1;
    }
    let n: u32 = ranges.len() as u32;
    let hunk = DiffHunk {
        old_start: if added {
            0
        } else {
            1
        },
        old_lines: if added {
            0
        } else {
            n
        },
        new_start: if added {
            1
        } else {
            0
        },
        new_lines: if added {
            n
        } else {
            0
        },
        lines,
    };
    assert(hunk@.lines =~= whole_file_hunk(ls, added).lines);
    let (old_content, new_content) = if added {
        (None, Some(text))
    } else {
        (Some(text), None)
    };
    let r = DiffInfo {
        file_path: String::from_str(file_path),
        old_content,
        new_content,
        hunks: vec![hunk],
        is_binary: false,
        binary_type: None,
        file_size: Some(file_size),
    };
    assert(r@.hunks =~= seq![whole_file_hunk(ls, added)]);
    Some(r)
}

/// The diff of an untracked file from its bytes: binary files get no hunk,
/// text files one hunk that adds every line; `None` when a text file has
/// more lines than 32-bit line numbers can count.
pub fn untracked_file_diff(file_path: &str, content: &[u8]) -> (r: Option<DiffInfo>)
    ensures
        diff_view(r) == whole_file_view(file_path@, content@, true, false),
{
    whole_file_diff(file_path, content, true, false)
}

/// The diff of a tracked file deleted from the working tree, from its bytes
/// at the last commit and the object store's binary flag: binary files get
/// no hunk, text files one hunk that deletes every line; `None` when a text
/// file has more lines than 32-bit line numbers can count.
pub fn deleted_file_diff(file_path: &str, content: &[u8], store_binary: bool) -> (r: Option<
    DiffInfo,
>)
    ensures
        diff_view(r) == whole_file_view(file_path@, content@, false, store_binary),
{
    whole_file_diff(file_path, content, false, store_binary)
}

// ---------------------------------------------------------------------------
// Diffs from a diff engine's callback stream
// ---------------------------------------------------------------------------

/// One callback of a path-scoped diff walk, in the order the engine makes
/// them.
#[derive(Clone, Debug)]
pub enum DiffEvent {
    /// The engine reports the delta as binary.
    Binary,
    /// A hunk starts, with its ranges.
    Hunk { old_start: u32, old_lines: u32, new_start: u32, new_lines: u32 },
    /// A line of the current hunk; `origin` is '+', '-' or ' '.
    Line { origin: char, content: Vec<u8>, old_line_no: Option<u32>, new_line_no: Option<u32> },
}

/// The type of a line from its origin marker.
pub open spec fn origin_type(origin: char) -> Seq<char> {
    if origin == '+' {
        "add"@
    } else if origin == '-' {
        "delete"@
    } else {
        "context"@
    }
}

/// The hunks that a stream of callbacks describes; a line before any hunk
/// is dropped.
pub open spec fn hunks_of(evs: Seq<DiffEvent>) -> Seq<DiffHunkView>
    decreases evs.len(),
{
    if evs.len() == 0 {
        seq![]
    } else {
        let hs = hunks_of(evs.drop_last());
        match evs.last() {
            DiffEvent::Binary => hs,
            DiffEvent::Hunk { old_start, old_lines, new_start, new_lines } => hs.push(
                DiffHunkView {
                    old_start: old_start as nat,
                    old_lines: old_lines as nat,
                    new_start: new_start as nat,
                    new_lines: new_lines as nat,
                    lines: seq![],
                },
            ),
            DiffEvent::Line { origin, content, old_line_no, new_line_no } => if hs.len() == 0 {
                hs
            } else {
                let h = hs.last();
                hs.update(
                    hs.len() - 1,
                    DiffHunkView {
                        lines: h.lines.push(
                            DiffLineView {
                                content: utf8_lossy_of(content@),
                                line_type: origin_type(origin),
                                old_line_no,
                                new_line_no,
                            },
                        ),
                        ..h
                    },
                )
            },
        }
    }
}

/// The stream reports a binary delta.
pub open spec fn reports_binary(evs: Seq<DiffEvent>) -> bool {
    exists|i: int| 0 <= i < evs.len() && evs[i] is Binary
}

/// The diff of a tracked file from the engine's callbacks and the file's
/// content on the compared side: binary when the engine says so or when the
/// content is, and then without hunks.
pub open spec fn tracked_view(path: Seq<char>, evs: Seq<DiffEvent>, content: Seq<u8>) -> DiffInfoView {
    let binary = reports_binary(evs) || binary_content(content);
    DiffInfoView {
        file_path: path,
        old_content: None,
        new_content: None,
        hunks: if binary {
            seq![]
        } else {
            hunks_of(evs)
        },
        is_binary: binary,
        binary_type: if binary {
            Some(binary_kind_of(lower_of(path)))
        } else {
            None
        },
        file_size: None,
    }
}

fn origin_text(origin: char) -> (r: String)
    ensures
        r@ == origin_type(origin),
{
    if origin == '+' {
        String::from_str("add")
    } else if origin == '-' {
        String::from_str("delete")
    } else {
        String::from_str("context")
    }
}

/// Builds the diff of a tracked file from the callbacks of a path-scoped
/// diff walk and the file's content on the compared side.
pub fn parse_diff(file_path: &str, events: &Vec<DiffEvent>, content: &[u8]) -> (r: DiffInfo)
    ensures
        r@ == tracked_view(file_path@, events@, content@),
{
    let mut hunks: Vec<DiffHunk> = Vec::new();
    let mut binary = false;
    let mut i: usize = 0;
    while i < events.len()
        invariant
            i <= events@.len(),
            hunks@.map_values(|h: DiffHunk| h@) == hunks_of(events@.take(i as int)),
            binary == reports_binary(events@.take(i as int)),
        decreases events@.len() - i,
    {
        let ghost prev = events@.take(i as int);
        let ghost next = events@.take(i + 1);
        assert(next.drop_last() =~= prev);
        assert(next.last() == events@[i as int]);
        let ghost old_hunks = hunks@;
        match &events[i] {
            DiffEvent::Binary => {
                binary = true;
                assert(reports_binary(next)) by {
                    assert(next[i as int] is Binary);
                }
            },
            DiffEvent::Hunk { old_start, old_lines, new_start, new_lines } => {
                hunks.push(
                    DiffHunk {
                        old_start: *old_start,
                        old_lines: *old_lines,
                        new_start: *new_start,
                        new_lines: *new_lines,
                        lines: Vec::new(),
                    },
                );
                assert(hunks@.map_values(|h: DiffHunk| h@) =~= old_hunks.map_values(
                    |h: DiffHunk| h@,
                ).push(hunks@.last()@));
                assert(hunks@.last()@.lines =~= seq![]);
            },
            DiffEvent::Line { origin, content, old_line_no, new_line_no } => {
                if hunks.len() > 0 {
                    let line = DiffLine {
                        content: lossy_text(content.as_slice()),
                        line_type: origin_text(*origin),
                        old_line_no: *old_line_no,
                        new_line_no: *new_line_no,
                    };
                    let last = hunks.len() - 1;
                    let mut h = hunks.pop().unwrap();
                    let ghost old_lines = h.lines@;
                    h.lines.push(line);
                    assert(h@.lines =~= old_hunks[last as int]@.lines.push(line@));
                    hunks.push(h);
                    assert(hunks@.map_values(|h: DiffHunk| h@) =~= old_hunks.map_values(
                        |h: DiffHunk| h@,
                    ).update(last as int, h@));
                }
            },
        }
        proof {
            if !(events@[i as int] is Binary) {
                if reports_binary(next) {
                    let j = choose|j: int| 0 <= j < next.len() && next[j] is Binary;
                    assert(j < i);
                    assert(prev[j] is Binary);
                }
                if reports_binary(prev) {
                    let j = choose|j: int| 0 <= j < prev.len() && prev[j] is Binary;
                    assert(next[j] is Binary);
                }
            }
        }
        i += 1;
    }
    assert(events@.take(i as int) =~= events@);
    let is_binary = binary || is_binary_content(content);
    if is_binary {
        let r = DiffInfo {
            file_path: String::from_str(file_path),
            old_content: None,
            new_content: None,
            hunks: Vec::new(),
            is_binary: true,
            binary_type: get_binary_type(file_path),
            file_size: None,
        };
        assert(r@.hunks =~= seq![]);
        r
    } else {
        DiffInfo {
            file_path: String::from_str(file_path),
            old_content: None,
            new_content: None,
            hunks,
            is_binary: false,
            binary_type: None,
            file_size: None,
        }
    }
}

// ---------------------------------------------------------------------------
// Laws
// ---------------------------------------------------------------------------

/// An untracked text file of N lines (the lines of its decoded text)
/// yields exactly one hunk, with old range (0,0) and new range (1,N), whose
/// lines are all additions numbered 1..N; N must fit 32-bit line numbers.
pub proof fn untracked_text_file_is_one_added_hunk(path: Seq<char>, content: Seq<u8>)
    requires
        !binary_content(content),
        file_lines(content).len() <= u32::MAX,
    ensures
        whole_file_view(path, content, true, false) is Some,
        ({
            let d = whole_file_view(path, content, true, false)->0;
            let n = file_lines(content).len();
            &&& !d.is_binary
            &&& d.hunks.len() == 1
            &&& d.hunks[0].old_start == 0 && d.hunks[0].old_lines == 0
            &&& d.hunks[0].new_start == 1 && d.hunks[0].new_lines == n
            &&& d.hunks[0].lines.len() == n
            &&& forall|i: int|
                0 <= i < n ==> {
                    let l = #[trigger] d.hunks[0].lines[i];
                    &&& l.line_type == "add"@
                    &&& l.old_line_no is None
                    &&& l.new_line_no matches Some(k) && k == i + 1
                    &&& l.numbers_match_type()
                }
        }),
{
    reveal_strlit("add");
    reveal_strlit("delete");
}

/// A tracked file deleted from the working tree, N lines of text at the last
/// commit, yields exactly one hunk, with old range (1,N) and new range (0,0),
/// whose lines are all deletions numbered 1..N; N must fit 32-bit line
/// numbers.
pub proof fn deleted_text_file_is_one_deleted_hunk(path: Seq<char>, content: Seq<u8>)
    requires
        !binary_content(content),
        file_lines(content).len() <= u32::MAX,
    ensures
        whole_file_view(path, content, false, false) is Some,
        ({
            let d = whole_file_view(path, content, false, false)->0;
            let n = file_lines(content).len();
            &&& !d.is_binary
            &&& d.hunks.len() == 1
            &&& d.hunks[0].old_start == 1 && d.hunks[0].old_lines == n
            &&& d.hunks[0].new_start == 0 && d.hunks[0].new_lines == 0
            &&& d.hunks[0].lines.len() == n
            &&& forall|i: int|
                0 <= i < n ==> {
                    let l = #[trigger] d.hunks[0].lines[i];
                    &&& l.line_type == "delete"@
                    &&& l.new_line_no is None
                    &&& l.old_line_no matches Some(k) && k == i + 1
                    &&& l.numbers_match_type()
                }
        }),
{
    reveal_strlit("add");
    reveal_strlit("delete");
}

/// Content with a null byte among its first 8000 bytes is binary and has no
/// hunks, whichever way its diff is built.
pub proof fn null_byte_means_binary_without_hunks(
    path: Seq<char>,
    content: Seq<u8>,
    events: Seq<DiffEvent>,
    store_binary: bool,
)
    requires
        binary_content(content),
    ensures
        whole_file_view(path, content, true, false) matches Some(d) && d.is_binary
            && d.hunks.len() == 0,
        whole_file_view(path, content, false, store_binary) matches Some(d) && d.is_binary
            && d.hunks.len() == 0,
        tracked_view(path, events, content).is_binary,
        tracked_view(path, events, content).hunks.len() == 0,
{
}

/// The hunk as the user selects it from a shown diff.
pub open spec fn selected_hunk(d: DiffHunkView) -> HunkView {
    HunkView {
        old_start: d.old_start,
        old_lines: d.old_lines,
        new_start: d.new_start,
        new_lines: d.new_lines,
        lines: d.lines.map_values(
            |l: DiffLineView| HunkLineView { content: l.content, line_type: l.line_type },
        ),
    }
}

/// How many body lines of a patch belong to the old side (those not
/// marked '+').
pub open spec fn old_side_count(ls: Seq<HunkLineView>) -> nat
    decreases ls.len(),
{
    if ls.len() == 0 {
        0
    } else {
        old_side_count(ls.drop_last()) + if line_marker(ls.last().line_type) == '+' {
            0nat
        } else {
            1nat
        }
    }
}

/// How many body lines of a patch belong to the new side (those not
/// marked '-').
pub open spec fn new_side_count(ls: Seq<HunkLineView>) -> nat
    decreases ls.len(),
{
    if ls.len() == 0 {
        0
    } else {
        new_side_count(ls.drop_last()) + if line_marker(ls.last().line_type) == '-' {
            0nat
        } else {
            1nat
        }
    }
}

proof fn lemma_whole_file_counts(ls: Seq<Seq<char>>, added: bool, n: nat)
    requires
        n <= ls.len(),
    ensures
        ({
            let sel = selected_hunk(whole_file_hunk(ls, added)).lines.take(n as int);
            &&& old_side_count(sel) == if added {
                0
            } else {
                n
            }
            &&& new_side_count(sel) == if added {
                n
            } else {
                0
            }
        }),
    decreases n,
{
    reveal_strlit("add");
    reveal_strlit("delete");
    let all = selected_hunk(whole_file_hunk(ls, added)).lines;
    if n > 0 {
        lemma_whole_file_counts(ls, added, (n - 1) as nat);
        let t = all.take(n as int);
        assert(t.drop_last() =~= all.take(n - 1));
        assert(t.last() == all[n - 1]);
        assert(all[n - 1].line_type == whole_file_line(ls[n - 1], n - 1, added).line_type);
        if added {
            assert(line_marker(t.last().line_type) == '+');
        } else {
            assert("delete"@ != "add"@) by {
                assert("delete"@.len() != "add"@.len());
            }
            assert(line_marker(t.last().line_type) == '-');
        }
    } else {
        assert(all.take(0) =~= seq![]);
    }
}

/// The hunk shown for a whole added or deleted text file, once selected and
/// serialised, has a header whose old and new line counts match its body:
/// the lines not marked '+' number `old_lines`, those not marked '-'
/// number `new_lines`.
pub proof fn whole_file_hunk_counts_match_its_patch(path: Seq<char>, content: Seq<u8>, added: bool)
    requires
        !binary_content(content),
        file_lines(content).len() <= u32::MAX,
    ensures
        ({
            let h = selected_hunk(whole_file_view(path, content, added, false)->0.hunks[0]);
            &&& old_side_count(h.lines) == h.old_lines
            &&& new_side_count(h.lines) == h.new_lines
        }),
{
    let ls = file_lines(content);
    lemma_whole_file_counts(ls, added, ls.len());
    let all = selected_hunk(whole_file_hunk(ls, added)).lines;
    assert(all.take(ls.len() as int) =~= all);
}

} // verus!
