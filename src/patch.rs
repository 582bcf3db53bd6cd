//! Serialisation of one selected hunk into a minimal unified-diff patch, and
//! the patch-apply targets it can be sent to.
use crate::text::{chars_of, push_char, same_text, trim_text, trimmed};
use vstd::prelude::*;

verus! {

/// One line of a hunk chosen by the user.
#[derive(Clone, Debug)]
pub struct HunkLineData {
    pub content: String,
    /// "add", "delete" or "context".
    pub line_type: String,
}

/// A hunk chosen by the user, with its version-control ranges.
#[derive(Clone, Debug)]
pub struct HunkData {
    pub old_start: u32,
    pub old_lines: u32,
    pub new_start: u32,
    pub new_lines: u32,
    pub lines: Vec<HunkLineData>,
}

pub struct HunkLineView {
    pub content: Seq<char>,
    pub line_type: Seq<char>,
}

pub struct HunkView {
    pub old_start: nat,
    pub old_lines: nat,
    pub new_start: nat,
    pub new_lines: nat,
    pub lines: Seq<HunkLineView>,
}

impl View for HunkLineData {
    type V = HunkLineView;

    open spec fn view(&self) -> HunkLineView {
        HunkLineView { content: self.content@, line_type: self.line_type@ }
    }
}

impl View for HunkData {
    type V = HunkView;

    open spec fn view(&self) -> HunkView {
        HunkView {
            old_start: self.old_start as nat,
            old_lines: self.old_lines as nat,
            new_start: self.new_start as nat,
            new_lines: self.new_lines as nat,
            lines: self.lines@.map_values(|l: HunkLineData| l@),
        }
    }
}

pub open spec fn digit(d: nat) -> char {
    if d == 0 {
        '0'
    } else if d == 1 {
        '1'
    } else if d == 2 {
        '2'
    } else if d == 3 {
        '3'
    } else if d == 4 {
        '4'
    } else if d == 5 {
        '5'
    } else if d == 6 {
        '6'
    } else if d == 7 {
        '7'
    } else if d == 8 {
        '8'
    } else {
        '9'
    }
}

/// The decimal digits of `n`, without leading zeros.
pub open spec fn decimal(n: nat) -> Seq<char>
    decreases n,
{
    if n < 10 {
        seq![digit(n)]
    } else {
        decimal(n / 10).push(digit(n % 10))
    }
}

/// `s` without its trailing carriage returns and newlines.
pub open spec fn strip_eol(s: Seq<char>) -> Seq<char>
    decreases s.len(),
{
    if s.len() > 0 && (s.last() == '\n' || s.last() == '\r') {
        strip_eol(s.drop_last())
    } else {
        s
    }
}

/// The marker of a line in a patch: '+' for an added line, '-' for a
/// deleted one, ' ' otherwise.
pub open spec fn line_marker(line_type: Seq<char>) -> char {
    if line_type == "add"@ {
        '+'
    } else if line_type == "delete"@ {
        '-'
    } else {
        ' '
    }
}

/// The patch header: file names, then the hunk header.
pub open spec fn patch_header(path: Seq<char>, h: HunkView) -> Seq<char> {
    "diff --git a/"@ + path + " b/"@ + path + "\n"@ + "--- a/"@ + path + "\n"@ + "+++ b/"@ + path
        + "\n"@ + "@@ -"@ + decimal(h.old_start) + ","@ + decimal(h.old_lines) + " +"@ + decimal(
        h.new_start,
    ) + ","@ + decimal(h.new_lines) + " @@\n"@
}

/// The body line of one hunk line: marker, content without its line
/// terminator, one newline.
pub open spec fn body_line(l: HunkLineView) -> Seq<char> {
    seq![line_marker(l.line_type)] + strip_eol(l.content) + "\n"@
}

pub open spec fn patch_body(ls: Seq<HunkLineView>) -> Seq<char>
    decreases ls.len(),
{
    if ls.len() == 0 {
        seq![]
    } else {
        patch_body(ls.drop_last()) + body_line(ls.last())
    }
}

/// The whole patch for one hunk of the file at `path`.
pub open spec fn patch_text(path: Seq<char>, h: HunkView) -> Seq<char> {
    patch_header(path, h) + patch_body(h.lines)
}

fn digit_char(d: u64) -> (r: char)
    requires
        d < 10,
    ensures
        r == digit(d as nat),
{
    if d == 0 {
        '0'
    } else if d == 1 {
        '1'
    } else if d == 2 {
        '2'
    } else if d == 3 {
        '3'
    } else if d == 4 {
        '4'
    } else if d == 5 {
        '5'
    } else if d == 6 {
        '6'
    } else if d == 7 {
        '7'
    } else if d == 8 {
        '8'
    } else {
        '9'
    }
}

/// Appends the decimal digits of `n` to `out`.
pub fn push_decimal(out: &mut String, n: u64)
    ensures
        final(out)@ == old(out)@ + decimal(n as nat),
    decreases n,
{
    if n >= 10 {
        push_decimal(out, n / 10);
    }
    push_char(out, digit_char(n % 10));
    assert(decimal(n as nat) == if n < 10 {
        seq![digit(n as nat)]
    } else {
        decimal((n / 10) as nat).push(digit((n % 10) as nat))
    });
    assert(final(out)@ =~= old(out)@ + decimal(n as nat));
}

/// Appends `s` without its trailing carriage returns and newlines.
fn push_without_eol(out: &mut String, s: &str)
    ensures
        final(out)@ == old(out)@ + strip_eol(s@),
{
    let v = chars_of(s);
    let mut n: usize = v.len();
    assert(v@.take(n as int) =~= v@);
    while n > 0 && (v[n - 1] == '\n' || v[n - 1] == '\r')
        invariant
            n <= v@.len(),
            strip_eol(v@) == strip_eol(v@.take(n as int)),
        decreases n,
    {
        assert(v@.take(n as int).drop_last() =~= v@.take(n - 1));
        n -= 1;
    }
    assert(v@.take(n as int) == strip_eol(v@.take(n as int)));
    let mut i: usize = 0;
    let ghost start = out@;
    while i < n
        invariant
            i <= n <= v@.len(),
            out@ == start + v@.take(i as int),
        decreases n - i,
    {
        push_char(out, v[i]);
        i += 1;
        assert(out@ =~= start + v@.take(i as int));
    }
}

fn marker_of(line_type: &str) -> (r: char)
    ensures
        r == line_marker(line_type@),
{
    if same_text(line_type, "add") {
        '+'
    } else if same_text(line_type, "delete") {
        '-'
    } else {
        ' '
    }
}

/// The unified-diff patch that holds exactly `hunk` of the file at
/// `file_path`: a header naming the file twice, the hunk header
/// `@@ -old_start,old_lines +new_start,new_lines @@`, and one line per hunk
/// line, its content stripped of line terminators and ended by one newline.
pub fn generate_patch(file_path: &str, hunk: &HunkData) -> (r: String)
    ensures
        r@ == patch_text(file_path@, hunk@),
{
    let mut p = String::new();
    p.append("diff --git a/");
    p.append(file_path);
    p.append(" b/");
    p.append(file_path);
    p.append("\n");
    p.append("--- a/");
    p.append(file_path);
    p.append("\n");
    p.append("+++ b/");
    p.append(file_path);
    p.append("\n");
    p.append("@@ -");
    push_decimal(&mut p, hunk.old_start as u64);
    p.append(",");
    push_decimal(&mut p, hunk.old_lines as u64);
    p.append(" +");
    push_decimal(&mut p, hunk.new_start as u64);
    p.append(",");
    push_decimal(&mut p, hunk.new_lines as u64);
    p.append(" @@\n");
    assert(p@ =~= patch_header(file_path@, hunk@));
    let ghost ls = hunk@.lines;
    let mut i: usize = 0;
    assert(ls.take(0) =~= seq![]);
    while i < hunk.lines.len()
        invariant
            ls == hunk@.lines,
            ls.len() == hunk.lines@.len(),
            i <= ls.len(),
            p@ == patch_header(file_path@, hunk@) + patch_body(ls.take(i as int)),
        decreases ls.len() - i,
    {
        let line = &hunk.lines[i];
        assert(line@ == ls[i as int]);
        push_char(&mut p, marker_of(line.line_type.as_str()));
        push_without_eol(&mut p, line.content.as_str());
        p.append("\n");
        assert(ls.take(i + 1).drop_last() =~= ls.take(i as int));
        assert(ls.take(i + 1).last() == ls[i as int]);
        i += 1;
        assert(p@ =~= patch_header(file_path@, hunk@) + patch_body(ls.take(i as int)));
    }
    assert(ls.take(i as int) =~= ls);
    p
}

/// Where a hunk patch is applied.
#[derive(Clone, Copy, Debug, PartialEq, Eq, Structural)]
pub enum ApplyTarget {
    /// The staging area only.
    Index,
    /// The staging area only, the patch reversed.
    IndexReversed,
    /// The working tree only, the patch reversed.
    WorkingTreeReversed,
}

impl ApplyTarget {
    /// The arguments of the patch-apply subcommand for this target; all of
    /// them accept hunks with a zero-length range.
    pub open spec fn args_spec(self) -> Seq<Seq<char>> {
        match self {
            ApplyTarget::Index => seq!["apply"@, "--cached"@, "--unidiff-zero"@],
            ApplyTarget::IndexReversed => seq![
                "apply"@,
                "--cached"@,
                "--reverse"@,
                "--unidiff-zero"@,
            ],
            ApplyTarget::WorkingTreeReversed => seq!["apply"@, "--reverse"@, "--unidiff-zero"@],
        }
    }

    pub open spec fn verb_spec(self) -> Seq<char> {
        match self {
            ApplyTarget::Index => "stage"@,
            ApplyTarget::IndexReversed => "unstage"@,
            ApplyTarget::WorkingTreeReversed => "discard"@,
        }
    }

    pub fn apply_args(&self) -> (r: Vec<String>)
        ensures
            r@.map_values(|s: String| s@) == self.args_spec(),
    {
        let mut v: Vec<String> = Vec::new();
        v.push(String::from_str("apply"));
        match self {
            ApplyTarget::Index => {
                v.push(String::from_str("--cached"));
            },
            ApplyTarget::IndexReversed => {
                v.push(String::from_str("--cached"));
                v.push(String::from_str("--reverse"));
            },
            ApplyTarget::WorkingTreeReversed => {
                v.push(String::from_str("--reverse"));
            },
        }
        v.push(String::from_str("--unidiff-zero"));
        assert(v@.map_values(|s: String| s@) =~= self.args_spec());
        v
    }
}

/// The error reported when applying a hunk to `target` failed.
pub open spec fn apply_failure_message(target: ApplyTarget, stderr: Seq<char>) -> Seq<char> {
    "Failed to "@ + target.verb_spec() + " hunk: "@ + trimmed(stderr)
}

/// The result of a hunk operation from the exit status of the patch-apply
/// run: nothing on success, else the tool's trimmed error text. A failure
/// applies nothing, and the caller is to rebuild the diff before retrying.
pub fn apply_outcome(target: ApplyTarget, succeeded: bool, stderr: &str) -> (r: Result<(), String>)
    ensures
        succeeded <==> r is Ok,
        r matches Err(e) ==> e@ == apply_failure_message(target, stderr@),
{
    if succeeded {
        return Ok(());
    }
    let mut m = String::from_str("Failed to ");
    match target {
        ApplyTarget::Index => m.append("stage"),
        ApplyTarget::IndexReversed => m.append("unstage"),
        ApplyTarget::WorkingTreeReversed => m.append("discard"),
    }
    m.append(" hunk: ");
    let t = trim_text(stderr);
    m.append(t.as_str());
    Err(m)
}

} // verus!
