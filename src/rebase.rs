//! Interactive rebase: the actions on each commit and the to-do list that
//! drives the rebase.
use crate::classify::texts;
use crate::number::count_or_zero;
use crate::repo::count_of;
use crate::text::{trim_text, trimmed};
use crate::ops::lines_of;
use crate::text::{push_char, split_n, split_pieces, text_lines};
use vstd::prelude::*;

verus! {

#[derive(Clone, Copy, Debug, PartialEq, Eq, Structural)]
pub enum RebaseAction {
    Pick,
    Reword,
    Edit,
    Squash,
    Fixup,
    Drop,
}

impl RebaseAction {
    pub open spec fn command_spec(self) -> Seq<char> {
        match self {
            RebaseAction::Pick => "pick"@,
            RebaseAction::Reword => "reword"@,
            RebaseAction::Edit => "edit"@,
            RebaseAction::Squash => "squash"@,
            RebaseAction::Fixup => "fixup"@,
            RebaseAction::Drop => "drop"@,
        }
    }

    /// The to-do list word of this action.
    pub fn to_git_command(&self) -> (r: &'static str)
        ensures
            r@ == self.command_spec(),
    {
        match self {
            RebaseAction::Pick => "pick",
            RebaseAction::Reword => "reword",
            RebaseAction::Edit => "edit",
            RebaseAction::Squash => "squash",
            RebaseAction::Fixup => "fixup",
            RebaseAction::Drop => "drop",
        }
    }
}

/// A commit of an interactive rebase and what to do with it.
#[derive(Clone, Debug)]
pub struct InteractiveRebaseEntry {
    pub action: RebaseAction,
    pub commit_id: String,
    pub short_id: String,
    pub message: String,
    pub author: String,
    pub date: String,
}

#[derive(Clone, Debug)]
pub struct RebasePreview {
    pub source_branch: String,
    pub target_branch: String,
    pub commits_to_rebase: usize,
}

#[derive(Clone, Copy, Debug)]
pub struct RebaseOptions {
    pub preserve_merges: bool,
    pub autostash: bool,
}

/// One to-do line: action word, abbreviated id, subject.
pub open spec fn todo_line(e: InteractiveRebaseEntry) -> Seq<char> {
    e.action.command_spec() + " "@ + e.short_id@ + " "@ + e.message@
}

/// The to-do lines joined by newlines.
pub open spec fn todo_text(es: Seq<InteractiveRebaseEntry>) -> Seq<char>
    decreases es.len(),
{
    if es.len() == 0 {
        seq![]
    } else if es.len() == 1 {
        todo_line(es[0])
    } else {
        todo_text(es.drop_last()) + "\n"@ + todo_line(es.last())
    }
}

/// The to-do list that makes the rebase perform `entries` in order.
pub fn rebase_todo(entries: &Vec<InteractiveRebaseEntry>) -> (r: String)
    ensures
        r@ == todo_text(entries@),
{
    let mut out = String::new();
    let mut i: usize = 0;
    assert(entries@.take(0) =~= seq![]);
    while i < entries.len()
        invariant
            i <= entries@.len(),
            out@ == todo_text(entries@.take(i as int)),
        decreases entries@.len() - i,
    {
        let e = &entries[i];
        let ghost before = out@;
        if i > 0 {
            push_char(&mut out, '\n');
        }
        out.append(e.action.to_git_command());
        push_char(&mut out, ' ');
        out.append(e.short_id.as_str());
        push_char(&mut out, ' ');
        out.append(e.message.as_str());
        proof {
            reveal_strlit(" ");
            reveal_strlit("\n");
            let t = entries@.take(i + 1);
            assert(t.drop_last() =~= entries@.take(i as int));
            assert(t.last() == entries@[i as int]);
            if i == 0 {
                assert(t.len() == 1);
                assert(out@ =~= todo_line(t[0]));
            } else {
                assert(out@ =~= before + "\n"@ + todo_line(t.last()));
            }
        }
        i += 1;
    }
    assert(entries@.take(i as int) =~= entries@);
    out
}

/// The commits that log lines "<id>|<short id>|<subject>|<author>|<date>"
/// describe, each to be picked; a line with fewer fields is skipped.
pub open spec fn log_entries(ls: Seq<Seq<char>>) -> Seq<Seq<Seq<char>>>
    decreases ls.len(),
{
    if ls.len() == 0 {
        seq![]
    } else {
        let p = split_n(ls[0], '|', 5);
        let rest = log_entries(ls.drop_first());
        if p.len() >= 5 {
            seq![p] + rest
        } else {
            rest
        }
    }
}

/// The fields of an entry: id, short id, subject, author, date.
pub open spec fn entry_fields(e: InteractiveRebaseEntry) -> Seq<Seq<char>> {
    seq![e.commit_id@, e.short_id@, e.message@, e.author@, e.date@]
}

/// The commits of a log listing, oldest first as listed, each to be picked.
pub fn parse_rebase_log(output: &str) -> (r: Vec<InteractiveRebaseEntry>)
    ensures
        r@.map_values(|e: InteractiveRebaseEntry| entry_fields(e)) == log_entries(
            text_lines(output@),
        ),
        forall|k: int| 0 <= k < r@.len() ==> (#[trigger] r@[k]).action == RebaseAction::Pick,
{
    let lines = lines_of(output);
    let ghost ls = text_lines(output@);
    let mut out: Vec<InteractiveRebaseEntry> = Vec::new();
    let mut i: usize = 0;
    assert(ls.skip(0) =~= ls);
    assert(out@.map_values(|e: InteractiveRebaseEntry| entry_fields(e)) + log_entries(ls)
        =~= log_entries(ls));
    while i < lines.len()
        invariant
            ls == text_lines(output@),
            texts(lines@) == ls,
            i <= lines@.len(),
            out@.map_values(|e: InteractiveRebaseEntry| entry_fields(e)) + log_entries(
                ls.skip(i as int),
            ) == log_entries(ls),
            forall|k: int| 0 <= k < out@.len() ==> (#[trigger] out@[k]).action == RebaseAction::Pick,
        decreases lines@.len() - i,
    {
        let ghost rest = ls.skip(i as int);
        assert(rest.drop_first() =~= ls.skip(i + 1));
        assert(rest[0] == lines@[i as int]@);
        let parts = split_pieces(lines[i].as_str(), '|', 5);
        let ghost p = split_n(lines@[i as int]@, '|', 5);
        assert(parts@.len() == p.len());
        if parts.len() >= 5 {
            let entry = InteractiveRebaseEntry {
                action: RebaseAction::Pick,
                commit_id: parts[0].clone(),
                short_id: parts[1].clone(),
                message: parts[2].clone(),
                author: parts[3].clone(),
                date: parts[4].clone(),
            };
            assert(entry_fields(entry) =~= p.take(5));
            proof {
                assert(p.len() <= 5) by {
                    lemma_split_n_len(lines@[i as int]@, '|', 5);
                }
                assert(p.take(5) =~= p);
            }
            let ghost before = out@.map_values(|e: InteractiveRebaseEntry| entry_fields(e));
            out.push(entry);
            assert(out@.map_values(|e: InteractiveRebaseEntry| entry_fields(e)) =~= before.push(
                entry_fields(entry),
            ));
            assert(before.push(p) + log_entries(ls.skip(i + 1)) =~= before + (seq![p]
                + log_entries(ls.skip(i + 1))));
        }
        i += 1;
    }
    assert(ls.skip(i as int) =~= seq![]);
    assert(out@.map_values(|e: InteractiveRebaseEntry| entry_fields(e)) + seq![] =~= out@.map_values(
        |e: InteractiveRebaseEntry| entry_fields(e),
    ));
    out
}

proof fn lemma_split_n_len(s: Seq<char>, c: char, n: nat)
    ensures
        split_n(s, c, n).len() <= n,
    decreases n,
{
    if n > 1 {
        let k = crate::text::index_of(s, c);
        if k < s.len() {
            lemma_split_n_len(s.skip(k + 1 as int), c, (n - 1) as nat);
        }
    }
}

/// The preview of rebasing the checked-out branch onto `target_branch`,
/// from the outputs of the commands that ask for the current branch name
/// and for the number of commits since the merge base, counted as zero when
/// that command failed.
pub fn rebase_preview(
    target_branch: &str,
    current_branch_out: &str,
    count_succeeded: bool,
    count_out: &str,
) -> (r: RebasePreview)
    ensures
        r.source_branch@ == trimmed(current_branch_out@),
        r.target_branch@ == target_branch@,
        r.commits_to_rebase == (if count_succeeded {
            count_of(count_out@)
        } else {
            0
        }),
{
    RebasePreview {
        source_branch: trim_text(current_branch_out),
        target_branch: String::from_str(target_branch),
        commits_to_rebase: if count_succeeded {
            count_or_zero(count_out)
        } else {
            0
        },
    }
}

} // verus!
