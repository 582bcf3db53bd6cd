//! Stash entries and the branch their messages name.
use crate::number::{signed_value, timestamp_or_zero};
use crate::ops::lines_of;
use crate::classify::texts;
use crate::text::{
    begins_with, chars_of, find_str, position, slice_chars, split_all, split_all_pieces,
    starts_with_str, string_of, text_lines,
};
use vstd::prelude::*;

verus! {

#[derive(Clone, Debug)]
pub struct StashInfo {
    pub index: usize,
    pub id: String,
    pub message: String,
    pub branch: String,
    pub timestamp: i64,
}

/// The text between `prefix` and the first following colon, when `m`
/// starts with `prefix` and a colon follows.
pub open spec fn branch_after(m: Seq<char>, prefix: Seq<char>) -> Option<Seq<char>> {
    if begins_with(m, prefix) {
        let rest = m.skip(prefix.len() as int);
        match position(rest, ":"@) {
            Some(c) => Some(rest.take(c)),
            None => None,
        }
    } else {
        None
    }
}

/// The branch named by a stash message ("WIP on <b>: ...", "On <b>: ...",
/// "index on <b>: ..."); empty when it names none.
pub open spec fn stash_branch_of(m: Seq<char>) -> Seq<char> {
    match branch_after(m, "WIP on "@) {
        Some(b) => b,
        None => match branch_after(m, "On "@) {
            Some(b) => b,
            None => match branch_after(m, "index on "@) {
                Some(b) => b,
                None => seq![],
            },
        },
    }
}

fn branch_after_prefix(m: &Vec<char>, prefix: &str) -> (r: Option<Vec<char>>)
    ensures
        match r {
            Some(b) => branch_after(m@, prefix@) == Some(b@),
            None => branch_after(m@, prefix@) is None,
        },
{
    if !starts_with_str(m, prefix) {
        return None;
    }
    let p = chars_of(prefix);
    let rest = slice_chars(m, p.len(), m.len());
    assert(rest@ =~= m@.skip(prefix@.len() as int));
    match find_str(&rest, ":") {
        Some(c) => {
            let b = slice_chars(&rest, 0, c);
            assert(b@ =~= rest@.take(c as int));
            Some(b)
        },
        None => None,
    }
}

/// The branch a stash message names.
pub fn extract_branch_from_stash_message(message: &str) -> (r: String)
    ensures
        r@ == stash_branch_of(message@),
{
    let m = chars_of(message);
    if let Some(b) = branch_after_prefix(&m, "WIP on ") {
        return string_of(&b);
    }
    if let Some(b) = branch_after_prefix(&m, "On ") {
        return string_of(&b);
    }
    if let Some(b) = branch_after_prefix(&m, "index on ") {
        return string_of(&b);
    }
    String::new()
}

pub struct StashView {
    pub index: int,
    pub id: Seq<char>,
    pub message: Seq<char>,
    pub branch: Seq<char>,
    pub timestamp: i64,
}

impl View for StashInfo {
    type V = StashView;

    open spec fn view(&self) -> StashView {
        StashView {
            index: self.index as int,
            id: self.id@,
            message: self.message@,
            branch: self.branch@,
            timestamp: self.timestamp,
        }
    }
}

/// A timestamp field's value, zero when it is not a number that fits.
pub open spec fn timestamp_of(s: Seq<char>) -> i64 {
    match signed_value(s) {
        Some(x) => if i64::MIN <= x <= i64::MAX {
            x as i64
        } else {
            0
        },
        None => 0,
    }
}

/// The stashes that listing lines "<ref>|<message>|<time>" describe; `base`
/// is the position of the first line, and a line with fewer than three
/// fields is skipped but still counted.
pub open spec fn stash_entries(ls: Seq<Seq<char>>, base: int) -> Seq<StashView>
    decreases ls.len(),
{
    if ls.len() == 0 {
        seq![]
    } else {
        let p = split_all(ls[0], '|');
        let rest = stash_entries(ls.drop_first(), base + 1);
        if p.len() >= 3 {
            seq![
                StashView {
                    index: base,
                    id: p[0],
                    message: p[1],
                    branch: stash_branch_of(p[1]),
                    timestamp: timestamp_of(p[2]),
                },
            ] + rest
        } else {
            rest
        }
    }
}

/// The stashes of a stash listing, one per line.
pub fn parse_stash_list(output: &str) -> (r: Vec<StashInfo>)
    ensures
        r@.map_values(|x: StashInfo| x@) == stash_entries(text_lines(output@), 0),
{
    let lines = lines_of(output);
    let ghost ls = text_lines(output@);
    let mut out: Vec<StashInfo> = Vec::new();
    let mut i: usize = 0;
    assert(ls.skip(0) =~= ls);
    assert(out@.map_values(|x: StashInfo| x@) + stash_entries(ls, 0) =~= stash_entries(ls, 0));
    while i < lines.len()
        invariant
            ls == text_lines(output@),
            texts(lines@) == ls,
            i <= lines@.len(),
            out@.map_values(|x: StashInfo| x@) + stash_entries(ls.skip(i as int), i as int)
                == stash_entries(ls, 0),
        decreases lines@.len() - i,
    {
        let ghost rest = ls.skip(i as int);
        assert(rest.drop_first() =~= ls.skip(i + 1));
        assert(rest[0] == lines@[i as int]@);
        let parts = split_all_pieces(lines[i].as_str(), '|');
        let ghost p = split_all(lines@[i as int]@, '|');
        assert(parts@.len() == p.len());
        if parts.len() >= 3 {
            assert(parts@[0]@ == p[0] && parts@[1]@ == p[1] && parts@[2]@ == p[2]);
            let entry = StashInfo {
                index: i,
                id: parts[0].clone(),
                message: parts[1].clone(),
                branch: extract_branch_from_stash_message(parts[1].as_str()),
                timestamp: timestamp_or_zero(parts[2].as_str()),
            };
            let ghost before = out@.map_values(|x: StashInfo| x@);
            out.push(entry);
            assert(out@.map_values(|x: StashInfo| x@) =~= before.push(entry@));
            assert(before.push(entry@) + stash_entries(ls.skip(i + 1), i + 1) =~= before + (seq![
                entry@,
            ] + stash_entries(ls.skip(i + 1), i + 1)));
        }
        i += 1;
    }
    assert(ls.skip(i as int) =~= seq![]);
    assert(out@.map_values(|x: StashInfo| x@) + seq![] =~= out@.map_values(|x: StashInfo| x@));
    out
}

} // verus!
