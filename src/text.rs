//! Character-sequence helpers shared by the parsers: searching, trimming,
//! splitting into lines and words, and building strings.
use vstd::prelude::*;
use vstd::std_specs::iter::IteratorSpec;

verus! {

broadcast use vstd::string::group_string_axioms;

/// `p` occurs in `s` starting at index `i`.
pub open spec fn occurs_at(s: Seq<char>, p: Seq<char>, i: int) -> bool {
    0 <= i && i + p.len() <= s.len() && s.subrange(i, i + p.len()) == p
}

/// `p` occurs somewhere in `s`.
pub open spec fn has_text(s: Seq<char>, p: Seq<char>) -> bool {
    exists|i: int| occurs_at(s, p, i)
}

/// `i` is the first index at which `p` occurs in `s`.
pub open spec fn first_occurrence(s: Seq<char>, p: Seq<char>, i: int) -> bool {
    occurs_at(s, p, i) && forall|j: int| 0 <= j < i ==> !occurs_at(s, p, j)
}

pub open spec fn begins_with(s: Seq<char>, p: Seq<char>) -> bool {
    p.len() <= s.len() && s.subrange(0, p.len() as int) == p
}

pub open spec fn finishes_with(s: Seq<char>, p: Seq<char>) -> bool {
    p.len() <= s.len() && s.subrange(s.len() - p.len(), s.len() as int) == p
}

/// Index of the first `x` in `s`, or `s.len()` when there is none.
pub open spec fn index_of<T>(s: Seq<T>, x: T) -> nat
    decreases s.len(),
{
    if s.len() == 0 {
        0
    } else if s[0] == x {
        0
    } else {
        1 + index_of(s.drop_first(), x)
    }
}

/// `s` without one trailing `x`, if it ends with one.
pub open spec fn strip_last<T>(s: Seq<T>, x: T) -> Seq<T> {
    if s.len() > 0 && s.last() == x {
        s.drop_last()
    } else {
        s
    }
}

/// The lines of `s`: pieces separated by `nl`, each with one trailing `cr`
/// removed when a `nl` followed it; a final `nl` does not start an empty line.
pub open spec fn split_lines<T>(s: Seq<T>, nl: T, cr: T) -> Seq<Seq<T>>
    decreases s.len(),
{
    if s.len() == 0 {
        seq![]
    } else {
        let k = index_of(s, nl);
        if k >= s.len() {
            seq![s]
        } else {
            seq![strip_last(s.take(k as int), cr)] + split_lines(s.skip(k + 1 as int), nl, cr)
        }
    }
}

/// The lines of a text, as `str::lines` yields them.
pub open spec fn text_lines(s: Seq<char>) -> Seq<Seq<char>> {
    split_lines(s, '\n', '\r')
}

/// Characters with the Unicode `White_Space` property.
pub open spec fn is_space(c: char) -> bool {
    ('\u{9}' <= c && c <= '\u{d}') || c == ' ' || c == '\u{85}' || c == '\u{a0}'
        || c == '\u{1680}' || ('\u{2000}' <= c && c <= '\u{200a}') || c == '\u{2028}'
        || c == '\u{2029}' || c == '\u{202f}' || c == '\u{205f}' || c == '\u{3000}'
}

pub open spec fn trim_start(s: Seq<char>) -> Seq<char>
    decreases s.len(),
{
    if s.len() > 0 && is_space(s[0]) {
        trim_start(s.drop_first())
    } else {
        s
    }
}

pub open spec fn trim_end(s: Seq<char>) -> Seq<char>
    decreases s.len(),
{
    if s.len() > 0 && is_space(s.last()) {
        trim_end(s.drop_last())
    } else {
        s
    }
}

/// `s` without leading and trailing white space.
pub open spec fn trimmed(s: Seq<char>) -> Seq<char> {
    trim_end(trim_start(s))
}

/// Words of `s`, with `cur` the word read so far: maximal runs of
/// characters that are not white space.
pub open spec fn words_from(s: Seq<char>, cur: Seq<char>) -> Seq<Seq<char>>
    decreases s.len(),
{
    if s.len() == 0 {
        if cur.len() > 0 {
            seq![cur]
        } else {
            seq![]
        }
    } else if is_space(s[0]) {
        (if cur.len() > 0 {
            seq![cur]
        } else {
            seq![]
        }) + words_from(s.drop_first(), seq![])
    } else {
        words_from(s.drop_first(), cur.push(s[0]))
    }
}

/// The words of `s`, as `str::split_whitespace` yields them.
pub open spec fn words(s: Seq<char>) -> Seq<Seq<char>> {
    words_from(s, seq![])
}

/// `index_of` finds the first `x`.
pub proof fn lemma_index_of<T>(s: Seq<T>, x: T, k: int)
    requires
        0 <= k <= s.len(),
        forall|j: int| 0 <= j < k ==> s[j] != x,
        k == s.len() || s[k] == x,
    ensures
        index_of(s, x) == k,
    decreases s.len(),
{
    if s.len() > 0 && k > 0 {
        lemma_index_of(s.drop_first(), x, k - 1);
    }
}

/// Index of the first occurrence of `p` in `s`, if any.
pub open spec fn position(s: Seq<char>, p: Seq<char>) -> Option<int> {
    if has_text(s, p) {
        Some(choose|i: int| first_occurrence(s, p, i))
    } else {
        None
    }
}

/// `s` without any trailing `c`.
pub open spec fn strip_trailing(s: Seq<char>, c: char) -> Seq<char>
    decreases s.len(),
{
    if s.len() > 0 && s.last() == c {
        strip_trailing(s.drop_last(), c)
    } else {
        s
    }
}

/// What `str::to_lowercase` makes of a text.
pub uninterp spec fn lower_of(s: Seq<char>) -> Seq<char>;

/// Relies on `str::to_lowercase`: the result depends on the characters alone.
#[verifier::external_body]
pub(crate) fn lowercase(s: &str) -> (r: String)
    ensures
        r@ == lower_of(s@),
{
    s.to_lowercase()
}

/// Relies on `String::push`: appends one character.
#[verifier::external_body]
pub(crate) fn push_char(s: &mut String, c: char)
    ensures
        final(s)@ == old(s)@.push(c),
{
    s.push(c);
}

pub fn is_space_char(c: char) -> (r: bool)
    ensures
        r == is_space(c),
{
    ('\u{9}' <= c && c <= '\u{d}') || c == ' ' || c == '\u{85}' || c == '\u{a0}'
        || c == '\u{1680}' || ('\u{2000}' <= c && c <= '\u{200a}') || c == '\u{2028}'
        || c == '\u{2029}' || c == '\u{202f}' || c == '\u{205f}' || c == '\u{3000}'
}

/// The characters of `s`, in order.
pub fn chars_of(s: &str) -> (r: Vec<char>)
    ensures
        r@ == s@,
{
    let mut it = s.chars();
    let mut out: Vec<char> = Vec::new();
    loop
        invariant
            out@ + IteratorSpec::remaining(&it) == s@,
            IteratorSpec::obeys_prophetic_iter_laws(&it),
        decreases s@.len() - out@.len(),
    {
        let ghost before = IteratorSpec::remaining(&it);
        match it.next() {
            Some(c) => {
                out.push(c);
                assert(out@ + IteratorSpec::remaining(&it) =~= s@) by {
                    assert(before =~= seq![c] + before.drop_first());
                }
            },
            None => {
                assert(out@ =~= s@);
                return out;
            },
        }
    }
}

/// A string holding `v[lo..hi]`.
pub fn string_of_range(v: &Vec<char>, lo: usize, hi: usize) -> (r: String)
    requires
        lo <= hi <= v@.len(),
    ensures
        r@ == v@.subrange(lo as int, hi as int),
{
    let mut out = String::new();
    let mut i: usize = lo;
    while i < hi
        invariant
            lo <= i <= hi,
            hi <= v@.len(),
            out@ == v@.subrange(lo as int, i as int),
        decreases hi - i,
    {
        push_char(&mut out, v[i]);
        i += 1;
        assert(out@ =~= v@.subrange(lo as int, i as int));
    }
    out
}

/// A string holding all of `v`.
pub fn string_of(v: &Vec<char>) -> (r: String)
    ensures
        r@ == v@,
{
    let r = string_of_range(v, 0, v.len());
    assert(v@.subrange(0, v@.len() as int) =~= v@);
    r
}

/// Whether `p` occurs in `s` at index `i`.
pub fn matches_at(s: &Vec<char>, p: &Vec<char>, i: usize) -> (r: bool)
    requires
        i <= s@.len(),
    ensures
        r == occurs_at(s@, p@, i as int),
{
    if p.len() > s.len() - i {
        return false;
    }
    let mut k: usize = 0;
    while k < p.len()
        invariant
            k <= p@.len(),
            i + p@.len() <= s@.len(),
            s@.len() <= usize::MAX,
            forall|m: int| 0 <= m < k ==> s@[i + m] == p@[m],
        decreases p@.len() - k,
    {
        if s[i + k] != p[k] {
            assert(s@.subrange(i as int, i + p@.len())[k as int] != p@[k as int]);
            return false;
        }
        k += 1;
    }
    assert(s@.subrange(i as int, i + p@.len()) =~= p@);
    true
}

/// The first index at which `p` occurs in `s`.
pub fn find_text(s: &Vec<char>, p: &Vec<char>) -> (r: Option<usize>)
    ensures
        match r {
            Some(i) => first_occurrence(s@, p@, i as int),
            None => !has_text(s@, p@),
        },
{
    let mut i: usize = 0;
    while i < s.len()
        invariant
            i <= s@.len(),
            forall|j: int| 0 <= j < i ==> !occurs_at(s@, p@, j),
        decreases s@.len() - i,
    {
        if matches_at(s, p, i) {
            return Some(i);
        }
        i += 1;
    }
    if matches_at(s, p, i) {
        return Some(i);
    }
    assert forall|j: int| !occurs_at(s@, p@, j) by {
        if 0 <= j <= i {
        }
    }
    None
}

/// Where the literal `p` first occurs in `s`.
pub fn find_str(s: &Vec<char>, p: &str) -> (r: Option<usize>)
    ensures
        match r {
            Some(i) => position(s@, p@) == Some(i as int) && first_occurrence(s@, p@, i as int),
            None => position(s@, p@) == None::<int>,
        },
{
    let pv = chars_of(p);
    let r = find_text(s, &pv);
    if let Some(i) = r {
        assert(occurs_at(s@, p@, i as int));
        let ghost j = choose|j: int| first_occurrence(s@, p@, j);
        assert(first_occurrence(s@, p@, j));
        assert(j == i) by {
            if j < i {
                assert(!occurs_at(s@, p@, j));
            }
            if i < j {
                assert(!occurs_at(s@, p@, i as int));
            }
        }
    }
    r
}

/// `v[lo..hi]` as a vector of its own.
pub fn slice_chars(v: &Vec<char>, lo: usize, hi: usize) -> (r: Vec<char>)
    requires
        lo <= hi <= v@.len(),
    ensures
        r@ == v@.subrange(lo as int, hi as int),
{
    let mut out: Vec<char> = Vec::new();
    let mut i: usize = lo;
    while i < hi
        invariant
            lo <= i <= hi,
            hi <= v@.len(),
            out@ == v@.subrange(lo as int, i as int),
        decreases hi - i,
    {
        out.push(v[i]);
        i += 1;
        assert(out@ =~= v@.subrange(lo as int, i as int));
    }
    out
}

/// `v` without any trailing `c`.
pub fn strip_trailing_chars(v: &Vec<char>, c: char) -> (r: Vec<char>)
    ensures
        r@ == strip_trailing(v@, c),
{
    let mut n: usize = v.len();
    assert(v@.take(n as int) =~= v@);
    while n > 0 && v[n - 1] == c
        invariant
            n <= v@.len(),
            strip_trailing(v@, c) == strip_trailing(v@.take(n as int), c),
        decreases n,
    {
        assert(v@.take(n as int).drop_last() =~= v@.take(n - 1));
        n -= 1;
    }
    assert(v@.take(n as int) == strip_trailing(v@.take(n as int), c));
    slice_chars(v, 0, n)
}

/// Whether `s` is exactly the literal `lit`.
pub fn same_text(s: &str, lit: &str) -> (r: bool)
    ensures
        r == (s@ == lit@),
{
    let a = chars_of(s);
    let b = chars_of(lit);
    if a.len() != b.len() {
        return false;
    }
    let r = matches_at(&a, &b, 0);
    assert(a@.subrange(0, b@.len() as int) =~= a@);
    r
}

/// Whether the literal `p` occurs in `s`.
pub fn contains_str(s: &Vec<char>, p: &str) -> (r: bool)
    ensures
        r == has_text(s@, p@),
{
    let pv = chars_of(p);
    find_text(s, &pv).is_some()
}

/// Whether `s` begins with the literal `p`.
pub fn starts_with_str(s: &Vec<char>, p: &str) -> (r: bool)
    ensures
        r == begins_with(s@, p@),
{
    let pv = chars_of(p);
    let r = matches_at(s, &pv, 0);
    assert(r == begins_with(s@, p@));
    r
}

/// Whether `s` ends with the literal `p`.
pub fn ends_with_str(s: &Vec<char>, p: &str) -> (r: bool)
    ensures
        r == finishes_with(s@, p@),
{
    let pv = chars_of(p);
    if pv.len() > s.len() {
        return false;
    }
    matches_at(s, &pv, s.len() - pv.len())
}

/// The ranges of `s[lo..hi]` that hold the text without its leading and
/// trailing white space.
pub fn trim_range(s: &Vec<char>, lo: usize, hi: usize) -> (r: (usize, usize))
    requires
        lo <= hi <= s@.len(),
    ensures
        lo <= r.0 <= r.1 <= hi,
        s@.subrange(r.0 as int, r.1 as int) == trimmed(s@.subrange(lo as int, hi as int)),
{
    let mut a: usize = lo;
    while a < hi && is_space_char(s[a])
        invariant
            lo <= a <= hi,
            hi <= s@.len(),
            trim_start(s@.subrange(lo as int, hi as int)) == trim_start(
                s@.subrange(a as int, hi as int),
            ),
        decreases hi - a,
    {
        assert(s@.subrange(a as int, hi as int).drop_first() =~= s@.subrange(a + 1, hi as int));
        a += 1;
    }
    let mut b: usize = hi;
    while b > a && is_space_char(s[b - 1])
        invariant
            lo <= a <= b <= hi,
            hi <= s@.len(),
            trim_end(s@.subrange(a as int, hi as int)) == trim_end(
                s@.subrange(a as int, b as int),
            ),
        decreases b - a,
    {
        assert(s@.subrange(a as int, b as int).drop_last() =~= s@.subrange(a as int, b - 1));
        b -= 1;
    }
    (a, b)
}

/// `s` without leading and trailing white space.
pub fn trim_text(s: &str) -> (r: String)
    ensures
        r@ == trimmed(s@),
{
    let v = chars_of(s);
    let (a, b) = trim_range(&v, 0, v.len());
    assert(v@.subrange(0, v@.len() as int) =~= v@);
    string_of_range(&v, a, b)
}

/// The ranges of the lines of `s`, as `text_lines` gives them.
pub fn line_ranges(s: &Vec<char>) -> (r: Vec<(usize, usize)>)
    ensures
        r@.len() == text_lines(s@).len(),
        forall|k: int| 0 <= k < r@.len() ==> #[trigger] r@[k].0 <= r@[k].1 <= s@.len(),
        forall|k: int|
            0 <= k < r@.len() ==> s@.subrange(r@[k].0 as int, r@[k].1 as int)
                == #[trigger] text_lines(s@)[k],
{
    let n = s.len();
    let mut out: Vec<(usize, usize)> = Vec::new();
    let ghost mut done: Seq<Seq<char>> = seq![];
    let mut start: usize = 0;
    let mut i: usize = 0;
    assert(s@.skip(0) =~= s@);
    assert(done + text_lines(s@) =~= text_lines(s@));
    while i < n
        invariant
            n == s@.len(),
            start <= i <= n,
            forall|m: int| start <= m < i ==> s@[m] != '\n',
            done.len() == out@.len(),
            forall|k: int| 0 <= k < out@.len() ==> #[trigger] out@[k].0 <= out@[k].1 <= n,
            forall|k: int|
                0 <= k < out@.len() ==> s@.subrange(out@[k].0 as int, out@[k].1 as int)
                    == #[trigger] done[k],
            done + text_lines(s@.skip(start as int)) == text_lines(s@),
        decreases n - i,
    {
        if s[i] == '\n' {
            let ghost t = s@.skip(start as int);
            proof {
                lemma_index_of(t, '\n', i - start);
                assert(t.skip(i - start + 1) =~= s@.skip(i + 1));
            }
            let e: usize = if i > start && s[i - 1] == '\r' {
                i - 1
            } else {
                i
            };
            proof {
                let l = strip_last(t.take(i - start), '\r');
                assert(s@.subrange(start as int, e as int) =~= l);
                assert(text_lines(t) == seq![l] + text_lines(s@.skip(i + 1)));
                assert(done.push(l) + text_lines(s@.skip(i + 1)) =~= done + (seq![l]
                    + text_lines(s@.skip(i + 1))));
                done = done.push(l);
            }
            let ghost old_out = out@;
            let ghost old_done = done.drop_last();
            out.push((start, e));
            assert forall|k: int| 0 <= k < out@.len() implies #[trigger] out@[k].0 <= out@[k].1 <= n
                && s@.subrange(out@[k].0 as int, out@[k].1 as int) == #[trigger] done[k] by {
                if k < old_out.len() {
                    assert(out@[k] == old_out[k]);
                    assert(done[k] == old_done[k]);
                }
            }
            start = i + 1;
        }
        i += 1;
    }
    let ghost t = s@.skip(start as int);
    if start < n {
        proof {
            lemma_index_of(t, '\n', t.len() as int);
            assert(s@.subrange(start as int, n as int) =~= t);
            assert(text_lines(t) == seq![t]);
            done = done.push(t);
        }
        let ghost old_out = out@;
            let ghost old_done = done.drop_last();
        out.push((start, n));
        assert forall|k: int| 0 <= k < out@.len() implies #[trigger] out@[k].0 <= out@[k].1 <= n
            && s@.subrange(out@[k].0 as int, out@[k].1 as int) == #[trigger] done[k] by {
            if k < old_out.len() {
                assert(out@[k] == old_out[k]);
                    assert(done[k] == old_done[k]);
            }
        }
    } else {
        assert(t.len() == 0);
    }
    assert(done =~= text_lines(s@));
    out
}

/// The ranges of the words of `s[lo..hi]`, as `words` gives them.
pub fn word_ranges(s: &Vec<char>, lo: usize, hi: usize) -> (r: Vec<(usize, usize)>)
    requires
        lo <= hi <= s@.len(),
    ensures
        r@.len() == words(s@.subrange(lo as int, hi as int)).len(),
        forall|k: int| 0 <= k < r@.len() ==> lo <= #[trigger] r@[k].0 <= r@[k].1 <= hi,
        forall|k: int|
            0 <= k < r@.len() ==> s@.subrange(r@[k].0 as int, r@[k].1 as int)
                == #[trigger] words(s@.subrange(lo as int, hi as int))[k],
{
    let ghost w = s@.subrange(lo as int, hi as int);
    let mut out: Vec<(usize, usize)> = Vec::new();
    let ghost mut done: Seq<Seq<char>> = seq![];
    let mut start: usize = lo;
    let mut i: usize = lo;
    assert(s@.subrange(lo as int, lo as int) =~= seq![]);
    assert(done + words(w) =~= words(w));
    while i < hi
        invariant
            lo <= start <= i <= hi,
            hi <= s@.len(),
            w == s@.subrange(lo as int, hi as int),
            done.len() == out@.len(),
            forall|k: int| 0 <= k < out@.len() ==> lo <= #[trigger] out@[k].0 <= out@[k].1 <= hi,
            forall|k: int|
                0 <= k < out@.len() ==> s@.subrange(out@[k].0 as int, out@[k].1 as int)
                    == #[trigger] done[k],
            done + words_from(s@.subrange(i as int, hi as int), s@.subrange(start as int, i as int))
                == words(w),
        decreases hi - i,
    {
        let ghost rest = s@.subrange(i as int, hi as int);
        let ghost cur = s@.subrange(start as int, i as int);
        assert(rest.drop_first() =~= s@.subrange(i + 1, hi as int));
        if is_space_char(s[i]) {
            if start < i {
                proof {
                    assert(done.push(cur) + words_from(rest.drop_first(), seq![]) =~= done + (seq![
                        cur,
                    ] + words_from(rest.drop_first(), seq![])));
                    done = done.push(cur);
                }
                let ghost old_out = out@;
            let ghost old_done = done.drop_last();
                out.push((start, i));
                assert forall|k: int| 0 <= k < out@.len() implies lo <= #[trigger] out@[k].0 <= out@[k].1
                    <= hi && s@.subrange(out@[k].0 as int, out@[k].1 as int) == #[trigger] done[k] by {
                    if k < old_out.len() {
                        assert(out@[k] == old_out[k]);
                    assert(done[k] == old_done[k]);
                    }
                }
            } else {
                assert(seq![] + words_from(rest.drop_first(), seq![]) =~= words_from(
                    rest.drop_first(),
                    seq![],
                ));
            }
            start = i + 1;
            assert(s@.subrange(start as int, i + 1) =~= seq![]);
        } else {
            assert(cur.push(s@[i as int]) =~= s@.subrange(start as int, i + 1));
        }
        i += 1;
    }
    if start < hi {
        proof {
            done = done.push(s@.subrange(start as int, hi as int));
        }
        let ghost old_out = out@;
            let ghost old_done = done.drop_last();
        out.push((start, hi));
        assert forall|k: int| 0 <= k < out@.len() implies lo <= #[trigger] out@[k].0 <= out@[k].1 <= hi
            && s@.subrange(out@[k].0 as int, out@[k].1 as int) == #[trigger] done[k] by {
            if k < old_out.len() {
                assert(out@[k] == old_out[k]);
                    assert(done[k] == old_done[k]);
            }
        }
    } else {
        assert(s@.subrange(start as int, hi as int) =~= seq![]);
        assert(done + seq![] =~= done);
    }
    assert(done =~= words(w));
    out
}

/// The pieces of `s` between occurrences of `c`, as `str::split` gives
/// them.
pub open spec fn split_all(s: Seq<char>, c: char) -> Seq<Seq<char>>
    decreases s.len(),
{
    let k = index_of(s, c);
    if k >= s.len() {
        seq![s]
    } else {
        seq![s.take(k as int)] + split_all(s.skip(k + 1 as int), c)
    }
}

/// At most `n` pieces of `s` split at `c`, the last holding the rest, as
/// `str::splitn` gives them.
pub open spec fn split_n(s: Seq<char>, c: char, n: nat) -> Seq<Seq<char>>
    decreases n,
{
    if n == 0 {
        seq![]
    } else if n == 1 {
        seq![s]
    } else {
        let k = index_of(s, c);
        if k >= s.len() {
            seq![s]
        } else {
            seq![s.take(k as int)] + split_n(s.skip(k + 1 as int), c, (n - 1) as nat)
        }
    }
}

/// The pieces of `s`, split at `c` into at most `n` pieces, as strings.
pub fn split_pieces(s: &str, c: char, n: usize) -> (r: Vec<String>)
    ensures
        r@.map_values(|x: String| x@) == split_n(s@, c, n as nat),
{
    let v = chars_of(s);
    let len = v.len();
    let mut out: Vec<String> = Vec::new();
    if n == 0 {
        assert(out@.map_values(|x: String| x@) =~= seq![]);
        return out;
    }
    let mut start: usize = 0;
    let mut i: usize = 0;
    let mut left: usize = n;
    assert(v@.skip(0) =~= v@);
    assert(out@.map_values(|x: String| x@) + split_n(v@, c, n as nat) =~= split_n(v@, c, n as nat));
    while i < len && left > 1
        invariant
            len == v@.len(),
            v@ == s@,
            start <= i <= len,
            1 <= left <= n,
            forall|m: int| start <= m < i ==> v@[m] != c,
            out@.map_values(|x: String| x@) + split_n(v@.skip(start as int), c, left as nat)
                == split_n(v@, c, n as nat),
        decreases len - i,
    {
        if v[i] == c {
            let ghost t = v@.skip(start as int);
            proof {
                lemma_index_of(t, c, i - start);
                assert(t.skip(i - start + 1) =~= v@.skip(i + 1));
                assert(t.take(i - start) =~= v@.subrange(start as int, i as int));
            }
            let piece = string_of_range(&v, start, i);
            let ghost before = out@.map_values(|x: String| x@);
            out.push(piece);
            proof {
                let rest = split_n(v@.skip(i + 1), c, (left - 1) as nat);
                assert(split_n(t, c, left as nat) == seq![piece@] + rest);
                assert(out@.map_values(|x: String| x@) =~= before.push(piece@));
                assert(before.push(piece@) + rest =~= before + (seq![piece@] + rest));
            }
            start = i + 1;
            left = left - 1;
        }
        i += 1;
    }
    let ghost t = v@.skip(start as int);
    let piece = string_of_range(&v, start, len);
    assert(piece@ =~= t);
    proof {
        if left > 1 {
            lemma_index_of(t, c, t.len() as int);
        }
        assert(split_n(t, c, left as nat) == seq![t]);
    }
    let ghost before = out@.map_values(|x: String| x@);
    out.push(piece);
    assert(out@.map_values(|x: String| x@) =~= before + seq![t]);
    out
}

/// The pieces of `s` between occurrences of `c`, as strings.
pub fn split_all_pieces(s: &str, c: char) -> (r: Vec<String>)
    ensures
        r@.map_values(|x: String| x@) == split_all(s@, c),
{
    let v = chars_of(s);
    let len = v.len();
    let mut out: Vec<String> = Vec::new();
    let mut start: usize = 0;
    let mut i: usize = 0;
    assert(v@.skip(0) =~= v@);
    assert(out@.map_values(|x: String| x@) + split_all(v@, c) =~= split_all(v@, c));
    while i < len
        invariant
            len == v@.len(),
            v@ == s@,
            start <= i <= len,
            forall|m: int| start <= m < i ==> v@[m] != c,
            out@.map_values(|x: String| x@) + split_all(v@.skip(start as int), c) == split_all(
                v@,
                c,
            ),
        decreases len - i,
    {
        if v[i] == c {
            let ghost t = v@.skip(start as int);
            proof {
                lemma_index_of(t, c, i - start);
                assert(t.skip(i - start + 1) =~= v@.skip(i + 1));
                assert(t.take(i - start) =~= v@.subrange(start as int, i as int));
            }
            let piece = string_of_range(&v, start, i);
            let ghost before = out@.map_values(|x: String| x@);
            out.push(piece);
            proof {
                let rest = split_all(v@.skip(i + 1), c);
                assert(split_all(t, c) == seq![piece@] + rest);
                assert(out@.map_values(|x: String| x@) =~= before.push(piece@));
                assert(before.push(piece@) + rest =~= before + (seq![piece@] + rest));
            }
            start = i + 1;
        }
        i += 1;
    }
    let ghost t = v@.skip(start as int);
    let piece = string_of_range(&v, start, len);
    assert(piece@ =~= t);
    proof {
        lemma_index_of(t, c, t.len() as int);
        assert(split_all(t, c) == seq![t]);
    }
    let ghost before = out@.map_values(|x: String| x@);
    out.push(piece);
    assert(out@.map_values(|x: String| x@) =~= before + seq![t]);
    out
}

} // verus!
