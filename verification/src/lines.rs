//! The split of a text into lines and the way back.
//!
//! A line ends at a line feed, or at a carriage return directly followed by
//! a line feed; neither belongs to the line. The last line needs no line
//! ending, and a carriage return that ends the text stays in the last line.

use vstd::prelude::*;
use crate::text::slice;
use crate::text::push_all;

verus! {

/// The index of the first line feed in `s`, or the length of `s` if it
/// holds none.
pub open spec fn line_end(s: Seq<char>) -> int
    decreases s.len(),
{
    if s.len() == 0 || s[0] == '\n' {
        0
    } else {
        1 + line_end(s.skip(1))
    }
}

/// `l` without the carriage return at its end, if it has one.
pub open spec fn strip_cr(l: Seq<char>) -> Seq<char> {
    if l.len() > 0 && l.last() == '\r' {
        l.drop_last()
    } else {
        l
    }
}

/// The lines of `s`, in order. The empty text has no lines; a text that ends
/// with a line ending has the same lines as the text without it.
pub open spec fn lines(s: Seq<char>) -> Seq<Seq<char>>
    decreases s.len(),
{
    if s.len() == 0 {
        Seq::empty()
    } else {
        let e = line_end(s);
        if 0 <= e < s.len() {
            seq![strip_cr(s.take(e))] + lines(s.skip(e + 1))
        } else {
            seq![s]
        }
    }
}

/// The items of `ls` in order, with `sep` between each two neighbours.
pub open spec fn join(ls: Seq<Seq<char>>, sep: Seq<char>) -> Seq<char>
    decreases ls.len(),
{
    if ls.len() == 0 {
        Seq::empty()
    } else if ls.len() == 1 {
        ls[0]
    } else {
        join(ls.drop_last(), sep) + sep + ls.last()
    }
}

/// The text made of the lines `ls`: a line feed between each two lines and
/// one more at the end. No lines give a text of one line feed.
pub open spec fn unlines(ls: Seq<Seq<char>>) -> Seq<char> {
    join(ls, seq!['\n']) + seq!['\n']
}

/// What each vector of characters holds.
pub open spec fn line_views(ls: Seq<Vec<char>>) -> Seq<Seq<char>> {
    ls.map_values(|l: Vec<char>| l@)
}

/// The items of `ls` in order, each followed by a line feed.
pub open spec fn terminated(ls: Seq<Seq<char>>) -> Seq<char>
    decreases ls.len(),
{
    if ls.len() == 0 {
        Seq::empty()
    } else {
        ls[0] + seq!['\n'] + terminated(ls.skip(1))
    }
}

/// No line feed in `t` stands directly after a carriage return.
pub open spec fn plain_line_endings(t: Seq<char>) -> bool {
    forall|i: int| #![trigger t[i]] 0 <= i && i + 1 < t.len() ==> !(t[i] == '\r' && t[i + 1] == '\n')
}

/// `l` can be a line of a text: it holds no line feed, and it does not end
/// with a carriage return, which would be taken for a part of its line
/// ending.
pub open spec fn is_line(l: Seq<char>) -> bool {
    &&& forall|j: int| 0 <= j < l.len() ==> l[j] != '\n'
    &&& !(l.len() > 0 && l.last() == '\r')
}

/// The number of line feeds in `s`.
pub open spec fn line_feeds(s: Seq<char>) -> nat
    decreases s.len(),
{
    if s.len() == 0 {
        0
    } else {
        line_feeds(s.drop_last()) + if s.last() == '\n' {
            1nat
        } else {
            0nat
        }
    }
}

/// `line_end(s)` lies within `s`, no line feed stands before it, and one
/// stands at it unless it is the end of `s`.
pub proof fn lemma_line_end(s: Seq<char>)
    ensures
        0 <= line_end(s) <= s.len(),
        forall|j: int| 0 <= j < line_end(s) ==> s[j] != '\n',
        line_end(s) < s.len() ==> s[line_end(s)] == '\n',
    decreases s.len(),
{
    if s.len() == 0 || s[0] == '\n' {
    } else {
        let t = s.skip(1);
        lemma_line_end(t);
        assert forall|j: int| 0 <= j < line_end(s) implies s[j] != '\n' by {
            if j > 0 {
                assert(s[j] == t[j - 1]);
            }
        }
        assert(line_end(s) < s.len() ==> s[line_end(s)] == t[line_end(t)]);
    }
}

/// An index with the three properties of `line_end(s)` is `line_end(s)`.
pub proof fn lemma_line_end_is(s: Seq<char>, e: int)
    requires
        0 <= e <= s.len(),
        forall|j: int| 0 <= j < e ==> s[j] != '\n',
        e < s.len() ==> s[e] == '\n',
    ensures
        line_end(s) == e,
{
    lemma_line_end(s);
    let f = line_end(s);
    if f < e {
        assert(s[f] == '\n');
    } else if e < f {
        assert(s[e] == '\n');
    }
}

/// One more line at the end adds that line and its line feed.
pub proof fn lemma_terminated_push(ls: Seq<Seq<char>>, l: Seq<char>)
    ensures
        terminated(ls.push(l)) == terminated(ls) + l + seq!['\n'],
    decreases ls.len(),
{
    let all = ls.push(l);
    if ls.len() == 0 {
        assert(all.skip(1) =~= Seq::<Seq<char>>::empty());
        assert(terminated(all.skip(1)) =~= Seq::<char>::empty());
        assert(terminated(all) =~= terminated(ls) + l + seq!['\n']);
    } else {
        assert(all.skip(1) =~= ls.skip(1).push(l));
        lemma_terminated_push(ls.skip(1), l);
        assert(terminated(all) =~= terminated(ls) + l + seq!['\n']);
    }
}

/// The text made of one line or more is its lines, each followed by a line
/// feed.
pub proof fn lemma_unlines_terminated(ls: Seq<Seq<char>>)
    requires
        ls.len() > 0,
    ensures
        unlines(ls) == terminated(ls),
    decreases ls.len(),
{
    if ls.len() == 1 {
        assert(ls.skip(1) =~= Seq::<Seq<char>>::empty());
        assert(terminated(ls.skip(1)) =~= Seq::<char>::empty());
        assert(unlines(ls) =~= terminated(ls));
    } else {
        let front = ls.drop_last();
        lemma_unlines_terminated(front);
        lemma_terminated_push(front, ls.last());
        assert(front.push(ls.last()) =~= ls);
        assert(unlines(ls) =~= unlines(front) + ls.last() + seq!['\n']);
    }
}

/// A text that ends with a line feed, and in which no line feed follows a
/// carriage return, is the text made of its own lines.
pub proof fn lemma_unlines_lines(t: Seq<char>)
    requires
        t.len() > 0,
        t.last() == '\n',
        plain_line_endings(t),
    ensures
        lines(t).len() > 0,
        terminated(lines(t)) == t,
        unlines(lines(t)) == t,
    decreases t.len(),
{
    lemma_line_end(t);
    let e = line_end(t);
    let first = t.take(e);
    let rest = t.skip(e + 1);
    assert(e < t.len()) by {
        if e == t.len() {
            assert(t[t.len() - 1] != '\n');
        }
    }
    assert(strip_cr(first) == first) by {
        if first.len() > 0 && first.last() == '\r' {
            assert(t[e - 1] == '\r' && t[e] == '\n');
        }
    }
    assert(lines(t) == seq![first] + lines(rest));
    assert(lines(t).skip(1) =~= lines(rest));
    if rest.len() > 0 {
        assert(rest.last() == t.last());
        assert forall|i: int| #![trigger rest[i]] 0 <= i && i + 1 < rest.len() implies !(rest[i]
            == '\r' && rest[i + 1] == '\n') by {
            assert(rest[i] == t[e + 1 + i]);
            assert(rest[i + 1] == t[e + 1 + i + 1]);
        }
        lemma_unlines_lines(rest);
    }
    assert(terminated(lines(t)) =~= first + seq!['\n'] + terminated(lines(rest)));
    assert(first + seq!['\n'] + rest =~= t);
    lemma_unlines_terminated(lines(t));
}

/// The lines of the text made of `ls` are `ls`, if each of them can be a
/// line.
pub proof fn lemma_lines_terminated(ls: Seq<Seq<char>>)
    requires
        forall|k: int| 0 <= k < ls.len() ==> is_line(#[trigger] ls[k]),
    ensures
        lines(terminated(ls)) == ls,
        ls.len() > 0 ==> lines(unlines(ls)) == ls,
    decreases ls.len(),
{
    if ls.len() == 0 {
        assert(lines(terminated(ls)) =~= ls);
    } else {
        let t = terminated(ls);
        let first = ls[0];
        let rest = ls.skip(1);
        assert(is_line(first));
        assert(t == first + seq!['\n'] + terminated(rest));
        lemma_line_end_is(t, first.len() as int);
        assert(t.take(first.len() as int) =~= first);
        assert(t.skip(first.len() as int + 1) =~= terminated(rest));
        assert forall|k: int| 0 <= k < rest.len() implies is_line(#[trigger] rest[k]) by {
            assert(rest[k] == ls[k + 1]);
        }
        lemma_lines_terminated(rest);
        assert(seq![first] + rest =~= ls);
        lemma_unlines_terminated(ls);
    }
}

/// A line feed alone counts as one.
pub proof fn lemma_line_feeds_one()
    ensures
        line_feeds(seq!['\n']) == 1,
{
    let s = seq!['\n'];
    assert(s.len() == 1 && s.last() == '\n');
    assert(s.drop_last() =~= Seq::<char>::empty());
    assert(line_feeds(s.drop_last()) == 0);
}

/// The line feeds of two texts in a row are those of the one and those of
/// the other.
pub proof fn lemma_line_feeds_add(a: Seq<char>, b: Seq<char>)
    ensures
        line_feeds(a + b) == line_feeds(a) + line_feeds(b),
    decreases b.len(),
{
    if b.len() == 0 {
        assert(a + b =~= a);
    } else {
        assert((a + b).drop_last() =~= a + b.drop_last());
        lemma_line_feeds_add(a, b.drop_last());
    }
}

/// A text without a line feed has none to count.
pub proof fn lemma_line_feeds_none(s: Seq<char>)
    requires
        forall|j: int| 0 <= j < s.len() ==> s[j] != '\n',
    ensures
        line_feeds(s) == 0,
    decreases s.len(),
{
    if s.len() > 0 {
        lemma_line_feeds_none(s.drop_last());
    }
}

/// A text has at most as many line feeds as lines, and a text that is not
/// empty has a line.
pub proof fn lemma_line_feeds_lines(t: Seq<char>)
    ensures
        line_feeds(t) <= lines(t).len(),
        t.len() > 0 ==> lines(t).len() > 0,
    decreases t.len(),
{
    if t.len() > 0 {
        lemma_line_end(t);
        let e = line_end(t);
        if e < t.len() {
            let first = t.take(e);
            let rest = t.skip(e + 1);
            lemma_line_feeds_lines(rest);
            lemma_line_feeds_none(first);
            lemma_line_feeds_add(first, seq!['\n']);
            lemma_line_feeds_add(first + seq!['\n'], rest);
            assert(first + seq!['\n'] + rest =~= t);
            lemma_line_feeds_one();
        } else {
            lemma_line_feeds_none(t);
        }
    }
}

/// Lines that each end with a line feed hold at least one line feed for each
/// line, besides those within the line at `k`.
pub proof fn lemma_line_feeds_terminated(ls: Seq<Seq<char>>, k: int)
    requires
        0 <= k < ls.len(),
    ensures
        line_feeds(terminated(ls)) >= ls.len() + line_feeds(ls[k]),
    decreases ls.len(),
{
    let rest = ls.skip(1);
    lemma_line_feeds_add(ls[0], seq!['\n']);
    lemma_line_feeds_add(ls[0] + seq!['\n'], terminated(rest));
    lemma_line_feeds_one();
    if k > 0 {
        lemma_line_feeds_terminated(rest, k - 1);
    } else if rest.len() > 0 {
        lemma_line_feeds_terminated(rest, 0);
    }
}

/// The lines of a text that ends with a line feed, each followed by a line
/// feed, are no longer than the text, and as long only if no line feed of
/// the text follows a carriage return.
pub proof fn lemma_terminated_lines_len(t: Seq<char>)
    requires
        t.len() > 0,
        t.last() == '\n',
    ensures
        terminated(lines(t)).len() <= t.len(),
        terminated(lines(t)).len() == t.len() ==> plain_line_endings(t),
    decreases t.len(),
{
    lemma_line_end(t);
    let e = line_end(t);
    let raw = t.take(e);
    let first = strip_cr(raw);
    let rest = t.skip(e + 1);
    assert(e < t.len()) by {
        if e == t.len() {
            assert(t[t.len() - 1] != '\n');
        }
    }
    assert(lines(t) == seq![first] + lines(rest));
    assert(lines(t).skip(1) =~= lines(rest));
    assert(terminated(lines(t)) =~= first + seq!['\n'] + terminated(lines(rest)));
    if rest.len() > 0 {
        assert(rest.last() == t.last());
        lemma_terminated_lines_len(rest);
    } else {
        assert(terminated(lines(rest)).len() == 0);
    }
    if terminated(lines(t)).len() == t.len() {
        assert(first == raw);
        assert forall|i: int| #![trigger t[i]] 0 <= i && i + 1 < t.len() implies !(t[i] == '\r'
            && t[i + 1] == '\n') by {
            if t[i] == '\r' && t[i + 1] == '\n' {
                if i + 1 == e {
                    assert(raw.last() == t[i]);
                } else {
                    assert(i + 1 > e);
                    assert(rest[i - e - 1] == t[i]);
                    assert(rest[i - e] == t[i + 1]);
                }
            }
        }
    }
}

/// The lines of `s`.
pub fn split_lines(s: &Vec<char>) -> (ls: Vec<Vec<char>>)
    ensures
        line_views(ls@) == lines(s@),
{
    let mut ls: Vec<Vec<char>> = Vec::new();
    let mut start: usize = 0;
    assert(s@.skip(0) =~= s@);
    while start < s.len()
        invariant
            start <= s.len(),
            lines(s@) == line_views(ls@) + lines(s@.skip(start as int)),
        decreases s.len() - start,
    {
        let ghost rest = s@.skip(start as int);
        let ghost before = line_views(ls@);
        let mut end: usize = start;
        while end < s.len() && s[end] != '\n'
            invariant
                start <= end <= s.len(),
                forall|j: int| start <= j < end ==> s@[j] != '\n',
            decreases s.len() - end,
        {
            end = end + 1;
        }
        proof {
            lemma_line_end_is(rest, end - start);
        }
        if end == s.len() {
            let line = slice(s, start, end);
            assert(line@ =~= rest);
            ls.push(line);
            assert(rest.skip(rest.len() as int) =~= s@.skip(end as int));
            start = end;
        } else {
            let stop: usize = if end > start && s[end - 1] == '\r' {
                end - 1
            } else {
                end
            };
            let line = slice(s, start, stop);
            assert(line@ =~= strip_cr(rest.take(end - start)));
            ls.push(line);
            assert(rest.skip(end - start + 1) =~= s@.skip(end + 1));
            start = end + 1;
        }
        assert(line_views(ls@) =~= before + seq![ls@.last()@]);
    }
    assert(line_views(ls@) + Seq::<Seq<char>>::empty() =~= line_views(ls@));
    ls
}

/// The text made of the lines `ls`.
pub fn join_lines(ls: &Vec<Vec<char>>) -> (r: Vec<char>)
    ensures
        r@ == unlines(line_views(ls@)),
{
    let mut r: Vec<char> = Vec::new();
    let mut i: usize = 0;
    while i < ls.len()
        invariant
            i <= ls.len(),
            r@ == join(line_views(ls@).take(i as int), seq!['\n']),
        decreases ls.len() - i,
    {
        let ghost done = line_views(ls@).take(i as int);
        let ghost next = line_views(ls@).take(i + 1);
        assert(next.drop_last() =~= done);
        assert(next.last() == ls@[i as int]@);
        if i > 0 {
            r.push('\n');
            assert(r@ =~= join(done, seq!['\n']) + seq!['\n']);
        }
        push_all(&mut r, &ls[i]);
        i = i + 1;
    }
    assert(line_views(ls@).take(ls.len() as int) =~= line_views(ls@));
    r.push('\n');
    r
}

} // verus!
