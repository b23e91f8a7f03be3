//! The author's name, as git knows it.

use vstd::prelude::*;
use crate::text::from_chars;
use crate::text::is_space;
use crate::text::is_whitespace;
use crate::text::slice;
use crate::text::to_chars;

verus! {

/// `s` without the white space at its start.
pub open spec fn trim_start(s: Seq<char>) -> Seq<char>
    decreases s.len(),
{
    if s.len() > 0 && is_whitespace(s[0]) {
        trim_start(s.skip(1))
    } else {
        s
    }
}

/// `s` without the white space at its end.
pub open spec fn trim_end(s: Seq<char>) -> Seq<char>
    decreases s.len(),
{
    if s.len() > 0 && is_whitespace(s.last()) {
        trim_end(s.drop_last())
    } else {
        s
    }
}

/// `s` without the white space at its start and at its end.
pub open spec fn trimmed(s: Seq<char>) -> Seq<char> {
    trim_end(trim_start(s))
}

/// The author's name: what git printed for it, without the white space
/// around it, or `unknown` where git printed nothing that can be read.
pub open spec fn author_name(output: Option<Seq<char>>) -> Seq<char> {
    match output {
        Some(printed) => trimmed(printed),
        None => "unknown"@,
    }
}

/// `s` without the white space at its start and at its end.
pub fn trim(s: &str) -> (r: String)
    ensures
        r@ == trimmed(s@),
{
    let v = to_chars(s);
    let mut from: usize = 0;
    assert(v@.skip(0) =~= v@);
    while from < v.len() && is_space(v[from])
        invariant
            from <= v.len(),
            trim_start(v@) == trim_start(v@.skip(from as int)),
        decreases v.len() - from,
    {
        assert(v@.skip(from as int).skip(1) =~= v@.skip(from + 1));
        from = from + 1;
    }
    assert(trim_start(v@) == v@.skip(from as int));
    let mut to: usize = v.len();
    assert(v@.subrange(from as int, to as int) =~= v@.skip(from as int));
    while to > from && is_space(v[to - 1])
        invariant
            from <= to <= v.len(),
            trimmed(v@) == trim_end(v@.subrange(from as int, to as int)),
        decreases to - from,
    {
        assert(v@.subrange(from as int, to as int).drop_last() =~= v@.subrange(
            from as int,
            to - 1,
        ));
        to = to - 1;
    }
    let r = slice(&v, from, to);
    from_chars(&r)
}

/// The author's name, from what `git config user.name` printed, if it ran
/// and printed text.
pub fn get_author(output: Option<&str>) -> (author: String)
    ensures
        author@ == author_name(
            match output {
                Some(printed) => Some(printed@),
                None => None,
            },
        ),
{
    match output {
        Some(printed) => trim(printed),
        None => "unknown".to_owned(),
    }
}

} // verus!
