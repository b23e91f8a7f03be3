//! Text as a sequence of characters: substring search, literal replacement,
//! and the split into lines and back.
//!
//! Every function here works on characters, never on bytes, so a contract
//! reads the same for ASCII and for any other text.

use vstd::prelude::*;

verus! {

/// `pat` stands in `s` at index `i`.
pub open spec fn occurs_at(s: Seq<char>, pat: Seq<char>, i: int) -> bool {
    &&& 0 <= i
    &&& i + pat.len() <= s.len()
    &&& s.subrange(i, i + pat.len()) == pat
}

/// `pat` is a substring of `s`. The empty text is a substring of every text.
pub open spec fn contains(s: Seq<char>, pat: Seq<char>) -> bool {
    exists|i: int| occurs_at(s, pat, i)
}

/// `s` ends with `suffix`.
pub open spec fn ends_with(s: Seq<char>, suffix: Seq<char>) -> bool {
    occurs_at(s, suffix, s.len() - suffix.len())
}

/// `s` with every occurrence of `find` replaced by `ins`, taken from the left
/// and without overlap. An empty `find` occurs before each character and at
/// the end.
pub open spec fn replace_all(s: Seq<char>, find: Seq<char>, ins: Seq<char>) -> Seq<char>
    decreases s.len(),
{
    if find.len() == 0 {
        if s.len() == 0 {
            ins
        } else {
            ins + seq![s[0]] + replace_all(s.skip(1), find, ins)
        }
    } else if s.len() == 0 {
        Seq::empty()
    } else if occurs_at(s, find, 0) {
        ins + replace_all(s.skip(find.len() as int), find, ins)
    } else {
        seq![s[0]] + replace_all(s.skip(1), find, ins)
    }
}

/// Whether `c` is white space: a character with the Unicode property
/// White_Space.
pub open spec fn is_whitespace(c: char) -> bool {
    let n = c as u32;
    ||| 0x09 <= n <= 0x0D
    ||| n == 0x20
    ||| n == 0x85
    ||| n == 0xA0
    ||| n == 0x1680
    ||| 0x2000 <= n <= 0x200A
    ||| n == 0x2028
    ||| n == 0x2029
    ||| n == 0x202F
    ||| n == 0x205F
    ||| n == 0x3000
}

/// An occurrence in `s` from index `k` on is an occurrence in `s`, `k` further
/// to the right.
pub proof fn lemma_occurs_at_skip(s: Seq<char>, pat: Seq<char>, k: int, j: int)
    requires
        0 <= k <= s.len(),
        0 <= j,
    ensures
        occurs_at(s.skip(k), pat, j) == occurs_at(s, pat, k + j),
{
    if k + j + pat.len() <= s.len() {
        assert(s.skip(k).subrange(j, j + pat.len()) =~= s.subrange(k + j, k + j + pat.len()));
    }
}

/// An occurrence in `b` is an occurrence in `a + b + c`, further to the right
/// by the length of `a`.
pub proof fn lemma_occurs_at_within(a: Seq<char>, b: Seq<char>, c: Seq<char>, pat: Seq<char>, j: int)
    requires
        occurs_at(b, pat, j),
    ensures
        occurs_at(a + b + c, pat, a.len() + j),
        contains(a + b + c, pat),
{
    assert((a + b + c).subrange(a.len() + j, a.len() + j + pat.len()) =~= b.subrange(
        j,
        j + pat.len(),
    ));
}

/// A text in which `find` does not occur is left as it is.
pub proof fn lemma_replace_all_without_occurrence(s: Seq<char>, find: Seq<char>, ins: Seq<char>)
    requires
        !contains(s, find),
    ensures
        replace_all(s, find, ins) == s,
    decreases s.len(),
{
    if find.len() == 0 {
        assert(s.subrange(0, 0) =~= find);
        assert(occurs_at(s, find, 0));
    } else if s.len() == 0 {
        assert(replace_all(s, find, ins) =~= s);
    } else {
        assert(!occurs_at(s, find, 0));
        assert forall|j: int| !occurs_at(s.skip(1), find, j) by {
            if 0 <= j {
                lemma_occurs_at_skip(s, find, 1, j);
            }
            assert(!occurs_at(s, find, 1 + j));
        }
        lemma_replace_all_without_occurrence(s.skip(1), find, ins);
        assert(seq![s[0]] + s.skip(1) =~= s);
    }
}

/// Where `find` occurs, the result of the replacement contains `ins`.
pub proof fn lemma_replace_all_leaves_insert(s: Seq<char>, find: Seq<char>, ins: Seq<char>)
    requires
        contains(s, find),
    ensures
        contains(replace_all(s, find, ins), ins),
    decreases s.len(),
{
    let r = replace_all(s, find, ins);
    let i = choose|i: int| occurs_at(s, find, i);
    if find.len() == 0 {
        assert(r.subrange(0, ins.len() as int) =~= ins);
        assert(occurs_at(r, ins, 0));
    } else if occurs_at(s, find, 0) {
        assert(r.subrange(0, ins.len() as int) =~= ins);
        assert(occurs_at(r, ins, 0));
    } else {
        lemma_occurs_at_skip(s, find, 1, i - 1);
        assert(occurs_at(s.skip(1), find, i - 1));
        let rest = replace_all(s.skip(1), find, ins);
        lemma_replace_all_leaves_insert(s.skip(1), find, ins);
        let j = choose|j: int| occurs_at(rest, ins, j);
        lemma_occurs_at_within(seq![s[0]], rest, Seq::empty(), ins, j);
        assert(seq![s[0]] + rest + Seq::<char>::empty() =~= r);
    }
}

/// `String::push` appends one character to the end of the string.
pub assume_specification[ String::push ](s: &mut String, c: char)
    ensures
        final(s)@ == old(s)@.push(c),
;

/// The characters of `s`, in order.
pub fn to_chars(s: &str) -> (v: Vec<char>)
    ensures
        v@ == s@,
{
    let mut v: Vec<char> = Vec::new();
    for c in it: s.chars()
        invariant
            v@ == it.seq().take(it.index() as int),
            it.seq() == s@,
    {
        v.push(c);
    }
    v
}

/// The string that holds the characters of `v`, in order.
pub fn from_chars(v: &Vec<char>) -> (s: String)
    ensures
        s@ == v@,
{
    let mut s = String::new();
    let mut i: usize = 0;
    while i < v.len()
        invariant
            i <= v.len(),
            s@ == v@.take(i as int),
        decreases v.len() - i,
    {
        s.push(v[i]);
        i = i + 1;
    }
    s
}

/// Appends the characters of `src` to `dst`.
pub fn push_all(dst: &mut Vec<char>, src: &Vec<char>)
    ensures
        final(dst)@ == old(dst)@ + src@,
{
    let mut i: usize = 0;
    while i < src.len()
        invariant
            i <= src.len(),
            dst@ == old(dst)@ + src@.take(i as int),
        decreases src.len() - i,
    {
        dst.push(src[i]);
        i = i + 1;
    }
}

/// The characters of `s` from `from` up to, not including, `to`.
pub fn slice(s: &Vec<char>, from: usize, to: usize) -> (r: Vec<char>)
    requires
        from <= to <= s.len(),
    ensures
        r@ == s@.subrange(from as int, to as int),
{
    let mut r: Vec<char> = Vec::new();
    let mut i: usize = from;
    while i < to
        invariant
            from <= i <= to,
            to <= s.len(),
            r@ == s@.subrange(from as int, i as int),
        decreases to - i,
    {
        r.push(s[i]);
        i = i + 1;
    }
    r
}

/// Whether `pat` stands in `s` at index `at`.
pub fn matches_at(s: &Vec<char>, pat: &Vec<char>, at: usize) -> (b: bool)
    ensures
        b == occurs_at(s@, pat@, at as int),
{
    if pat.len() > s.len() || at > s.len() - pat.len() {
        return false;
    }
    let mut k: usize = 0;
    while k < pat.len()
        invariant
            k <= pat.len(),
            at + pat.len() <= s.len(),
            forall|j: int| 0 <= j < k ==> s@[at + j] == pat@[j],
        decreases pat.len() - k,
    {
        if s[at + k] != pat[k] {
            assert(s@.subrange(at as int, at + pat.len())[k as int] == s@[at + k]);
            return false;
        }
        k = k + 1;
    }
    assert(s@.subrange(at as int, at + pat.len()) =~= pat@);
    true
}

/// The first index at or after `from` at which `pat` stands in `s`.
pub fn find_from(s: &Vec<char>, pat: &Vec<char>, from: usize) -> (r: Option<usize>)
    ensures
        match r {
            Some(i) => from <= i && occurs_at(s@, pat@, i as int) && forall|j: int|
                from <= j < i ==> !occurs_at(s@, pat@, j),
            None => forall|j: int| from <= j ==> !occurs_at(s@, pat@, j),
        },
{
    if pat.len() > s.len() {
        return None;
    }
    if pat.len() == 0 {
        if from <= s.len() {
            assert(s@.subrange(from as int, from as int) =~= pat@);
            return Some(from);
        }
        return None;
    }
    let last: usize = s.len() - pat.len();
    let mut i: usize = from;
    while i <= last
        invariant
            from <= i,
            last < s.len(),
            last == s.len() - pat.len(),
            forall|j: int| from <= j < i ==> !occurs_at(s@, pat@, j),
        decreases last + 1 - i,
    {
        if matches_at(s, pat, i) {
            return Some(i);
        }
        i = i + 1;
    }
    None
}

/// Whether `pat` is a substring of `s`.
pub fn contains_chars(s: &Vec<char>, pat: &Vec<char>) -> (b: bool)
    ensures
        b == contains(s@, pat@),
{
    find_from(s, pat, 0).is_some()
}

/// Whether `needle` is a substring of `haystack`.
pub fn contains_str(haystack: &str, needle: &str) -> (b: bool)
    ensures
        b == contains(haystack@, needle@),
{
    let h = to_chars(haystack);
    let n = to_chars(needle);
    contains_chars(&h, &n)
}

/// `s` with every occurrence of `find` replaced by `ins`.
pub fn replace_chars(s: &Vec<char>, find: &Vec<char>, ins: &Vec<char>) -> (r: Vec<char>)
    ensures
        r@ == replace_all(s@, find@, ins@),
{
    let mut r: Vec<char> = Vec::new();
    let mut i: usize = 0;
    assert(s@.skip(0) =~= s@);
    while i < s.len()
        invariant
            i <= s.len(),
            replace_all(s@, find@, ins@) == r@ + replace_all(s@.skip(i as int), find@, ins@),
        decreases s.len() - i,
    {
        let ghost rest = s@.skip(i as int);
        let ghost done = r@;
        proof {
            lemma_occurs_at_skip(s@, find@, i as int, 0);
        }
        if find.len() > 0 && matches_at(s, find, i) {
            push_all(&mut r, ins);
            assert(rest.skip(find@.len() as int) =~= s@.skip(i + find@.len()));
            assert(done + (ins@ + replace_all(rest.skip(find@.len() as int), find@, ins@)) =~= r@
                + replace_all(s@.skip(i + find@.len()), find@, ins@));
            i = i + find.len();
        } else {
            if find.len() == 0 {
                push_all(&mut r, ins);
            }
            r.push(s[i]);
            assert(rest.skip(1) =~= s@.skip(i + 1));
            assert(rest[0] == s@[i as int]);
            assert(replace_all(s@, find@, ins@) =~= r@ + replace_all(
                s@.skip(i + 1),
                find@,
                ins@,
            ));
            i = i + 1;
        }
    }
    if find.len() == 0 {
        push_all(&mut r, ins);
    }
    assert(replace_all(s@, find@, ins@) =~= r@);
    r
}

/// `content` with every occurrence of `find` replaced by `insert`.
pub fn replace_str(content: &str, find: &str, insert: &str) -> (r: String)
    ensures
        r@ == replace_all(content@, find@, insert@),
{
    let c = to_chars(content);
    let f = to_chars(find);
    let i = to_chars(insert);
    let r = replace_chars(&c, &f, &i);
    from_chars(&r)
}

/// Whether `c` is white space.
pub fn is_space(c: char) -> (b: bool)
    ensures
        b == is_whitespace(c),
{
    let n: u32 = c as u32;
    (0x09 <= n && n <= 0x0D) || n == 0x20 || n == 0x85 || n == 0xA0 || n == 0x1680 || (0x2000 <= n
        && n <= 0x200A) || n == 0x2028 || n == 0x2029 || n == 0x202F || n == 0x205F || n == 0x3000
}

} // verus!
