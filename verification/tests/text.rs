use stm32_project_tool::lines::join_lines;
use stm32_project_tool::lines::split_lines;
use stm32_project_tool::text::contains_chars;
use stm32_project_tool::text::contains_str;
use stm32_project_tool::text::find_from;
use stm32_project_tool::text::from_chars;
use stm32_project_tool::text::is_space;
use stm32_project_tool::text::matches_at;
use stm32_project_tool::text::push_all;
use stm32_project_tool::text::replace_chars;
use stm32_project_tool::text::replace_str;
use stm32_project_tool::text::slice;
use stm32_project_tool::text::to_chars;

fn chars(s: &str) -> Vec<char> {
    s.chars().collect()
}

/// Every text of at most `max` characters, each taken from `alphabet`.
fn texts(alphabet: &[char], max: usize) -> Vec<String> {
    let mut all = vec![String::new()];
    let mut last = vec![String::new()];
    for _ in 0..max {
        let mut next = Vec::new();
        for t in &last {
            for c in alphabet {
                let mut longer = t.clone();
                longer.push(*c);
                next.push(longer);
            }
        }
        all.extend(next.iter().cloned());
        last = next;
    }
    all
}

#[test]
fn to_chars_and_from_chars_keep_every_character() {
    for s in ["", "a", "abc", "é ü ß", "頭文件\n\r\t", "😀x"] {
        assert_eq!(to_chars(s), chars(s));
        assert_eq!(from_chars(&chars(s)), s);
    }
}

#[test]
fn push_all_appends() {
    let mut v = chars("ab");
    push_all(&mut v, &chars("cd"));
    assert_eq!(v, chars("abcd"));
    push_all(&mut v, &chars(""));
    assert_eq!(v, chars("abcd"));
}

#[test]
fn slice_takes_a_part() {
    let v = chars("hello");
    assert_eq!(slice(&v, 1, 3), chars("el"));
    assert_eq!(slice(&v, 0, 5), chars("hello"));
    assert_eq!(slice(&v, 2, 2), chars(""));
}

#[test]
fn matches_at_compares_in_place() {
    let s = chars("abcabc");
    assert!(matches_at(&s, &chars("abc"), 0));
    assert!(matches_at(&s, &chars("abc"), 3));
    assert!(!matches_at(&s, &chars("abc"), 1));
    assert!(!matches_at(&s, &chars("abc"), 4));
    assert!(matches_at(&s, &chars(""), 6));
    assert!(!matches_at(&s, &chars(""), 7));
    assert!(!matches_at(&s, &chars("abcabca"), 0));
}

#[test]
fn find_from_finds_the_first_occurrence() {
    let s = chars("abcabc");
    assert_eq!(find_from(&s, &chars("bc"), 0), Some(1));
    assert_eq!(find_from(&s, &chars("bc"), 1), Some(1));
    assert_eq!(find_from(&s, &chars("bc"), 2), Some(4));
    assert_eq!(find_from(&s, &chars("bc"), 5), None);
    assert_eq!(find_from(&s, &chars("x"), 0), None);
    assert_eq!(find_from(&s, &chars(""), 6), Some(6));
    assert_eq!(find_from(&s, &chars(""), 7), None);
    assert_eq!(find_from(&s, &chars("abcabcd"), 0), None);
}

#[test]
fn contains_agrees_with_the_standard_library() {
    let all = texts(&['a', 'b'], 5);
    let needles = texts(&['a', 'b'], 3);
    for h in &all {
        for n in &needles {
            assert_eq!(contains_str(h, n), h.contains(n.as_str()), "{:?} {:?}", h, n);
            assert_eq!(contains_chars(&chars(h), &chars(n)), h.contains(n.as_str()));
        }
    }
}

#[test]
fn contains_finds_text_that_is_not_ascii() {
    assert!(contains_str("# 非侵入式引入头文件", "引入"));
    assert!(!contains_str("# 非侵入式引入头文件", "文头"));
    assert!(contains_str("anything", ""));
    assert!(contains_str("", ""));
    assert!(!contains_str("", "a"));
}

#[test]
fn replace_agrees_with_the_standard_library() {
    let all = texts(&['a', 'b'], 5);
    let finds = texts(&['a', 'b'], 2);
    for s in &all {
        for f in &finds {
            for ins in ["", "a", "ab", "X"] {
                assert_eq!(
                    replace_str(s, f, ins),
                    s.replace(f.as_str(), ins),
                    "{:?} {:?} {:?}",
                    s,
                    f,
                    ins
                );
            }
        }
    }
}

#[test]
fn replace_chars_replaces() {
    assert_eq!(replace_chars(&chars("foo bar foo"), &chars("foo"), &chars("baz")), chars("baz bar baz"));
    assert_eq!(replace_chars(&chars("ab"), &chars(""), &chars("-")), chars("-a-b-"));
    assert_eq!(replace_chars(&chars(""), &chars(""), &chars("-")), chars("-"));
    assert_eq!(replace_chars(&chars("頭文件"), &chars("文"), &chars("x")), chars("頭x件"));
}

#[test]
fn split_lines_agrees_with_the_standard_library() {
    for s in texts(&['a', '\n', '\r'], 7) {
        let expected: Vec<Vec<char>> = s.lines().map(|l| l.chars().collect()).collect();
        assert_eq!(split_lines(&chars(&s)), expected, "{:?}", s);
    }
}

#[test]
fn split_lines_splits_at_both_line_endings() {
    let lines = split_lines(&chars("foo\nbar\n\r\nbaz\r"));
    assert_eq!(lines, vec![chars("foo"), chars("bar"), chars(""), chars("baz\r")]);
    assert_eq!(split_lines(&chars("")), Vec::<Vec<char>>::new());
    assert_eq!(split_lines(&chars("\n")), vec![chars("")]);
    assert_eq!(split_lines(&chars("a\n\nb")), vec![chars("a"), chars(""), chars("b")]);
}

#[test]
fn join_lines_ends_every_line() {
    assert_eq!(join_lines(&vec![chars("a"), chars("b")]), chars("a\nb\n"));
    assert_eq!(join_lines(&vec![chars("a")]), chars("a\n"));
    assert_eq!(join_lines(&vec![chars("")]), chars("\n"));
    assert_eq!(join_lines(&vec![chars(""), chars("")]), chars("\n\n"));
    assert_eq!(join_lines(&Vec::new()), chars("\n"));
}

#[test]
fn join_lines_agrees_with_the_standard_library() {
    for s in texts(&['a', '\n', '\r'], 6) {
        let lines: Vec<&str> = s.lines().collect();
        let expected = lines.join("\n") + "\n";
        assert_eq!(from_chars(&join_lines(&split_lines(&chars(&s)))), expected, "{:?}", s);
    }
}

#[test]
fn text_that_ends_its_lines_plainly_is_made_of_its_lines() {
    for s in texts(&['a', '\n', '\r'], 6) {
        if s.ends_with('\n') && !s.contains("\r\n") {
            assert_eq!(from_chars(&join_lines(&split_lines(&chars(&s)))), s);
        }
    }
}

#[test]
fn is_space_agrees_with_the_standard_library() {
    let mut n: u32 = 0;
    while n <= 0x10FFFF {
        if let Some(c) = char::from_u32(n) {
            assert_eq!(is_space(c), c.is_whitespace(), "{:x}", n);
        }
        n += 1;
    }
}

#[test]
fn lines_that_can_be_lines_are_the_lines_of_their_text() {
    let candidates = texts(&['a', '\r'], 2);
    for first in &candidates {
        for second in &candidates {
            if first.ends_with('\r') || second.ends_with('\r') {
                continue;
            }
            let ls = vec![chars(first), chars(second)];
            assert_eq!(split_lines(&join_lines(&ls)), ls);
        }
    }
    assert_eq!(split_lines(&join_lines(&vec![chars("")])), vec![chars("")]);
}
