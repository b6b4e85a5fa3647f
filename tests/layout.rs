use pager::layout::{cut, cutlist, wrap, wraplist};
use pager::tag::Tag;

#[test]
fn wrap_170_chars_at_80_gives_three_lines() {
    let text = "abcdefghi ".repeat(17);
    assert_eq!(text.len(), 170);
    let lines = wrap(&text, 80);
    assert_eq!(lines.len(), 3);
    assert_eq!(lines[0], "abcdefghi ".repeat(8).trim_end());
    assert_eq!(lines[1], "abcdefghi ".repeat(8).trim_end());
    assert_eq!(lines[2], "abcdefghi ");
    let chars: usize = lines.iter().map(|l| l.len()).sum();
    assert_eq!(chars + 2, 170);
    assert_eq!(lines.join(" "), text);
}

#[test]
fn wrap_short_text_is_one_line() {
    assert_eq!(wrap("plain line", 80), vec!["plain line".to_string()]);
}

#[test]
fn wrap_empty_text_gives_no_lines() {
    assert!(wrap("", 10).is_empty());
}

#[test]
fn wrap_breaks_at_last_space_and_drops_it() {
    assert_eq!(wrap("aaa bbb ccc", 5), vec!["aaa", "bbb", "ccc"]);
    assert_eq!(wrap("ab cdefghij", 3), vec!["ab", "cde", "fgh", "ij"]);
}

#[test]
fn wrap_hard_breaks_long_words() {
    assert_eq!(wrap("abcdefghij", 4), vec!["abcd", "efgh", "ij"]);
}

#[test]
fn wrap_leading_space_uses_the_part_after_it() {
    // The slice " abc" has its only space first: "abc" is emitted.
    assert_eq!(wrap(" abcdefg", 4), vec!["abc", "defg"]);
}

#[test]
fn wrap_lines_fit_and_keep_every_character() {
    let text = "the quick brown fox jumps over the lazy dog  twice, then   rests";
    for w in 1..20u16 {
        let lines = wrap(text, w);
        for l in &lines {
            assert!(l.chars().count() <= w as usize);
        }
        let kept: usize = lines.iter().map(|l| l.chars().count()).sum();
        assert!(kept <= text.len());
        assert!(text.len() - kept <= lines.len());
    }
}

#[test]
fn wrap_counts_characters_not_bytes() {
    assert_eq!(wrap("äöü ßé", 3), vec!["äöü", " ßé"]);
}

#[test]
fn cut_keeps_text_that_fits() {
    assert_eq!(cut("short", 10), "short");
    assert_eq!(cut("exactly10!", 10), "exactly10!");
}

#[test]
fn cut_breaks_at_last_space_with_dots() {
    assert_eq!(cut("hello world again", 10), "hello..");
    assert_eq!(cut("abcdefghijkl", 6), "abcd..");
    assert_eq!(cut(" abcdefghijkl", 6), "abc..");
}

#[test]
fn wraplist_tags_lines_with_segment_index() {
    let src = vec![
        (Tag::Heading, "Title".to_string()),
        (Tag::Text, "one two three".to_string()),
        (Tag::Text, String::new()),
        (Tag::Text, "x".to_string()),
    ];
    let d = wraplist(&src, 7);
    let expect: Vec<(usize, String)> = vec![
        (0, "Title".into()),
        (1, "one".into()),
        (1, "two".into()),
        (1, "three".into()),
        (3, "x".into()),
    ];
    assert_eq!(d, expect);
}

#[test]
fn cutlist_gives_one_line_per_segment() {
    let src = vec![
        (Tag::Text, "a long line of words".to_string()),
        (Tag::Text, String::new()),
    ];
    let d = cutlist(&src, 8);
    assert_eq!(d, vec![(0, "a..".to_string()), (1, String::new())]);
}
