use pager::tag::{parse_doc, parse_line, parse_text, split_lines, Tag};

#[test]
fn parse_three_kinds_in_order() {
    let doc = ".h Title\n.l http://x go here\nplain line";
    let segs = parse_doc(doc.lines().collect());
    assert_eq!(
        segs,
        vec![
            (Tag::Heading, "Title".to_string()),
            (Tag::Link("http://x".to_string()), "go here".to_string()),
            (Tag::Text, "plain line".to_string()),
        ]
    );
}

#[test]
fn parse_link_without_label_uses_target() {
    assert_eq!(parse_line(".lhttp://y"), (Tag::Link("http://y".to_string()), "http://y".to_string()));
}

#[test]
fn parse_trims_around_marked_text() {
    assert_eq!(parse_line(".h \t Big  Title \t"), (Tag::Heading, "Big  Title".to_string()));
    assert_eq!(parse_line(".l  a  b c "), (Tag::Link("a".to_string()), " b c".to_string()));
}

#[test]
fn parse_other_lines_are_verbatim_text() {
    assert_eq!(parse_line("  indented "), (Tag::Text, "  indented ".to_string()));
    assert_eq!(parse_line("."), (Tag::Text, ".".to_string()));
    assert_eq!(parse_line(""), (Tag::Text, String::new()));
    assert_eq!(parse_line(".x note"), (Tag::Text, ".x note".to_string()));
}

#[test]
fn parse_bare_marks() {
    assert_eq!(parse_line(".h"), (Tag::Heading, String::new()));
    assert_eq!(parse_line(".l"), (Tag::Link(String::new()), String::new()));
}

#[test]
fn tag_colours() {
    assert_eq!(Tag::Heading.getcolors(), ((225, 105, 180), (0, 0, 0)));
    assert_eq!(Tag::Text.getcolors(), ((180, 180, 180), (0, 0, 0)));
    assert_eq!(Tag::Link("x".into()).getcolors(), ((180, 105, 225), (0, 0, 0)));
}

#[test]
fn split_lines_like_text_files() {
    assert_eq!(split_lines("a\nb\r\nc"), vec!["a", "b", "c"]);
    assert_eq!(split_lines("a\n\nb\n"), vec!["a", "", "b"]);
    assert_eq!(split_lines(""), Vec::<String>::new());
    assert_eq!(split_lines("\n"), vec![""]);
    assert_eq!(split_lines("x\r"), vec!["x\r"]);
    assert_eq!(split_lines("\r\n\r\n"), vec!["", ""]);
}

#[test]
fn parse_text_splits_then_classifies() {
    let segs = parse_text(".h Title\r\n.l http://x go here\nplain line\n");
    assert_eq!(
        segs,
        vec![
            (Tag::Heading, "Title".to_string()),
            (Tag::Link("http://x".to_string()), "go here".to_string()),
            (Tag::Text, "plain line".to_string()),
        ]
    );
}
