//! Segment classification: the markup parser and the colours of each kind.

use vstd::prelude::*;
use crate::text::{chars_of, string_of};

verus! {

/// What a source line is: a heading, plain text, or a link to a target.
#[derive(Clone, Debug, PartialEq, Eq)]
pub enum Tag {
    Heading,
    Text,
    Link(String),
}

/// A tag as a plain value.
pub enum TagView {
    Heading,
    Text,
    Link(Seq<char>),
}

impl View for Tag {
    type V = TagView;

    open spec fn view(&self) -> TagView {
        match self {
            Tag::Heading => TagView::Heading,
            Tag::Text => TagView::Text,
            Tag::Link(target) => TagView::Link(target@),
        }
    }
}

/// A colour as red, green and blue.
pub type Rgb = (u8, u8, u8);

/// Foreground and background colour of a line of each kind.
pub open spec fn tag_colors(t: TagView) -> (Rgb, Rgb) {
    let fg = match t {
        TagView::Heading => (225u8, 105u8, 180u8),
        TagView::Text => (180u8, 180u8, 180u8),
        TagView::Link(_) => (180u8, 105u8, 225u8),
    };
    (fg, (0u8, 0u8, 0u8))
}

impl Tag {
    /// Foreground and background colour of a line of this kind.
    pub fn getcolors(&self) -> (r: (Rgb, Rgb))
        ensures
            r == tag_colors(self@),
    {
        let fg = match self {
            Tag::Heading => (225, 105, 180),
            Tag::Text => (180, 180, 180),
            Tag::Link(_) => (180, 105, 225),
        };
        (fg, (0, 0, 0))
    }
}

/// Characters with the Unicode White_Space property.
pub open spec fn is_white(c: char) -> bool {
    let u = c as u32;
    ||| 0x9 <= u <= 0xd
    ||| u == 0x20
    ||| u == 0x85
    ||| u == 0xa0
    ||| u == 0x1680
    ||| 0x2000 <= u <= 0x200a
    ||| u == 0x2028
    ||| u == 0x2029
    ||| u == 0x202f
    ||| u == 0x205f
    ||| u == 0x3000
}

/// `s` without its leading white space.
pub open spec fn trim_start(s: Seq<char>) -> Seq<char>
    decreases s.len(),
{
    if s.len() > 0 && is_white(s[0]) {
        trim_start(s.drop_first())
    } else {
        s
    }
}

/// `s` without its trailing white space.
pub open spec fn trim_end(s: Seq<char>) -> Seq<char>
    decreases s.len(),
{
    if s.len() > 0 && is_white(s.last()) {
        trim_end(s.drop_last())
    } else {
        s
    }
}

/// `s` without its leading and trailing white space.
pub open spec fn trimmed(s: Seq<char>) -> Seq<char> {
    trim_end(trim_start(s))
}

/// Relies on `str::trim`: the slice without leading and trailing
/// characters that have the Unicode White_Space property.
#[verifier::external_body]
fn trim(s: &str) -> (r: &str)
    ensures
        r@ == trimmed(s@),
{
    s.trim()
}

/// Index of the first space of `s` at or after `i`, or -1.
pub open spec fn first_space_from(s: Seq<char>, i: int) -> int
    decreases s.len() - i,
{
    if i < 0 || i >= s.len() {
        -1
    } else if s[i] == ' ' {
        i
    } else {
        first_space_from(s, i + 1)
    }
}

/// Whether `line` opens with a dot and then `c`.
pub open spec fn marked(line: Seq<char>, c: char) -> bool {
    line.len() >= 2 && line[0] == '.' && line[1] == c
}

/// The segment a source line stands for. After `.l` the trimmed rest is
/// split at its first space into target and label (both the whole rest
/// when it has no space); after `.h` the trimmed rest is a heading; any
/// other line is text, verbatim.
pub open spec fn parse_spec(line: Seq<char>) -> (TagView, Seq<char>) {
    let rest = trimmed(line.skip(2));
    let p = first_space_from(rest, 0);
    if marked(line, 'l') {
        if p < 0 {
            (TagView::Link(rest), rest)
        } else {
            (TagView::Link(rest.take(p)), rest.skip(p + 1))
        }
    } else if marked(line, 'h') {
        (TagView::Heading, rest)
    } else {
        (TagView::Text, line)
    }
}

/// A segment as plain values.
pub open spec fn segment_view(e: (Tag, String)) -> (TagView, Seq<char>) {
    (e.0@, e.1@)
}

/// Index of the first space of `t`.
fn find_space(t: &Vec<char>) -> (r: Option<usize>)
    ensures
        match r {
            None => first_space_from(t@, 0) == -1,
            Some(k) => k < t.len() && first_space_from(t@, 0) == k,
        },
{
    let mut i: usize = 0;
    while i < t.len()
        invariant
            i <= t.len(),
            first_space_from(t@, 0) == first_space_from(t@, i as int),
        decreases t.len() - i,
    {
        if t[i] == ' ' {
            return Some(i);
        }
        i = i + 1;
    }
    None
}

/// Classifies one source line.
pub fn parse_line(line: &str) -> (r: (Tag, String))
    ensures
        segment_view(r) == parse_spec(line@),
{
    let t = chars_of(line);
    let n = t.len();
    if n >= 2 && t[0] == '.' && (t[1] == 'l' || t[1] == 'h') {
        let tail = string_of(&t, 2, n);
        assert(tail@ =~= line@.skip(2));
        let rest = chars_of(trim(tail.as_str()));
        let m = rest.len();
        if t[1] == 'l' {
            match find_space(&rest) {
                Some(p) => {
                    let target = string_of(&rest, 0, p);
                    let label = string_of(&rest, p + 1, m);
                    assert(target@ =~= rest@.take(p as int));
                    assert(label@ =~= rest@.skip(p + 1));
                    (Tag::Link(target), label)
                },
                None => {
                    let target = string_of(&rest, 0, m);
                    let label = string_of(&rest, 0, m);
                    assert(target@ =~= rest@);
                    (Tag::Link(target), label)
                },
            }
        } else {
            let text = string_of(&rest, 0, m);
            assert(text@ =~= rest@);
            (Tag::Heading, text)
        }
    } else {
        let text = string_of(&t, 0, n);
        assert(text@ =~= line@);
        (Tag::Text, text)
    }
}

/// Classifies every source line, keeping their order.
pub fn parse_doc(lines: Vec<&str>) -> (r: Vec<(Tag, String)>)
    ensures
        r.len() == lines.len(),
        forall|i: int| 0 <= i < lines.len() ==> segment_view(#[trigger] r[i]) == parse_spec(lines[i]@),
{
    let mut v: Vec<(Tag, String)> = Vec::new();
    let mut i: usize = 0;
    while i < lines.len()
        invariant
            i <= lines.len(),
            v.len() == i,
            forall|j: int| 0 <= j < i ==> segment_view(#[trigger] v[j]) == parse_spec(lines[j]@),
        decreases lines.len() - i,
    {
        let formatted = parse_line(lines[i]);
        v.push(formatted);
        i = i + 1;
    }
    v
}

/// Index of the first line feed of `s` at or after `i`, or -1.
pub open spec fn first_newline_from(s: Seq<char>, i: int) -> int
    decreases s.len() - i,
{
    if i < 0 || i >= s.len() {
        -1
    } else if s[i] == '\n' {
        i
    } else {
        first_newline_from(s, i + 1)
    }
}

/// A line that ended in a line feed, without a carriage return before it.
pub open spec fn strip_cr(l: Seq<char>) -> Seq<char> {
    if l.len() > 0 && l.last() == '\r' {
        l.drop_last()
    } else {
        l
    }
}

/// The lines of `s` from index `i` on: split at each line feed, a carriage
/// return right before it dropped; a last line with no line feed after it
/// counts when it is not empty.
pub open spec fn lines_from(s: Seq<char>, i: nat) -> Seq<Seq<char>>
    decreases s.len() - i,
{
    let k = first_newline_from(s, i as int);
    if i >= s.len() {
        seq![]
    } else if k < 0 {
        seq![s.subrange(i as int, s.len() as int)]
    } else {
        proof {
            lemma_first_newline_from(s, i as int);
        }
        seq![strip_cr(s.subrange(i as int, k))] + lines_from(s, (k + 1) as nat)
    }
}

/// A line feed found is at or after the index it was sought from.
pub proof fn lemma_first_newline_from(s: Seq<char>, i: int)
    requires
        0 <= i <= s.len(),
    ensures
        first_newline_from(s, i) == -1 || i <= first_newline_from(s, i) < s.len(),
    decreases s.len() - i,
{
    if i < s.len() && s[i] != '\n' {
        lemma_first_newline_from(s, i + 1);
    }
}

/// The lines of a document.
pub fn split_lines(doc: &str) -> (r: Vec<String>)
    ensures
        crate::layout::views(r@) == lines_from(doc@, 0),
{
    let t = chars_of(doc);
    let n = t.len();
    let mut r: Vec<String> = Vec::new();
    let mut start: usize = 0;
    let mut i: usize = 0;
    while i < n
        invariant
            start <= i <= n == t.len(),
            t@ == doc@,
            first_newline_from(t@, start as int) == first_newline_from(t@, i as int),
            crate::layout::views(r@) + lines_from(t@, start as nat) == lines_from(t@, 0),
        decreases n - i,
    {
        if t[i] == '\n' {
            let ghost old_r = r@;
            let end = if i > start && t[i - 1] == '\r' { i - 1 } else { i };
            let line = string_of(&t, start, end);
            proof {
                let l = t@.subrange(start as int, i as int);
                if end < i {
                    assert(l.drop_last() =~= t@.subrange(start as int, end as int));
                } else {
                    assert(l =~= t@.subrange(start as int, end as int));
                }
                assert(lines_from(t@, start as nat) == seq![strip_cr(l)] + lines_from(t@, (i + 1) as nat));
            }
            r.push(line);
            assert(crate::layout::views(r@) =~= crate::layout::views(old_r) + seq![line@]);
            start = i + 1;
        }
        i = i + 1;
    }
    let ghost old_r = r@;
    if start < n {
        let line = string_of(&t, start, n);
        r.push(line);
        assert(crate::layout::views(r@) =~= crate::layout::views(old_r) + seq![line@]);
    }
    assert(crate::layout::views(r@) =~= lines_from(t@, 0));
    r
}

/// Splits a document into lines and classifies each.
pub fn parse_text(doc: &str) -> (r: Vec<(Tag, String)>)
    ensures
        r.len() == lines_from(doc@, 0).len(),
        forall|i: int|
            0 <= i < r.len() ==> segment_view(#[trigger] r[i]) == parse_spec(lines_from(doc@, 0)[i]),
{
    let lines = split_lines(doc);
    let mut v: Vec<(Tag, String)> = Vec::new();
    let mut i: usize = 0;
    while i < lines.len()
        invariant
            i <= lines.len(),
            v.len() == i,
            crate::layout::views(lines@) == lines_from(doc@, 0),
            forall|j: int| 0 <= j < i ==> segment_view(#[trigger] v[j]) == parse_spec(lines@[j]@),
        decreases lines.len() - i,
    {
        v.push(parse_line(lines[i].as_str()));
        i = i + 1;
    }
    assert forall|j: int| 0 <= j < v.len() implies segment_view(#[trigger] v[j]) == parse_spec(lines_from(doc@, 0)[j]) by {
        assert(crate::layout::views(lines@)[j] == lines@[j]@);
    }
    v
}

} // verus!
