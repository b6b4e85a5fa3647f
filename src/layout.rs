//! Fitting segment texts to a screen width: word wrapping, which keeps
//! every character, and cutting, which keeps one row per segment.

use vstd::prelude::*;
use crate::text::{chars_of, string_of};
use crate::tag::Tag;

verus! {

/// Index of the last space of `s`, or -1 when `s` holds none.
pub open spec fn last_space(s: Seq<char>) -> int
    decreases s.len(),
{
    if s.len() == 0 {
        -1
    } else if s.last() == ' ' {
        s.len() - 1
    } else {
        last_space(s.drop_last())
    }
}

/// One wrapped line, with whether a space was dropped right before it and
/// whether one was dropped right after it.
pub type Piece = (bool, Seq<char>, bool);

/// The lines that wrapping `t` to width `w` yields from index `start` on.
///
/// While more than `w` characters remain, the next `w` of them are
/// examined: with no space among them they form a line as they are; when
/// their last space is the first of them, the rest forms a line; otherwise
/// what stands before that space forms a line. The space a break falls on
/// is dropped. What remains at the end forms the last line.
pub open spec fn wrap_pieces(t: Seq<char>, w: nat, start: nat) -> Seq<Piece>
    decreases t.len() - start,
{
    if w == 0 || start >= t.len() {
        seq![]
    } else if start + w >= t.len() {
        seq![(false, t.subrange(start as int, t.len() as int), false)]
    } else {
        let p = last_space(t.subrange(start as int, (start + w) as int));
        proof {
            lemma_last_space(t.subrange(start as int, (start + w) as int));
        }
        if p < 0 {
            seq![(false, t.subrange(start as int, (start + w) as int), false)]
                + wrap_pieces(t, w, start + w)
        } else if p == 0 {
            seq![(true, t.subrange((start + 1) as int, (start + w) as int), false)]
                + wrap_pieces(t, w, start + w)
        } else {
            seq![(false, t.subrange(start as int, start + p), true)]
                + wrap_pieces(t, w, (start + p + 1) as nat)
        }
    }
}

/// The lines of `t` wrapped to width `w`.
pub open spec fn wrap_lines(t: Seq<char>, w: nat) -> Seq<Seq<char>> {
    wrap_pieces(t, w, 0).map_values(|p: Piece| p.1)
}

/// A line with the spaces dropped around it put back.
pub open spec fn piece_text(p: Piece) -> Seq<char> {
    (if p.0 { seq![' '] } else { seq![] }) + p.1 + (if p.2 { seq![' '] } else { seq![] })
}

/// The lines joined again, each dropped space put back in its place.
pub open spec fn rejoin(ps: Seq<Piece>) -> Seq<char>
    decreases ps.len(),
{
    if ps.len() == 0 {
        seq![]
    } else {
        piece_text(ps[0]) + rejoin(ps.drop_first())
    }
}

/// The views of a vector of strings.
pub open spec fn views(v: Seq<String>) -> Seq<Seq<char>> {
    v.map_values(|s: String| s@)
}

/// The last space lies within `s`, and is a space.
pub proof fn lemma_last_space(s: Seq<char>)
    ensures
        -1 <= last_space(s) < s.len(),
        last_space(s) >= 0 ==> s[last_space(s)] == ' ',
    decreases s.len(),
{
    if s.len() > 0 && s.last() != ' ' {
        lemma_last_space(s.drop_last());
        let k = last_space(s.drop_last());
        if k >= 0 {
            assert(s.drop_last()[k] == s[k]);
        }
    }
}

proof fn lemma_rejoin_from(t: Seq<char>, w: nat, start: nat)
    requires
        w > 0,
        start <= t.len(),
    ensures
        rejoin(wrap_pieces(t, w, start)) == t.subrange(start as int, t.len() as int),
        forall|i: int|
            0 <= i < wrap_pieces(t, w, start).len() ==> (#[trigger] wrap_pieces(t, w, start)[i]).1.len() <= w,
    decreases t.len() - start,
{
    let ps = wrap_pieces(t, w, start);
    let n = t.len() as int;
    if start >= t.len() {
        assert(t.subrange(start as int, n) =~= seq![]);
    } else if start + w >= t.len() {
        assert(ps.drop_first() =~= seq![]);
        assert(rejoin(ps.drop_first()) =~= seq![]);
        assert(piece_text(ps[0]) =~= t.subrange(start as int, n));
        assert(rejoin(ps) =~= piece_text(ps[0]) + rejoin(ps.drop_first()));
    } else {
        let s = t.subrange(start as int, (start + w) as int);
        let p = last_space(s);
        lemma_last_space(s);
        let next: nat = if p <= 0 { start + w } else { (start + p + 1) as nat };
        lemma_rejoin_from(t, w, next);
        let rest = wrap_pieces(t, w, next);
        assert(ps.drop_first() =~= rest);
        if p < 0 {
            assert(piece_text(ps[0]) =~= t.subrange(start as int, (start + w) as int));
        } else if p == 0 {
            assert(t[start as int] == ' ');
            assert(piece_text(ps[0]) =~= t.subrange(start as int, (start + w) as int));
        } else {
            assert(t[start + p] == ' ');
            assert(piece_text(ps[0]) =~= t.subrange(start as int, start + p + 1));
        }
        assert(t.subrange(start as int, n) =~= piece_text(ps[0]) + t.subrange(next as int, n));
        assert(rejoin(ps) == piece_text(ps[0]) + rejoin(rest));
        assert forall|i: int| 0 <= i < ps.len() implies (#[trigger] ps[i]).1.len() <= w by {
            if i > 0 {
                assert(ps[i] == rest[i - 1]);
            }
        }
    }
}

/// Wrapping keeps every line within the width, and joining the lines
/// again, with one space wherever a break dropped one, gives back the text.
pub proof fn lemma_wrap_rejoins(t: Seq<char>, w: nat)
    requires
        w > 0,
    ensures
        forall|i: int| 0 <= i < wrap_lines(t, w).len() ==> (#[trigger] wrap_lines(t, w)[i]).len() <= w,
        wrap_lines(t, w) == wrap_pieces(t, w, 0).map_values(|p: Piece| p.1),
        rejoin(wrap_pieces(t, w, 0)) == t,
{
    lemma_rejoin_from(t, w, 0);
    assert(t.subrange(0, t.len() as int) =~= t);
    assert forall|i: int| 0 <= i < wrap_lines(t, w).len() implies (#[trigger] wrap_lines(t, w)[i]).len() <= w by {
        assert(wrap_lines(t, w)[i] == wrap_pieces(t, w, 0)[i].1);
    }
}

/// Total number of characters on the lines.
pub open spec fn kept_chars(ps: Seq<Piece>) -> nat
    decreases ps.len(),
{
    if ps.len() == 0 {
        0
    } else {
        ps[0].1.len() + kept_chars(ps.drop_first())
    }
}

/// Number of spaces the breaks dropped.
pub open spec fn dropped_spaces(ps: Seq<Piece>) -> nat
    decreases ps.len(),
{
    if ps.len() == 0 {
        0
    } else {
        (if ps[0].0 { 1nat } else { 0nat }) + (if ps[0].2 { 1nat } else { 0nat }) + dropped_spaces(
            ps.drop_first(),
        )
    }
}

proof fn lemma_rejoin_len(ps: Seq<Piece>)
    ensures
        rejoin(ps).len() == kept_chars(ps) + dropped_spaces(ps),
        (forall|i: int| 0 <= i < ps.len() ==> !((#[trigger] ps[i]).0 && ps[i].2)) ==> dropped_spaces(ps)
            <= ps.len(),
    decreases ps.len(),
{
    if ps.len() > 0 {
        lemma_rejoin_len(ps.drop_first());
        if forall|i: int| 0 <= i < ps.len() ==> !((#[trigger] ps[i]).0 && ps[i].2) {
            assert forall|i: int| 0 <= i < ps.drop_first().len() implies !((#[trigger] ps.drop_first()[i]).0
                && ps.drop_first()[i].2) by {
                assert(ps.drop_first()[i] == ps[i + 1]);
            }
            assert(!(ps[0].0 && ps[0].2));
        }
    }
}

proof fn lemma_one_drop_per_line(t: Seq<char>, w: nat, start: nat)
    ensures
        forall|i: int|
            0 <= i < wrap_pieces(t, w, start).len() ==> !((#[trigger] wrap_pieces(t, w, start)[i]).0
                && wrap_pieces(t, w, start)[i].2),
    decreases t.len() - start,
{
    let ps = wrap_pieces(t, w, start);
    if w > 0 && start < t.len() && start + w < t.len() {
        let p = last_space(t.subrange(start as int, (start + w) as int));
        lemma_last_space(t.subrange(start as int, (start + w) as int));
        let next: nat = if p <= 0 { start + w } else { (start + p + 1) as nat };
        lemma_one_drop_per_line(t, w, next);
        assert forall|i: int| 0 <= i < ps.len() implies !((#[trigger] ps[i]).0 && ps[i].2) by {
            if i > 0 {
                assert(ps[i] == wrap_pieces(t, w, next)[i - 1]);
            }
        }
    }
}

/// Counting characters: the text is as long as its wrapped lines together
/// plus the spaces the breaks dropped, and each line has at most one
/// dropped space next to it.
pub proof fn lemma_wrap_counts(t: Seq<char>, w: nat)
    requires
        w > 0,
    ensures
        t.len() == kept_chars(wrap_pieces(t, w, 0)) + dropped_spaces(wrap_pieces(t, w, 0)),
        dropped_spaces(wrap_pieces(t, w, 0)) <= wrap_pieces(t, w, 0).len(),
        wrap_lines(t, w).len() == wrap_pieces(t, w, 0).len(),
{
    lemma_wrap_rejoins(t, w);
    lemma_one_drop_per_line(t, w, 0);
    lemma_rejoin_len(wrap_pieces(t, w, 0));
}

/// Index of the last space among `t[lo..hi]`.
fn rfind_space(t: &Vec<char>, lo: usize, hi: usize) -> (r: Option<usize>)
    requires
        lo <= hi <= t.len(),
    ensures
        match r {
            None => last_space(t@.subrange(lo as int, hi as int)) == -1,
            Some(k) => lo <= k < hi && last_space(t@.subrange(lo as int, hi as int)) == k - lo,
        },
{
    let mut j: usize = hi;
    while j > lo
        invariant
            lo <= j <= hi <= t.len(),
            last_space(t@.subrange(lo as int, hi as int)) == last_space(t@.subrange(lo as int, j as int)),
        decreases j - lo,
    {
        assert(t@.subrange(lo as int, j as int).drop_last() =~= t@.subrange(lo as int, j - 1));
        if t[j - 1] == ' ' {
            return Some(j - 1);
        }
        j = j - 1;
    }
    None
}

/// Wraps `line` into lines of at most `screenwidth` characters, breaking at
/// the last space that fits and cutting words longer than the width.
pub fn wrap(line: &str, screenwidth: u16) -> (r: Vec<String>)
    requires
        screenwidth > 0,
    ensures
        views(r@) == wrap_lines(line@, screenwidth as nat),
{
    let t = chars_of(line);
    let w = screenwidth as usize;
    let len = t.len();
    let ghost wn = screenwidth as nat;
    let mut r: Vec<String> = Vec::new();
    let mut start: usize = 0;
    while start < len && w < len - start
        invariant
            start <= len == t.len(),
            t@ == line@,
            w == wn > 0,
            views(r@) + wrap_pieces(t@, wn, start as nat).map_values(|p: Piece| p.1)
                == wrap_lines(t@, wn),
        decreases len - start,
    {
        let ghost old_r = r@;
        let ghost ps = wrap_pieces(t@, wn, start as nat);
        let end = start + w;
        let next: usize;
        match rfind_space(&t, start, end) {
            None => {
                r.push(string_of(&t, start, end));
                next = end;
            },
            Some(k) => {
                if k == start {
                    r.push(string_of(&t, start + 1, end));
                    next = end;
                } else {
                    r.push(string_of(&t, start, k));
                    next = k + 1;
                }
            },
        }
        proof {
            let rest = wrap_pieces(t@, wn, next as nat);
            assert(ps =~= seq![ps[0]] + rest);
            assert(ps.map_values(|p: Piece| p.1) =~= seq![ps[0].1] + rest.map_values(|p: Piece| p.1));
            assert(views(r@) =~= views(old_r) + seq![ps[0].1]);
        }
        start = next;
    }
    let ghost ps = wrap_pieces(t@, wn, start as nat);
    let ghost old_r = r@;
    if start < len {
        r.push(string_of(&t, start, len));
        assert(ps.map_values(|p: Piece| p.1) =~= seq![t@.subrange(start as int, len as int)]);
        assert(views(r@) =~= views(old_r) + seq![t@.subrange(start as int, len as int)]);
    } else {
        assert(ps.map_values(|p: Piece| p.1) =~= seq![]);
    }
    assert(views(r@) =~= wrap_lines(line@, wn));
    r
}

/// `t` cut to fit width `w`: unchanged when it fits, else its first
/// `w - 2` characters, shortened to before their last space (to after it
/// when that space comes first), followed by `..`.
pub open spec fn cut_line(t: Seq<char>, w: nat) -> Seq<char> {
    if t.len() <= w {
        t
    } else {
        let s = t.subrange(0, if w >= 2 { w - 2 } else { 0 });
        let p = last_space(s);
        (if p < 0 {
            s
        } else if p == 0 {
            s.drop_first()
        } else {
            s.subrange(0, p)
        }) + seq!['.', '.']
    }
}

/// The texts of a document's segments.
pub open spec fn texts(src: Seq<(Tag, String)>) -> Seq<Seq<char>> {
    src.map_values(|e: (Tag, String)| e.1@)
}

/// Display lines as plain values: source index and text.
pub open spec fn display_view(d: Seq<(usize, String)>) -> Seq<(int, Seq<char>)> {
    d.map_values(|e: (usize, String)| (e.0 as int, e.1@))
}

/// Each text wrapped to width `w`, every line tagged with the index of
/// the text it came from, in order.
pub open spec fn wrap_all(ts: Seq<Seq<char>>, w: nat) -> Seq<(int, Seq<char>)>
    decreases ts.len(),
{
    if ts.len() == 0 {
        seq![]
    } else {
        wrap_all(ts.drop_last(), w) + wrap_lines(ts.last(), w).map_values(
            |l: Seq<char>| ((ts.len() - 1) as int, l),
        )
    }
}

/// Each text cut to width `w`, one line per text.
pub open spec fn cut_all(ts: Seq<Seq<char>>, w: nat) -> Seq<(int, Seq<char>)> {
    ts.map(|i: int, t: Seq<char>| (i, cut_line(t, w)))
}

/// Every wrapped line points back at an existing text, and the lines of
/// one text stay together in the order of the texts.
pub proof fn lemma_wrap_all_indices(ts: Seq<Seq<char>>, w: nat)
    ensures
        forall|j: int|
            0 <= j < wrap_all(ts, w).len() ==> 0 <= (#[trigger] wrap_all(ts, w)[j]).0 < ts.len(),
        forall|j: int, k: int|
            0 <= j <= k < wrap_all(ts, w).len() ==> (#[trigger] wrap_all(ts, w)[j]).0 <= (
            #[trigger] wrap_all(ts, w)[k]).0,
    decreases ts.len(),
{
    if ts.len() > 0 {
        lemma_wrap_all_indices(ts.drop_last(), w);
        let a = wrap_all(ts.drop_last(), w);
        let all = wrap_all(ts, w);
        assert forall|j: int| 0 <= j < all.len() implies 0 <= (#[trigger] all[j]).0 < ts.len() by {
            if j < a.len() {
                assert(all[j] == a[j]);
            }
        }
        assert forall|j: int, k: int|
            0 <= j <= k < all.len() implies (#[trigger] all[j]).0 <= (#[trigger] all[k]).0 by {
            if k < a.len() {
                assert(all[j] == a[j]);
                assert(all[k] == a[k]);
            } else if j < a.len() {
                assert(all[j] == a[j]);
            }
        }
    }
}

/// Cuts `line` to fit `screenwidth` columns, marking a cut with `..`.
pub fn cut(line: &str, screenwidth: u16) -> (r: String)
    ensures
        r@ == cut_line(line@, screenwidth as nat),
{
    let t = chars_of(line);
    let w = screenwidth as usize;
    if t.len() <= w {
        return string_of(&t, 0, t.len());
    }
    let k: usize = if w >= 2 { w - 2 } else { 0 };
    let (lo, hi) = match rfind_space(&t, 0, k) {
        None => (0, k),
        Some(p) => if p == 0 { (1, k) } else { (0, p) },
    };
    let ghost s = t@.subrange(0, k as int);
    if lo == 1 {
        assert(s.drop_first() =~= t@.subrange(1, k as int));
    }
    assert(s.subrange(0, hi as int) =~= t@.subrange(0, hi as int));
    let mut r = string_of(&t, lo, hi);
    push_dot(&mut r);
    push_dot(&mut r);
    r
}

fn push_dot(s: &mut String)
    ensures
        final(s)@ == old(s)@.push('.'),
{
    crate::text::push_char(s, '.');
}

/// Wraps every segment's text to `w` columns; each line carries the index
/// of its segment.
pub fn wraplist(lines: &Vec<(Tag, String)>, w: u16) -> (r: Vec<(usize, String)>)
    requires
        w > 0,
    ensures
        display_view(r@) == wrap_all(texts(lines@), w as nat),
{
    let mut display: Vec<(usize, String)> = Vec::new();
    let ghost ts = texts(lines@);
    let mut i: usize = 0;
    while i < lines.len()
        invariant
            i <= lines.len(),
            ts == texts(lines@),
            w > 0,
            display_view(display@) == wrap_all(ts.subrange(0, i as int), w as nat),
        decreases lines.len() - i,
    {
        let v = wrap(&lines[i].1, w);
        let ghost before = display@;
        let mut j: usize = 0;
        while j < v.len()
            invariant
                i < lines.len(),
                j <= v.len(),
                views(v@) == wrap_lines(ts[i as int], w as nat),
                ts == texts(lines@),
                display_view(display@) == display_view(before) + wrap_lines(ts[i as int], w as nat)
                    .take(j as int).map_values(|l: Seq<char>| (i as int, l)),
            decreases v.len() - j,
        {
            let ghost prev = display@;
            display.push((i, v[j].clone()));
            proof {
                let ls = wrap_lines(ts[i as int], w as nat);
                assert(views(v@)[j as int] == v@[j as int]@);
                assert(ls.take(j + 1) =~= ls.take(j as int).push(ls[j as int]));
                assert(display_view(display@) =~= display_view(prev).push((i as int, v@[j as int]@)));
                assert(ls.take(j + 1).map_values(|l: Seq<char>| (i as int, l)) =~= ls.take(
                    j as int,
                ).map_values(|l: Seq<char>| (i as int, l)).push((i as int, ls[j as int])));
            }
            j = j + 1;
        }
        proof {
            let ls = wrap_lines(ts[i as int], w as nat);
            assert(views(v@).len() == v@.len());
            assert(ls.take(j as int) =~= ls);
            let sub = ts.subrange(0, i + 1);
            assert(sub.drop_last() =~= ts.subrange(0, i as int));
            assert(sub.last() == ts[i as int]);
        }
        i = i + 1;
    }
    assert(ts.subrange(0, lines.len() as int) =~= ts);
    display
}

/// Cuts every segment's text to `w` columns, one line per segment.
pub fn cutlist(lines: &Vec<(Tag, String)>, w: u16) -> (r: Vec<(usize, String)>)
    ensures
        display_view(r@) == cut_all(texts(lines@), w as nat),
{
    let mut display: Vec<(usize, String)> = Vec::new();
    let mut i: usize = 0;
    while i < lines.len()
        invariant
            i <= lines.len(),
            display_view(display@) == cut_all(texts(lines@), w as nat).take(i as int),
        decreases lines.len() - i,
    {
        let c = cut(&lines[i].1, w);
        let ghost prev = display@;
        display.push((i, c));
        assert(display_view(display@) =~= display_view(prev).push((i as int, c@)));
        assert(cut_all(texts(lines@), w as nat).take(i + 1) =~= cut_all(texts(lines@), w as nat).take(
            i as int,
        ).push((i as int, c@)));
        i = i + 1;
    }
    assert(cut_all(texts(lines@), w as nat).take(i as int) =~= cut_all(texts(lines@), w as nat));
    display
}

} // verus!
