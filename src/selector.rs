//! A document laid out for the screen, with a selection over its lines.

use vstd::prelude::*;
use crate::layout::{
    cut_all, cutlist, display_view, lemma_wrap_all_indices, texts, wrap_all, wraplist,
};
use crate::tag::{tag_colors, Rgb, Tag};
use crate::viewport::{visible_rows, Cursor, Rect, ScrollingCursor};

verus! {

/// One text to print: column, row, colours and the characters.
#[derive(Debug)]
pub struct Paint {
    pub col: usize,
    pub row: usize,
    pub colors: (Rgb, Rgb),
    pub text: String,
}

/// The display lines of `source` at width `w`: wrapped, or cut to one
/// line per segment.
pub open spec fn layout_of(source: Seq<(Tag, String)>, wrap: bool, w: nat) -> Seq<(int, Seq<char>)> {
    if wrap {
        wrap_all(texts(source), w)
    } else {
        cut_all(texts(source), w)
    }
}

/// Segments laid out as display lines in a rectangle, with a scrolling
/// cursor over those lines.
#[derive(Clone, Debug)]
pub struct Selector {
    pub rect: Rect,
    pub source: Vec<(Tag, String)>,
    pub wrap: bool,
    pub display: Vec<(usize, String)>,
    pub cursor: ScrollingCursor,
}

impl Selector {
    pub open spec fn wf(&self) -> bool {
        &&& self.rect.usable()
        &&& display_view(self.display@) == layout_of(self.source@, self.wrap, self.rect.w as nat)
        &&& forall|j: int| 0 <= j < self.display.len() ==> (#[trigger] self.display[j]).0 < self.source.len()
        &&& self.cursor.wf(self.display.len() as nat)
        &&& self.cursor.cursor.min == self.rect.y
        &&& self.cursor.cursor.max == self.rect.y + visible_rows(self.display.len() as nat, self.rect)
    }

    /// Index of the segment under the cursor.
    pub open spec fn selected_segment(&self) -> int {
        self.display[self.cursor.selected()].0 as int
    }

    /// Whether `new` is this selector laid out again for `rect`: the lines
    /// recomputed for its width, the cursor on the middle visible row, the
    /// scroll offset kept as far as the new bound allows.
    pub open spec fn resized(self, new: Selector, rect: Rect) -> bool {
        &&& new.wf()
        &&& new.rect == rect
        &&& new.source == self.source
        &&& new.wrap == self.wrap
        &&& display_view(new.display@) == layout_of(self.source@, self.wrap, rect.w as nat)
        &&& new.cursor.cursor == Cursor::center_spec(new.display.len() as nat, rect)
        &&& new.cursor.scroll.cur == if self.cursor.scroll.cur <= new.cursor.scroll.max {
            self.cursor.scroll.cur
        } else {
            new.cursor.scroll.max
        }
        &&& new.display.len() > 0 ==> new.cursor.cursor.min <= new.cursor.cursor.cur < new.cursor.cursor.max
    }

    /// The selector with its cursor moved down by one.
    pub open spec fn moved_down(self) -> Selector {
        Selector { cursor: self.cursor.down_spec(1), ..self }
    }

    /// The selector with its cursor moved up by one.
    pub open spec fn moved_up(self) -> Selector {
        Selector { cursor: self.cursor.up_spec(1), ..self }
    }

    /// The display lines of `source` for a rectangle of width `w`.
    fn lay_out(source: &Vec<(Tag, String)>, wrap: bool, w: u16) -> (r: Vec<(usize, String)>)
        requires
            w > 0,
        ensures
            display_view(r@) == layout_of(source@, wrap, w as nat),
            forall|j: int| 0 <= j < r.len() ==> (#[trigger] r[j]).0 < source.len(),
    {
        let r = if wrap {
            wraplist(source, w)
        } else {
            cutlist(source, w)
        };
        proof {
            lemma_wrap_all_indices(texts(source@), w as nat);
            let ts = texts(source@);
            assert(ts.len() == source.len());
            assert(display_view(r@).len() == r.len());
            assert forall|j: int| 0 <= j < r.len() implies (#[trigger] r[j]).0 < source.len() by {
                assert(display_view(r@)[j].0 == r[j].0 as int);
                if wrap {
                    assert(wrap_all(ts, w as nat)[j].0 < ts.len());
                } else {
                    assert(cut_all(ts, w as nat)[j].0 == j);
                }
            }
        }
        r
    }

    /// Lays out `source` in `rect`, wrapped or cut, with the cursor on the
    /// first line.
    pub fn new(rect: &Rect, source: Vec<(Tag, String)>, wrap: bool) -> (r: Self)
        requires
            rect.usable(),
        ensures
            r.wf(),
            r.rect == *rect,
            r.source == source,
            r.wrap == wrap,
            r.cursor.cursor == Cursor::top_spec(r.display.len() as nat, *rect),
            r.cursor.scroll.cur == 0,
    {
        let display = Self::lay_out(&source, wrap, rect.w);
        let cursor = ScrollingCursor::new(display.len(), rect);
        Self { rect: *rect, wrap: wrap, source: source, cursor: cursor, display: display }
    }

    /// Lays the segments out again for `rect`; the cursor goes to the
    /// middle row and the scroll offset is kept as far as it can be.
    pub fn resize(&mut self, rect: &Rect)
        requires
            old(self).wf(),
        ensures
            final(self).wf(),
            rect.usable() ==> old(self).resized(*final(self), *rect),
            !rect.usable() ==> *final(self) == *old(self),
    {
        if rect.w == 0 || rect.h == 0 {
            return;
        }
        self.rect = *rect;
        self.display = Self::lay_out(&self.source, self.wrap, rect.w);
        self.cursor.resize(self.display.len(), rect);
    }

    /// Moves the selection down one line; false when it is on the last.
    pub fn movecursordown(&mut self) -> (r: bool)
        requires
            old(self).wf(),
        ensures
            final(self).wf(),
            *final(self) == old(self).moved_down(),
            r == (final(self).cursor != old(self).cursor),
    {
        let r = self.cursor.movedown(1);
        proof {
            old(self).cursor.lemma_moves_keep_wf(old(self).display.len() as nat, 1);
        }
        r
    }

    /// Moves the selection up one line; false when it is on the first.
    pub fn movecursorup(&mut self) -> (r: bool)
        requires
            old(self).wf(),
        ensures
            final(self).wf(),
            *final(self) == old(self).moved_up(),
            r == (final(self).cursor != old(self).cursor),
    {
        let r = self.cursor.moveup(1);
        proof {
            old(self).cursor.lemma_moves_keep_wf(old(self).display.len() as nat, 1);
        }
        r
    }

    /// Number of display lines.
    pub fn display_len(&self) -> (r: usize)
        ensures
            r == self.display.len(),
    {
        self.display.len()
    }

    /// The tag of segment `i`.
    pub fn select(&self, i: usize) -> (r: &Tag)
        requires
            i < self.source.len(),
        ensures
            *r == self.source[i as int].0,
    {
        &self.source[i].0
    }

    /// The tag of the segment that the line under the cursor belongs to.
    pub fn selectundercursor(&self) -> (r: &Tag)
        requires
            self.wf(),
            self.display.len() > 0,
        ensures
            *r == self.source[self.selected_segment()].0,
            0 <= self.cursor.selected() < self.display.len(),
    {
        let i = self.cursor.scroll.cur + self.cursor.index();
        &self.source[self.display[i].0].0
    }

    /// Whether `r` paints the visible lines, top to bottom from the corner
    /// of the rectangle, each in the colours of its segment's tag, and puts
    /// the terminal cursor at column 0 of the cursor row.
    pub open spec fn shows(&self, r: (Vec<Paint>, (usize, usize))) -> bool {
        &&& r.1 == (0usize, self.cursor.cursor.cur)
        &&& r.0.len() == self.cursor.cursor.rows()
        &&& forall|j: int|
            0 <= j < r.0.len() ==> {
                let k = self.cursor.scroll.cur + j;
                &&& (#[trigger] r.0[j]).col == self.rect.x
                &&& r.0[j].row == self.rect.y + j
                &&& r.0[j].text@ == self.display[k].1@
                &&& r.0[j].colors == tag_colors(self.source[self.display[k].0 as int].0@)
            }
    }

    /// The visible lines, top to bottom from the corner of the rectangle,
    /// each in the colours of its segment's tag; and the cell where the
    /// terminal cursor goes: column 0 of the cursor row.
    pub fn view(&self) -> (r: (Vec<Paint>, (usize, usize)))
        requires
            self.wf(),
        ensures
            self.shows(r),
    {
        let (a, b) = self.cursor.slicebounds();
        let mut paints: Vec<Paint> = Vec::new();
        let mut k: usize = a;
        while k < b
            invariant
                self.wf(),
                a == self.cursor.scroll.cur,
                b == a + self.cursor.cursor.rows(),
                a <= k <= b <= self.display.len(),
                paints.len() == k - a,
                forall|j: int|
                    0 <= j < paints.len() ==> {
                        let k = self.cursor.scroll.cur + j;
                        &&& (#[trigger] paints[j]).col == self.rect.x
                        &&& paints[j].row == self.rect.y + j
                        &&& paints[j].text@ == self.display[k].1@
                        &&& paints[j].colors == tag_colors(self.source[self.display[k].0 as int].0@)
                    },
            decreases b - k,
        {
            let line = &self.display[k];
            let paint = Paint {
                col: self.rect.x as usize,
                row: self.rect.y as usize + (k - a),
                colors: self.source[line.0].0.getcolors(),
                text: line.1.clone(),
            };
            paints.push(paint);
            k = k + 1;
        }
        (paints, (0, self.cursor.cursor.cur))
    }
}

} // verus!
