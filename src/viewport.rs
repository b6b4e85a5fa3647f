//! The viewport over a list of display lines: a cursor row bounded to the
//! visible rows, and a scroll offset bounded so that the visible rows stay
//! within the list.

use vstd::prelude::*;

verus! {

/// A rectangle of the terminal: top-left corner and size.
#[derive(Clone, Copy, Debug, PartialEq, Eq, Structural)]
pub struct Rect {
    pub x: u16,
    pub y: u16,
    pub w: u16,
    pub h: u16,
}

impl Rect {
    pub fn new(x: u16, y: u16, w: u16, h: u16) -> (r: Self)
        ensures
            r == (Rect { x, y, w, h }),
    {
        Self { x: x, y: y, w: w, h: h }
    }

    /// Whether the rectangle has room for at least one character.
    pub open spec fn usable(&self) -> bool {
        self.w > 0 && self.h > 0
    }
}

/// The smaller of `a` and `b`.
pub open spec fn min_nat(a: nat, b: nat) -> nat {
    if a < b {
        a
    } else {
        b
    }
}

/// Number of rows shown of `textlength` lines in `bounds`.
pub open spec fn visible_rows(textlength: nat, bounds: Rect) -> nat {
    min_nat(textlength, bounds.h as nat)
}

/// The selection row: `min <= cur < max`, `max - min` being the number of
/// visible rows (with no visible rows, `cur == min == max`).
#[derive(Clone, Copy, Debug, PartialEq, Eq, Structural)]
pub struct Cursor {
    pub cur: usize,
    pub min: usize,
    pub max: usize,
}

impl Cursor {
    pub open spec fn wf(&self) -> bool {
        &&& self.min <= self.cur <= self.max
        &&& self.min < self.max ==> self.cur < self.max
    }

    /// Number of visible rows.
    pub open spec fn rows(&self) -> nat {
        (self.max - self.min) as nat
    }

    /// The cursor on the top row of `bounds`, over as many rows as there
    /// are lines, at most the height of `bounds`.
    pub fn top(textlength: usize, bounds: &Rect) -> (r: Self)
        ensures
            r.wf(),
            r.min == bounds.y,
            r.max == bounds.y + visible_rows(textlength as nat, *bounds),
            r.cur == bounds.y,
    {
        let y = bounds.y as usize;
        let h = bounds.h as usize;
        if textlength < h {
            Self { cur: y, min: y, max: y + textlength }
        } else {
            Self { cur: y, min: y, max: y + h }
        }
    }

    /// Like `top`, with the cursor on the middle row of the visible rows.
    pub fn center(textlength: usize, bounds: &Rect) -> (r: Self)
        ensures
            r.wf(),
            r.min == bounds.y,
            r.max == bounds.y + visible_rows(textlength as nat, *bounds),
            r.cur == if r.max == r.min {
                r.min as int
            } else {
                r.min + (r.max - r.min - 1) / 2
            },
    {
        let y = bounds.y as usize;
        let h = bounds.h as usize;
        let rows = if textlength < h { textlength } else { h };
        let cur = if rows == 0 { y } else { y + (rows - 1) / 2 };
        Self { cur: cur, min: y, max: y + rows }
    }

    /// Number of visible rows.
    pub fn range(&self) -> (r: usize)
        requires
            self.wf(),
        ensures
            r == self.rows(),
    {
        self.max - self.min
    }

    /// Moves up by `step` rows if that stays at or below `min`.
    pub fn moveup(&mut self, step: usize) -> (r: bool)
        requires
            old(self).wf(),
        ensures
            r == (old(self).cur >= old(self).min + step),
            r ==> *final(self) == (Cursor { cur: (old(self).cur - step) as usize, ..*old(self) }),
            !r ==> *final(self) == *old(self),
    {
        if self.cur - self.min >= step {
            self.cur = self.cur - step;
            true
        } else {
            false
        }
    }

    /// Moves down by `step` rows if that stays above `max`.
    pub fn movedown(&mut self, step: usize) -> (r: bool)
        requires
            old(self).wf(),
        ensures
            r == (old(self).cur + step < old(self).max),
            r ==> *final(self) == (Cursor { cur: (old(self).cur + step) as usize, ..*old(self) }),
            !r ==> *final(self) == *old(self),
    {
        if step < self.max - self.cur {
            self.cur = self.cur + step;
            true
        } else {
            false
        }
    }
}

/// How many display lines are scrolled past the top: `cur <= max`.
#[derive(Clone, Copy, Debug, PartialEq, Eq, Structural)]
pub struct Scroll {
    pub cur: usize,
    pub max: usize,
}

/// Largest scroll offset for `textlength` lines shown over `rows` rows.
pub open spec fn max_scroll(textlength: nat, rows: nat) -> nat {
    if textlength <= rows {
        0
    } else {
        (textlength - rows) as nat
    }
}

impl Scroll {
    pub open spec fn wf(&self) -> bool {
        self.cur <= self.max
    }

    /// Scrolled to the top, with room for the lines the cursor cannot show.
    pub fn new(textlength: usize, cursor: &Cursor) -> (r: Self)
        requires
            cursor.wf(),
        ensures
            r.wf(),
            r.cur == 0,
            r.max == max_scroll(textlength as nat, cursor.rows()),
    {
        let range = cursor.range();
        if textlength <= range {
            Self { cur: 0, max: 0 }
        } else {
            Self { cur: 0, max: textlength - range }
        }
    }

    /// New bounds; the offset is kept as far as the new bound allows.
    pub fn resize(&mut self, textlength: usize, cursor: &Cursor)
        requires
            cursor.wf(),
        ensures
            final(self).wf(),
            final(self).max == max_scroll(textlength as nat, cursor.rows()),
            final(self).cur == if old(self).cur <= final(self).max {
                old(self).cur
            } else {
                final(self).max
            },
    {
        let range = cursor.range();
        if textlength <= range {
            self.max = 0;
        } else {
            self.max = textlength - range;
        }
        if self.cur > self.max {
            self.cur = self.max;
        }
    }

    /// Scrolls up by `step` lines if the offset allows it.
    pub fn moveup(&mut self, step: usize) -> (r: bool)
        requires
            old(self).wf(),
        ensures
            r == (old(self).cur >= step),
            r ==> *final(self) == (Scroll { cur: (old(self).cur - step) as usize, ..*old(self) }),
            !r ==> *final(self) == *old(self),
    {
        if self.cur >= step {
            self.cur = self.cur - step;
            true
        } else {
            false
        }
    }

    /// Scrolls down by `step` lines if the bound allows it.
    pub fn movedown(&mut self, step: usize) -> (r: bool)
        requires
            old(self).wf(),
        ensures
            r == (old(self).cur + step <= old(self).max),
            r ==> *final(self) == (Scroll { cur: (old(self).cur + step) as usize, ..*old(self) }),
            !r ==> *final(self) == *old(self),
    {
        if step <= self.max - self.cur {
            self.cur = self.cur + step;
            true
        } else {
            false
        }
    }
}

/// A cursor that scrolls the lines when it cannot move further.
#[derive(Clone, Copy, Debug, PartialEq, Eq, Structural)]
pub struct ScrollingCursor {
    pub cursor: Cursor,
    pub scroll: Scroll,
}

impl ScrollingCursor {
    /// Consistent with `textlength` display lines: the visible rows are no
    /// more than the lines, and the offset lets them end at the last line.
    pub open spec fn wf(&self, textlength: nat) -> bool {
        &&& self.cursor.wf()
        &&& self.scroll.wf()
        &&& self.cursor.rows() <= textlength
        &&& self.scroll.max == textlength - self.cursor.rows()
    }

    /// Index of the display line under the cursor.
    pub open spec fn selected(&self) -> int {
        self.scroll.cur + (self.cursor.cur - self.cursor.min)
    }

    /// Top of the lines, cursor on the first row of `rect`.
    pub fn new(textlength: usize, rect: &Rect) -> (r: Self)
        ensures
            r.wf(textlength as nat),
            r.cursor == Cursor::top_spec(textlength as nat, *rect),
            r.scroll.cur == 0,
    {
        let cursor = Cursor::top(textlength, rect);
        let scroll = Scroll::new(textlength, &cursor);
        Self { cursor: cursor, scroll: scroll }
    }

    /// Bounds for `textlength` lines in `rect`: the cursor goes to the
    /// middle row, the offset is kept as far as the new bound allows.
    pub fn resize(&mut self, textlength: usize, rect: &Rect)
        ensures
            final(self).wf(textlength as nat),
            final(self).cursor == Cursor::center_spec(textlength as nat, *rect),
            final(self).scroll.cur == if old(self).scroll.cur <= final(self).scroll.max {
                old(self).scroll.cur
            } else {
                final(self).scroll.max
            },
            textlength > 0 && rect.h > 0 ==> final(self).cursor.min <= final(self).cursor.cur
                < final(self).cursor.max,
    {
        self.cursor = Cursor::center(textlength, rect);
        self.scroll.resize(textlength, &self.cursor);
    }

    /// The state after moving up by `step`: the cursor if it can, else the
    /// scroll offset if it can, else unchanged.
    pub open spec fn up_spec(self, step: nat) -> ScrollingCursor {
        if self.cursor.cur >= self.cursor.min + step {
            ScrollingCursor { cursor: Cursor { cur: (self.cursor.cur - step) as usize, ..self.cursor }, ..self }
        } else if self.scroll.cur >= step {
            ScrollingCursor { scroll: Scroll { cur: (self.scroll.cur - step) as usize, ..self.scroll }, ..self }
        } else {
            self
        }
    }

    /// The state after moving down by `step`: the cursor if it can, else
    /// the scroll offset if it can, else unchanged.
    pub open spec fn down_spec(self, step: nat) -> ScrollingCursor {
        if self.cursor.cur + step < self.cursor.max {
            ScrollingCursor { cursor: Cursor { cur: (self.cursor.cur + step) as usize, ..self.cursor }, ..self }
        } else if self.scroll.cur + step <= self.scroll.max {
            ScrollingCursor { scroll: Scroll { cur: (self.scroll.cur + step) as usize, ..self.scroll }, ..self }
        } else {
            self
        }
    }

    /// Moves the cursor up by `step` rows, or else scrolls up by `step`
    /// lines; does nothing and returns false when neither fits.
    pub fn moveup(&mut self, step: usize) -> (r: bool)
        requires
            old(self).cursor.wf(),
            old(self).scroll.wf(),
        ensures
            *final(self) == old(self).up_spec(step as nat),
            r == (old(self).cursor.cur >= old(self).cursor.min + step || old(self).scroll.cur >= step),
    {
        self.cursor.moveup(step) || self.scroll.moveup(step)
    }

    /// Moves the cursor down by `step` rows, or else scrolls down by
    /// `step` lines; does nothing and returns false when neither fits.
    pub fn movedown(&mut self, step: usize) -> (r: bool)
        requires
            old(self).cursor.wf(),
            old(self).scroll.wf(),
        ensures
            *final(self) == old(self).down_spec(step as nat),
            r == (old(self).cursor.cur + step < old(self).cursor.max || old(self).scroll.cur + step
                <= old(self).scroll.max),
    {
        self.cursor.movedown(step) || self.scroll.movedown(step)
    }

    /// Moving keeps the state consistent with the same number of lines.
    pub proof fn lemma_moves_keep_wf(self, textlength: nat, step: nat)
        requires
            self.wf(textlength),
        ensures
            self.up_spec(step).wf(textlength),
            self.down_spec(step).wf(textlength),
    {
    }

    /// At the top row with nothing scrolled, moving up changes nothing; at
    /// the bottom row scrolled to the end, moving down changes nothing.
    pub proof fn lemma_moves_saturate(self, step: nat)
        requires
            self.cursor.wf(),
            self.scroll.wf(),
            step > 0,
        ensures
            self.cursor.cur == self.cursor.min && self.scroll.cur == 0 ==> self.up_spec(step) == self,
            self.cursor.cur + 1 >= self.cursor.max && self.scroll.cur == self.scroll.max
                ==> self.down_spec(step) == self,
    {
    }

    /// First and one-past-last index of the visible lines.
    pub fn slicebounds(&self) -> (r: (usize, usize))
        requires
            self.cursor.wf(),
            self.scroll.wf(),
            self.scroll.max + self.cursor.rows() <= usize::MAX,
        ensures
            r == (self.scroll.cur, (self.scroll.cur + self.cursor.rows()) as usize),
    {
        (self.scroll.cur, self.scroll.cur + self.cursor.range())
    }

    /// Row of the cursor within the visible rows, counted from the top.
    pub fn index(&self) -> (r: usize)
        requires
            self.cursor.wf(),
        ensures
            r == self.cursor.cur - self.cursor.min,
    {
        self.cursor.cur - self.cursor.min
    }
}

impl Cursor {
    /// The cursor `top` gives.
    pub open spec fn top_spec(textlength: nat, bounds: Rect) -> Cursor {
        Cursor {
            cur: bounds.y as usize,
            min: bounds.y as usize,
            max: (bounds.y + visible_rows(textlength, bounds)) as usize,
        }
    }

    /// The cursor `center` gives.
    pub open spec fn center_spec(textlength: nat, bounds: Rect) -> Cursor {
        let rows = visible_rows(textlength, bounds);
        Cursor {
            cur: (if rows == 0 {
                bounds.y as int
            } else {
                bounds.y + (rows - 1) / 2
            }) as usize,
            min: bounds.y as usize,
            max: (bounds.y + rows) as usize,
        }
    }
}

} // verus!
