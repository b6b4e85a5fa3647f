use pager::viewport::{Cursor, Rect, Scroll, ScrollingCursor};

#[test]
fn cursor_top_and_center() {
    let r = Rect::new(0, 3, 80, 10);
    assert_eq!(Cursor::top(25, &r), Cursor { cur: 3, min: 3, max: 13 });
    assert_eq!(Cursor::top(4, &r), Cursor { cur: 3, min: 3, max: 7 });
    assert_eq!(Cursor::center(25, &r), Cursor { cur: 7, min: 3, max: 13 });
    assert_eq!(Cursor::center(4, &r), Cursor { cur: 4, min: 3, max: 7 });
    assert_eq!(Cursor::center(0, &r), Cursor { cur: 3, min: 3, max: 3 });
    assert_eq!(Cursor::top(25, &r).range(), 10);
}

#[test]
fn cursor_moves_within_bounds() {
    let mut c = Cursor { cur: 3, min: 3, max: 5 };
    assert!(!c.moveup(1));
    assert_eq!(c.cur, 3);
    assert!(c.movedown(1));
    assert_eq!(c.cur, 4);
    assert!(!c.movedown(1));
    assert_eq!(c.cur, 4);
}

#[test]
fn scroll_new_and_resize_clamp() {
    let c = Cursor { cur: 0, min: 0, max: 10 };
    let mut s = Scroll::new(25, &c);
    assert_eq!(s, Scroll { cur: 0, max: 15 });
    assert!(s.movedown(12));
    assert!(!s.movedown(4));
    assert_eq!(s.cur, 12);
    s.resize(15, &c);
    assert_eq!(s, Scroll { cur: 5, max: 5 });
    s.resize(8, &Cursor { cur: 0, min: 0, max: 8 });
    assert_eq!(s, Scroll { cur: 0, max: 0 });
    assert!(!s.moveup(1));
}

#[test]
fn scrolling_cursor_saturates_at_both_ends() {
    let r = Rect::new(0, 0, 80, 3);
    let mut sc = ScrollingCursor::new(5, &r);
    assert!(!sc.moveup(1));
    assert_eq!(sc, ScrollingCursor::new(5, &r));
    assert_eq!(sc.index(), 0);
    for _ in 0..4 {
        assert!(sc.movedown(1));
    }
    assert_eq!((sc.cursor.cur, sc.scroll.cur), (2, 2));
    assert_eq!(sc.index(), 2);
    let before = sc;
    assert!(!sc.movedown(1));
    assert_eq!(sc, before);
    assert_eq!(sc.slicebounds(), (2, 5));
    assert!(sc.moveup(1));
    assert_eq!((sc.cursor.cur, sc.scroll.cur), (1, 2));
}

#[test]
fn scrolling_cursor_resize_keeps_invariants() {
    let mut sc = ScrollingCursor::new(50, &Rect::new(0, 2, 80, 20));
    for _ in 0..40 {
        sc.movedown(1);
    }
    for (len, h) in [(50usize, 20u16), (30, 10), (5, 10), (1, 1), (100, 7)] {
        sc.resize(len, &Rect::new(0, 2, 80, h));
        assert!(sc.scroll.cur <= sc.scroll.max);
        assert!(sc.cursor.min <= sc.cursor.cur && sc.cursor.cur < sc.cursor.max);
        assert!(sc.index() < sc.cursor.range());
        assert!(sc.scroll.cur + sc.index() < len);
    }
    sc.resize(100, &Rect::new(0, 2, 80, 7));
    assert_eq!(sc.cursor, Cursor { cur: 5, min: 2, max: 9 });
}
