use pager::dialog::{Dialog, DialogMsg, InputType, Message};
use pager::layout::wraplist;
use pager::selector::Selector;
use pager::tabs::{Action, Tab, TabMgr, TabMsg, ViewMsg};
use pager::tag::{parse_doc, Tag};
use pager::ui::{Screen, UI};
use pager::viewport::Rect;

const DOC: &str = ".h Title\n.l http://x go here\nplain line";

fn yes_no() -> InputType {
    InputType::Choose('n', vec![('y', "yes".to_string()), ('n', "no".to_string())])
}

#[test]
fn follow_link_end_to_end() {
    let segs = parse_doc(DOC.lines().collect());
    assert_eq!(segs.len(), 3);
    assert_eq!(wraplist(&segs, 80).len(), 3);
    let rect = Rect::new(0, 0, 80, 24);
    let mut tab = Tab::new(&rect, "doc", DOC);
    assert_eq!(tab.update(&Message::Code('i')), Some(TabMsg::Msg(ViewMsg::Redraw)));
    assert_eq!(tab.page.cursor.index(), 1);
    assert_eq!(tab.update(&Message::Enter), Some(TabMsg::Msg(ViewMsg::Redraw)));
    assert_eq!(tab.dlgstack.len(), 1);
    assert_eq!(tab.dlgstack[0].prompt, "go to http://x?");
    assert_eq!(tab.dlgstack[0].action, Action::Go("http://x".to_string()));
    assert_eq!(tab.update(&Message::Enter), Some(TabMsg::Msg(ViewMsg::Redraw)));
    assert_eq!(tab.dlgstack.len(), 1);
    assert_eq!(tab.update(&Message::Code('q')), None);
    assert_eq!(tab.update(&Message::Code('y')), Some(TabMsg::Msg(ViewMsg::Go("http://x".to_string()))));
    assert!(tab.dlgstack.is_empty());
}

#[test]
fn declining_a_link_only_redraws() {
    let mut tab = Tab::new(&Rect::new(0, 0, 80, 24), "doc", DOC);
    tab.update(&Message::Code('i'));
    tab.update(&Message::Enter);
    assert_eq!(tab.update(&Message::Code('n')), Some(TabMsg::Msg(ViewMsg::Redraw)));
    assert!(tab.dlgstack.is_empty());
}

#[test]
fn enter_on_text_and_heading_acknowledges() {
    let mut tab = Tab::new(&Rect::new(0, 0, 80, 24), "doc", DOC);
    tab.update(&Message::Enter);
    assert_eq!(tab.dlgstack[0].prompt, "You've selected a heading ");
    assert_eq!(tab.dlgstack[0].input, InputType::Nothing);
    assert_eq!(tab.update(&Message::Enter), Some(TabMsg::Msg(ViewMsg::Redraw)));
    assert!(tab.dlgstack.is_empty());
    tab.update(&Message::Code('i'));
    tab.update(&Message::Code('i'));
    tab.update(&Message::Enter);
    assert_eq!(tab.dlgstack[0].prompt, "You've selected some text. ");
}

#[test]
fn enter_on_empty_page_does_nothing() {
    let mut tab = Tab::new(&Rect::new(0, 0, 80, 24), "empty", "");
    assert_eq!(tab.update(&Message::Enter), None);
    assert!(tab.dlgstack.is_empty());
}

#[test]
fn tab_resize_refuses_empty_rect_and_recentres() {
    let mut tab = Tab::new(&Rect::new(0, 2, 80, 20), "doc", DOC);
    tab.update(&Message::Code('v'));
    tab.resize(&Rect::new(0, 2, 0, 20));
    assert_eq!(tab.rect, Rect::new(0, 2, 80, 20));
    assert_eq!(tab.dlgstack[0].rect, Rect::new(0, 2, 80, 20));
    tab.resize(&Rect::new(0, 2, 40, 3));
    assert_eq!(tab.rect, Rect::new(0, 2, 40, 3));
    assert_eq!(tab.page.rect, Rect::new(0, 2, 40, 3));
    assert_eq!(tab.dlgstack[0].rect, Rect::new(0, 2, 40, 3));
    assert_eq!(tab.page.cursor.cursor.cur, 3);
    assert_eq!(tab.page.cursor.index(), 1);
}

#[test]
fn typed_path_is_opened() {
    let mut tab = Tab::new(&Rect::new(0, 0, 80, 24), "doc", DOC);
    tab.update(&Message::Code('p'));
    for c in "abx".chars() {
        assert_eq!(tab.update(&Message::Code(c)), Some(TabMsg::Msg(ViewMsg::Redraw)));
    }
    tab.update(&Message::Backspace);
    tab.update(&Message::Code('c'));
    assert_eq!(tab.dlgstack[0].input, InputType::Input("abc".to_string()));
    assert_eq!(tab.update(&Message::Enter), Some(TabMsg::Msg(ViewMsg::Go("abc".to_string()))));
}

#[test]
fn dialog_update_rules() {
    let r = Rect::new(0, 0, 10, 10);
    let mut d = Dialog::new(&r, Action::DeleteMe, yes_no(), "Delete current tab?");
    assert_eq!(d.update(&Message::Enter), Some(DialogMsg::Stay));
    assert_eq!(d.update(&Message::Code('x')), None);
    assert_eq!(d.update(&Message::Backspace), None);
    assert_eq!(d.update(&Message::Code('y')), Some(DialogMsg::Submit));
    assert_eq!(d.input, InputType::Choose('y', vec![('y', "yes".to_string()), ('n', "no".to_string())]));
    assert_eq!(d.update(&Message::Escape), Some(DialogMsg::Cancel));

    let mut t = Dialog::new(&r, Action::GoTo, InputType::Input(String::new()), "enter path: ");
    assert_eq!(t.update(&Message::Backspace), Some(DialogMsg::Stay));
    assert_eq!(t.input, InputType::Input(String::new()));
    assert_eq!(t.update(&Message::Code('é')), Some(DialogMsg::Stay));
    assert_eq!(t.input, InputType::Input("é".to_string()));
    assert_eq!(t.update(&Message::Resize(3, 4)), None);
    assert_eq!(t.update(&Message::Enter), Some(DialogMsg::Submit));

    let mut n = Dialog::new(&r, Action::Nothing, InputType::Nothing, "note");
    assert_eq!(n.update(&Message::Code('a')), None);
    assert_eq!(n.update(&Message::Enter), Some(DialogMsg::Submit));
}

#[test]
fn dialog_view_shows_prompt_and_options() {
    let r = Rect::new(1, 2, 40, 10);
    let d = Dialog::new(&r, Action::DeleteMe, yes_no(), "Delete current tab?");
    let p = d.view();
    assert_eq!(p.len(), 2);
    assert_eq!((p[0].col, p[0].row, p[0].text.as_str()), (3, 4, "Delete current tab?"));
    assert_eq!((p[1].col, p[1].row, p[1].text.as_str()), (3, 6, "[y] yes [n] no"));
}

#[test]
fn selector_view_paints_visible_lines() {
    let segs = parse_doc(DOC.lines().collect());
    let mut s = Selector::new(&Rect::new(2, 5, 80, 2), segs, true);
    let (paints, cursor) = s.view();
    assert_eq!(paints.len(), 2);
    assert_eq!((paints[0].col, paints[0].row, paints[0].text.as_str()), (2, 5, "Title"));
    assert_eq!(paints[0].colors, Tag::Heading.getcolors());
    assert_eq!(paints[1].text, "go here");
    assert_eq!(cursor, (0, 5));
    assert!(s.movecursordown());
    assert!(s.movecursordown());
    assert!(!s.movecursordown());
    assert_eq!(s.selectundercursor(), &Tag::Text);
    assert_eq!(s.select(1), &Tag::Link("http://x".to_string()));
    let (paints, cursor) = s.view();
    assert_eq!(paints[1].text, "plain line");
    assert_eq!(cursor, (0, 6));
    let before = s.clone();
    s.resize(&Rect::new(0, 0, 0, 10));
    s.resize(&Rect::new(0, 0, 5, 0));
    assert_eq!(s.rect, before.rect);
    assert_eq!(s.display, before.display);
    assert_eq!(s.cursor, before.cursor);
    s.resize(&Rect::new(0, 0, 5, 10));
    assert_eq!(s.display_len(), 5);
    assert_eq!(s.display[4], (2, " line".to_string()));
    assert_eq!(s.cursor.cursor.cur, 2);
}

#[test]
fn selector_cut_mode_has_one_line_per_segment() {
    let segs = parse_doc(vec!["a long line of many words", "b"]);
    let s = Selector::new(&Rect::new(0, 0, 10, 5), segs, false);
    assert_eq!(s.display, vec![(0, "a long..".to_string()), (1, "b".to_string())]);
}

fn manager(n: usize) -> TabMgr {
    let mut m = TabMgr::new(&Rect::new(0, 0, 80, 24), "t0", DOC);
    for i in 1..n {
        m.open(&format!("t{}", i), DOC);
    }
    m
}

#[test]
fn cycling_right_len_times_returns() {
    for n in 1..5 {
        let mut m = manager(n);
        for start in 0..n {
            m.curindex = start;
            for _ in 0..n {
                assert_eq!(m.update(&Message::Code('n')), Some(ViewMsg::Redraw));
            }
            assert_eq!(m.curindex, start);
        }
    }
}

#[test]
fn cycling_wraps_both_ways() {
    let mut m = manager(3);
    assert_eq!(m.curindex, 2);
    m.update(&Message::Code('n'));
    assert_eq!(m.curindex, 0);
    m.update(&Message::Code('e'));
    assert_eq!(m.curindex, 2);
    m.update(&Message::Code('e'));
    assert_eq!(m.curindex, 1);
}

#[test]
fn deleting_the_only_tab_is_refused() {
    let mut m = manager(1);
    m.update(&Message::Code('v'));
    assert_eq!(m.update(&Message::Code('y')), Some(ViewMsg::Redraw));
    assert_eq!(m.tabs.len(), 1);
    assert_eq!(m.curindex, 0);
    assert!(m.tabs[0].dlgstack.is_empty());
}

#[test]
fn deleting_a_tab_activates_the_last() {
    let mut m = manager(3);
    m.curindex = 0;
    m.update(&Message::Code('v'));
    m.update(&Message::Code('y'));
    assert_eq!(m.tabs.len(), 2);
    assert_eq!(m.curindex, 1);
    assert_eq!(m.tabs[0].path, "t1");
    assert_eq!(m.tabs[1].path, "t2");
}

#[test]
fn delete_then_escape_changes_nothing() {
    let mut m = manager(3);
    m.curindex = 1;
    assert_eq!(m.update(&Message::Code('v')), Some(ViewMsg::Redraw));
    assert_eq!(m.update(&Message::Escape), Some(ViewMsg::Redraw));
    assert_eq!(m.tabs.len(), 3);
    assert_eq!(m.curindex, 1);
    let paths: Vec<&str> = m.tabs.iter().map(|t| t.path.as_str()).collect();
    assert_eq!(paths, vec!["t0", "t1", "t2"]);
    assert!(m.tabs[1].dlgstack.is_empty());
}

#[test]
fn manager_resize_rejects_degenerate_screens() {
    let mut m = manager(2);
    assert!(!m.resize(&Rect::new(0, 0, 0, 24)));
    assert!(!m.resize(&Rect::new(0, 0, 80, 2)));
    assert_eq!(m.rect, Rect::new(0, 2, 80, 22));
    assert!(m.resize(&Rect::new(0, 0, 40, 3)));
    assert_eq!(m.rect, Rect::new(0, 2, 40, 1));
    for t in &m.tabs {
        assert_eq!(t.page.rect, Rect::new(0, 2, 40, 1));
    }
    assert!(TabMgr::fits(&Rect::new(0, 0, 1, 3)));
    assert!(!TabMgr::fits(&Rect::new(0, 0, 1, 2)));
}

#[test]
fn ui_routes_input() {
    let mut ui = UI::new("doc", DOC, 80, 24);
    assert!(!ui.quit());
    assert_eq!(ui.update(&Message::Code('z')), None);
    assert_eq!(ui.update(&Message::Resize(0, 10)), None);
    assert_eq!(ui.update(&Message::Resize(60, 10)), Some(ViewMsg::Redraw));
    assert_eq!(ui.rect, Rect::new(0, 0, 60, 10));
    // Resizing puts the cursor on the middle of the three lines: the link.
    assert_eq!(ui.tabs.tabs[0].page.cursor.index(), 1);
    ui.update(&Message::Enter);
    assert_eq!(ui.update(&Message::Code('y')), Some(ViewMsg::Go("http://x".to_string())));
    ui.open("http://x", "next\n");
    assert_eq!(ui.tabs.tabs.len(), 2);
    assert_eq!(ui.tabs.curindex, 1);
    let (paints, _) = ui.view();
    assert_eq!(paints[0].text, "next");
    assert_eq!(ui.update(&Message::Stop), Some(ViewMsg::Redraw));
    assert!(ui.quit());
    assert_eq!(ui.screen, Screen::Quit);
    assert_eq!(ui.update(&Message::Code('n')), None);
}
