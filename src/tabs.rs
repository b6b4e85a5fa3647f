//! Tabs: one document each, with its stack of dialogs, and the keys that
//! drive them.

use vstd::prelude::*;
use crate::dialog::{input_after, reply, Dialog, DialogMsg, InputType, InputView, Message};
use crate::selector::{Paint, Selector};
use crate::tag::{lines_from, parse_spec, parse_text, segment_view, Tag, TagView};
use crate::text::{concat, owned};
use crate::viewport::Rect;

verus! {

/// What a dialog's submitted input is for.
#[derive(Clone, Debug, PartialEq, Eq)]
pub enum Action {
    Nothing,
    GoTo,
    DeleteMe,
    Go(String),
}

/// An action as plain values.
pub enum ActionView {
    Nothing,
    GoTo,
    DeleteMe,
    Go(Seq<char>),
}

impl View for Action {
    type V = ActionView;

    open spec fn view(&self) -> ActionView {
        match self {
            Action::Nothing => ActionView::Nothing,
            Action::GoTo => ActionView::GoTo,
            Action::DeleteMe => ActionView::DeleteMe,
            Action::Go(p) => ActionView::Go(p@),
        }
    }
}

/// What the screen should do: draw again, or also open a path.
#[derive(Clone, Debug, PartialEq, Eq)]
pub enum ViewMsg {
    Redraw,
    Go(String),
}

/// A screen request as plain values.
pub enum ViewMsgView {
    Redraw,
    Go(Seq<char>),
}

impl View for ViewMsg {
    type V = ViewMsgView;

    open spec fn view(&self) -> ViewMsgView {
        match self {
            ViewMsg::Redraw => ViewMsgView::Redraw,
            ViewMsg::Go(p) => ViewMsgView::Go(p@),
        }
    }
}

/// What a tab asks of the tab manager.
#[derive(Clone, Debug, PartialEq, Eq)]
pub enum TabMsg {
    CycleLeft,
    CycleRight,
    DeleteMe,
    Msg(ViewMsg),
}

/// A tab's request as plain values.
pub enum TabMsgView {
    CycleLeft,
    CycleRight,
    DeleteMe,
    Msg(ViewMsgView),
}

impl View for TabMsg {
    type V = TabMsgView;

    open spec fn view(&self) -> TabMsgView {
        match self {
            TabMsg::CycleLeft => TabMsgView::CycleLeft,
            TabMsg::CycleRight => TabMsgView::CycleRight,
            TabMsg::DeleteMe => TabMsgView::DeleteMe,
            TabMsg::Msg(m) => TabMsgView::Msg(m@),
        }
    }
}

/// An optional answer as plain values.
pub open spec fn opt_view<T: View>(o: Option<T>) -> Option<T::V> {
    match o {
        Some(x) => Some(x@),
        None => None,
    }
}

/// A dialog as plain values.
pub struct DialogView {
    pub rect: Rect,
    pub action: ActionView,
    pub input: InputView,
    pub prompt: Seq<char>,
}

/// A dialog of the tabs as plain values.
pub open spec fn dialog_view(d: Dialog<Action>) -> DialogView {
    DialogView { rect: d.rect, action: d.action@, input: d.input@, prompt: d.prompt@ }
}

/// A tab as plain values; the page is kept as it is.
pub struct TabView {
    pub rect: Rect,
    pub path: Seq<char>,
    pub dialogs: Seq<DialogView>,
    pub page: Selector,
}

/// The keys of the tab's commands.
pub const KEY_UP: char = 'o';

pub const KEY_DOWN: char = 'i';

pub const KEY_LEFT: char = 'e';

pub const KEY_RIGHT: char = 'n';

pub const KEY_PATH: char = 'p';

pub const KEY_DELETE: char = 'v';

/// A yes/no choice, answered "no" until a key is pressed.
pub open spec fn yes_no() -> InputView {
    InputView::Choose('n', seq![('y', "yes"@), ('n', "no"@)])
}

/// The dialog that asks whether to delete the tab.
pub open spec fn delete_dialog(rect: Rect) -> DialogView {
    DialogView { rect, action: ActionView::DeleteMe, input: yes_no(), prompt: "Delete current tab?"@ }
}

/// The dialog that asks for a path to open.
pub open spec fn path_dialog(rect: Rect) -> DialogView {
    DialogView { rect, action: ActionView::GoTo, input: InputView::Input(seq![]), prompt: "enter path: "@ }
}

/// The dialog that Enter opens over a segment with tag `t`.
pub open spec fn select_dialog(rect: Rect, t: TagView) -> DialogView {
    match t {
        TagView::Link(l) => DialogView {
            rect,
            action: ActionView::Go(l),
            input: yes_no(),
            prompt: "go to "@ + l + "?"@,
        },
        TagView::Text => DialogView {
            rect,
            action: ActionView::Nothing,
            input: InputView::Nothing,
            prompt: "You've selected some text. "@,
        },
        TagView::Heading => DialogView {
            rect,
            action: ActionView::Nothing,
            input: InputView::Nothing,
            prompt: "You've selected a heading "@,
        },
    }
}

/// What a submitted dialog asks for: a "y" to a link opens it, a typed
/// path opens that path, a "y" to deleting deletes the tab; anything else
/// only redraws.
pub open spec fn submitted(action: ActionView, input: InputView) -> TabMsgView {
    match (action, input) {
        (ActionView::Go(p), InputView::Choose(c, _)) => if c == 'y' {
            TabMsgView::Msg(ViewMsgView::Go(p))
        } else {
            TabMsgView::Msg(ViewMsgView::Redraw)
        },
        (ActionView::GoTo, InputView::Input(v)) => TabMsgView::Msg(ViewMsgView::Go(v)),
        (ActionView::DeleteMe, InputView::Choose(c, _)) => if c == 'y' {
            TabMsgView::DeleteMe
        } else {
            TabMsgView::Msg(ViewMsgView::Redraw)
        },
        _ => TabMsgView::Msg(ViewMsgView::Redraw),
    }
}

/// The answer that only asks for a redraw.
pub open spec fn redraw() -> Option<TabMsgView> {
    Some(TabMsgView::Msg(ViewMsgView::Redraw))
}

/// A tab after input `m`, and its answer. With a dialog open, the top
/// dialog takes the input: submitted or cancelled it closes, and a
/// submitted one answers what it was for. Otherwise the keys move the
/// selection, cycle the tabs, or open a dialog; other input is ignored.
pub open spec fn tab_step(t: TabView, m: Message) -> (TabView, Option<TabMsgView>) {
    if t.dialogs.len() > 0 {
        let d = t.dialogs.last();
        let input = input_after(d.input, m);
        match reply(d.input, m) {
            Some(DialogMsg::Submit) => (
                TabView { dialogs: t.dialogs.drop_last(), ..t },
                Some(submitted(d.action, input)),
            ),
            Some(DialogMsg::Cancel) => (TabView { dialogs: t.dialogs.drop_last(), ..t }, redraw()),
            Some(DialogMsg::Stay) => (
                TabView {
                    dialogs: t.dialogs.update(t.dialogs.len() - 1, DialogView { input, ..d }),
                    ..t
                },
                redraw(),
            ),
            None => (t, None),
        }
    } else {
        match m {
            Message::Code(c) => if c == KEY_DELETE {
                (TabView { dialogs: seq![delete_dialog(t.rect)], ..t }, redraw())
            } else if c == KEY_PATH {
                (TabView { dialogs: seq![path_dialog(t.rect)], ..t }, redraw())
            } else if c == KEY_DOWN {
                (TabView { page: t.page.moved_down(), ..t }, redraw())
            } else if c == KEY_UP {
                (TabView { page: t.page.moved_up(), ..t }, redraw())
            } else if c == KEY_LEFT {
                (t, Some(TabMsgView::CycleLeft))
            } else if c == KEY_RIGHT {
                (t, Some(TabMsgView::CycleRight))
            } else {
                (t, None)
            },
            Message::Enter => if t.page.display.len() > 0 {
                (
                    TabView {
                        dialogs: seq![select_dialog(t.rect, t.page.source[t.page.selected_segment()].0@)],
                        ..t
                    },
                    redraw(),
                )
            } else {
                (t, None)
            },
            _ => (t, None),
        }
    }
}

/// One open document: its path, its page, and the dialogs open over it
/// (only the last is live).
#[derive(Clone, Debug)]
pub struct Tab {
    pub rect: Rect,
    pub path: String,
    pub dlgstack: Vec<Dialog<Action>>,
    pub page: Selector,
}

impl Tab {
    /// The tab as plain values.
    pub open spec fn model(&self) -> TabView {
        TabView {
            rect: self.rect,
            path: self.path@,
            dialogs: self.dlgstack@.map_values(|d: Dialog<Action>| dialog_view(d)),
            page: self.page,
        }
    }
}

/// The choice between "y" and "n", "n" to begin with.
fn yes_no_input() -> (r: InputType)
    ensures
        r@ == yes_no(),
{
    let mut opts: Vec<(char, String)> = Vec::new();
    opts.push(('y', owned("yes")));
    opts.push(('n', owned("no")));
    let r = InputType::Choose('n', opts);
    assert(r@->Choose_1 =~= seq![('y', "yes"@), ('n', "no"@)]);
    r
}

/// What a submitted dialog with `action` and `input` asks for.
fn submit(action: &Action, input: &InputType) -> (r: TabMsg)
    ensures
        r@ == submitted(action@, input@),
{
    match (action, input) {
        (Action::Go(p), InputType::Choose(c, _)) => if *c == 'y' {
            TabMsg::Msg(ViewMsg::Go(p.clone()))
        } else {
            TabMsg::Msg(ViewMsg::Redraw)
        },
        (Action::GoTo, InputType::Input(v)) => TabMsg::Msg(ViewMsg::Go(v.clone())),
        (Action::DeleteMe, InputType::Choose(c, _)) => if *c == 'y' {
            TabMsg::DeleteMe
        } else {
            TabMsg::Msg(ViewMsg::Redraw)
        },
        _ => TabMsg::Msg(ViewMsg::Redraw),
    }
}

impl Tab {
    pub open spec fn wf(&self) -> bool {
        &&& self.page.wf()
        &&& self.page.rect == self.rect
        &&& self.page.wrap
    }

    /// Whether the page holds the segments of the document text `doc`, one
    /// per line in order, with the top of the page selected.
    pub open spec fn shows_doc(&self, doc: Seq<char>) -> bool {
        &&& self.page.source.len() == lines_from(doc, 0).len()
        &&& forall|i: int|
            0 <= i < self.page.source.len() ==> segment_view(#[trigger] self.page.source[i]) == parse_spec(
                lines_from(doc, 0)[i],
            )
        &&& self.page.cursor.scroll.cur == 0
        &&& self.page.cursor.cursor.cur == self.rect.y
    }

    /// A tab for the document at `path`, whose text is `doc`, wrapped to
    /// `rect`, with no dialog open.
    pub fn new(rect: &Rect, path: &str, doc: &str) -> (r: Self)
        requires
            rect.usable(),
        ensures
            r.wf(),
            r.rect == *rect,
            r.path@ == path@,
            r.dlgstack.len() == 0,
            r.shows_doc(doc@),
    {
        let text = parse_text(doc);
        Self {
            rect: *rect,
            path: owned(path),
            dlgstack: Vec::new(),
            page: Selector::new(rect, text, true),
        }
    }

    /// Whether `r` shows the last dialog, with the terminal cursor on its
    /// input, or the page when no dialog is open.
    pub open spec fn shows(&self, r: (Vec<Paint>, (usize, usize))) -> bool {
        if self.dlgstack.len() > 0 {
            let d = self.dlgstack@.last();
            d.shows(r.0) && r.1 == ((d.rect.x + 2) as usize, (d.rect.y + 4) as usize)
        } else {
            self.page.shows(r)
        }
    }

    /// The open dialog if there is one, else the page; and where the
    /// terminal cursor goes.
    pub fn view(&self) -> (r: (Vec<Paint>, (usize, usize)))
        requires
            self.wf(),
        ensures
            self.shows(r),
    {
        match self.dlgstack.last() {
            Some(d) => (d.view(), (d.rect.x as usize + 2, d.rect.y as usize + 4)),
            None => self.page.view(),
        }
    }

    /// Whether `new` is this tab resized to `rect`: the page laid out again
    /// for it, and every dialog moved there.
    pub open spec fn resized(self, new: Tab, rect: Rect) -> bool {
        &&& new.wf()
        &&& new.rect == rect
        &&& new.path == self.path
        &&& self.page.resized(new.page, rect)
        &&& new.model().dialogs.len() == self.model().dialogs.len()
        &&& forall|i: int|
            0 <= i < self.model().dialogs.len() ==> #[trigger] new.model().dialogs[i] == (DialogView {
                rect,
                ..self.model().dialogs[i]
            })
    }

    /// Lays the page out again for `rect`, and moves every dialog there; a
    /// rectangle with no room is refused and changes nothing.
    pub fn resize(&mut self, rect: &Rect)
        requires
            old(self).wf(),
        ensures
            final(self).wf(),
            rect.usable() ==> old(self).resized(*final(self), *rect),
            !rect.usable() ==> *final(self) == *old(self),
    {
        if rect.w == 0 || rect.h == 0 {
            return;
        }
        let ghost before = self.dlgstack@;
        let mut i: usize = 0;
        while i < self.dlgstack.len()
            invariant
                self.page == old(self).page,
                self.rect == old(self).rect,
                self.path == old(self).path,
                i <= self.dlgstack.len() == before.len(),
                forall|j: int| 0 <= j < i ==> #[trigger] self.dlgstack@[j] == (Dialog { rect: *rect, ..before[j] }),
                forall|j: int| i <= j < before.len() ==> #[trigger] self.dlgstack@[j] == before[j],
            decreases before.len() - i,
        {
            let mut d = self.dlgstack.remove(i);
            d.resize(rect);
            self.dlgstack.insert(i, d);
            i = i + 1;
        }
        self.rect = *rect;
        self.page.resize(rect);
        proof {
            let dv = self.model().dialogs;
            assert forall|i: int| 0 <= i < before.len() implies #[trigger] dv[i] == (DialogView {
                rect: *rect,
                ..old(self).model().dialogs[i]
            }) by {
                assert(dv[i] == dialog_view(self.dlgstack@[i]));
                assert(old(self).model().dialogs[i] == dialog_view(before[i]));
            }
        }
    }

    /// Feeds one input to the tab, as `tab_step` says.
    pub fn update(&mut self, msg: &Message) -> (r: Option<TabMsg>)
        requires
            old(self).wf(),
        ensures
            final(self).wf(),
            final(self).model() == tab_step(old(self).model(), *msg).0,
            opt_view(r) == tab_step(old(self).model(), *msg).1,
    {
        let ghost dv = old(self).model().dialogs;
        if self.dlgstack.len() > 0 {
            let mut d = self.dlgstack.pop().unwrap();
            proof {
                assert(self.model().dialogs =~= dv.drop_last());
            }
            let rep = d.update(msg);
            match rep {
                Some(DialogMsg::Submit) => {
                    return Some(submit(&d.action, &d.input));
                },
                Some(DialogMsg::Cancel) => {
                    return Some(TabMsg::Msg(ViewMsg::Redraw));
                },
                Some(DialogMsg::Stay) => {
                    self.dlgstack.push(d);
                    proof {
                        assert(self.model().dialogs =~= dv.update(dv.len() - 1, DialogView { input: d.input@, ..dv.last() }));
                    }
                    return Some(TabMsg::Msg(ViewMsg::Redraw));
                },
                None => {
                    self.dlgstack.push(d);
                    proof {
                        assert(self.model().dialogs =~= dv);
                    }
                    return None;
                },
            }
        }
        match msg {
            Message::Code(c) => {
                if *c == KEY_DELETE {
                    let dialog = Dialog::new(&self.rect, Action::DeleteMe, yes_no_input(), "Delete current tab?");
                    self.dlgstack.push(dialog);
                    assert(self.model().dialogs =~= seq![delete_dialog(self.rect)]);
                    Some(TabMsg::Msg(ViewMsg::Redraw))
                } else if *c == KEY_PATH {
                    let dialog = Dialog::new(&self.rect, Action::GoTo, InputType::Input(String::new()), "enter path: ");
                    self.dlgstack.push(dialog);
                    assert(self.model().dialogs =~= seq![path_dialog(self.rect)]);
                    Some(TabMsg::Msg(ViewMsg::Redraw))
                } else if *c == KEY_DOWN {
                    self.page.movecursordown();
                    Some(TabMsg::Msg(ViewMsg::Redraw))
                } else if *c == KEY_UP {
                    self.page.movecursorup();
                    Some(TabMsg::Msg(ViewMsg::Redraw))
                } else if *c == KEY_LEFT {
                    Some(TabMsg::CycleLeft)
                } else if *c == KEY_RIGHT {
                    Some(TabMsg::CycleRight)
                } else {
                    None
                }
            },
            Message::Enter => {
                if self.page.display_len() == 0 {
                    return None;
                }
                let dialog = match self.page.selectundercursor() {
                    Tag::Text => Dialog::new(&self.rect, Action::Nothing, InputType::Nothing, "You've selected some text. "),
                    Tag::Heading => Dialog::new(&self.rect, Action::Nothing, InputType::Nothing, "You've selected a heading "),
                    Tag::Link(l) => {
                        let front = concat("go to ", l.as_str());
                        let prompt = concat(front.as_str(), "?");
                        Dialog::new(&self.rect, Action::Go(l.clone()), yes_no_input(), prompt.as_str())
                    },
                };
                self.dlgstack.push(dialog);
                assert(self.model().dialogs =~= seq![select_dialog(self.rect, self.page.source[self.page.selected_segment()].0@)]);
                Some(TabMsg::Msg(ViewMsg::Redraw))
            },
            _ => None,
        }
    }
}

/// The tab manager as plain values.
pub struct MgrView {
    pub rect: Rect,
    pub tabs: Seq<TabView>,
    pub cur: int,
}

/// The index before `i` among `len`, wrapping from the first to the last.
pub open spec fn cycle_left(len: int, i: int) -> int {
    if i == 0 {
        len - 1
    } else {
        i - 1
    }
}

/// The index after `i` among `len`, wrapping from the last to the first.
pub open spec fn cycle_right(len: int, i: int) -> int {
    if i == len - 1 {
        0
    } else {
        i + 1
    }
}

/// The tab manager after input `m`, and what it asks of the screen. The
/// active tab takes the input; its answer may open a path (left to the
/// caller), delete the active tab unless it is the only one (the last
/// tab becomes active), or cycle the active tab.
pub open spec fn mgr_step(mv: MgrView, m: Message) -> (MgrView, Option<ViewMsgView>) {
    let (t, rep) = tab_step(mv.tabs[mv.cur], m);
    let tabs = mv.tabs.update(mv.cur, t);
    let len = tabs.len() as int;
    match rep {
        None => (MgrView { tabs, ..mv }, None),
        Some(TabMsgView::Msg(v)) => (MgrView { tabs, ..mv }, Some(v)),
        Some(TabMsgView::DeleteMe) => if len > 1 {
            (MgrView { tabs: tabs.remove(mv.cur), cur: len - 2, ..mv }, Some(ViewMsgView::Redraw))
        } else {
            (MgrView { tabs, ..mv }, Some(ViewMsgView::Redraw))
        },
        Some(TabMsgView::CycleLeft) => (
            MgrView { tabs, cur: cycle_left(len, mv.cur), ..mv },
            Some(ViewMsgView::Redraw),
        ),
        Some(TabMsgView::CycleRight) => (
            MgrView { tabs, cur: cycle_right(len, mv.cur), ..mv },
            Some(ViewMsgView::Redraw),
        ),
    }
}

/// The active index points at a tab.
pub open spec fn mgr_wf(mv: MgrView) -> bool {
    0 <= mv.cur < mv.tabs.len()
}

/// The rectangle left for the tabs below the two banner rows of `screen`.
pub open spec fn page_rect(screen: Rect) -> Rect {
    Rect { x: screen.x, y: (screen.y + 2) as u16, w: screen.w, h: (screen.h - 2) as u16 }
}

/// Whether `screen` leaves the tabs at least one row and one column.
pub open spec fn page_fits(screen: Rect) -> bool {
    screen.w > 0 && screen.h > 2 && screen.y + 2 <= u16::MAX
}

/// Every step keeps a tab active: the list never becomes empty.
pub proof fn lemma_step_keeps_a_tab(mv: MgrView, m: Message)
    requires
        mgr_wf(mv),
    ensures
        mgr_wf(mgr_step(mv, m).0),
        mgr_step(mv, m).0.tabs.len() >= 1,
{
}

/// Deleting the only tab is refused: exactly one tab remains.
pub proof fn lemma_delete_only_tab(mv: MgrView, m: Message)
    requires
        mgr_wf(mv),
        mv.tabs.len() == 1,
        tab_step(mv.tabs[mv.cur], m).1 == Some(TabMsgView::DeleteMe),
    ensures
        mgr_step(mv, m).0.tabs.len() == 1,
        mgr_step(mv, m).0.cur == 0,
{
}

/// The index after `n` steps right from `i`.
pub open spec fn cycle_right_n(len: int, i: int, n: nat) -> int
    decreases n,
{
    if n == 0 {
        i
    } else {
        cycle_right_n(len, cycle_right(len, i), (n - 1) as nat)
    }
}

proof fn lemma_cycle_right_split(len: int, i: int, a: nat, b: nat)
    ensures
        cycle_right_n(len, i, a + b) == cycle_right_n(len, cycle_right_n(len, i, a), b),
    decreases a,
{
    if a > 0 {
        lemma_cycle_right_split(len, cycle_right(len, i), (a - 1) as nat, b);
        assert((a + b - 1) as nat == (a - 1) as nat + b);
    }
}

proof fn lemma_cycle_right_walk(len: int, i: int, n: nat)
    requires
        0 <= i,
        i + n < len,
    ensures
        cycle_right_n(len, i, n) == i + n,
    decreases n,
{
    if n > 0 {
        lemma_cycle_right_walk(len, i + 1, (n - 1) as nat);
    }
}

/// Cycling right as many times as there are tabs comes back to the
/// starting tab.
pub proof fn lemma_cycle_right_len(len: int, i: int)
    requires
        0 <= i < len,
    ensures
        cycle_right_n(len, i, len as nat) == i,
{
    let a = (len - 1 - i) as nat;
    lemma_cycle_right_walk(len, i, a);
    lemma_cycle_right_split(len, i, a, 1);
    assert(cycle_right_n(len, len - 1, 1) == cycle_right_n(len, 0, 0));
    lemma_cycle_right_split(len, i, a + 1, i as nat);
    lemma_cycle_right_walk(len, 0, i as nat);
    assert(a + 1 + i == len);
}

/// The tab manager after `n` presses of the key that cycles right.
pub open spec fn press_right_n(mv: MgrView, n: nat) -> MgrView
    decreases n,
{
    if n == 0 {
        mv
    } else {
        press_right_n(mgr_step(mv, Message::Code(KEY_RIGHT)).0, (n - 1) as nat)
    }
}

proof fn lemma_press_right_n(mv: MgrView, n: nat)
    requires
        mgr_wf(mv),
        forall|i: int| 0 <= i < mv.tabs.len() ==> (#[trigger] mv.tabs[i]).dialogs.len() == 0,
    ensures
        press_right_n(mv, n) == (MgrView { cur: cycle_right_n(mv.tabs.len() as int, mv.cur, n), ..mv }),
    decreases n,
{
    if n > 0 {
        let next = mgr_step(mv, Message::Code(KEY_RIGHT)).0;
        assert(next.tabs =~= mv.tabs);
        lemma_press_right_n(next, (n - 1) as nat);
    }
}

/// With no dialog open, pressing the key that cycles right once per tab
/// comes back to the same state.
pub proof fn lemma_cycle_right_returns(mv: MgrView)
    requires
        mgr_wf(mv),
        forall|i: int| 0 <= i < mv.tabs.len() ==> (#[trigger] mv.tabs[i]).dialogs.len() == 0,
    ensures
        press_right_n(mv, mv.tabs.len() as nat) == mv,
{
    lemma_press_right_n(mv, mv.tabs.len() as nat);
    lemma_cycle_right_len(mv.tabs.len() as int, mv.cur);
}

/// Opening the delete dialog and cancelling it with Escape changes
/// nothing.
pub proof fn lemma_delete_then_cancel(mv: MgrView)
    requires
        mgr_wf(mv),
        mv.tabs[mv.cur].dialogs.len() == 0,
    ensures
        mgr_step(mgr_step(mv, Message::Code(KEY_DELETE)).0, Message::Escape).0 == mv,
{
    let t = mv.tabs[mv.cur];
    let m1 = mgr_step(mv, Message::Code(KEY_DELETE)).0;
    assert(m1.tabs[mv.cur].dialogs == seq![delete_dialog(t.rect)]);
    let m2 = mgr_step(m1, Message::Escape).0;
    assert(m2.tabs[mv.cur].dialogs =~= t.dialogs);
    assert(m2.tabs =~= mv.tabs);
}

/// A non-empty list of tabs, one of them active, sharing the rectangle
/// below a two-row banner.
#[derive(Clone, Debug)]
pub struct TabMgr {
    pub rect: Rect,
    pub tabs: Vec<Tab>,
    pub curindex: usize,
}

impl TabMgr {
    /// The tab manager as plain values.
    pub open spec fn model(&self) -> MgrView {
        MgrView {
            rect: self.rect,
            tabs: self.tabs@.map_values(|t: Tab| t.model()),
            cur: self.curindex as int,
        }
    }

    pub open spec fn wf(&self) -> bool {
        &&& self.rect.usable()
        &&& 1 <= self.tabs.len()
        &&& self.curindex < self.tabs.len()
        &&& forall|i: int| 0 <= i < self.tabs.len() ==> (#[trigger] self.tabs[i]).wf() && self.tabs[i].rect == self.rect
    }

    /// Whether `screen` leaves room for the tabs below the banner.
    pub fn fits(screen: &Rect) -> (r: bool)
        ensures
            r == page_fits(*screen),
    {
        screen.w > 0 && screen.h > 2 && screen.y <= u16::MAX - 2
    }

    fn page(screen: &Rect) -> (r: Rect)
        requires
            page_fits(*screen),
        ensures
            r == page_rect(*screen),
            r.usable(),
    {
        Rect::new(screen.x, screen.y + 2, screen.w, screen.h - 2)
    }

    /// One tab, for the document at `path` whose text is `doc`.
    pub fn new(screen: &Rect, path: &str, doc: &str) -> (r: Self)
        requires
            page_fits(*screen),
        ensures
            r.wf(),
            r.rect == page_rect(*screen),
            r.tabs.len() == 1,
            r.curindex == 0,
            r.tabs[0].path@ == path@,
            r.tabs[0].dlgstack.len() == 0,
            r.tabs[0].shows_doc(doc@),
    {
        let rect = Self::page(screen);
        let mut tabs: Vec<Tab> = Vec::new();
        tabs.push(Tab::new(&rect, path, doc));
        Self { rect: rect, tabs: tabs, curindex: 0 }
    }

    /// Opens the document at `path`, whose text is `doc`, in a new last
    /// tab and makes it active.
    pub fn open(&mut self, path: &str, doc: &str)
        requires
            old(self).wf(),
        ensures
            final(self).wf(),
            final(self).rect == old(self).rect,
            final(self).tabs.len() == old(self).tabs.len() + 1,
            final(self).tabs@.take(old(self).tabs.len() as int) == old(self).tabs@,
            final(self).curindex == old(self).tabs.len(),
            final(self).tabs@.last().path@ == path@,
            final(self).tabs@.last().dlgstack.len() == 0,
            final(self).tabs@.last().shows_doc(doc@),
    {
        let tab = Tab::new(&self.rect, path, doc);
        let ghost before = self.tabs@;
        self.tabs.push(tab);
        assert(self.tabs@.take(before.len() as int) =~= before);
        self.curindex = self.tabs.len() - 1;
    }

    /// Lays every tab out again for `screen`, unless it leaves the tabs no
    /// room: then nothing changes and the answer is false.
    pub fn resize(&mut self, screen: &Rect) -> (r: bool)
        requires
            old(self).wf(),
        ensures
            final(self).wf(),
            r == page_fits(*screen),
            !r ==> *final(self) == *old(self),
            r ==> final(self).rect == page_rect(*screen),
            final(self).curindex == old(self).curindex,
            final(self).tabs.len() == old(self).tabs.len(),
            r ==> forall|i: int|
                0 <= i < old(self).tabs.len() ==> old(self).tabs[i].resized(
                    #[trigger] final(self).tabs[i],
                    page_rect(*screen),
                ),
    {
        if !Self::fits(screen) {
            return false;
        }
        let rect = Self::page(screen);
        let ghost before = self.tabs@;
        let mut i: usize = 0;
        while i < self.tabs.len()
            invariant
                i <= self.tabs.len() == before.len(),
                rect.usable(),
                self.curindex == old(self).curindex,
                self.rect == old(self).rect,
                forall|j: int| 0 <= j < before.len() ==> (#[trigger] before[j]).wf(),
                rect == page_rect(*screen),
                forall|j: int| 0 <= j < i ==> before[j].resized(#[trigger] self.tabs[j], rect),
                forall|j: int| i <= j < before.len() ==> #[trigger] self.tabs[j] == before[j],
            decreases before.len() - i,
        {
            let mut tab = self.tabs.remove(i);
            tab.resize(&rect);
            self.tabs.insert(i, tab);
            i = i + 1;
        }
        self.rect = rect;
        true
    }

    /// Feeds one input to the active tab and acts on its answer, as
    /// `mgr_step` says. `Some(ViewMsg::Go(p))` asks the caller to load `p`
    /// and `open` it; `None` means nothing changed.
    pub fn update(&mut self, msg: &Message) -> (r: Option<ViewMsg>)
        requires
            old(self).wf(),
        ensures
            final(self).wf(),
            final(self).model() == mgr_step(old(self).model(), *msg).0,
            opt_view(r) == mgr_step(old(self).model(), *msg).1,
    {
        let cur = self.curindex;
        let ghost old_tabs = self.tabs@;
        let mut tab = self.tabs.remove(cur);
        let rep = tab.update(msg);
        self.tabs.insert(cur, tab);
        proof {
            assert(self.tabs@ =~= old_tabs.update(cur as int, tab));
            assert(self.model().tabs =~= old(self).model().tabs.update(cur as int, tab.model()));
            assert forall|i: int| 0 <= i < self.tabs.len() implies (#[trigger] self.tabs[i]).wf()
                && self.tabs[i].rect == self.rect by {
                if i != cur {
                    assert(self.tabs[i] == old_tabs[i]);
                }
            }
        }
        let len = self.tabs.len();
        match rep {
            None => None,
            Some(TabMsg::Msg(v)) => Some(v),
            Some(TabMsg::DeleteMe) => {
                if len > 1 {
                    let ghost mid = self.tabs@;
                    self.tabs.remove(cur);
                    self.curindex = len - 2;
                    proof {
                        assert(self.model().tabs =~= mid.map_values(|t: Tab| t.model()).remove(cur as int));
                        assert forall|i: int| 0 <= i < self.tabs.len() implies (#[trigger] self.tabs[i]).wf()
                            && self.tabs[i].rect == self.rect by {
                            if i < cur {
                                assert(self.tabs[i] == mid[i]);
                            } else {
                                assert(self.tabs[i] == mid[i + 1]);
                            }
                        }
                    }
                }
                Some(ViewMsg::Redraw)
            },
            Some(TabMsg::CycleLeft) => {
                self.curindex = if cur == 0 { len - 1 } else { cur - 1 };
                Some(ViewMsg::Redraw)
            },
            Some(TabMsg::CycleRight) => {
                self.curindex = if cur == len - 1 { 0 } else { cur + 1 };
                Some(ViewMsg::Redraw)
            },
        }
    }

    /// What the active tab shows.
    pub fn view(&self) -> (r: (Vec<Paint>, (usize, usize)))
        requires
            self.wf(),
        ensures
            self.tabs[self.curindex as int].shows(r),
    {
        self.tabs[self.curindex].view()
    }
}

} // verus!
