//! The top of the pager: routes each input to the tabs, or ends the
//! session.

use vstd::prelude::*;
use crate::dialog::Message;
use crate::selector::Paint;
use crate::tabs::{mgr_step, opt_view, page_fits, page_rect, TabMgr, ViewMsg, ViewMsgView};
use crate::viewport::Rect;

verus! {

/// What is on screen: the tabs, or nothing once the session has ended.
#[derive(Clone, Copy, Debug, PartialEq, Eq, Structural)]
pub enum Screen {
    Tab,
    Quit,
}

/// The whole terminal: the tab manager below its banner, and whether the
/// session is over.
#[derive(Clone, Debug)]
pub struct UI {
    pub rect: Rect,
    pub screen: Screen,
    pub tabs: TabMgr,
}

impl UI {
    pub open spec fn wf(&self) -> bool {
        self.tabs.wf()
    }

    /// A session showing the document at `path`, whose text is `doc`, on a
    /// terminal of `w` columns and `h` rows.
    pub fn new(path: &str, doc: &str, w: u16, h: u16) -> (r: Self)
        requires
            page_fits(Rect { x: 0, y: 0, w, h }),
        ensures
            r.wf(),
            r.screen == Screen::Tab,
            r.rect == (Rect { x: 0, y: 0, w, h }),
            r.tabs.rect == page_rect(r.rect),
            r.tabs.tabs.len() == 1,
            r.tabs.tabs[0].path@ == path@,
            r.tabs.tabs[0].dlgstack.len() == 0,
            r.tabs.tabs[0].shows_doc(doc@),
    {
        let rect = Rect::new(0, 0, w, h);
        let tabs = TabMgr::new(&rect, path, doc);
        Self { rect: rect, screen: Screen::Tab, tabs: tabs }
    }

    /// Handles one input. A new size lays the tabs out again (a size with
    /// no room for them is ignored); Stop ends the session; any other
    /// input goes to the tabs while the session lasts. The answer says
    /// whether to redraw, and what path to open, as for the tabs.
    pub fn update(&mut self, msg: &Message) -> (r: Option<ViewMsg>)
        requires
            old(self).wf(),
        ensures
            final(self).wf(),
            final(self).screen == if *msg == Message::Stop {
                Screen::Quit
            } else {
                old(self).screen
            },
            match *msg {
                Message::Resize(w, h) => {
                    let screen = Rect { x: 0, y: 0, w, h };
                    &&& page_fits(screen) ==> final(self).rect == screen && opt_view(r) == Some(
                        ViewMsgView::Redraw,
                    ) && final(self).tabs.rect == page_rect(screen)
                    &&& !page_fits(screen) ==> *final(self) == *old(self) && r is None
                    &&& final(self).tabs.curindex == old(self).tabs.curindex
                    &&& final(self).tabs.tabs.len() == old(self).tabs.tabs.len()
                    &&& page_fits(screen) ==> forall|i: int|
                        0 <= i < old(self).tabs.tabs.len() ==> old(self).tabs.tabs[i].resized(
                            #[trigger] final(self).tabs.tabs[i],
                            page_rect(screen),
                        )
                },
                Message::Stop => opt_view(r) == Some(ViewMsgView::Redraw) && final(self).tabs
                    == old(self).tabs,
                _ => if old(self).screen == Screen::Tab {
                    &&& final(self).tabs.model() == mgr_step(old(self).tabs.model(), *msg).0
                    &&& opt_view(r) == mgr_step(old(self).tabs.model(), *msg).1
                } else {
                    r is None && final(self).tabs == old(self).tabs
                },
            },
    {
        match msg {
            Message::Resize(w, h) => {
                let rect = Rect::new(0, 0, *w, *h);
                if self.tabs.resize(&rect) {
                    self.rect = rect;
                    Some(ViewMsg::Redraw)
                } else {
                    None
                }
            },
            Message::Stop => {
                self.screen = Screen::Quit;
                Some(ViewMsg::Redraw)
            },
            _ => match self.screen {
                Screen::Tab => self.tabs.update(msg),
                Screen::Quit => None,
            },
        }
    }

    /// Opens the document at `path`, whose text is `doc`, in a new active
    /// tab.
    pub fn open(&mut self, path: &str, doc: &str)
        requires
            old(self).wf(),
        ensures
            final(self).wf(),
            final(self).screen == old(self).screen,
            final(self).tabs.tabs.len() == old(self).tabs.tabs.len() + 1,
            final(self).tabs.curindex == old(self).tabs.tabs.len(),
            final(self).tabs.tabs@.last().path@ == path@,
            final(self).tabs.tabs@.last().dlgstack.len() == 0,
            final(self).tabs.tabs@.last().shows_doc(doc@),
            final(self).tabs.tabs@.take(old(self).tabs.tabs.len() as int) == old(self).tabs.tabs@,
            final(self).tabs.rect == old(self).tabs.rect,
    {
        self.tabs.open(path, doc);
    }

    /// What the active tab shows.
    pub fn view(&self) -> (r: (Vec<Paint>, (usize, usize)))
        requires
            self.wf(),
        ensures
            self.tabs.tabs[self.tabs.curindex as int].shows(r),
    {
        self.tabs.view()
    }

    /// Whether the session is over.
    pub fn quit(&self) -> (r: bool)
        ensures
            r == (self.screen == Screen::Quit),
    {
        match self.screen {
            Screen::Quit => true,
            _ => false,
        }
    }
}

} // verus!
