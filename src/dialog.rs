//! Modal dialogs: acknowledge, choose one of a few keys, or type a line.

use vstd::prelude::*;
use crate::selector::Paint;
use crate::tag::{tag_colors, TagView};
use crate::text::{owned, pop_char, push_char};
use crate::viewport::Rect;

verus! {

/// An input event: a typed character, one of the editing keys, a new
/// terminal size, or the request to quit.
#[derive(Clone, Copy, Debug, PartialEq, Eq, Structural)]
pub enum Message {
    Code(char),
    Enter,
    Escape,
    Backspace,
    Resize(u16, u16),
    Stop,
}

/// What a dialog makes of an input: it stays open, it is cancelled, or
/// it is submitted.
#[derive(Clone, Copy, Debug, PartialEq, Eq, Structural)]
pub enum DialogMsg {
    Stay,
    Cancel,
    Submit,
}

/// What a dialog collects: nothing, one of a few keys (the one chosen so
/// far, and each key with its label), or a line of text.
#[derive(Clone, Debug, PartialEq, Eq)]
pub enum InputType {
    Nothing,
    Choose(char, Vec<(char, String)>),
    Input(String),
}

/// A dialog's input as plain values.
pub enum InputView {
    Nothing,
    Choose(char, Seq<(char, Seq<char>)>),
    Input(Seq<char>),
}

impl View for InputType {
    type V = InputView;

    open spec fn view(&self) -> InputView {
        match self {
            InputType::Nothing => InputView::Nothing,
            InputType::Choose(k, opts) => InputView::Choose(
                *k,
                opts@.map_values(|o: (char, String)| (o.0, o.1@)),
            ),
            InputType::Input(v) => InputView::Input(v@),
        }
    }
}

/// Whether `c` is one of the keys offered.
pub open spec fn has_key(opts: Seq<(char, Seq<char>)>, c: char) -> bool {
    exists|i: int| 0 <= i < opts.len() && (#[trigger] opts[i]).0 == c
}

/// The answer of a dialog holding `input` to `msg`. Escape cancels; Enter
/// submits, except when choosing, where only the keys on offer count; a
/// key on offer submits; typing and Backspace edit a line of text; any
/// other input means nothing (`None`).
pub open spec fn reply(input: InputView, msg: Message) -> Option<DialogMsg> {
    match msg {
        Message::Escape => Some(DialogMsg::Cancel),
        Message::Enter => if input is Choose {
            Some(DialogMsg::Stay)
        } else {
            Some(DialogMsg::Submit)
        },
        Message::Backspace => if input is Input {
            Some(DialogMsg::Stay)
        } else {
            None
        },
        Message::Code(c) => match input {
            InputView::Input(_) => Some(DialogMsg::Stay),
            InputView::Choose(_, opts) => if has_key(opts, c) {
                Some(DialogMsg::Submit)
            } else {
                None
            },
            InputView::Nothing => None,
        },
        _ => None,
    }
}

/// The input after `msg`: Backspace drops the last character of a line, a
/// typed character is appended to it, a key on offer becomes the choice.
pub open spec fn input_after(input: InputView, msg: Message) -> InputView {
    match (input, msg) {
        (InputView::Input(v), Message::Backspace) => InputView::Input(
            if v.len() > 0 {
                v.drop_last()
            } else {
                v
            },
        ),
        (InputView::Input(v), Message::Code(c)) => InputView::Input(v.push(c)),
        (InputView::Choose(_, opts), Message::Code(c)) => if has_key(opts, c) {
            InputView::Choose(c, opts)
        } else {
            input
        },
        _ => input,
    }
}

/// Text showing the keys on offer: `[k] label` for each, one space apart.
pub open spec fn options_text(opts: Seq<(char, Seq<char>)>) -> Seq<char>
    decreases opts.len(),
{
    if opts.len() == 0 {
        seq![]
    } else {
        options_text(opts.drop_last()) + (if opts.len() > 1 {
            seq![' ']
        } else {
            seq![]
        }) + seq!['[', opts.last().0, ']', ' '] + opts.last().1
    }
}

/// Text showing an input: the line typed so far, or the keys on offer.
pub open spec fn input_text(input: InputView) -> Seq<char> {
    match input {
        InputView::Nothing => seq![],
        InputView::Choose(_, opts) => options_text(opts),
        InputView::Input(v) => v,
    }
}

/// A modal dialog: a prompt, the input it collects, and what to do with
/// that input once it is submitted.
#[derive(Clone, Debug)]
pub struct Dialog<T> {
    pub rect: Rect,
    pub action: T,
    pub input: InputType,
    pub prompt: String,
}

impl<T> Dialog<T> {
    pub fn new(rect: &Rect, action: T, input: InputType, prompt: &str) -> (r: Self)
        ensures
            r.rect == *rect,
            r.action == action,
            r.input == input,
            r.prompt@ == prompt@,
    {
        Self { rect: *rect, action: action, input: input, prompt: owned(prompt) }
    }

    pub fn resize(&mut self, rect: &Rect)
        ensures
            *final(self) == (Dialog { rect: *rect, ..*old(self) }),
    {
        self.rect = *rect;
    }

    /// Feeds one input to the dialog.
    pub fn update(&mut self, msg: &Message) -> (r: Option<DialogMsg>)
        ensures
            r == reply(old(self).input@, *msg),
            final(self).input@ == input_after(old(self).input@, *msg),
            final(self).rect == old(self).rect,
            final(self).action == old(self).action,
            final(self).prompt == old(self).prompt,
    {
        match msg {
            Message::Escape => Some(DialogMsg::Cancel),
            Message::Enter => match &self.input {
                InputType::Choose(..) => Some(DialogMsg::Stay),
                _ => Some(DialogMsg::Submit),
            },
            Message::Backspace => match &mut self.input {
                InputType::Input(v) => {
                    pop_char(v);
                    Some(DialogMsg::Stay)
                },
                _ => None,
            },
            Message::Code(c) => match &mut self.input {
                InputType::Input(v) => {
                    push_char(v, *c);
                    Some(DialogMsg::Stay)
                },
                InputType::Choose(k, opts) => {
                    if offers(opts, *c) {
                        *k = *c;
                        Some(DialogMsg::Submit)
                    } else {
                        None
                    }
                },
                InputType::Nothing => None,
            },
            _ => None,
        }
    }

    /// Whether `r` paints the prompt two rows and two columns in from the
    /// corner, and the input two rows below it.
    pub open spec fn shows(&self, r: Vec<Paint>) -> bool {
        &&& r.len() == 2
        &&& r[0].col == self.rect.x + 2 && r[0].row == self.rect.y + 2
        &&& r[0].text@ == self.prompt@
        &&& r[1].col == self.rect.x + 2 && r[1].row == self.rect.y + 4
        &&& r[1].text@ == input_text(self.input@)
        &&& r[0].colors == tag_colors(TagView::Text) && r[1].colors == tag_colors(TagView::Text)
    }

    /// The prompt two rows and two columns in from the corner, and the
    /// input two rows below it.
    pub fn view(&self) -> (r: Vec<Paint>)
        ensures
            self.shows(r),
    {
        let x = self.rect.x as usize + 2;
        let y = self.rect.y as usize;
        let colors = ((180, 180, 180), (0, 0, 0));
        let mut r: Vec<Paint> = Vec::new();
        r.push(Paint { col: x, row: y + 2, colors: colors, text: self.prompt.clone() });
        r.push(Paint { col: x, row: y + 4, colors: colors, text: describe(&self.input) });
        r
    }
}

/// Whether `c` is one of the keys in `opts`.
fn offers(opts: &Vec<(char, String)>, c: char) -> (r: bool)
    ensures
        r == has_key(opts@.map_values(|o: (char, String)| (o.0, o.1@)), c),
{
    let ghost v = opts@.map_values(|o: (char, String)| (o.0, o.1@));
    let mut i: usize = 0;
    while i < opts.len()
        invariant
            i <= opts.len(),
            v == opts@.map_values(|o: (char, String)| (o.0, o.1@)),
            forall|j: int| 0 <= j < i ==> (#[trigger] v[j]).0 != c,
        decreases opts.len() - i,
    {
        if opts[i].0 == c {
            assert(v[i as int].0 == c);
            return true;
        }
        i = i + 1;
    }
    false
}

/// The text that shows `input`.
fn describe(input: &InputType) -> (r: String)
    ensures
        r@ == input_text(input@),
{
    match input {
        InputType::Nothing => String::new(),
        InputType::Input(v) => v.clone(),
        InputType::Choose(_, opts) => {
            let ghost v = opts@.map_values(|o: (char, String)| (o.0, o.1@));
            let mut r = String::new();
            let mut i: usize = 0;
            while i < opts.len()
                invariant
                    i <= opts.len(),
                    v == opts@.map_values(|o: (char, String)| (o.0, o.1@)),
                    r@ == options_text(v.take(i as int)),
                decreases opts.len() - i,
            {
                let ghost before = r@;
                if i > 0 {
                    push_char(&mut r, ' ');
                }
                push_char(&mut r, '[');
                push_char(&mut r, opts[i].0);
                push_char(&mut r, ']');
                push_char(&mut r, ' ');
                let label = crate::text::chars_of(opts[i].1.as_str());
                let ghost mid = r@;
                let mut k: usize = 0;
                while k < label.len()
                    invariant
                        k <= label.len(),
                        r@ == mid + label@.take(k as int),
                    decreases label.len() - k,
                {
                    push_char(&mut r, label[k]);
                    assert(label@.take(k + 1) =~= label@.take(k as int).push(label@[k as int]));
                    k = k + 1;
                }
                proof {
                    let w = v.take(i + 1);
                    assert(w.drop_last() =~= v.take(i as int));
                    assert(w.last() == (opts@[i as int].0, opts@[i as int].1@));
                    assert(label@.take(k as int) =~= label@);
                    assert(r@ =~= options_text(w));
                }
                i = i + 1;
            }
            assert(v.take(opts.len() as int) =~= v);
            r
        },
    }
}

} // verus!
