//! A box that shows a line of text and, when editable, edits it from key
//! presses.

use crate::calculator::Event;
use crate::geometry::Region;
use crate::rectangles::{draw_rect, rect_drawing, ColorRect};
use crate::text::{Action, TextInput, TextInputContext};
use crate::theme::{Draw, Theme};
use crate::widget::{FocusFrom, Widget};
use core::marker::PhantomData;
use vstd::prelude::*;
use vstd::string::*;
use vstd::utf8::encode_utf8;

verus! {

/// A context that carries the state of text input, as the context of a
/// [`TextBox`] must.
pub trait TextInputHost {
    /// The text input state that the context carries.
    spec fn text_input(&self) -> TextInputContext;

    /// Mutable access to the text input state.
    fn get_context(&mut self) -> (r: &mut TextInputContext)
        ensures
            *r == old(self).text_input(),
            final(self).text_input() == *final(r),
    ;
}

/// The editing state of an editable text box.
#[derive(Debug, Clone, Copy, PartialEq, Eq, Structural)]
pub struct EditionInfo {
    pub focused: bool,
    /// The text is being edited.
    pub in_edition: bool,
}

/// A box showing a line of at most `N` bytes of UTF-8. An editable box takes the
/// focus and edits its text from the key presses that it receives.
#[derive(Debug)]
pub struct TextBox<T, const N: usize> {
    background: ColorRect<T>,
    pub value: String,
    edition: Option<EditionInfo>,
    _context: PhantomData<T>,
}

/// The text after `input`, with room for `cap` bytes of UTF-8. Text typed or
/// a backspace outside of editing starts over from an empty text; text that
/// does not fit is dropped.
pub open spec fn edit_value(value: Seq<char>, in_edition: bool, input: TextInput, cap: nat) -> Seq<
    char,
> {
    match input {
        TextInput::Text(t) => {
            let base = if in_edition {
                value
            } else {
                Seq::empty()
            };
            if encode_utf8(base).len() + encode_utf8(t@).len() <= cap {
                base + t@
            } else {
                base
            }
        },
        TextInput::Backspace => if !in_edition {
            Seq::empty()
        } else if value.len() > 0 {
            value.drop_last()
        } else {
            value
        },
        TextInput::Action(Action::Clear) => Seq::empty(),
        _ => value,
    }
}

/// Whether the text is being edited after `input`: typing starts editing,
/// Back stops it, OK and EXE toggle it.
pub open spec fn edit_mode(in_edition: bool, input: TextInput) -> bool {
    match input {
        TextInput::Text(_) => true,
        TextInput::Backspace => true,
        TextInput::Action(Action::Back) => false,
        TextInput::Action(Action::OK) => !in_edition,
        TextInput::Action(Action::Exe) => !in_edition,
        _ => in_edition,
    }
}

/// A text box uses `input`.
pub open spec fn edit_consumes(input: TextInput) -> bool {
    match input {
        TextInput::Text(_) => true,
        TextInput::Backspace => true,
        TextInput::Action(Action::Back) => true,
        TextInput::Action(Action::Clear) => true,
        TextInput::Action(Action::OK) => true,
        TextInput::Action(Action::Exe) => true,
        _ => false,
    }
}

impl<T, const N: usize> TextBox<T, N> {
    /// `None` for a box that cannot be edited.
    pub closed spec fn edition_state(&self) -> Option<EditionInfo> {
        self.edition
    }

    pub closed spec fn spec_region(&self) -> Region {
        self.background@
    }

    /// The text shown.
    pub closed spec fn text(&self) -> String {
        self.value
    }

    /// Creates an empty text box, editable or not.
    pub fn new(bounding_box: Region, editable: bool) -> (r: Self)
        requires
            bounding_box.wf(),
        ensures
            r.spec_region() == bounding_box,
            r.text()@ == Seq::<char>::empty(),
            r.edition_state() == (if editable {
                Some(EditionInfo { focused: false, in_edition: false })
            } else {
                None
            }),
    {
        TextBox {
            _context: PhantomData,
            background: ColorRect::new(bounding_box),
            value: String::new(),
            edition: if editable {
                Some(EditionInfo { focused: false, in_edition: false })
            } else {
                None
            },
        }
    }

    /// The theme that the background rectangle is drawn with: its border
    /// shows the editing state, and a box that cannot be edited has none.
    pub open spec fn background_theme(&self, theme: Theme) -> Theme {
        match self.edition_state() {
            Some(ed) => Theme {
                foreground: if ed.in_edition {
                    theme.active
                } else if ed.focused {
                    theme.focused
                } else {
                    theme.foreground
                },
                ..theme
            },
            None => Theme { rect_border: 0, ..theme },
        }
    }

    /// Applies a decoded key press to the text and the editing state.
    fn apply_input(&mut self, input: TextInput) -> (used: bool)
        requires
            old(self).edition_state() is Some,
        ensures
            final(self).spec_region() == old(self).spec_region(),
            final(self).text()@ == edit_value(
                old(self).text()@,
                old(self).edition_state().unwrap().in_edition,
                input,
                N as nat,
            ),
            final(self).edition_state() == Some(
                EditionInfo {
                    focused: old(self).edition_state().unwrap().focused,
                    in_edition: edit_mode(old(self).edition_state().unwrap().in_edition, input),
                },
            ),
            used == edit_consumes(input),
    {
        let mut ed = match self.edition {
            Some(ed) => ed,
            None => EditionInfo { focused: false, in_edition: false },
        };
        let used = match input {
            TextInput::Text(text) => {
                if !ed.in_edition {
                    ed.in_edition = true;
                    self.value = String::new();
                }
                let len = self.value.as_str().as_bytes().len();
                let extra = text.as_bytes().len();
                if extra <= N && len <= N - extra {
                    self.value.append(text);
                }
                true
            },
            TextInput::Backspace => {
                if ed.in_edition {
                    let len = self.value.as_str().unicode_len();
                    if len > 0 {
                        let shorter = self.value.as_str().substring_char(0, len - 1).to_owned();
                        self.value = shorter;
                    }
                } else {
                    ed.in_edition = true;
                    self.value = String::new();
                }
                true
            },
            TextInput::Action(action) => match action {
                Action::Back => {
                    ed.in_edition = false;
                    true
                },
                Action::Clear => {
                    self.value = String::new();
                    true
                },
                Action::OK | Action::Exe => {
                    ed.in_edition = !ed.in_edition;
                    true
                },
                _ => false,
            },
            TextInput::Nothing => false,
        };
        self.edition = Some(ed);
        proof {
            if let TextInput::Backspace = input {
                assert(self.text()@ =~= edit_value(
                    old(self).text()@,
                    old(self).edition_state().unwrap().in_edition,
                    input,
                    N as nat,
                ));
            }
        }
        used
    }
}

impl<T: TextInputHost, const N: usize> Widget for TextBox<T, N> {
    type Context = T;

    open spec fn wf(&self) -> bool {
        self.spec_region().wf()
    }

    open spec fn region(&self) -> Region {
        self.spec_region()
    }

    open spec fn focus(&self) -> Option<bool> {
        match self.edition_state() {
            Some(ed) => Some(ed.focused),
            None => None,
        }
    }

    open spec fn focusable(&self) -> bool {
        self.edition_state() is Some
    }

    /// A box that cannot be edited uses nothing; an editable one uses what
    /// the decoded key press edits.
    open spec fn passes(&self, e: Event, context: T) -> bool {
        self.edition_state() is None || !edit_consumes(context.text_input().decode(e).1)
    }

    /// The background rectangle, then the text centred on it, underlined
    /// while it is being edited.
    open spec fn drawing(&self, theme: Theme) -> Seq<Draw> {
        let (x, y) = self.spec_region().center();
        let in_edition = self.edition_state() matches Some(ed) && ed.in_edition;
        seq![
            rect_drawing(self.spec_region(), self.background_theme(theme)),
            Draw::Text {
                text: self.text(),
                x,
                y,
                color: theme.foreground,
                underline: if in_edition {
                    Some(theme.active)
                } else {
                    None
                },
            },
        ]
    }

    fn render(&self, theme: &Theme, out: &mut Vec<Draw>) {
        let ghost start = out@;
        let (focused, in_edition, editable) = match self.edition {
            Some(ed) => (ed.focused, ed.in_edition, true),
            None => (false, false, false),
        };
        let mut background_theme = *theme;
        background_theme.foreground = if in_edition {
            theme.active
        } else if focused {
            theme.focused
        } else {
            theme.foreground
        };
        if !editable {
            background_theme.rect_border = 0;
            background_theme.foreground = theme.foreground;
        }
        let region = self.background.get_bounding_box();
        draw_rect(region, &background_theme, out);
        let (x, y) = region.center_point();
        let underline = if in_edition {
            Some(theme.active)
        } else {
            None
        };
        out.push(
            Draw::Text { text: self.value.clone(), x, y, color: theme.foreground, underline },
        );
        assert(out@ =~= start + self.drawing(*theme));
    }

    /// An editable box decodes the event with the context's text input state
    /// and applies it; a box that cannot be edited hands every event back.
    fn on_event(&mut self, e: Event, context: &mut T) -> (r: Option<Event>)
        ensures
            old(self).edition_state() is None ==> r == Some(e) && *final(self) == *old(self)
                && *final(context) == *old(context),
            old(self).edition_state() matches Some(ed) ==> final(self).edited(
                old(self),
                ed,
                old(context).text_input().decode(e).1,
                e,
                r,
            ) && (final(context).text_input().shift_active(),
            final(context).text_input().alpha_state()) == old(context).text_input().decode(e).0,
    {
        match self.edition {
            Some(_) => {
                let input = context.get_context().text_from_event(e);
                if self.apply_input(input) {
                    None
                } else {
                    Some(e)
                }
            },
            None => Some(e),
        }
    }

    fn get_bounding_box(&self) -> (r: Region) {
        self.background.get_bounding_box()
    }

    fn set_bounding_box(&mut self, bounding_box: Region)
        ensures
            final(self).text() == old(self).text(),
            final(self).edition_state() == old(self).edition_state(),
    {
        self.background.set_bounding_box(bounding_box);
    }

    fn can_focus(&self) -> (r: bool) {
        self.edition.is_some()
    }

    fn get_focus(&self) -> (r: Option<bool>) {
        match self.edition {
            Some(ed) => Some(ed.focused),
            None => None,
        }
    }

    /// An editable box always accepts; releasing the focus also ends
    /// editing. A box that cannot be edited always refuses.
    fn set_focus(&mut self, from_dir: Option<FocusFrom>) -> (r: Result<(), ()>)
        ensures
            final(self).text() == old(self).text(),
            old(self).edition_state() matches Some(ed) ==> r is Ok && final(self).edition_state()
                == Some(
                EditionInfo {
                    focused: from_dir is Some,
                    in_edition: ed.in_edition && from_dir is Some,
                },
            ),
            old(self).edition_state() is None ==> r is Err && *final(self) == *old(self),
    {
        match self.edition {
            Some(ed) => {
                if from_dir.is_some() {
                    self.edition = Some(EditionInfo { focused: true, in_edition: ed.in_edition });
                } else {
                    self.edition = Some(EditionInfo { focused: false, in_edition: false });
                }
                Ok(())
            },
            None => Err(()),
        }
    }
}

impl<T: TextInputHost, const N: usize> TextBox<T, N> {
    /// `self` is `old`, editable with state `ed`, after decoded key press
    /// `input` of event `e`, which returned `r`.
    pub open spec fn edited(
        &self,
        old: &Self,
        ed: EditionInfo,
        input: TextInput,
        e: Event,
        r: Option<Event>,
    ) -> bool {
        &&& self.spec_region() == old.spec_region()
        &&& self.text()@ == edit_value(old.text()@, ed.in_edition, input, N as nat)
        &&& self.edition_state() == Some(
            EditionInfo { focused: ed.focused, in_edition: edit_mode(ed.in_edition, input) },
        )
        &&& r == (if edit_consumes(input) {
            None
        } else {
            Some(e)
        })
    }
}

} // verus!
