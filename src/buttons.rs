//! A push button with a text label.

use crate::calculator::{Event, KeyCode};
use crate::geometry::Region;
use crate::rectangles::{draw_rect, rect_drawing, ColorRect};
use crate::theme::{Color, Draw, Theme};
use crate::widget::{Callback, FocusFrom, Widget};
use vstd::prelude::*;

verus! {

/// A button: a rectangle with a centred label. Pressing OK or EXE while it
/// receives events runs its callback with the shared context.
///
/// `T` is the type of [`Widget::Context`].
#[derive(Debug)]
pub struct Button<T, F> {
    background: ColorRect<T>,
    text: String,
    pressed: bool,
    on_pressed: Callback<F>,
    focused: bool,
}

/// The key activates a button or a text box.
pub open spec fn is_activation(key: KeyCode) -> bool {
    key == KeyCode::OK || key == KeyCode::Exe
}

/// The colour of a label drawn in `theme`.
pub open spec fn label_color(theme: Theme, pressed: bool, focused: bool) -> Color {
    if pressed {
        theme.active
    } else if focused {
        theme.focused
    } else {
        theme.foreground
    }
}

impl<T, F: Fn(&mut T)> Button<T, F> {
    pub closed spec fn label(&self) -> String {
        self.text
    }

    /// OK or EXE is held down on the button.
    pub closed spec fn is_pressed(&self) -> bool {
        self.pressed
    }

    pub closed spec fn is_focused(&self) -> bool {
        self.focused
    }

    pub closed spec fn spec_region(&self) -> Region {
        self.background@
    }

    pub closed spec fn action(&self) -> Callback<F> {
        self.on_pressed
    }

    /// Creates a button, neither focused nor pressed.
    pub fn new(text: String, bounding_box: Region, on_pressed: F) -> (r: Self)
        requires
            bounding_box.wf(),
            forall|c: &mut T| call_requires(on_pressed, (c,)),
        ensures
            r.wf(),
            r.label() == text,
            r.spec_region() == bounding_box,
            !r.is_pressed(),
            !r.is_focused(),
            r.action() == Callback(on_pressed),
    {
        Button {
            background: ColorRect::new(bounding_box),
            text,
            pressed: false,
            on_pressed: Callback(on_pressed),
            focused: false,
        }
    }

    /// Changes the text displayed on the button.
    pub fn set_text(&mut self, text: String)
        ensures
            final(self).label() == text,
            final(self).spec_region() == old(self).spec_region(),
            final(self).is_pressed() == old(self).is_pressed(),
            final(self).is_focused() == old(self).is_focused(),
            final(self).action() == old(self).action(),
    {
        self.text = text;
    }
}

impl<T, F: Fn(&mut T)> Widget for Button<T, F> {
    type Context = T;

    open spec fn wf(&self) -> bool {
        self.spec_region().wf() && self.action().callable::<T>()
    }

    open spec fn region(&self) -> Region {
        self.spec_region()
    }

    open spec fn focus(&self) -> Option<bool> {
        Some(self.is_focused())
    }

    open spec fn focusable(&self) -> bool {
        true
    }

    /// A button uses OK and EXE, pressed or released.
    open spec fn passes(&self, e: Event, context: T) -> bool {
        match e {
            Event::KeyDown(k) => !is_activation(k),
            Event::KeyUp(k) => !is_activation(k),
            _ => true,
        }
    }

    /// The background rectangle, then the label centred on it.
    open spec fn drawing(&self, theme: Theme) -> Seq<Draw> {
        let (x, y) = self.spec_region().center();
        seq![
            rect_drawing(self.spec_region(), theme),
            Draw::Text {
                text: self.label(),
                x,
                y,
                color: label_color(theme, self.is_pressed(), self.is_focused()),
                underline: None,
            },
        ]
    }

    fn render(&self, theme: &Theme, out: &mut Vec<Draw>) {
        let ghost start = out@;
        let color = if self.pressed {
            theme.active
        } else if self.focused {
            theme.focused
        } else {
            theme.foreground
        };
        let region = self.background.get_bounding_box();
        draw_rect(region, theme, out);
        let (x, y) = region.center_point();
        out.push(Draw::Text { text: self.text.clone(), x, y, color, underline: None });
        assert(out@ =~= start + self.drawing(*theme));
    }

    /// OK or EXE pressed runs the callback; pressed or released, the key is
    /// used. Every other event is handed back.
    fn on_event(&mut self, e: Event, context: &mut T) -> (r: Option<Event>)
        ensures
            final(self).label() == old(self).label(),
            final(self).is_focused() == old(self).is_focused(),
            final(self).action() == old(self).action(),
            match e {
                Event::KeyDown(k) if is_activation(k) => r is None && final(self).is_pressed()
                    && exists|c: &mut T|
                    *c == *old(context) && *final(c) == *final(context) && call_ensures(
                        old(self).action().0,
                        (c,),
                        (),
                    ),
                Event::KeyUp(k) if is_activation(k) => r is None && !final(self).is_pressed()
                    && *final(context) == *old(context),
                _ => r == Some(e) && *final(self) == *old(self) && *final(context) == *old(context),
            },
    {
        match e {
            Event::KeyDown(KeyCode::OK) | Event::KeyDown(KeyCode::Exe) => {
                self.pressed = true;
                self.on_pressed.call(context);
                None
            },
            Event::KeyUp(KeyCode::OK) | Event::KeyUp(KeyCode::Exe) => {
                self.pressed = false;
                None
            },
            _ => Some(e),
        }
    }

    fn get_bounding_box(&self) -> (r: Region) {
        self.background.get_bounding_box()
    }

    fn set_bounding_box(&mut self, bounding_box: Region)
        ensures
            final(self).label() == old(self).label(),
            final(self).is_pressed() == old(self).is_pressed(),
            final(self).action() == old(self).action(),
    {
        self.background.set_bounding_box(bounding_box);
    }

    fn can_focus(&self) -> (r: bool) {
        true
    }

    fn get_focus(&self) -> (r: Option<bool>) {
        Some(self.focused)
    }

    /// Always succeeds; releasing the focus also releases the button.
    fn set_focus(&mut self, from_dir: Option<FocusFrom>) -> (r: Result<(), ()>)
        ensures
            r is Ok,
            final(self).is_focused() == from_dir is Some,
            final(self).is_pressed() == (old(self).is_pressed() && from_dir is Some),
            final(self).label() == old(self).label(),
            final(self).action() == old(self).action(),
    {
        self.focused = from_dir.is_some();
        if !self.focused {
            self.pressed = false;
        }
        Ok(())
    }
}

} // verus!
