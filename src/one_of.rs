//! A widget that is one of two widget types, so that one collection can
//! hold widgets of both.

use crate::calculator::Event;
use crate::geometry::Region;
use crate::theme::{Draw, Theme};
use crate::widget::{FocusFrom, Widget};
use vstd::prelude::*;

verus! {

/// A widget of type `L` or of type `R`, sharing one context type; it
/// behaves as the widget that it holds.
#[derive(Debug)]
pub enum OneOf<L, R> {
    Left(L),
    Right(R),
}

impl<T, L: Widget<Context = T>, R: Widget<Context = T>> Widget for OneOf<L, R> {
    type Context = T;

    open spec fn wf(&self) -> bool {
        match self {
            OneOf::Left(w) => w.wf(),
            OneOf::Right(w) => w.wf(),
        }
    }

    open spec fn region(&self) -> Region {
        match self {
            OneOf::Left(w) => w.region(),
            OneOf::Right(w) => w.region(),
        }
    }

    open spec fn focus(&self) -> Option<bool> {
        match self {
            OneOf::Left(w) => w.focus(),
            OneOf::Right(w) => w.focus(),
        }
    }

    open spec fn focusable(&self) -> bool {
        match self {
            OneOf::Left(w) => w.focusable(),
            OneOf::Right(w) => w.focusable(),
        }
    }

    open spec fn passes(&self, e: Event, context: T) -> bool {
        match self {
            OneOf::Left(w) => w.passes(e, context),
            OneOf::Right(w) => w.passes(e, context),
        }
    }

    open spec fn drawing(&self, theme: Theme) -> Seq<Draw> {
        match self {
            OneOf::Left(w) => w.drawing(theme),
            OneOf::Right(w) => w.drawing(theme),
        }
    }

    fn render(&self, theme: &Theme, out: &mut Vec<Draw>) {
        match self {
            OneOf::Left(w) => w.render(theme, out),
            OneOf::Right(w) => w.render(theme, out),
        }
    }

    fn on_event(&mut self, e: Event, context: &mut T) -> (r: Option<Event>) {
        match self {
            OneOf::Left(w) => w.on_event(e, context),
            OneOf::Right(w) => w.on_event(e, context),
        }
    }

    fn get_bounding_box(&self) -> (r: Region) {
        match self {
            OneOf::Left(w) => w.get_bounding_box(),
            OneOf::Right(w) => w.get_bounding_box(),
        }
    }

    fn set_bounding_box(&mut self, bounding_box: Region) {
        match self {
            OneOf::Left(w) => w.set_bounding_box(bounding_box),
            OneOf::Right(w) => w.set_bounding_box(bounding_box),
        }
    }

    fn can_focus(&self) -> (r: bool) {
        match self {
            OneOf::Left(w) => w.can_focus(),
            OneOf::Right(w) => w.can_focus(),
        }
    }

    fn get_focus(&self) -> (r: Option<bool>) {
        match self {
            OneOf::Left(w) => w.get_focus(),
            OneOf::Right(w) => w.get_focus(),
        }
    }

    fn set_focus(&mut self, from_dir: Option<FocusFrom>) -> (r: Result<(), ()>) {
        match self {
            OneOf::Left(w) => w.set_focus(from_dir),
            OneOf::Right(w) => w.set_focus(from_dir),
        }
    }
}

} // verus!
