//! A plain coloured rectangle.

use crate::calculator::Event;
use crate::geometry::Region;
use crate::theme::{Draw, Theme};
use crate::widget::{FocusFrom, Widget};
use core::marker::PhantomData;
use vstd::prelude::*;

verus! {

/// A coloured rectangle, drawn with the theme's background and foreground.
/// It never takes the focus and never uses an event.
#[derive(Debug)]
pub struct ColorRect<T> {
    bounding_box: Region,
    _context: PhantomData<T>,
}

impl<T> View for ColorRect<T> {
    type V = Region;

    closed spec fn view(&self) -> Region {
        self.bounding_box
    }
}

impl<T> ColorRect<T> {
    pub fn new(bounding_box: Region) -> (r: Self)
        ensures
            r@ == bounding_box,
    {
        ColorRect { bounding_box, _context: PhantomData }
    }
}

/// The command that draws `region` as a rectangle in `theme`.
pub open spec fn rect_drawing(region: Region, theme: Theme) -> Draw {
    Draw::Rect {
        region,
        fill: theme.background,
        stroke: theme.foreground,
        stroke_width: theme.rect_border,
    }
}

/// Draws `region` as a rectangle in `theme`.
pub fn draw_rect(region: Region, theme: &Theme, out: &mut Vec<Draw>)
    ensures
        final(out)@ == old(out)@.push(rect_drawing(region, *theme)),
{
    out.push(
        Draw::Rect {
            region,
            fill: theme.background,
            stroke: theme.foreground,
            stroke_width: theme.rect_border,
        },
    );
}

impl<T> Widget for ColorRect<T> {
    type Context = T;

    open spec fn wf(&self) -> bool {
        self@.wf()
    }

    open spec fn region(&self) -> Region {
        self@
    }

    open spec fn focus(&self) -> Option<bool> {
        None
    }

    open spec fn focusable(&self) -> bool {
        false
    }

    open spec fn passes(&self, e: Event, context: T) -> bool {
        true
    }

    open spec fn drawing(&self, theme: Theme) -> Seq<Draw> {
        seq![rect_drawing(self@, theme)]
    }

    fn render(&self, theme: &Theme, out: &mut Vec<Draw>) {
        draw_rect(self.bounding_box, theme, out);
        assert(out@ == old(out)@ + self.drawing(*theme));
    }

    fn on_event(&mut self, e: Event, context: &mut T) -> (r: Option<Event>)
        ensures
            r == Some(e),
            *final(self) == *old(self),
    {
        Some(e)
    }

    fn get_bounding_box(&self) -> (r: Region) {
        self.bounding_box
    }

    fn set_bounding_box(&mut self, bounding_box: Region) {
        self.bounding_box = bounding_box;
    }

    fn can_focus(&self) -> (r: bool) {
        false
    }

    fn get_focus(&self) -> (r: Option<bool>) {
        None
    }

    fn set_focus(&mut self, from_dir: Option<FocusFrom>) -> (r: Result<(), ()>) {
        Err(())
    }
}

} // verus!
