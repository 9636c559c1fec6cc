//! Colours, themes, and the drawing commands that rendering produces.

use crate::geometry::Region;
use vstd::prelude::*;

verus! {

/// A 24-bit RGB colour.
#[derive(Debug, Clone, Copy, PartialEq, Eq, Structural)]
pub struct Color {
    pub r: u8,
    pub g: u8,
    pub b: u8,
}

impl Color {
    pub fn rgb(r: u8, g: u8, b: u8) -> (c: Color)
        ensures
            c == (Color { r, g, b }),
    {
        Color { r, g, b }
    }
}

/// How widgets are drawn: the colours of their parts and the width of the
/// rectangle borders.
#[derive(Debug, Clone, Copy, PartialEq, Eq, Structural)]
pub struct Theme {
    /// The width of the rectangle borders.
    pub rect_border: u32,
    /// The colour of foreground elements, e.g. text or borders.
    pub foreground: Color,
    /// The foreground colour of the widget currently focused.
    pub focused: Color,
    /// The foreground colour of an active widget, e.g. a button being pressed.
    pub active: Color,
    /// The colour that rectangles are filled with.
    pub background: Color,
}

impl Theme {
    /// The default theme: white smoke text and borders, navajo white for
    /// focus, sky blue when active, on dark gray.
    pub open spec fn spec_default() -> Theme {
        Theme {
            rect_border: 2,
            foreground: Color { r: 245, g: 245, b: 245 },
            focused: Color { r: 255, g: 222, b: 173 },
            active: Color { r: 135, g: 206, b: 235 },
            background: Color { r: 169, g: 169, b: 169 },
        }
    }
}

impl Default for Theme {
    fn default() -> (t: Theme)
        ensures
            t == Theme::spec_default(),
    {
        Theme {
            rect_border: 2,
            foreground: Color { r: 245, g: 245, b: 245 },
            focused: Color { r: 255, g: 222, b: 173 },
            active: Color { r: 135, g: 206, b: 235 },
            background: Color { r: 169, g: 169, b: 169 },
        }
    }
}

/// One primitive drawing operation, executed by the display back end.
#[derive(Debug, Clone, PartialEq, Eq)]
pub enum Draw {
    /// A rectangle filled with `fill`, with a border of `stroke_width` pixels
    /// in `stroke` drawn inside its edges.
    Rect { region: Region, fill: Color, stroke: Color, stroke_width: u32 },
    /// A line of text in the normal font, centred horizontally and vertically
    /// on `(x, y)`, underlined in `underline` when that is given.
    Text { text: String, x: i32, y: i32, color: Color, underline: Option<Color> },
    /// A line of text in the normal font whose top-left corner is `(x, y)`.
    Label { text: String, x: i32, y: i32, color: Color },
    /// The whole target filled with `color`.
    Clear { color: Color },
}

} // verus!
