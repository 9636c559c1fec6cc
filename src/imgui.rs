//! An immediate-mode interface: the application declares its widgets anew on
//! every frame, top to bottom, and the interface keeps only the focus and
//! the pending event between frames.

use crate::calculator::{Event, KeyCode};
use crate::geometry::Region;
use crate::theme::{Color, Draw};
use embedded_graphics::mono_font::ascii::FONT_7X13;
use embedded_graphics::mono_font::MonoTextStyle;
use embedded_graphics::pixelcolor::{Rgb888, RgbColor};
use embedded_graphics::prelude::{Dimensions, Point};
use embedded_graphics::text::Text;
use vstd::prelude::*;
use vstd::string::*;

verus! {

/// The space kept around each widget, in pixels.
pub const MARGIN: u32 = 2;
/// The space between a button's border and its label, in pixels.
pub const PADDING: u32 = 2;
/// The height of a slider, in pixels.
pub const SLIDER_HEIGHT: u32 = 15;
/// The height of a slider's bar, and the size of its marker, in pixels.
pub const BAR_HEIGHT: u32 = 5;
/// The number of widgets that one frame can hold.
pub const MAX_WIDGETS: usize = 32;
/// The number of actions that can wait in the queue.
pub const MAX_ACTIONS: usize = 7;
/// The coordinates and sizes of widgets stay within this bound.
pub const COORD_LIMIT: i32 = 16777216;
/// The coordinates and size of the interface's region stay within this
/// bound.
pub const SCREEN_LIMIT: i32 = 1048576;
/// The longest label of a button, in characters.
pub const LABEL_LIMIT: usize = 65536;

/// The width and height of a single line of text in the normal font: seven
/// pixels per character, thirteen pixels high; nothing for no text.
pub open spec fn spec_label_size(chars: nat) -> (u32, u32) {
    if chars == 0 {
        (0, 0)
    } else {
        ((7 * chars) as u32, 13)
    }
}

/// The width and height of text laid out in the normal font, one line per
/// `'\n'`-separated part.
pub uninterp spec fn text_extent(s: Seq<char>) -> (u32, u32);

/// Relies on embedded_graphics' `Text::bounding_box` with the monospace
/// `FONT_7X13` (7 by 13 pixels, no spacing), lines stacked 13 pixels apart,
/// a trailing carriage return dropped from each line: a line without line
/// breaks or carriage returns is 7 pixels per character wide and 13 high,
/// empty text has no size, and no text is wider than 7 pixels per character
/// or higher than 13 pixels per line.
#[verifier::external_body]
fn label_size(label: &str) -> (r: (u32, u32))
    requires
        label@.len() <= COORD_LIMIT,
    ensures
        r == text_extent(label@),
        !label@.contains('\n') && !label@.contains('\r') ==> r == spec_label_size(label@.len()),
        r.0 <= 7 * label@.len(),
        r.1 <= 13 * (label@.len() + 1),
{
    let style = MonoTextStyle::new(&FONT_7X13, Rgb888::WHITE);
    let size = Text::new(label, Point::zero(), style).bounding_box().size;
    (size.width, size.height)
}

/// Horizontal alignment.
#[derive(Debug, Clone, Copy, PartialEq, Eq, Structural)]
pub enum HorizontalAlignment {
    Left,
    Center,
    Right,
}

/// Vertical alignment: widgets are stacked from the top or from the bottom
/// of the space left.
#[derive(Debug, Clone, Copy, PartialEq, Eq, Structural)]
pub enum VerticalAlignment {
    Top,
    Center,
    Bottom,
}

/// An action queued by the application.
#[derive(Debug, Clone, Copy, PartialEq, Eq, Structural)]
pub enum Action {
    Back,
    OK,
}

/// The widgets that the focus moves to with each arrow key.
#[derive(Debug, Clone, Copy, PartialEq, Eq, Structural, Default)]
pub struct FocusGrid {
    pub right: Option<usize>,
    pub left: Option<usize>,
    pub down: Option<usize>,
    pub up: Option<usize>,
}

/// A button of one frame.
#[derive(Debug)]
pub struct Button {
    pub bounding_box: Region,
    pub text: String,
}

/// A slider of one frame, holding a value between `min` and `max`.
#[derive(Debug)]
pub struct Slider {
    pub bounding_box: Region,
    pub value: i32,
    pub min: i32,
    pub max: i32,
}

/// A widget of one frame.
#[derive(Debug)]
pub enum Widget {
    Button(Button),
    Slider(Slider),
}

pub open spec fn dark_gray() -> Color {
    Color { r: 169, g: 169, b: 169 }
}

/// The border colour of a widget, focused or not: blue violet or light
/// gray.
pub open spec fn border_color(is_focused: bool) -> Color {
    if is_focused {
        Color { r: 138, g: 43, b: 226 }
    } else {
        Color { r: 211, g: 211, b: 211 }
    }
}

/// The background of a widget: dark gray, with a one-pixel border.
pub open spec fn frame_drawing(region: Region, is_focused: bool) -> Draw {
    Draw::Rect { region, fill: dark_gray(), stroke: border_color(is_focused), stroke_width: 1 }
}

fn draw_frame(region: Region, is_focused: bool, out: &mut Vec<Draw>)
    ensures
        final(out)@ == old(out)@.push(frame_drawing(region, is_focused)),
{
    let stroke = if is_focused {
        Color { r: 138, g: 43, b: 226 }
    } else {
        Color { r: 211, g: 211, b: 211 }
    };
    out.push(Draw::Rect { region, fill: Color { r: 169, g: 169, b: 169 }, stroke, stroke_width: 1 });
}

/// The region is small enough for the interface's arithmetic.
pub open spec fn modest(r: Region) -> bool {
    -COORD_LIMIT <= r.x <= COORD_LIMIT && -COORD_LIMIT <= r.y <= COORD_LIMIT && r.w <= COORD_LIMIT
        && r.h <= COORD_LIMIT
}

/// `a / b` rounded toward zero, as Rust's integer division does.
pub open spec fn div_toward_zero(a: int, b: int) -> int {
    if a >= 0 {
        a / b
    } else {
        -((-a) / b)
    }
}

impl Slider {
    /// The slider is well formed: a range holding its value.
    pub open spec fn wf(&self) -> bool {
        &&& self.min <= self.value <= self.max
        &&& modest(self.bounding_box)
    }

    /// The slider can be drawn: its range is not a single value, and it is
    /// wide enough for the bar and its marker.
    pub open spec fn drawable(&self) -> bool {
        &&& self.min < self.max
        &&& self.bounding_box.w >= SLIDER_HEIGHT
    }

    /// The value after event `e`: the right arrow raises it by one, the left
    /// arrow lowers it by one, within the range; other events are handed
    /// back.
    pub open spec fn stepped(&self, e: Event) -> (int, Option<Event>) {
        match e {
            Event::KeyDown(KeyCode::Right) => (if self.value < self.max {
                self.value + 1
            } else {
                self.max as int
            }, None),
            Event::KeyDown(KeyCode::Left) => (if self.value > self.min {
                self.value - 1
            } else {
                self.min as int
            }, None),
            _ => (self.value as int, Some(e)),
        }
    }

    pub fn on_event(&mut self, e: Event) -> (r: Option<Event>)
        requires
            old(self).wf(),
        ensures
            final(self).wf(),
            final(self).value == old(self).stepped(e).0,
            r == old(self).stepped(e).1,
            final(self).bounding_box == old(self).bounding_box,
            final(self).min == old(self).min,
            final(self).max == old(self).max,
    {
        let next: i64 = match e {
            Event::KeyDown(KeyCode::Right) => self.value as i64 + 1,
            Event::KeyDown(KeyCode::Left) => self.value as i64 - 1,
            _ => {
                return Some(e);
            },
        };
        self.value = if next < self.min as i64 {
            self.min
        } else if next > self.max as i64 {
            self.max
        } else {
            next as i32
        };
        None
    }

    /// The bar: `SLIDER_HEIGHT - BAR_HEIGHT` narrower than the slider,
    /// centred on it.
    pub open spec fn bar(&self) -> Region {
        let b = self.bounding_box;
        let bar_w = b.w - (SLIDER_HEIGHT - BAR_HEIGHT);
        Region {
            x: (b.x + b.w / 2 - bar_w / 2) as i32,
            y: (b.y + b.h / 2 - BAR_HEIGHT / 2) as i32,
            w: bar_w as u32,
            h: BAR_HEIGHT,
        }
    }

    /// The marker: a square on the bar, as far along it as the value is
    /// along the range.
    pub open spec fn marker(&self) -> Region {
        let bar = self.bar();
        let offset = div_toward_zero(
            (self.value - self.min) * (bar.w - BAR_HEIGHT),
            self.max - self.min,
        );
        Region { x: (bar.x + offset) as i32, y: bar.y, w: BAR_HEIGHT, h: BAR_HEIGHT }
    }

    pub open spec fn drawing(&self, is_focused: bool) -> Seq<Draw> {
        let sky_blue = Color { r: 135, g: 206, b: 235 };
        let indian_red = Color { r: 205, g: 92, b: 92 };
        seq![
            frame_drawing(self.bounding_box, is_focused),
            Draw::Rect { region: self.bar(), fill: sky_blue, stroke: sky_blue, stroke_width: 0 },
            Draw::Rect { region: self.marker(), fill: indian_red, stroke: indian_red, stroke_width: 0 },
        ]
    }

    pub fn render(&self, is_focused: bool, out: &mut Vec<Draw>)
        requires
            self.wf(),
            self.drawable(),
        ensures
            final(out)@ == old(out)@ + self.drawing(is_focused),
    {
        let ghost start = out@;
        draw_frame(self.bounding_box, is_focused, out);
        let b = self.bounding_box;
        let bar_w = b.w - (SLIDER_HEIGHT - BAR_HEIGHT);
        let bar = Region {
            x: b.x + (b.w / 2) as i32 - (bar_w / 2) as i32,
            y: b.y + (b.h / 2) as i32 - (BAR_HEIGHT / 2) as i32,
            w: bar_w,
            h: BAR_HEIGHT,
        };
        let sky_blue = Color { r: 135, g: 206, b: 235 };
        out.push(Draw::Rect { region: bar, fill: sky_blue, stroke: sky_blue, stroke_width: 0 });
        proof {
            assert((self.value - self.min) * (bar_w - BAR_HEIGHT) <= 0x1_0000_0000 * 0x100_0000)
                by (nonlinear_arith)
                requires
                    0 <= self.value - self.min <= 0x1_0000_0000,
                    0 <= bar_w - BAR_HEIGHT <= 0x100_0000,
            ;
        }
        let span = (self.value as i64 - self.min as i64) * ((bar_w - BAR_HEIGHT) as i64);
        let range = self.max as i64 - self.min as i64;
        proof {
            assert(0 <= span <= (self.max - self.min) * (bar_w - BAR_HEIGHT)) by (nonlinear_arith)
                requires
                    span == (self.value - self.min) * (bar_w - BAR_HEIGHT),
                    self.min <= self.value <= self.max,
                    bar_w >= BAR_HEIGHT,
            ;
            assert(span / range <= bar_w - BAR_HEIGHT) by (nonlinear_arith)
                requires
                    0 <= span <= range * (bar_w - BAR_HEIGHT),
                    range > 0,
                    bar_w >= BAR_HEIGHT,
            ;
        }
        let offset = (span / range) as i32;
        let marker = Region { x: bar.x + offset, y: bar.y, w: BAR_HEIGHT, h: BAR_HEIGHT };
        let indian_red = Color { r: 205, g: 92, b: 92 };
        out.push(Draw::Rect { region: marker, fill: indian_red, stroke: indian_red, stroke_width: 0 });
        assert(out@ =~= start + self.drawing(is_focused));
    }
}

impl Button {
    pub open spec fn wf(&self) -> bool {
        modest(self.bounding_box)
    }

    /// The frame, then the label inside its padding.
    pub open spec fn drawing(&self, is_focused: bool) -> Seq<Draw> {
        seq![
            frame_drawing(self.bounding_box, is_focused),
            Draw::Label {
                text: self.text,
                x: (self.bounding_box.x + PADDING) as i32,
                y: (self.bounding_box.y + PADDING) as i32,
                color: Color { r: 47, g: 79, b: 79 },
            },
        ]
    }

    pub fn render(&self, is_focused: bool, out: &mut Vec<Draw>)
        requires
            self.wf(),
        ensures
            final(out)@ == old(out)@ + self.drawing(is_focused),
    {
        let ghost start = out@;
        draw_frame(self.bounding_box, is_focused, out);
        out.push(
            Draw::Label {
                text: self.text.clone(),
                x: self.bounding_box.x + PADDING as i32,
                y: self.bounding_box.y + PADDING as i32,
                color: Color { r: 47, g: 79, b: 79 },
            },
        );
        assert(out@ =~= start + self.drawing(is_focused));
    }
}

impl Widget {
    /// Dispatches `e`: a slider steps its value, a button hands every event
    /// back.
    pub fn on_event(&mut self, e: Event) -> (r: Option<Event>)
        requires
            old(self).wf(),
        ensures
            final(self).wf(),
            match *old(self) {
                Widget::Button(_) => r == Some(e) && *final(self) == *old(self),
                Widget::Slider(s) => r == s.stepped(e).1 && *final(self) == Widget::Slider(
                    Slider { value: s.stepped(e).0 as i32, ..s },
                ),
            },
    {
        match self {
            Widget::Button(_) => Some(e),
            Widget::Slider(s) => s.on_event(e),
        }
    }

    pub open spec fn wf(&self) -> bool {
        match self {
            Widget::Button(b) => b.wf(),
            Widget::Slider(s) => s.wf(),
        }
    }

    /// The widget can be drawn: see [`Slider::drawable`].
    pub open spec fn drawable(&self) -> bool {
        match self {
            Widget::Button(_) => true,
            Widget::Slider(s) => s.drawable(),
        }
    }

    pub open spec fn drawing(&self, is_focused: bool) -> Seq<Draw> {
        match self {
            Widget::Button(b) => b.drawing(is_focused),
            Widget::Slider(s) => s.drawing(is_focused),
        }
    }

    pub fn render(&self, is_focused: bool, out: &mut Vec<Draw>)
        requires
            self.wf(),
            self.drawable(),
        ensures
            final(out)@ == old(out)@ + self.drawing(is_focused),
    {
        match self {
            Widget::Button(b) => b.render(is_focused, out),
            Widget::Slider(s) => s.render(is_focused, out),
        }
    }
}

/// The region is small enough to hold an interface.
pub open spec fn screen_bounded(r: Region) -> bool {
    -SCREEN_LIMIT <= r.x <= SCREEN_LIMIT && -SCREEN_LIMIT <= r.y <= SCREEN_LIMIT && r.w
        <= SCREEN_LIMIT && r.h <= SCREEN_LIMIT
}

/// Taking `height` pixels (at most all of them) from the top or the bottom
/// of `avail`: the strip taken and the space left. At the bottom the strip
/// starts from the last row of `avail`, one row above its lower edge.
pub open spec fn taken(avail: Region, align: VerticalAlignment, height: nat) -> (Region, Region) {
    let h = if height <= avail.h {
        height
    } else {
        avail.h as nat
    };
    match align {
        VerticalAlignment::Bottom => (
            Region { y: (avail.y + avail.h - 1 - h) as i32, h: h as u32, ..avail },
            Region { h: (avail.h - h) as u32, ..avail },
        ),
        _ => (
            Region { h: h as u32, ..avail },
            Region { y: (avail.y + h) as i32, h: (avail.h - h) as u32, ..avail },
        ),
    }
}

/// The region of a button whose label measures `tw` by `th`, centred
/// horizontally in `avail`, at its top or bottom, inside the margins.
pub open spec fn button_region(avail: Region, tw: u32, th: u32, align: VerticalAlignment) -> Region {
    let ext_w = tw + 2 * MARGIN + 2 * PADDING;
    let ext_h = th + 2 * MARGIN + 2 * PADDING;
    let top = match align {
        VerticalAlignment::Bottom => avail.y + avail.h - ext_h,
        _ => avail.y as int,
    };
    Region {
        x: (avail.x + div_toward_zero(avail.w - ext_w, 2)) as i32,
        y: (top + MARGIN) as i32,
        w: (tw + 2 * PADDING) as u32,
        h: (th + 2 * PADDING) as u32,
    }
}

/// The region of a slider taken from `avail`: a strip of the slider's
/// height and its margins, inside the margins.
pub open spec fn slider_region(avail: Region, align: VerticalAlignment) -> Region {
    let t = taken(avail, align, (SLIDER_HEIGHT + 4 * MARGIN) as nat).0;
    Region {
        x: (t.x + MARGIN) as i32,
        y: (t.y + MARGIN) as i32,
        w: (t.w - 2 * MARGIN) as u32,
        h: (t.h - 2 * MARGIN) as u32,
    }
}

/// The widget that arrow `key` moves the focus to from a widget with links
/// `g`, if any.
pub open spec fn link(g: FocusGrid, key: KeyCode) -> Option<usize> {
    match key {
        KeyCode::Right => g.right,
        KeyCode::Left => g.left,
        KeyCode::Up => g.up,
        KeyCode::Down => g.down,
        _ => None,
    }
}

/// The drawings of `elements[0..n]`, the one at `focused` drawn focused.
pub open spec fn elements_drawing(elements: Seq<Widget>, n: int, focused: usize) -> Seq<Draw>
    decreases n,
{
    if n <= 0 {
        Seq::empty()
    } else {
        elements_drawing(elements, n - 1, focused) + elements[n - 1].drawing(
            (n - 1) == focused as int,
        )
    }
}

/// An immediate-mode interface over a region of the screen.
#[derive(Debug)]
pub struct Imgui {
    bounding_box: Region,
    actions: Vec<Action>,
    available_bounding_box: Region,
    widgets: Vec<Widget>,
    grids: Vec<FocusGrid>,
    focused: usize,
    next_event: Option<Event>,
}

impl Imgui {
    pub closed spec fn region(&self) -> Region {
        self.bounding_box
    }

    /// The space not yet taken by the widgets of this frame.
    pub closed spec fn available(&self) -> Region {
        self.available_bounding_box
    }

    /// The widgets of this frame, in the order of their declaration.
    pub closed spec fn elements(&self) -> Seq<Widget> {
        self.widgets@
    }

    /// The focus links of each widget of this frame.
    pub closed spec fn links(&self) -> Seq<FocusGrid> {
        self.grids@
    }

    /// The index of the focused widget.
    pub closed spec fn focused_index(&self) -> usize {
        self.focused
    }

    /// The event waiting to be processed.
    pub closed spec fn pending(&self) -> Option<Event> {
        self.next_event
    }

    /// The queued actions.
    pub closed spec fn queued(&self) -> Seq<Action> {
        self.actions@
    }

    pub open spec fn wf(&self) -> bool {
        let bb = self.region();
        let avail = self.available();
        &&& screen_bounded(bb)
        &&& avail.x == bb.x && avail.w == bb.w
        &&& bb.y <= avail.y && avail.y + avail.h <= bb.y + bb.h
        &&& self.elements().len() == self.links().len()
        &&& self.elements().len() <= MAX_WIDGETS
        &&& forall|i: int| 0 <= i < self.elements().len() ==> #[trigger] self.elements()[i].wf()
        &&& self.queued().len() <= MAX_ACTIONS
    }

    /// Creates an interface over `bounding_box`, with no widgets, the first
    /// widget focused, and no pending event.
    pub fn new(bounding_box: Region) -> (r: Self)
        requires
            screen_bounded(bounding_box),
        ensures
            r.wf(),
            r.region() == bounding_box,
            r.available() == bounding_box,
            r.elements().len() == 0,
            r.focused_index() == 0,
            r.pending() is None,
            r.queued().len() == 0,
    {
        Imgui {
            bounding_box,
            actions: Vec::new(),
            available_bounding_box: bounding_box,
            widgets: Vec::new(),
            grids: Vec::new(),
            focused: 0,
            next_event: None,
        }
    }

    /// Starts a frame: no widgets, all the space available; with
    /// `reset_focus` the first widget is focused.
    pub fn new_frame(&mut self, reset_focus: bool)
        requires
            old(self).wf(),
        ensures
            final(self).wf(),
            final(self).region() == old(self).region(),
            final(self).available() == old(self).region(),
            final(self).elements().len() == 0,
            final(self).focused_index() == (if reset_focus {
                0
            } else {
                old(self).focused_index()
            }),
            final(self).pending() == old(self).pending(),
            final(self).queued() == old(self).queued(),
    {
        self.widgets = Vec::new();
        self.grids = Vec::new();
        self.available_bounding_box = self.bounding_box;
        if reset_focus {
            self.focused = 0;
        }
    }

    /// The focused index after the pending event: an arrow key follows the
    /// focused widget's link in its direction, if there is one.
    pub open spec fn next_focus(&self) -> usize {
        match self.pending() {
            Some(Event::KeyDown(k)) => match link(self.links()[self.focused_index() as int], k) {
                Some(t) => t,
                None => self.focused_index(),
            },
            _ => self.focused_index(),
        }
    }

    /// Ends a frame: applies the focus change of the pending event, which
    /// is then dropped.
    pub fn end_frame(&mut self)
        requires
            old(self).wf(),
            old(self).pending() matches Some(Event::KeyDown(k)) && k.is_arrow() ==> old(self).focused_index() < old(self).elements().len(),
        ensures
            final(self).wf(),
            final(self).focused_index() == old(self).next_focus(),
            final(self).pending() is None,
            final(self).region() == old(self).region(),
            final(self).available() == old(self).available(),
            final(self).elements() == old(self).elements(),
            final(self).links() == old(self).links(),
            final(self).queued() == old(self).queued(),
    {
        if let Some(Event::KeyDown(k)) = self.next_event {
            let target = match k {
                KeyCode::Right => self.grids[self.focused].right,
                KeyCode::Left => self.grids[self.focused].left,
                KeyCode::Up => self.grids[self.focused].up,
                KeyCode::Down => self.grids[self.focused].down,
                _ => None,
            };
            if let Some(t) = target {
                self.focused = t;
            }
        }
        self.next_event = None;
    }

    /// Every widget of the frame can be drawn.
    pub open spec fn drawable(&self) -> bool {
        forall|i: int| 0 <= i < self.elements().len() ==> #[trigger] self.elements()[i].drawable()
    }

    /// Appends to `out` the commands that draw the frame: the region cleared
    /// to dark gray, then each widget in order.
    pub fn render(&self, out: &mut Vec<Draw>)
        requires
            self.wf(),
            self.drawable(),
        ensures
            final(out)@ == old(out)@ + seq![Draw::Clear { color: dark_gray() }] + elements_drawing(
                self.elements(),
                self.elements().len() as int,
                self.focused_index(),
            ),
    {
        let ghost start = out@;
        out.push(Draw::Clear { color: Color { r: 169, g: 169, b: 169 } });
        let mut index: usize = 0;
        while index < self.widgets.len()
            invariant
                self.wf(),
                self.drawable(),
                index <= self.elements().len(),
                out@ == start + seq![Draw::Clear { color: dark_gray() }] + elements_drawing(
                    self.elements(),
                    index as int,
                    self.focused_index(),
                ),
            decreases self.elements().len() - index,
        {
            self.widgets[index].render(index == self.focused, out);
            proof {
                assert(out@ =~= start + seq![Draw::Clear { color: dark_gray() }]
                    + elements_drawing(self.elements(), index + 1, self.focused_index()));
            }
            index = index + 1;
        }
    }

    /// Stores `e` to be processed with the next frame, or gives it back when
    /// another event is waiting.
    pub fn on_event(&mut self, e: Event) -> (r: Result<(), Event>)
        requires
            old(self).wf(),
        ensures
            final(self).wf(),
            old(self).pending() is None ==> r is Ok && final(self).pending() == Some(e),
            old(self).pending() is Some ==> r == Err::<(), Event>(e) && final(self).pending()
                == old(self).pending(),
            final(self).region() == old(self).region(),
            final(self).available() == old(self).available(),
            final(self).elements() == old(self).elements(),
            final(self).links() == old(self).links(),
            final(self).focused_index() == old(self).focused_index(),
            final(self).queued() == old(self).queued(),
    {
        match self.next_event {
            None => {
                self.next_event = Some(e);
                Ok(())
            },
            Some(_) => Err(e),
        }
    }

    /// Links two widgets' focus: down from `up` goes to `down`, up from
    /// `down` goes to `up`.
    pub fn focus_up_down(&mut self, up: usize, down: usize)
        requires
            old(self).wf(),
            up < old(self).elements().len(),
            down < old(self).elements().len(),
        ensures
            final(self).wf(),
            ({
                let g = old(self).links().update(
                    up as int,
                    FocusGrid { down: Some(down), ..old(self).links()[up as int] },
                );
                final(self).links() == g.update(
                    down as int,
                    FocusGrid { up: Some(up), ..g[down as int] },
                )
            }),
            final(self).region() == old(self).region(),
            final(self).available() == old(self).available(),
            final(self).elements() == old(self).elements(),
            final(self).focused_index() == old(self).focused_index(),
            final(self).pending() == old(self).pending(),
            final(self).queued() == old(self).queued(),
    {
        let mut g = self.grids[up];
        g.down = Some(down);
        self.grids.set(up, g);
        let mut h = self.grids[down];
        h.up = Some(up);
        self.grids.set(down, h);
    }

    /// Links two widgets' focus: right from `left` goes to `right`, left
    /// from `right` goes to `left`.
    pub fn focus_left_right(&mut self, left: usize, right: usize)
        requires
            old(self).wf(),
            left < old(self).elements().len(),
            right < old(self).elements().len(),
        ensures
            final(self).wf(),
            ({
                let g = old(self).links().update(
                    left as int,
                    FocusGrid { right: Some(right), ..old(self).links()[left as int] },
                );
                final(self).links() == g.update(
                    right as int,
                    FocusGrid { left: Some(left), ..g[right as int] },
                )
            }),
            final(self).region() == old(self).region(),
            final(self).available() == old(self).available(),
            final(self).elements() == old(self).elements(),
            final(self).focused_index() == old(self).focused_index(),
            final(self).pending() == old(self).pending(),
            final(self).queued() == old(self).queued(),
    {
        let mut g = self.grids[left];
        g.right = Some(right);
        self.grids.set(left, g);
        let mut h = self.grids[right];
        h.left = Some(left);
        self.grids.set(right, h);
    }

    /// Queues `action`, or gives it back when the queue is full.
    pub fn add_action(&mut self, action: Action) -> (r: Result<(), Action>)
        requires
            old(self).wf(),
        ensures
            final(self).wf(),
            old(self).queued().len() < MAX_ACTIONS ==> r is Ok
                && final(self).queued() == old(self).queued().push(action),
            old(self).queued().len() >= MAX_ACTIONS ==> r == Err::<(), Action>(action)
                && final(self).queued() == old(self).queued(),
            final(self).region() == old(self).region(),
            final(self).available() == old(self).available(),
            final(self).elements() == old(self).elements(),
            final(self).links() == old(self).links(),
            final(self).focused_index() == old(self).focused_index(),
            final(self).pending() == old(self).pending(),
    {
        if self.actions.len() < MAX_ACTIONS {
            self.actions.push(action);
            Ok(())
        } else {
            Err(action)
        }
    }
}

/// `v` brought into `[lo, hi]`.
pub open spec fn clamp(v: int, lo: int, hi: int) -> int {
    if v < lo {
        lo
    } else if v > hi {
        hi
    } else {
        v
    }
}

impl Imgui {
    /// Takes `height` pixels, at most all of them, from the top or the
    /// bottom of the available space and returns them; the centre cannot be
    /// taken from.
    fn take_height(&mut self, align: VerticalAlignment, height: u32) -> (r: Result<Region, ()>)
        requires
            old(self).wf(),
            align == VerticalAlignment::Bottom ==> old(self).available().w > 0 && old(
                self,
            ).available().h > 0,
        ensures
            final(self).wf(),
            align == VerticalAlignment::Center ==> r is Err && final(self).available() == old(
                self,
            ).available(),
            align != VerticalAlignment::Center ==> r == Ok::<Region, ()>(
                taken(old(self).available(), align, height as nat).0,
            ) && final(self).available() == taken(old(self).available(), align, height as nat).1,
            final(self).region() == old(self).region(),
            final(self).elements() == old(self).elements(),
            final(self).links() == old(self).links(),
            final(self).focused_index() == old(self).focused_index(),
            final(self).pending() == old(self).pending(),
            final(self).queued() == old(self).queued(),
    {
        let avail = self.available_bounding_box;
        let h = if height > avail.h {
            avail.h
        } else {
            height
        };
        match align {
            VerticalAlignment::Bottom => {
                let bb = Region {
                    x: avail.x,
                    y: avail.y + avail.h as i32 - 1 - h as i32,
                    w: avail.w,
                    h,
                };
                self.available_bounding_box.h = avail.h - h;
                Ok(bb)
            },
            VerticalAlignment::Center => Err(()),
            VerticalAlignment::Top => {
                let bb = Region { x: avail.x, y: avail.y, w: avail.w, h };
                self.available_bounding_box.h = avail.h - h;
                self.available_bounding_box.y = avail.y + h as i32;
                Ok(bb)
            },
        }
    }

    /// Takes `height` pixels and their margins from the available space, and
    /// returns them without the margins.
    fn take_height_with_margins(&mut self, align: VerticalAlignment, height: u32) -> (r: Result<
        Region,
        (),
    >)
        requires
            old(self).wf(),
            height <= SCREEN_LIMIT,
            old(self).available().w >= 2 * MARGIN,
            old(self).available().h >= 2 * MARGIN,
        ensures
            final(self).wf(),
            align == VerticalAlignment::Center ==> r is Err && final(self).available() == old(
                self,
            ).available(),
            align != VerticalAlignment::Center ==> ({
                let t = taken(old(self).available(), align, (height + 2 * MARGIN) as nat);
                &&& r == Ok::<Region, ()>(
                    Region {
                        x: (t.0.x + MARGIN) as i32,
                        y: (t.0.y + MARGIN) as i32,
                        w: (t.0.w - 2 * MARGIN) as u32,
                        h: (t.0.h - 2 * MARGIN) as u32,
                    },
                )
                &&& final(self).available() == t.1
            }),
            final(self).region() == old(self).region(),
            final(self).elements() == old(self).elements(),
            final(self).links() == old(self).links(),
            final(self).focused_index() == old(self).focused_index(),
            final(self).pending() == old(self).pending(),
            final(self).queued() == old(self).queued(),
    {
        match self.take_height(align, height + MARGIN * 2) {
            Err(()) => Err(()),
            Ok(bb) => Ok(
                Region {
                    x: bb.x + MARGIN as i32,
                    y: bb.y + MARGIN as i32,
                    w: bb.w - MARGIN * 2,
                    h: bb.h - MARGIN * 2,
                },
            ),
        }
    }

    /// Offers the pending event to the last widget when it is the focused
    /// one; what the widget hands back stays pending.
    fn do_event_for_last(&mut self)
        requires
            old(self).wf(),
            old(self).elements().len() > 0,
        ensures
            final(self).wf(),
            ({
                let last = old(self).elements().len() - 1;
                if last == old(self).focused_index() && old(self).pending() is Some {
                    let e = old(self).pending().unwrap();
                    &&& final(self).elements().subrange(0, last) == old(self).elements().subrange(0, last)
                    &&& final(self).elements().len() == old(self).elements().len()
                    &&& match old(self).elements()[last] {
                        Widget::Button(_) => final(self).pending() == Some(e)
                            && final(self).elements()[last] == old(self).elements()[last],
                        Widget::Slider(s) => final(self).pending() == s.stepped(e).1
                            && final(self).elements()[last] == Widget::Slider(
                            Slider { value: s.stepped(e).0 as i32, ..s },
                        ),
                    }
                } else {
                    &&& final(self).elements() == old(self).elements()
                    &&& final(self).pending() == old(self).pending()
                }
            }),
            final(self).region() == old(self).region(),
            final(self).available() == old(self).available(),
            final(self).links() == old(self).links(),
            final(self).focused_index() == old(self).focused_index(),
            final(self).queued() == old(self).queued(),
    {
        let last = self.widgets.len() - 1;
        if last != self.focused {
            return;
        }
        match self.next_event {
            Some(e) => {
                let rest = self.widgets[last].on_event(e);
                self.next_event = rest;
                proof {
                    assert(self.elements().subrange(0, last as int) =~= old(self).elements().subrange(0, last as int));
                }
            },
            None => {},
        }
    }
}

/// Focus links to nothing.
pub open spec fn no_links() -> FocusGrid {
    FocusGrid { right: None, left: None, down: None, up: None }
}

impl Imgui {
    /// Adds a button labelled `label` (one line per `'\n'`-separated part),
    /// centred horizontally, at the top or the bottom of the available
    /// space, and returns its index. Its height
    /// and margins are taken from the available space.
    pub fn button(&mut self, label: &str, align: VerticalAlignment) -> (r: usize)
        requires
            old(self).wf(),
            align != VerticalAlignment::Center,
            old(self).elements().len() < MAX_WIDGETS,
            label@.len() <= LABEL_LIMIT,
            align == VerticalAlignment::Bottom ==> old(self).available().w > 0 && old(
                self,
            ).available().h > 0,
        ensures
            final(self).wf(),
            r == old(self).elements().len(),
            final(self).elements().len() == r + 1,
            final(self).elements().subrange(0, r as int) == old(self).elements(),
            ({
                let (tw, th) = text_extent(label@);
                &&& final(self).elements()[r as int] matches Widget::Button(b) && b.bounding_box
                    == button_region(old(self).available(), tw, th, align) && b.text@ == label@
                &&& final(self).available() == taken(
                    old(self).available(),
                    align,
                    (th + 2 * MARGIN + 2 * PADDING) as nat,
                ).1
            }),
            final(self).links() == old(self).links().push(no_links()),
            final(self).pending() == old(self).pending(),
            final(self).region() == old(self).region(),
            final(self).focused_index() == old(self).focused_index(),
            final(self).queued() == old(self).queued(),
    {
        let (tw, th) = label_size(label);
        let ext_w = tw + MARGIN * 2 + PADDING * 2;
        let ext_h = th + MARGIN * 2 + PADDING * 2;
        let avail = self.available_bounding_box;
        let dx = avail.w as i64 - ext_w as i64;
        let half = if dx >= 0 {
            dx / 2
        } else {
            -((-dx) / 2)
        };
        let top = match align {
            VerticalAlignment::Bottom => avail.y as i64 + avail.h as i64 - ext_h as i64,
            _ => avail.y as i64,
        };
        let region = Region {
            x: (avail.x as i64 + half) as i32,
            y: (top + MARGIN as i64) as i32,
            w: tw + PADDING * 2,
            h: th + PADDING * 2,
        };
        let _ = self.take_height(align, ext_h);
        let n = self.widgets.len();
        self.widgets.push(Widget::Button(Button { bounding_box: region, text: String::from_str(label) }));
        self.grids.push(FocusGrid { right: None, left: None, down: None, up: None });
        let ghost added = *self;
        proof {
            assert forall|i: int| 0 <= i < self.elements().len() implies #[trigger] self.elements()[i].wf() by {
                if i < n {
                    assert(self.elements()[i] == old(self).elements()[i]);
                }
            }
        }
        self.do_event_for_last();
        proof {
            assert forall|i: int| 0 <= i < self.elements().len() implies self.elements()[i] == added.elements()[i] by {
                if i < n && n == self.focused_index() && added.pending() is Some {
                    assert(self.elements().subrange(0, n as int)[i] == added.elements().subrange(0, n as int)[i]);
                }
            }
            assert(self.elements() =~= added.elements());
            assert(self.elements().subrange(0, n as int) =~= old(self).elements());
        }
        n
    }

    /// Adds a slider for `value` between `min` and `max` (in either order)
    /// at the top or the bottom of the available space, and returns its
    /// index. The value is first brought into the range; when the slider is
    /// focused, the pending event may step it, and `value` receives the
    /// result.
    pub fn slider(&mut self, value: &mut i32, min: i32, max: i32, align: VerticalAlignment) -> (r: usize)
        requires
            old(self).wf(),
            align != VerticalAlignment::Center,
            old(self).elements().len() < MAX_WIDGETS,
            old(self).available().w >= 2 * MARGIN,
            old(self).available().h >= 2 * MARGIN,
        ensures
            final(self).wf(),
            r == old(self).elements().len(),
            final(self).elements().len() == r + 1,
            final(self).elements().subrange(0, r as int) == old(self).elements(),
            ({
                let lo = if min < max { min } else { max };
                let hi = if min < max { max } else { min };
                let start = Slider {
                    bounding_box: slider_region(old(self).available(), align),
                    value: clamp(*old(value) as int, lo as int, hi as int) as i32,
                    min: lo,
                    max: hi,
                };
                let (stepped, rest) = if r == old(self).focused_index() && old(self).pending() is Some {
                    start.stepped(old(self).pending().unwrap())
                } else {
                    (start.value as int, old(self).pending())
                };
                &&& *final(value) == stepped
                &&& final(self).pending() == rest
                &&& final(self).elements()[r as int] == Widget::Slider(Slider { value: stepped as i32, ..start })
            }),
            final(self).available() == taken(
                old(self).available(),
                align,
                (SLIDER_HEIGHT + 4 * MARGIN) as nat,
            ).1,
            final(self).links() == old(self).links().push(no_links()),
            final(self).region() == old(self).region(),
            final(self).focused_index() == old(self).focused_index(),
            final(self).queued() == old(self).queued(),
    {
        let bounding_box = match self.take_height_with_margins(align, SLIDER_HEIGHT + MARGIN * 2) {
            Ok(bb) => bb,
            Err(()) => self.available_bounding_box,
        };
        let (lo, hi) = if min < max {
            (min, max)
        } else {
            (max, min)
        };
        *value = if *value < lo {
            lo
        } else if *value > hi {
            hi
        } else {
            *value
        };
        let n = self.widgets.len();
        self.widgets.push(Widget::Slider(Slider { bounding_box, value: *value, min: lo, max: hi }));
        self.grids.push(FocusGrid { right: None, left: None, down: None, up: None });
        proof {
            assert forall|i: int| 0 <= i < self.elements().len() implies #[trigger] self.elements()[i].wf() by {
                if i < n {
                    assert(self.elements()[i] == old(self).elements()[i]);
                }
            }
        }
        let ghost added = *self;
        self.do_event_for_last();
        if let Widget::Slider(s) = &self.widgets[n] {
            *value = s.value;
        }
        proof {
            assert(self.elements().subrange(0, n as int) =~= added.elements().subrange(0, n as int));
            assert(added.elements().subrange(0, n as int) =~= old(self).elements());
        }
        n
    }
}

} // verus!
