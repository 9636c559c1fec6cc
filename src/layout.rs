//! A container that splits its region in two along one axis.

use crate::calculator::{Event, KeyCode};
use crate::geometry::{Region, SplitDirection, SPLIT_SCALE};
use crate::theme::{Draw, Theme};
use crate::widget::{FocusFrom, Widget};
use vstd::prelude::*;

verus! {

/// One of the two sides of a [`SplitLayout`].
#[derive(Debug, Clone, Copy, PartialEq, Eq, Structural)]
pub enum Side {
    First,
    Second,
}

impl Side {
    pub open spec fn spec_other(self) -> Side {
        match self {
            Side::First => Side::Second,
            Side::Second => Side::First,
        }
    }

    /// The opposite side.
    pub fn other(self) -> (r: Side)
        ensures
            r == self.spec_other(),
    {
        match self {
            Side::First => Side::Second,
            Side::Second => Side::First,
        }
    }
}

/// The side and entry edge that a key moves the focus to, given the split's
/// axis and the side that holds the focus now.
///
/// Only a key along the axis that points across the split from the focused
/// side, or any key along the axis when no side is focused, moves the focus.
pub open spec fn spec_focus_move(key: KeyCode, dir: SplitDirection, focused: Option<Side>) -> Option<
    (Side, FocusFrom),
> {
    match (key, dir) {
        (KeyCode::Left, SplitDirection::Horizontal) => if focused != Some(Side::First) {
            Some((Side::First, FocusFrom::Right))
        } else {
            None
        },
        (KeyCode::Right, SplitDirection::Horizontal) => if focused != Some(Side::Second) {
            Some((Side::Second, FocusFrom::Left))
        } else {
            None
        },
        (KeyCode::Up, SplitDirection::Vertical) => if focused != Some(Side::First) {
            Some((Side::First, FocusFrom::Down))
        } else {
            None
        },
        (KeyCode::Down, SplitDirection::Vertical) => if focused != Some(Side::Second) {
            Some((Side::Second, FocusFrom::Up))
        } else {
            None
        },
        _ => None,
    }
}

/// Computes [`spec_focus_move`].
pub fn focus_move(key: KeyCode, dir: SplitDirection, focused: Option<Side>) -> (r: Option<
    (Side, FocusFrom),
>)
    ensures
        r == spec_focus_move(key, dir, focused),
{
    let not_first = match focused {
        Some(Side::First) => false,
        _ => true,
    };
    let not_second = match focused {
        Some(Side::Second) => false,
        _ => true,
    };
    match (key, dir) {
        (KeyCode::Left, SplitDirection::Horizontal) => if not_first {
            Some((Side::First, FocusFrom::Right))
        } else {
            None
        },
        (KeyCode::Right, SplitDirection::Horizontal) => if not_second {
            Some((Side::Second, FocusFrom::Left))
        } else {
            None
        },
        (KeyCode::Up, SplitDirection::Vertical) => if not_first {
            Some((Side::First, FocusFrom::Down))
        } else {
            None
        },
        (KeyCode::Down, SplitDirection::Vertical) => if not_second {
            Some((Side::Second, FocusFrom::Up))
        } else {
            None
        },
        _ => None,
    }
}

/// The side that takes the focus first when a split along `dir` with no
/// focused side is entered from edge `from`: the side nearest that edge.
pub open spec fn spec_entry_side(dir: SplitDirection, from: FocusFrom) -> Side {
    match (dir, from) {
        (SplitDirection::Horizontal, FocusFrom::Right) => Side::Second,
        (SplitDirection::Vertical, FocusFrom::Down) => Side::Second,
        _ => Side::First,
    }
}

/// Computes [`spec_entry_side`].
pub fn entry_side(dir: SplitDirection, from: FocusFrom) -> (r: Side)
    ensures
        r == spec_entry_side(dir, from),
{
    match (dir, from) {
        (SplitDirection::Horizontal, FocusFrom::Right) => Side::Second,
        (SplitDirection::Vertical, FocusFrom::Down) => Side::Second,
        _ => Side::First,
    }
}

/// Splits its region in two, horizontally or vertically, and holds at most
/// one widget on each side.
#[derive(Debug)]
pub struct SplitLayout<T, U> {
    direction: SplitDirection,
    first: Option<T>,
    second: Option<U>,
    first_margins: (u32, u32),
    second_margins: (u32, u32),
    focused: Option<Side>,
    bounding_box: Region,
    split_factor: u32,
}

/// The drawing of an optional widget: nothing when it is absent.
pub open spec fn opt_drawing<W: Widget>(w: Option<W>, theme: Theme) -> Seq<Draw> {
    match w {
        Some(c) => c.drawing(theme),
        None => Seq::empty(),
    }
}

/// The widget is present and holds the focus.
pub open spec fn holds_focus<W: Widget>(w: Option<W>) -> bool {
    w matches Some(c) && c.focus() == Some(true)
}

/// The widget is absent, or well formed and placed at `slot`.
pub open spec fn placed<W: Widget>(w: Option<W>, slot: Region) -> bool {
    w matches Some(c) ==> c.wf() && c.region() == slot
}

/// The focus state of an optional widget.
pub open spec fn opt_focus<W: Widget>(w: Option<W>) -> Option<bool> {
    match w {
        Some(c) => c.focus(),
        None => None,
    }
}

/// The widget is present and can take the focus.
pub open spec fn opt_focusable<W: Widget>(w: Option<W>) -> bool {
    w matches Some(c) && c.focusable()
}

impl<T, U> SplitLayout<T, U> {
    pub closed spec fn direction(&self) -> SplitDirection {
        self.direction
    }

    pub closed spec fn first_child(&self) -> Option<T> {
        self.first
    }

    pub closed spec fn second_child(&self) -> Option<U> {
        self.second
    }

    pub closed spec fn first_margins(&self) -> (u32, u32) {
        self.first_margins
    }

    pub closed spec fn second_margins(&self) -> (u32, u32) {
        self.second_margins
    }

    /// The side whose widget holds the focus, if any.
    pub closed spec fn focused_side(&self) -> Option<Side> {
        self.focused
    }

    pub closed spec fn spec_region(&self) -> Region {
        self.bounding_box
    }

    /// The split ratio, out of `SPLIT_SCALE`.
    pub closed spec fn ratio(&self) -> u32 {
        self.split_factor
    }

    /// The region given to the first widget.
    pub open spec fn first_slot(&self) -> Region {
        self.spec_region().first_part(self.direction(), self.ratio()).shrunk(
            self.first_margins().0,
            self.first_margins().1,
        )
    }

    /// The region given to the second widget.
    pub open spec fn second_slot(&self) -> Region {
        self.spec_region().second_part(self.direction(), self.ratio()).shrunk(
            self.second_margins().0,
            self.second_margins().1,
        )
    }
}

impl<T: Widget, U: Widget> SplitLayout<T, U> {
    /// `self` has the same region, split and margins as `old`, the same
    /// children present, and each child as focusable as before.
    pub open spec fn keeps_frame(&self, old: &Self) -> bool {
        &&& self.spec_region() == old.spec_region()
        &&& self.direction() == old.direction()
        &&& self.ratio() == old.ratio()
        &&& self.first_margins() == old.first_margins()
        &&& self.second_margins() == old.second_margins()
        &&& (self.first_child() is Some <==> old.first_child() is Some)
        &&& (self.second_child() is Some <==> old.second_child() is Some)
        &&& opt_focusable(self.first_child()) == opt_focusable(old.first_child())
        &&& opt_focusable(self.second_child()) == opt_focusable(old.second_child())
    }

    /// The focus structure: the focused side's widget holds the focus, and no
    /// other widget does.
    pub open spec fn focus_consistent(&self) -> bool {
        match self.focused_side() {
            Some(Side::First) => holds_focus(self.first_child()) && !holds_focus(
                self.second_child(),
            ),
            Some(Side::Second) => holds_focus(self.second_child()) && !holds_focus(
                self.first_child(),
            ),
            None => !holds_focus(self.first_child()) && !holds_focus(self.second_child()),
        }
    }

    /// The same region, split, margins and children present as `old`; a side
    /// that did not hold the focus is as focusable as before.
    pub open spec fn keeps_shape(&self, old: &Self) -> bool {
        &&& self.spec_region() == old.spec_region()
        &&& self.direction() == old.direction()
        &&& self.ratio() == old.ratio()
        &&& self.first_margins() == old.first_margins()
        &&& self.second_margins() == old.second_margins()
        &&& (self.first_child() is Some <==> old.first_child() is Some)
        &&& (self.second_child() is Some <==> old.second_child() is Some)
        &&& (old.focused_side() != Some(Side::First) ==> opt_focusable(self.first_child())
            == opt_focusable(old.first_child()))
        &&& (old.focused_side() != Some(Side::Second) ==> opt_focusable(self.second_child())
            == opt_focusable(old.second_child()))
    }

    /// As [`Self::keeps_frame`], but the region may differ.
    pub open spec fn keeps_frame_except_region(&self, old: &Self) -> bool {
        &&& self.direction() == old.direction()
        &&& self.ratio() == old.ratio()
        &&& self.first_margins() == old.first_margins()
        &&& self.second_margins() == old.second_margins()
        &&& (self.first_child() is Some <==> old.first_child() is Some)
        &&& (self.second_child() is Some <==> old.second_child() is Some)
        &&& opt_focusable(self.first_child()) == opt_focusable(old.first_child())
        &&& opt_focusable(self.second_child()) == opt_focusable(old.second_child())
    }

    /// The widget on `side` is present and can take the focus.
    pub open spec fn side_focusable(&self, side: Side) -> bool {
        match side {
            Side::First => opt_focusable(self.first_child()),
            Side::Second => opt_focusable(self.second_child()),
        }
    }

    /// The side that ends up focused when `side` is tried first and the other
    /// side second: `side` when it can take the focus, else the other.
    pub open spec fn landing(&self, side: Side) -> Side {
        if self.side_focusable(side) {
            side
        } else {
            side.spec_other()
        }
    }

    pub open spec fn layout_wf(&self) -> bool {
        &&& self.spec_region().wf()
        &&& self.ratio() <= SPLIT_SCALE
        &&& placed(self.first_child(), self.first_slot())
        &&& placed(self.second_child(), self.second_slot())
        &&& self.focus_consistent()
    }

    /// Gives the focus to the widget on `side`, arriving from `from_dir`, and
    /// on success releases the other side.
    fn try_focus_side(&mut self, side: Side, from_dir: FocusFrom) -> (r: Result<(), ()>)
        requires
            old(self).layout_wf(),
        ensures
            final(self).layout_wf(),
            final(self).keeps_frame(old(self)),
            r is Ok <==> old(self).side_focusable(side),
            r is Ok ==> final(self).focused_side() == Some(side),
            r is Err ==> *final(self) == *old(self),
    {
        match side {
            Side::First => {
                let ready = match &self.first {
                    Some(w) => w.can_focus(),
                    None => false,
                };
                if !ready {
                    return Err(());
                }
                match &mut self.first {
                    Some(w) => {
                        let _ = w.set_focus(Some(from_dir));
                    },
                    None => {},
                }
                self.focused = Some(Side::First);
                match &mut self.second {
                    Some(w) => {
                        let _ = w.set_focus(None);
                    },
                    None => {},
                }
                Ok(())
            },
            Side::Second => {
                let ready = match &self.second {
                    Some(w) => w.can_focus(),
                    None => false,
                };
                if !ready {
                    return Err(());
                }
                match &mut self.second {
                    Some(w) => {
                        let _ = w.set_focus(Some(from_dir));
                    },
                    None => {},
                }
                self.focused = Some(Side::Second);
                match &mut self.first {
                    Some(w) => {
                        let _ = w.set_focus(None);
                    },
                    None => {},
                }
                Ok(())
            },
        }
    }

    /// Gives the focus to the widget on `side`; if it refuses and
    /// `allow_fallback` holds, tries the other side once. On failure nothing
    /// changes.
    fn focus_child(&mut self, side: Side, from_dir: FocusFrom, allow_fallback: bool) -> (r: Result<
        (),
        (),
    >)
        requires
            old(self).layout_wf(),
        ensures
            final(self).layout_wf(),
            final(self).keeps_frame(old(self)),
            r is Ok <==> (old(self).side_focusable(side) || (allow_fallback
                && old(self).side_focusable(side.spec_other()))),
            r is Ok ==> final(self).focused_side() == Some(old(self).landing(side)),
            r is Err ==> *final(self) == *old(self),
    {
        match self.try_focus_side(side, from_dir) {
            Ok(()) => Ok(()),
            Err(()) => {
                if allow_fallback {
                    self.try_focus_side(side.other(), from_dir)
                } else {
                    Err(())
                }
            },
        }
    }
}

impl<S, T: Widget<Context = S>, U: Widget<Context = S>> SplitLayout<T, U> {
    /// The focused side's widget hands `e` back; with no focused side no
    /// widget receives it.
    pub open spec fn child_passes(&self, e: Event, context: S) -> bool {
        match self.focused_side() {
            Some(Side::First) => match self.first_child() {
                Some(c) => c.passes(e, context),
                None => true,
            },
            Some(Side::Second) => match self.second_child() {
                Some(c) => c.passes(e, context),
                None => true,
            },
            None => true,
        }
    }
}

impl<T: Widget, U: Widget> SplitLayout<T, U> {
    /// The side that key event `e` moves the focus towards, when it crosses
    /// the split from the focused side (or from outside).
    pub open spec fn move_target(&self, e: Event) -> Option<Side> {
        match e {
            Event::KeyDown(k) => match spec_focus_move(k, self.direction(), self.focused_side()) {
                Some((t, _)) => Some(t),
                None => None,
            },
            _ => None,
        }
    }

    /// Moving the focus towards `t` succeeds: `t` can take it, or, with no
    /// focused side, the other side can as the fallback.
    pub open spec fn can_move_to(&self, t: Side) -> bool {
        self.side_focusable(t) || (self.focused_side() is None && self.side_focusable(
            t.spec_other(),
        ))
    }

    /// The side tried first when the focus arrives from edge `d`: the focused
    /// side, or with none the side nearest that edge.
    pub open spec fn entry_for(&self, d: FocusFrom) -> Side {
        match self.focused_side() {
            Some(s) => s,
            None => spec_entry_side(self.direction(), d),
        }
    }
}

impl<S, T: Widget<Context = S>, U: Widget<Context = S>> Widget for SplitLayout<T, U> {
    type Context = S;

    open spec fn wf(&self) -> bool {
        self.layout_wf()
    }

    open spec fn region(&self) -> Region {
        self.spec_region()
    }

    open spec fn focus(&self) -> Option<bool> {
        Some(self.focused_side() is Some)
    }

    open spec fn focusable(&self) -> bool {
        opt_focusable(self.first_child()) || opt_focusable(self.second_child())
    }

    /// The focused side's widget hands the event back and it does not move
    /// the focus across the split.
    open spec fn passes(&self, e: Event, context: S) -> bool {
        self.child_passes(e, context) && !(self.move_target(e) matches Some(t) && self.can_move_to(
            t,
        ))
    }

    /// The focused side is drawn last, on top of the other.
    open spec fn drawing(&self, theme: Theme) -> Seq<Draw> {
        match self.focused_side() {
            Some(Side::First) => opt_drawing(self.second_child(), theme) + opt_drawing(
                self.first_child(),
                theme,
            ),
            _ => opt_drawing(self.first_child(), theme) + opt_drawing(self.second_child(), theme),
        }
    }

    fn render(&self, theme: &Theme, out: &mut Vec<Draw>) {
        let ghost start = out@;
        match self.focused {
            Some(Side::First) => {
                if let Some(w) = &self.second {
                    w.render(theme, out);
                }
                if let Some(w) = &self.first {
                    w.render(theme, out);
                }
            },
            _ => {
                if let Some(w) = &self.first {
                    w.render(theme, out);
                }
                if let Some(w) = &self.second {
                    w.render(theme, out);
                }
            },
        }
        assert(out@ =~= start + self.drawing(*theme));
    }

    fn on_event(&mut self, e: Event, context: &mut S) -> (r: Option<Event>)
        ensures
            final(self).keeps_shape(old(self)),
            old(self).focused_side() is None ==> *final(context) == *old(context),
            old(self).focused_side() != Some(Side::First) && final(self).focused_side() == old(
                self).focused_side() ==> final(self).first_child() == old(self).first_child(),
            old(self).focused_side() != Some(Side::Second) && final(self).focused_side() == old(
                self).focused_side() ==> final(self).second_child() == old(self).second_child(),
            !old(self).child_passes(e, *old(context)) ==> final(self).focused_side() == old(self).focused_side(),
            old(self).child_passes(e, *old(context)) ==> final(self).focused_side() == match old(self).move_target(e) {
                Some(t) => if old(self).can_move_to(t) {
                    Some(old(self).landing(t))
                } else {
                    old(self).focused_side()
                },
                None => old(self).focused_side(),
            },
            old(self).focused_side() is None && old(self).move_target(e) is None ==> *final(self)
                == *old(self),
    {
        let remaining = match self.focused {
            Some(Side::First) => match &mut self.first {
                Some(w) => w.on_event(e, context),
                None => Some(e),
            },
            Some(Side::Second) => match &mut self.second {
                Some(w) => w.on_event(e, context),
                None => Some(e),
            },
            None => Some(e),
        };
        match remaining {
            None => None,
            Some(Event::KeyDown(key)) => {
                match focus_move(key, self.direction, self.focused) {
                    Some((side, from_dir)) => {
                        let entering = self.focused.is_none();
                        match self.focus_child(side, from_dir, entering) {
                            Ok(()) => None,
                            Err(()) => Some(Event::KeyDown(key)),
                        }
                    },
                    None => Some(Event::KeyDown(key)),
                }
            },
            Some(ev) => Some(ev),
        }
    }

    fn get_bounding_box(&self) -> (r: Region) {
        self.bounding_box
    }

    fn set_bounding_box(&mut self, bounding_box: Region)
        ensures
            final(self).keeps_frame_except_region(old(self)),
            final(self).focused_side() == old(self).focused_side(),
    {
        self.bounding_box = bounding_box;
        let (a, b) = bounding_box.split(self.direction, self.split_factor);
        let first_slot = a.shrink(self.first_margins.0, self.first_margins.1);
        let second_slot = b.shrink(self.second_margins.0, self.second_margins.1);
        if let Some(w) = &mut self.first {
            w.set_bounding_box(first_slot);
        }
        if let Some(w) = &mut self.second {
            w.set_bounding_box(second_slot);
        }
    }

    fn can_focus(&self) -> (r: bool) {
        let first = match &self.first {
            Some(w) => w.can_focus(),
            None => false,
        };
        let second = match &self.second {
            Some(w) => w.can_focus(),
            None => false,
        };
        first || second
    }

    fn get_focus(&self) -> (r: Option<bool>) {
        Some(self.focused.is_some())
    }

    fn set_focus(&mut self, from_dir: Option<FocusFrom>) -> (r: Result<(), ()>)
        ensures
            final(self).keeps_frame(old(self)),
            from_dir is None ==> final(self).focused_side() is None,
            from_dir matches Some(d) ==> (r is Ok ==> final(self).focused_side() == Some(
                old(self).landing(old(self).entry_for(d)),
            )),
    {
        match from_dir {
            None => {
                self.focused = None;
                let mut released = false;
                if let Some(w) = &mut self.first {
                    if w.set_focus(None).is_ok() {
                        released = true;
                    }
                }
                if let Some(w) = &mut self.second {
                    if w.set_focus(None).is_ok() {
                        released = true;
                    }
                }
                if released {
                    Ok(())
                } else {
                    Err(())
                }
            },
            Some(d) => {
                let side = match self.focused {
                    Some(side) => side,
                    None => entry_side(self.direction, d),
                };
                self.focus_child(side, d, true)
            },
        }
    }
}

impl<S, T: Widget<Context = S>, U: Widget<Context = S>> SplitLayout<T, U> {
    /// Creates an empty layout over `bounding_box`.
    ///
    /// A small split factor gives the first widget a small part, a large one
    /// gives it a large part; the factor is out of `SPLIT_SCALE` and is
    /// clamped to it.
    pub fn new(bounding_box: Region, split_direction: SplitDirection, split_factor: u32) -> (r: Self)
        requires
            bounding_box.wf(),
        ensures
            r.wf(),
            r.spec_region() == bounding_box,
            r.direction() == split_direction,
            r.ratio() == (if split_factor <= SPLIT_SCALE {
                split_factor
            } else {
                SPLIT_SCALE
            }),
            r.first_child() is None,
            r.second_child() is None,
            r.focused_side() is None,
            r.first_margins() == (0u32, 0u32),
            r.second_margins() == (0u32, 0u32),
    {
        SplitLayout {
            bounding_box,
            direction: split_direction,
            first: None,
            second: None,
            first_margins: (0, 0),
            second_margins: (0, 0),
            focused: None,
            split_factor: if split_factor <= SPLIT_SCALE {
                split_factor
            } else {
                SPLIT_SCALE
            },
        }
    }

    /// Attaches the first widget, replacing any widget on that side.
    ///
    /// The widget is placed at the first part of the split, shrunk by
    /// `margins` (horizontal, vertical). It does not hold the focus once
    /// attached.
    pub fn attach_first(&mut self, widget: T, margins: (u32, u32))
        requires
            old(self).wf(),
            widget.wf(),
        ensures
            final(self).wf(),
            final(self).spec_region() == old(self).spec_region(),
            final(self).direction() == old(self).direction(),
            final(self).ratio() == old(self).ratio(),
            final(self).first_margins() == margins,
            final(self).second_margins() == old(self).second_margins(),
            final(self).second_child() == old(self).second_child(),
            final(self).first_child() matches Some(c) && c.region() == final(self).first_slot()
                && c.focusable() == widget.focusable() && c.focus() != Some(true),
            final(self).focused_side() == (if old(self).focused_side() == Some(Side::Second) {
                Some(Side::Second)
            } else {
                None
            }),
    {
        let mut widget = widget;
        if let Some(true) = widget.get_focus() {
            let _ = widget.set_focus(None);
        }
        self.first_margins = margins;
        let (a, _) = self.bounding_box.split(self.direction, self.split_factor);
        widget.set_bounding_box(a.shrink(margins.0, margins.1));
        if let Some(Side::First) = self.focused {
            self.focused = None;
        }
        self.first = Some(widget);
    }

    /// Attaches the second widget, replacing any widget on that side.
    ///
    /// The widget is placed at the second part of the split, shrunk by
    /// `margins` (horizontal, vertical). It does not hold the focus once
    /// attached.
    pub fn attach_second(&mut self, widget: U, margins: (u32, u32))
        requires
            old(self).wf(),
            widget.wf(),
        ensures
            final(self).wf(),
            final(self).spec_region() == old(self).spec_region(),
            final(self).direction() == old(self).direction(),
            final(self).ratio() == old(self).ratio(),
            final(self).second_margins() == margins,
            final(self).first_margins() == old(self).first_margins(),
            final(self).first_child() == old(self).first_child(),
            final(self).second_child() matches Some(c) && c.region() == final(self).second_slot()
                && c.focusable() == widget.focusable() && c.focus() != Some(true),
            final(self).focused_side() == (if old(self).focused_side() == Some(Side::First) {
                Some(Side::First)
            } else {
                None
            }),
    {
        let mut widget = widget;
        if let Some(true) = widget.get_focus() {
            let _ = widget.set_focus(None);
        }
        self.second_margins = margins;
        let (_, b) = self.bounding_box.split(self.direction, self.split_factor);
        widget.set_bounding_box(b.shrink(margins.0, margins.1));
        if let Some(Side::Second) = self.focused {
            self.focused = None;
        }
        self.second = Some(widget);
    }
}

impl<T, U> SplitLayout<T, U> {
    /// The side whose widget holds the focus, if any.
    pub fn get_focused(&self) -> (r: Option<Side>)
        ensures
            r == self.focused_side(),
    {
        self.focused
    }

    /// Read access to the first widget.
    pub fn get_first(&self) -> (r: Option<&T>)
        ensures
            match r {
                Some(c) => self.first_child() == Some(*c),
                None => self.first_child() is None,
            },
    {
        self.first.as_ref()
    }

    /// Read access to the second widget.
    pub fn get_second(&self) -> (r: Option<&U>)
        ensures
            match r {
                Some(c) => self.second_child() == Some(*c),
                None => self.second_child() is None,
            },
    {
        self.second.as_ref()
    }

    /// Mutable access to the first widget.
    ///
    /// The layout stays well formed when the widget keeps its region and its
    /// focus state.
    pub fn get_first_mut(&mut self) -> (r: Option<&mut T>)
        ensures
            match r {
                Some(c) => {
                    &&& old(self).first_child() == Some(*c)
                    &&& final(self).first_child() == Some(*final(c))
                },
                None => {
                    &&& old(self).first_child() is None
                    &&& final(self).first_child() is None
                },
            },
            final(self).second_child() == old(self).second_child(),
            final(self).spec_region() == old(self).spec_region(),
            final(self).direction() == old(self).direction(),
            final(self).ratio() == old(self).ratio(),
            final(self).first_margins() == old(self).first_margins(),
            final(self).second_margins() == old(self).second_margins(),
            final(self).focused_side() == old(self).focused_side(),
    {
        self.first.as_mut()
    }

    /// Mutable access to the second widget.
    ///
    /// The layout stays well formed when the widget keeps its region and its
    /// focus state.
    pub fn get_second_mut(&mut self) -> (r: Option<&mut U>)
        ensures
            match r {
                Some(c) => {
                    &&& old(self).second_child() == Some(*c)
                    &&& final(self).second_child() == Some(*final(c))
                },
                None => {
                    &&& old(self).second_child() is None
                    &&& final(self).second_child() is None
                },
            },
            final(self).first_child() == old(self).first_child(),
            final(self).spec_region() == old(self).spec_region(),
            final(self).direction() == old(self).direction(),
            final(self).ratio() == old(self).ratio(),
            final(self).first_margins() == old(self).first_margins(),
            final(self).second_margins() == old(self).second_margins(),
            final(self).focused_side() == old(self).focused_side(),
    {
        self.second.as_mut()
    }
}

} // verus!
