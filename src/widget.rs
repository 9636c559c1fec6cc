//! The contract that every node of a widget tree implements.

use crate::calculator::Event;
use crate::geometry::Region;
use crate::theme::{Draw, Theme};
use vstd::prelude::*;

verus! {

/// The edge from which focus arrives at a widget.
///
/// Moving focus from the right of the screen to the left means that it
/// arrives from `Right`.
#[derive(Debug, Clone, Copy, PartialEq, Eq, Structural)]
pub enum FocusFrom {
    Left,
    Right,
    Up,
    Down,
}

/// A function run with the shared context when a widget is activated.
#[derive(Debug)]
pub struct Callback<F>(pub F);

impl<F> Callback<F> {
    /// The function accepts every context.
    pub open spec fn callable<T>(&self) -> bool where F: Fn(&mut T) {
        forall|c: &mut T| call_requires(self.0, (c,))
    }

    /// Runs the function on `context`.
    pub fn call<T>(&self, context: &mut T) where F: Fn(&mut T)
        requires
            self.callable::<T>(),
        ensures
            exists|c: &mut T|
                *c == *old(context) && *final(c) == *final(context) && call_ensures(
                    self.0,
                    (c,),
                    (),
                ),
    {
        let f = &self.0;
        f(context);
    }
}

/// A node of the widget tree.
///
/// Each widget has a region of the screen, a focus state, and a way of
/// drawing itself. Events are dispatched to a widget with a context that is
/// shared by the whole tree; a widget either consumes an event or hands it
/// back unchanged for its parent to interpret.
pub trait Widget: Sized {
    /// The value shared by the whole tree while an event is dispatched.
    type Context;

    /// The widget's internal invariant.
    spec fn wf(&self) -> bool;

    /// The region of the screen that the widget occupies.
    spec fn region(&self) -> Region;

    /// `None` if the widget cannot be focused, `Some(true)` if it holds the
    /// focus, `Some(false)` if it does not hold it.
    spec fn focus(&self) -> Option<bool>;

    /// Taking the focus succeeds now: see [`Widget::set_focus`].
    spec fn focusable(&self) -> bool;

    /// Dispatching `e` with `context` hands the event back unused.
    spec fn passes(&self, e: Event, context: Self::Context) -> bool;

    /// The drawing commands that render the widget with `theme`.
    spec fn drawing(&self, theme: Theme) -> Seq<Draw>;

    /// Appends to `out` the commands that draw the widget.
    fn render(&self, theme: &Theme, out: &mut Vec<Draw>)
        requires
            self.wf(),
        ensures
            final(out)@ == old(out)@ + self.drawing(*theme),
    ;

    /// Dispatches `e` to the widget, which may pass it on to its children.
    ///
    /// Returns `None` when the event has been used, and the event itself when
    /// it has not.
    fn on_event(&mut self, e: Event, context: &mut Self::Context) -> (r: Option<Event>)
        requires
            old(self).wf(),
        ensures
            final(self).wf(),
            r == (if old(self).passes(e, *old(context)) {
                Some(e)
            } else {
                None
            }),
            final(self).region() == old(self).region(),
            old(self).focus() is None ==> final(self).focus() is None,
            old(self).focus() == Some(true) ==> final(self).focus() == Some(true),
    ;

    /// The region of the screen that the widget occupies.
    fn get_bounding_box(&self) -> (r: Region)
        requires
            self.wf(),
        ensures
            r == self.region(),
    ;

    /// Moves the widget to `bounding_box`; a container lays its children out
    /// again inside it.
    fn set_bounding_box(&mut self, bounding_box: Region)
        requires
            old(self).wf(),
            bounding_box.wf(),
        ensures
            final(self).wf(),
            final(self).region() == bounding_box,
            final(self).focus() == old(self).focus(),
            final(self).focusable() == old(self).focusable(),
    ;

    /// Whether taking the focus would succeed now: see [`Widget::focusable`].
    fn can_focus(&self) -> (r: bool)
        requires
            self.wf(),
        ensures
            r == self.focusable(),
    ;

    /// The focus state of the widget: see [`Widget::focus`].
    fn get_focus(&self) -> (r: Option<bool>)
        requires
            self.wf(),
        ensures
            r == self.focus(),
    ;

    /// With `None`, releases the focus, which succeeds exactly when the
    /// widget is focusable. With `Some(d)`, takes the focus, arriving from
    /// edge `d`, which succeeds exactly when the widget is focusable; on
    /// failure nothing changes.
    fn set_focus(&mut self, from_dir: Option<FocusFrom>) -> (r: Result<(), ()>)
        requires
            old(self).wf(),
        ensures
            final(self).wf(),
            final(self).region() == old(self).region(),
            final(self).focusable() == old(self).focusable(),
            old(self).focus() is None ==> final(self).focus() is None,
            from_dir is None ==> final(self).focus() != Some(true),
            from_dir is None ==> (r is Ok <==> old(self).focusable()),
            from_dir is Some && r is Ok ==> final(self).focus() == Some(true),
            from_dir is Some && r is Err ==> *final(self) == *old(self),
            from_dir is Some ==> (r is Ok <==> old(self).focusable()),
    ;
}

} // verus!
