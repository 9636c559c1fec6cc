//! Fixed-capacity storage for the children of a container.

use crate::widget::Widget;
use vstd::prelude::*;

verus! {

/// Uniform storage for [`Widget`]s: one widget type, in the order in which
/// they were added, up to a fixed capacity. To store several widget types,
/// store an enum of them.
pub trait WidgetCollection: Sized {
    type Item: Widget;

    /// The widgets, in the order in which they were added.
    spec fn items(&self) -> Seq<Self::Item>;

    /// The number of widgets that the collection can hold.
    spec fn capacity(&self) -> nat;

    /// Number of widgets in the collection.
    fn len(&self) -> (r: usize)
        ensures
            r == self.items().len(),
    ;

    /// Read-only access to the `n`-th widget.
    fn get(&self, n: usize) -> (r: Option<&Self::Item>)
        ensures
            match r {
                Some(w) => n < self.items().len() && *w == self.items()[n as int],
                None => n >= self.items().len(),
            },
    ;

    /// Mutable access to the `n`-th widget.
    fn get_mut(&mut self, n: usize) -> (r: Option<&mut Self::Item>)
        ensures
            final(self).capacity() == old(self).capacity(),
            match r {
                Some(w) => {
                    &&& n < old(self).items().len()
                    &&& *w == old(self).items()[n as int]
                    &&& final(self).items() == old(self).items().update(n as int, *final(w))
                },
                None => n >= old(self).items().len() && final(self).items() == old(self).items(),
            },
    ;

    /// Adds a widget at the end, or gives it back when the collection is
    /// full.
    fn add_widget(&mut self, widget: Self::Item) -> (r: Result<(), Self::Item>)
        ensures
            final(self).capacity() == old(self).capacity(),
            old(self).items().len() < old(self).capacity() ==> r is Ok && final(self).items()
                == old(self).items().push(widget),
            old(self).items().len() >= old(self).capacity() ==> r == Err::<(), Self::Item>(widget)
                && *final(self) == *old(self),
    ;
}

/// A collection of at most `N` widgets of type `W`.
#[derive(Debug)]
pub struct WidgetVec<W, const N: usize> {
    items: Vec<W>,
}

impl<W, const N: usize> WidgetVec<W, N> {
    pub closed spec fn spec_items(&self) -> Seq<W> {
        self.items@
    }

    /// An empty collection.
    pub fn new() -> (r: Self)
        ensures
            r.spec_items() == Seq::<W>::empty(),
    {
        WidgetVec { items: Vec::new() }
    }
}

impl<W: Widget, const N: usize> WidgetCollection for WidgetVec<W, N> {
    type Item = W;

    open spec fn items(&self) -> Seq<W> {
        self.spec_items()
    }

    open spec fn capacity(&self) -> nat {
        N as nat
    }

    fn len(&self) -> (r: usize) {
        self.items.len()
    }

    fn get(&self, n: usize) -> (r: Option<&W>) {
        if n < self.items.len() {
            Some(&self.items[n])
        } else {
            None
        }
    }

    fn get_mut(&mut self, n: usize) -> (r: Option<&mut W>) {
        if n < self.items.len() {
            Some(&mut self.items[n])
        } else {
            None
        }
    }

    fn add_widget(&mut self, widget: W) -> (r: Result<(), W>) {
        if self.items.len() < N {
            self.items.push(widget);
            Ok(())
        } else {
            Err(widget)
        }
    }
}

} // verus!
