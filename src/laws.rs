//! Properties that hold of every widget tree built with this library.

use crate::calculator::Event;
use crate::geometry::{lemma_disjoint_inside, lemma_inside_trans, lemma_parts, lemma_shrunk_inside};
use crate::grid::{cell_slot, first_stop, in_grid, lemma_span_inside, ray, Grid};
use crate::layout::SplitLayout;
use crate::storage::WidgetCollection;
use crate::theme::{Draw, Theme};
use crate::widget::Widget;
use vstd::prelude::*;

verus! {

/// The two sides of a split layout lie in the layout's region and share no
/// pixel, whatever the ratio and the margins; each attached widget occupies
/// its side.
pub proof fn split_sides_partition<S, T: Widget<Context = S>, U: Widget<Context = S>>(
    l: SplitLayout<T, U>,
)
    requires
        l.wf(),
    ensures
        l.first_slot().inside(l.region()),
        l.second_slot().inside(l.region()),
        l.first_slot().disjoint(l.second_slot()),
        l.first_child() matches Some(c) ==> c.region() == l.first_slot(),
        l.second_child() matches Some(c) ==> c.region() == l.second_slot(),
{
    let r = l.spec_region();
    let a = r.first_part(l.direction(), l.ratio());
    let b = r.second_part(l.direction(), l.ratio());
    lemma_parts(r, l.direction(), l.ratio());
    lemma_shrunk_inside(a, l.first_margins().0, l.first_margins().1);
    lemma_shrunk_inside(b, l.second_margins().0, l.second_margins().1);
    lemma_inside_trans(l.first_slot(), a, r);
    lemma_inside_trans(l.second_slot(), b, r);
    lemma_disjoint_inside(a, b, l.first_slot(), l.second_slot());
}

/// Every child of a grid lies in the grid's region.
pub proof fn grid_children_inside<const X: usize, const Y: usize, C: WidgetCollection>(
    g: Grid<X, Y, C>,
)
    requires
        g.wf(),
    ensures
        forall|i: int|
            0 <= i < g.kids().len() ==> #[trigger] g.kids()[i].region().inside(g.region()),
{
    assert forall|i: int| 0 <= i < g.kids().len() implies #[trigger] g.kids()[i].region().inside(
        g.region(),
    ) by {
        assert(g.kids()[i].region() == cell_slot(
            g.spec_region(),
            X as nat,
            Y as nat,
            g.placements()[i],
        ));
        lemma_span_inside(g.spec_region(), X as nat, Y as nat, g.placements()[i]);
    }
}

/// A grid selects at most one cell: none exactly when it has no children,
/// and otherwise an assigned cell of the matrix, whose child is the selected
/// one.
pub proof fn grid_selection_assigned<const X: usize, const Y: usize, C: WidgetCollection>(
    g: Grid<X, Y, C>,
)
    requires
        g.wf(),
    ensures
        g.selected_cell() is None <==> g.kids().len() == 0,
        g.selected_cell() is None ==> g.selected_index() is None,
        g.selected_cell() matches Some(c) ==> {
            &&& in_grid(X as int, Y as int, c.0 as int, c.1 as int)
            &&& g.owner(c.0 as int, c.1 as int) is Some
            &&& g.selected_index() == g.owner(c.0 as int, c.1 as int)
            &&& g.selected_index().unwrap() < g.kids().len()
        },
{
    if let Some(c) = g.selected_cell() {
        assert(in_grid(X as int, Y as int, c.0 as int, c.1 as int));
        let o = g.owner(c.0 as int, c.1 as int);
        assert(match o {
            Some(i) => i < g.kids().len(),
            None => true,
        });
    }
}

/// When an event moves a grid's selection, the new cell is assigned, lies
/// in the matrix, and lies straight on from the old cell in the direction
/// of the arrow key: the focus never lands on an unassigned cell and never
/// wraps around an edge.
pub proof fn grid_move_lands_in_line<const X: usize, const Y: usize, C: WidgetCollection>(
    old: Grid<X, Y, C>,
    new: Grid<X, Y, C>,
    e: Event,
    r: Option<Event>,
)
    requires
        old.wf(),
        new.keeps_layout(&old),
        new.moved(&old, e, r),
    ensures
        r is None,
        new.selected_cell() matches Some(c) && old.selected_cell() matches Some(from) && e matches Event::KeyDown(k) && {
            &&& in_grid(X as int, Y as int, c.0 as int, c.1 as int)
            &&& new.owner(c.0 as int, c.1 as int) is Some
            &&& new.owner(c.0 as int, c.1 as int) != old.owner(from.0 as int, from.1 as int)
            &&& exists|t: int| t >= 1 && ray(from, k, t) == (c.0 as int, c.1 as int)
        },
{
    if let (Event::KeyDown(k), Some(from), Some(c)) = (e, old.selected_cell(), new.selected_cell()) {
        assert(first_stop(old.cells(), X as int, Y as int, from, k, c));
    }
}

/// Rendering depends on the widget's state and the theme alone: two
/// renders of the same widget with the same theme append the same drawing
/// commands.
pub proof fn render_repeats<W: Widget>(
    w: W,
    theme: Theme,
    before1: Seq<Draw>,
    after1: Seq<Draw>,
    before2: Seq<Draw>,
    after2: Seq<Draw>,
)
    requires
        after1 == before1 + w.drawing(theme),
        after2 == before2 + w.drawing(theme),
    ensures
        after1.subrange(before1.len() as int, after1.len() as int) == after2.subrange(
            before2.len() as int,
            after2.len() as int,
        ),
{
    assert(after1.subrange(before1.len() as int, after1.len() as int) =~= w.drawing(theme));
    assert(after2.subrange(before2.len() as int, after2.len() as int) =~= w.drawing(theme));
}

} // verus!
