//! A container that lays its children out on a matrix of cells and moves the
//! focus between them with the arrow keys.

use crate::calculator::{Event, KeyCode};
use crate::geometry::Region;
use crate::storage::WidgetCollection;
use crate::theme::{Draw, Theme};
use crate::widget::{FocusFrom, Widget};
use vstd::prelude::*;

verus! {

/// Where a child of a grid stands: its first cell, its span in cells, and
/// the padding around it in pixels.
#[derive(Debug, Clone, Copy, PartialEq, Eq, Structural)]
pub struct Placement {
    pub x: usize,
    pub y: usize,
    pub w: usize,
    pub h: usize,
    pub padding: u32,
}

/// The position of cell `(cx, cy)` in a row-major cell map `cols` wide.
pub open spec fn cell_index(cols: int, cx: int, cy: int) -> int {
    cy * cols + cx
}

/// The cell lies in a `cols` by `rows` matrix.
pub open spec fn in_grid(cols: int, rows: int, cx: int, cy: int) -> bool {
    0 <= cx < cols && 0 <= cy < rows
}

/// The cell lies in the span of `p`.
pub open spec fn in_span(p: Placement, cx: int, cy: int) -> bool {
    p.x <= cx < p.x + p.w && p.y <= cy < p.y + p.h
}

/// The span of `p` is not empty and fits a `cols` by `rows` matrix.
pub open spec fn placement_fits(p: Placement, cols: int, rows: int) -> bool {
    p.w >= 1 && p.h >= 1 && p.x + p.w <= cols && p.y + p.h <= rows
}

/// The cell `t` steps from `from` in the direction of arrow `key`.
pub open spec fn ray(from: (usize, usize), key: KeyCode, t: int) -> (int, int) {
    match key {
        KeyCode::Left => (from.0 - t, from.1 as int),
        KeyCode::Right => (from.0 + t, from.1 as int),
        KeyCode::Up => (from.0 as int, from.1 - t),
        _ => (from.0 as int, from.1 + t),
    }
}

/// The focus cannot stop at the cell: it is unassigned, or belongs to the
/// same child as `origin`.
pub open spec fn passable(cells: Seq<Option<usize>>, cols: int, c: (int, int), origin: Option<
    usize,
>) -> bool {
    let v = cells[cell_index(cols, c.0, c.1)];
    v is None || v == origin
}

/// Cell `c` is where a scan from `from` in the direction of arrow `key`
/// stops: the first cell along the way that is assigned to another child
/// than `from`.
pub open spec fn first_stop(
    cells: Seq<Option<usize>>,
    cols: int,
    rows: int,
    from: (usize, usize),
    key: KeyCode,
    c: (usize, usize),
) -> bool {
    let origin = cells[cell_index(cols, from.0 as int, from.1 as int)];
    &&& in_grid(cols, rows, c.0 as int, c.1 as int)
    &&& cells[cell_index(cols, c.0 as int, c.1 as int)] is Some
    &&& !passable(cells, cols, (c.0 as int, c.1 as int), origin)
    &&& exists|t: int|
        t >= 1 && ray(from, key, t) == (c.0 as int, c.1 as int) && forall|s: int|
            1 <= s < t ==> passable(cells, cols, #[trigger] ray(from, key, s), origin)
}

/// A scan from `from` in the direction of arrow `key` reaches the edge of
/// the matrix without meeting a cell assigned to another child.
pub open spec fn no_stop(
    cells: Seq<Option<usize>>,
    cols: int,
    rows: int,
    from: (usize, usize),
    key: KeyCode,
) -> bool {
    forall|t: int|
        t >= 1 && in_grid(cols, rows, ray(from, key, t).0, ray(from, key, t).1) ==> passable(
            cells,
            cols,
            #[trigger] ray(from, key, t),
            cells[cell_index(cols, from.0 as int, from.1 as int)],
        )
}

/// A scan that stops at a cell does not reach the edge.
pub proof fn lemma_stop_not_edge(
    cells: Seq<Option<usize>>,
    cols: int,
    rows: int,
    from: (usize, usize),
    key: KeyCode,
    c: (usize, usize),
)
    requires
        first_stop(cells, cols, rows, from, key, c),
    ensures
        !no_stop(cells, cols, rows, from, key),
{
    let t = choose|t: int|
        t >= 1 && ray(from, key, t) == (c.0 as int, c.1 as int) && forall|s: int|
            1 <= s < t ==> passable(
                cells,
                cols,
                #[trigger] ray(from, key, s),
                cells[cell_index(cols, from.0 as int, from.1 as int)],
            );
    assert(in_grid(cols, rows, ray(from, key, t).0, ray(from, key, t).1));
    assert(!passable(cells, cols, ray(from, key, t), cells[cell_index(cols, from.0 as int, from.1 as int)]));
}

/// The edge from which the focus arrives when it moves with arrow `key`.
pub open spec fn spec_arrival(key: KeyCode) -> FocusFrom {
    match key {
        KeyCode::Left => FocusFrom::Right,
        KeyCode::Right => FocusFrom::Left,
        KeyCode::Up => FocusFrom::Down,
        _ => FocusFrom::Up,
    }
}

/// Computes [`spec_arrival`].
pub fn arrival(key: KeyCode) -> (r: FocusFrom)
    ensures
        r == spec_arrival(key),
{
    match key {
        KeyCode::Left => FocusFrom::Right,
        KeyCode::Right => FocusFrom::Left,
        KeyCode::Up => FocusFrom::Down,
        _ => FocusFrom::Up,
    }
}

proof fn lemma_cell_index_bound(cols: int, rows: int, cx: int, cy: int)
    requires
        in_grid(cols, rows, cx, cy),
    ensures
        0 <= cell_index(cols, cx, cy) < cols * rows,
{
    assert(cy * cols + cx < cols * rows) by (nonlinear_arith)
        requires
            0 <= cx < cols,
            0 <= cy < rows,
    ;
    assert(0 <= cy * cols) by (nonlinear_arith)
        requires
            0 <= cx < cols,
            0 <= cy,
    ;
}

/// Scans the `cols` by `rows` cell map from cell `from` in the direction of
/// arrow `key`, cell by cell, for the first assigned cell that belongs to
/// another child than `from`. Returns `None` when the scan leaves the
/// matrix first: the scan never wraps.
pub fn next_cell(cells: &Vec<Option<usize>>, cols: usize, rows: usize, from: (usize, usize), key: KeyCode) -> (r: Option<(usize, usize)>)
    requires
        key.is_arrow(),
        cells@.len() == cols * rows,
        from.0 < cols,
        from.1 < rows,
    ensures
        match r {
            Some(c) => first_stop(cells@, cols as int, rows as int, from, key, c),
            None => no_stop(cells@, cols as int, rows as int, from, key),
        },
{
    let len = cells.len();
    proof {
        lemma_cell_index_bound(cols as int, rows as int, from.0 as int, from.1 as int);
    }
    let origin = cells[from.1 * cols + from.0];
    let mut cx = from.0;
    let mut cy = from.1;
    let ghost mut t: int = 0;
    loop
        invariant
            key.is_arrow(),
            cells@.len() == cols * rows,
            len == cells@.len(),
            origin == cells@[cell_index(cols as int, from.0 as int, from.1 as int)],
            cx < cols,
            cy < rows,
            t >= 0,
            ray(from, key, t) == (cx as int, cy as int),
            forall|s: int|
                1 <= s <= t ==> passable(
                    cells@,
                    cols as int,
                    #[trigger] ray(from, key, s),
                    origin,
                ),
        decreases
                match key {
                    KeyCode::Left => cx as int,
                    KeyCode::Right => cols - cx,
                    KeyCode::Up => cy as int,
                    _ => rows - cy,
                },
    {
        match key {
            KeyCode::Left => {
                if cx == 0 {
                    return None;
                }
                cx = cx - 1;
            },
            KeyCode::Right => {
                if cx + 1 >= cols {
                    return None;
                }
                cx = cx + 1;
            },
            KeyCode::Up => {
                if cy == 0 {
                    return None;
                }
                cy = cy - 1;
            },
            _ => {
                if cy + 1 >= rows {
                    return None;
                }
                cy = cy + 1;
            },
        }
        proof {
            t = t + 1;
            lemma_cell_index_bound(cols as int, rows as int, cx as int, cy as int);
        }
        let here = cells[cy * cols + cx];
        let stop = match (here, origin) {
            (Some(a), Some(b)) => a != b,
            (Some(_), None) => true,
            (None, _) => false,
        };
        if stop {
            proof {
                assert(ray(from, key, t) == (cx as int, cy as int));
            }
            return Some((cx, cy));
        }
    }
}

/// The region of the cells that `p` spans, in region `r` cut into `cols` by
/// `rows` equal cells, before padding.
pub open spec fn span_region(r: Region, cols: nat, rows: nat, p: Placement) -> Region {
    let cw = (r.w as nat) / cols;
    let ch = (r.h as nat) / rows;
    Region {
        x: (r.x + p.x * cw) as i32,
        y: (r.y + p.y * ch) as i32,
        w: (p.w * cw) as u32,
        h: (p.h * ch) as u32,
    }
}

/// The region given to the child placed at `p`: its cells, shrunk by the
/// padding on every edge.
pub open spec fn cell_slot(r: Region, cols: nat, rows: nat, p: Placement) -> Region {
    span_region(r, cols, rows, p).shrunk(p.padding, p.padding)
}

proof fn lemma_span_fits(len: nat, count: nat, first: nat, span: nat)
    requires
        count >= 1,
        first + span <= count,
    ensures
        first * (len / count) + span * (len / count) <= len,
        first * (len / count) <= len,
{
    let c = len / count;
    assert(first * c + span * c == (first + span) * c) by (nonlinear_arith);
    assert((first + span) * c <= count * c) by (nonlinear_arith)
        requires
            first + span <= count,
    ;
    assert(count * c <= len) by (nonlinear_arith)
        requires
            c == len / count,
            count >= 1,
    ;
    assert(first * c <= (first + span) * c) by (nonlinear_arith);
}

/// The span region of a fitting placement is well formed and lies in `r`.
pub proof fn lemma_span_inside(r: Region, cols: nat, rows: nat, p: Placement)
    requires
        r.wf(),
        placement_fits(p, cols as int, rows as int),
    ensures
        span_region(r, cols, rows, p).wf(),
        span_region(r, cols, rows, p).inside(r),
        cell_slot(r, cols, rows, p).wf(),
        cell_slot(r, cols, rows, p).inside(r),
{
    lemma_span_fits(r.w as nat, cols, p.x as nat, p.w as nat);
    lemma_span_fits(r.h as nat, rows, p.y as nat, p.h as nat);
    let s = span_region(r, cols, rows, p);
    crate::geometry::lemma_shrunk_inside(s, p.padding, p.padding);
}

/// Computes [`cell_slot`].
pub fn slot_of(r: Region, cols: usize, rows: usize, p: Placement) -> (slot: Region)
    requires
        r.wf(),
        placement_fits(p, cols as int, rows as int),
    ensures
        slot == cell_slot(r, cols as nat, rows as nat, p),
        slot.wf(),
        slot.inside(r),
{
    proof {
        lemma_span_fits(r.w as nat, cols as nat, p.x as nat, p.w as nat);
        lemma_span_fits(r.h as nat, rows as nat, p.y as nat, p.h as nat);
        lemma_span_inside(r, cols as nat, rows as nat, p);
    }
    let cw = (r.w as usize) / cols;
    let ch = (r.h as usize) / rows;
    let span = Region {
        x: (r.x as i64 + (p.x * cw) as i64) as i32,
        y: (r.y as i64 + (p.y * ch) as i64) as i32,
        w: (p.w * cw) as u32,
        h: (p.h * ch) as u32,
    };
    span.shrink(p.padding, p.padding)
}

/// Cell `k` of a row-major map `cols` wide is cell `(k % cols, k / cols)`.
proof fn lemma_cell_coords(cols: int, cx: int, cy: int)
    requires
        0 <= cx < cols,
        0 <= cy,
    ensures
        cell_index(cols, cx, cy) % cols == cx,
        cell_index(cols, cx, cy) / cols == cy,
{
    vstd::arithmetic::div_mod::lemma_fundamental_div_mod_converse(
        cell_index(cols, cx, cy),
        cols,
        cy,
        cx,
    );
}

/// Whether every cell that `p` spans is unassigned.
fn span_free(cells: &Vec<Option<usize>>, cols: usize, p: Placement) -> (r: bool)
    requires
        cols > 0,
    ensures
        r == forall|k: int|
            0 <= k < cells@.len() && in_span(p, k % (cols as int), k / (cols as int))
                ==> #[trigger] cells@[k] is None,
{
    let mut k: usize = 0;
    while k < cells.len()
        invariant
            cols > 0,
            k <= cells@.len(),
            forall|j: int|
                0 <= j < k && in_span(p, j % (cols as int), j / (cols as int))
                    ==> #[trigger] cells@[j] is None,
        decreases cells@.len() - k,
    {
        let cx = k % cols;
        let cy = k / cols;
        if p.x <= cx && cx - p.x < p.w && p.y <= cy && cy - p.y < p.h && cells[k].is_some() {
            return false;
        }
        k = k + 1;
    }
    true
}

/// Assigns every cell that `p` spans to `value`, and leaves the others.
fn mark_span(cells: &mut Vec<Option<usize>>, cols: usize, p: Placement, value: usize)
    requires
        cols > 0,
    ensures
        final(cells)@.len() == old(cells)@.len(),
        forall|k: int|
            0 <= k < old(cells)@.len() ==> #[trigger] final(cells)@[k] == (if in_span(
                p,
                k % (cols as int),
                k / (cols as int),
            ) {
                Some(value)
            } else {
                old(cells)@[k]
            }),
{
    let ghost start = cells@;
    let mut k: usize = 0;
    while k < cells.len()
        invariant
            cols > 0,
            k <= cells@.len(),
            cells@.len() == start.len(),
            forall|j: int|
                0 <= j < k ==> #[trigger] cells@[j] == (if in_span(
                    p,
                    j % (cols as int),
                    j / (cols as int),
                ) {
                    Some(value)
                } else {
                    start[j]
                }),
            forall|j: int| k <= j < start.len() ==> #[trigger] cells@[j] == start[j],
        decreases cells@.len() - k,
    {
        let cx = k % cols;
        let cy = k / cols;
        if p.x <= cx && cx - p.x < p.w && p.y <= cy && cy - p.y < p.h {
            cells.set(k, Some(value));
        }
        k = k + 1;
    }
}

/// The drawings of `items[0..n]`, in index order, leaving out item `skip`.
pub open spec fn drawings_except<W: Widget>(
    items: Seq<W>,
    n: int,
    skip: Option<usize>,
    theme: Theme,
) -> Seq<Draw>
    decreases n,
{
    if n <= 0 {
        Seq::empty()
    } else {
        drawings_except(items, n - 1, skip, theme) + (if skip == Some((n - 1) as usize) {
            Seq::empty()
        } else {
            items[n - 1].drawing(theme)
        })
    }
}

/// Lays its children out on an `X` by `Y` matrix of equal cells. Each child
/// spans a rectangle of cells; one cell is selected, and its child receives
/// the events and is drawn last.
#[derive(Debug)]
pub struct Grid<const X: usize, const Y: usize, C> {
    bounding_box: Region,
    children: C,
    placements: Vec<Placement>,
    cells: Vec<Option<usize>>,
    selected: Option<(usize, usize)>,
    focused: bool,
}

impl<const X: usize, const Y: usize, C> Grid<X, Y, C> {
    pub closed spec fn spec_region(&self) -> Region {
        self.bounding_box
    }

    pub closed spec fn collection(&self) -> C {
        self.children
    }

    /// The placement of each child, by index.
    pub closed spec fn placements(&self) -> Seq<Placement> {
        self.placements@
    }

    /// The cell map, row by row: the index of the child that each cell
    /// belongs to, if any.
    pub closed spec fn cells(&self) -> Seq<Option<usize>> {
        self.cells@
    }

    /// The selected cell, if any.
    pub closed spec fn selected_cell(&self) -> Option<(usize, usize)> {
        self.selected
    }

    /// The grid holds the focus.
    pub closed spec fn has_focus(&self) -> bool {
        self.focused
    }

    /// The child that cell `(cx, cy)` belongs to, if any.
    pub open spec fn owner(&self, cx: int, cy: int) -> Option<usize> {
        self.cells()[cell_index(X as int, cx, cy)]
    }

    /// The index of the selected child, if any.
    pub open spec fn selected_index(&self) -> Option<usize> {
        match self.selected_cell() {
            Some(c) => self.owner(c.0 as int, c.1 as int),
            None => None,
        }
    }

    /// The selected cell.
    pub fn get_selected(&self) -> (r: Option<(usize, usize)>)
        ensures
            r == self.selected_cell(),
    {
        self.selected
    }
}

impl<const X: usize, const Y: usize, C: WidgetCollection> Grid<X, Y, C> {
    pub open spec fn kids(&self) -> Seq<C::Item> {
        self.collection().items()
    }

    /// Each cell in the span of a child belongs to that child, and each
    /// assigned cell lies in the span of the child it belongs to.
    pub open spec fn cells_match(&self) -> bool {
        &&& forall|i: int, cx: int, cy: int|
            0 <= i < self.kids().len() && #[trigger] in_span(self.placements()[i], cx, cy)
                ==> self.owner(cx, cy) == Some(i as usize)
        &&& forall|cx: int, cy: int|
            in_grid(X as int, Y as int, cx, cy) ==> match #[trigger] self.owner(cx, cy) {
                Some(i) => i < self.kids().len() && in_span(self.placements()[i as int], cx, cy),
                None => true,
            }
    }

    /// Each child is well formed, fits the matrix, and is placed at its
    /// cells.
    pub open spec fn children_placed(&self) -> bool {
        forall|i: int|
            #![trigger self.kids()[i]]
            #![trigger self.placements()[i]]
            0 <= i < self.kids().len() ==> {
                &&& placement_fits(self.placements()[i], X as int, Y as int)
                &&& self.kids()[i].wf()
                &&& self.kids()[i].region() == cell_slot(
                    self.spec_region(),
                    X as nat,
                    Y as nat,
                    self.placements()[i],
                )
            }
    }

    /// The selected cell is assigned, and there is one exactly when there
    /// are children.
    pub open spec fn selection_valid(&self) -> bool {
        &&& (self.selected_cell() is None <==> self.kids().len() == 0)
        &&& self.selected_cell() matches Some(c) ==> in_grid(
            X as int,
            Y as int,
            c.0 as int,
            c.1 as int,
        ) && self.owner(c.0 as int, c.1 as int) is Some
    }

    /// Only the selected child may hold the focus, and the grid holds it
    /// only with a selection.
    pub open spec fn focus_valid(&self) -> bool {
        &&& (self.has_focus() ==> self.selected_cell() is Some)
        &&& forall|i: int|
            0 <= i < self.kids().len() && self.selected_index() != Some(i as usize)
                ==> #[trigger] self.kids()[i].focus() != Some(true)
    }

    pub open spec fn grid_wf(&self) -> bool {
        &&& self.spec_region().wf()
        &&& self.cells().len() == X * Y
        &&& self.placements().len() == self.kids().len()
        &&& self.kids().len() <= usize::MAX
        &&& self.children_placed()
        &&& self.cells_match()
        &&& self.selection_valid()
        &&& self.focus_valid()
    }

    /// Creates an empty grid over `bounding_box`; `children` is the empty
    /// collection that will hold its children.
    pub fn new(bounding_box: Region, children: C) -> (r: Self)
        requires
            bounding_box.wf(),
            children.items().len() == 0,
            X * Y <= usize::MAX,
        ensures
            r.grid_wf(),
            r.spec_region() == bounding_box,
            r.collection() == children,
            r.selected_cell() is None,
            !r.has_focus(),
            forall|cx: int, cy: int|
                in_grid(X as int, Y as int, cx, cy) ==> #[trigger] r.owner(cx, cy) is None,
    {
        let total = X * Y;
        let mut cells: Vec<Option<usize>> = Vec::new();
        while cells.len() < total
            invariant
                total == X * Y,
                cells@.len() <= total,
                forall|k: int| 0 <= k < cells@.len() ==> #[trigger] cells@[k] is None,
            decreases total - cells@.len(),
        {
            cells.push(None);
        }
        let r = Grid {
            bounding_box,
            children,
            placements: Vec::new(),
            cells,
            selected: None,
            focused: false,
        };
        assert forall|cx: int, cy: int| in_grid(X as int, Y as int, cx, cy) implies #[trigger] r.owner(cx, cy) is None by {
            lemma_cell_index_bound(X as int, Y as int, cx, cy);
        }
        r
    }
}

impl<const X: usize, const Y: usize, C: WidgetCollection> Grid<X, Y, C> {
    /// Every cell that `p` spans is unassigned.
    pub open spec fn span_is_free(&self, p: Placement) -> bool {
        forall|cx: int, cy: int| #[trigger] in_span(p, cx, cy) ==> self.owner(cx, cy) is None
    }

    /// Adds `child` on the cells from `position` spanning `span` (columns,
    /// rows), with `padding` pixels cleared on each edge, and returns its
    /// index.
    ///
    /// The child is given back when the span is empty or does not fit the
    /// matrix, when one of its cells is already assigned, or when the
    /// collection is full. The first child added is selected.
    pub fn add_child_at(
        &mut self,
        child: C::Item,
        position: (usize, usize),
        span: (usize, usize),
        padding: u32,
    ) -> (r: Result<usize, C::Item>)
        requires
            old(self).grid_wf(),
            child.wf(),
        ensures
            final(self).grid_wf(),
            final(self).spec_region() == old(self).spec_region(),
            final(self).has_focus() == old(self).has_focus(),
            ({
                let p = Placement { x: position.0, y: position.1, w: span.0, h: span.1, padding };
                &&& (r is Err <==> !placement_fits(p, X as int, Y as int) || !old(self).span_is_free(
                    p,
                ) || old(self).kids().len() >= old(self).collection().capacity())
                &&& r matches Err(c) ==> c == child && *final(self) == *old(self)
                &&& r matches Ok(n) ==> final(self).added(old(self), n, p, child)
            }),
    {
        let p = Placement { x: position.0, y: position.1, w: span.0, h: span.1, padding };
        if span.0 == 0 || span.1 == 0 || position.0 > X || span.0 > X - position.0 || position.1 > Y
            || span.1 > Y - position.1 {
            return Err(child);
        }
        let free = span_free(&self.cells, X, p);
        proof {
            if free {
                assert forall|cx: int, cy: int| #[trigger] in_span(p, cx, cy) implies self.owner(
                    cx,
                    cy,
                ) is None by {
                    lemma_cell_coords(X as int, cx, cy);
                    lemma_cell_index_bound(X as int, Y as int, cx, cy);
                }
            } else {
                let k = choose|k: int|
                    0 <= k < self.cells@.len() && in_span(p, k % (X as int), k / (X as int))
                        && !(#[trigger] self.cells@[k] is None);
                vstd::arithmetic::div_mod::lemma_fundamental_div_mod(k, X as int);
                assert(k == cell_index(X as int, k % (X as int), k / (X as int))) by (nonlinear_arith)
                    requires
                        k == (X as int) * (k / (X as int)) + k % (X as int),
                ;
                assert(in_span(p, k % (X as int), k / (X as int)));
            }
        }
        if !free {
            return Err(child);
        }
        let n = self.children.len();
        match self.children.add_widget(child) {
            Err(c) => {
                return Err(c);
            },
            Ok(()) => {},
        }
        let slot = slot_of(self.bounding_box, X, Y, p);
        match self.children.get_mut(n) {
            Some(w) => {
                if let Some(true) = w.get_focus() {
                    let _ = w.set_focus(None);
                }
                w.set_bounding_box(slot);
            },
            None => {},
        }
        let ghost old_cells = self.cells@;
        mark_span(&mut self.cells, X, p, n);
        self.placements.push(p);
        if self.selected.is_none() {
            self.selected = Some(position);
        }
        proof {
            assert forall|cx: int, cy: int| in_grid(X as int, Y as int, cx, cy) implies #[trigger] self.owner(cx, cy)
                == (if in_span(p, cx, cy) {
                Some(n)
            } else {
                old(self).owner(cx, cy)
            }) by {
                lemma_cell_coords(X as int, cx, cy);
                lemma_cell_index_bound(X as int, Y as int, cx, cy);
            }
            assert(self.placements.len() == self.placements@.len());
            let ok = old(self).kids();
            let nk = self.kids();
            let pl = self.placements();
            assert(nk.len() == n + 1);
            assert(nk.subrange(0, n as int) =~= ok);
            assert forall|i: int| 0 <= i < n implies nk[i] == ok[i] by {
                assert(nk.subrange(0, n as int)[i] == nk[i]);
            }
            assert(pl[n as int] == p);
            assert forall|i: int| 0 <= i < n implies pl[i] == old(self).placements()[i] by {}
            assert forall|i: int, cx: int, cy: int|
                0 <= i < nk.len() && #[trigger] in_span(pl[i], cx, cy) implies self.owner(cx, cy)
                == Some(i as usize) by {
                if i < n {
                    assert(in_span(old(self).placements()[i], cx, cy));
                    assert(old(self).owner(cx, cy) == Some(i as usize));
                    assert(placement_fits(old(self).placements()[i], X as int, Y as int));
                    if in_span(p, cx, cy) {
                        assert(old(self).owner(cx, cy) is None);
                    }
                }
            }
            assert forall|cx: int, cy: int| in_grid(X as int, Y as int, cx, cy) implies match #[trigger] self.owner(cx, cy) {
                Some(i) => i < nk.len() && in_span(pl[i as int], cx, cy),
                None => true,
            } by {
                if !in_span(p, cx, cy) {
                    assert(self.owner(cx, cy) == old(self).owner(cx, cy));
                    if let Some(i) = old(self).owner(cx, cy) {
                        assert(pl[i as int] == old(self).placements()[i as int]);
                    }
                }
            }
            if let Some(c) = old(self).selected_cell() {
                assert(old(self).owner(c.0 as int, c.1 as int) is Some);
                if in_span(p, c.0 as int, c.1 as int) {
                    assert(old(self).owner(c.0 as int, c.1 as int) is None);
                }
                assert(self.owner(c.0 as int, c.1 as int) == old(self).owner(c.0 as int, c.1 as int));
                assert(self.selected_index() == old(self).selected_index());
            } else {
                assert(in_span(p, p.x as int, p.y as int));
                assert(self.selected_index() == Some(n));
            }
            assert forall|i: int|
                0 <= i < nk.len() && self.selected_index() != Some(i as usize) implies #[trigger] nk[i].focus()
                != Some(true) by {
                if i < n {
                    assert(nk[i] == ok[i]);
                }
            }
            assert(self.children_placed());
            assert(self.cells_match());
            assert(self.selection_valid());
            assert(self.focus_valid());
        }
        Ok(n)
    }

    /// `self` is `old` with `child` added at index `n`, placed at `p`.
    pub open spec fn added(&self, old: &Self, n: usize, p: Placement, child: C::Item) -> bool {
        &&& n == old.kids().len()
        &&& self.kids().len() == n + 1
        &&& self.kids().subrange(0, n as int) == old.kids()
        &&& self.placements() == old.placements().push(p)
        &&& self.kids()[n as int].region() == cell_slot(self.spec_region(), X as nat, Y as nat, p)
        &&& self.kids()[n as int].focusable() == child.focusable()
        &&& self.kids()[n as int].focus() != Some(true)
        &&& self.selected_cell() == (if old.selected_cell() is None {
            Some((p.x, p.y))
        } else {
            old.selected_cell()
        })
        &&& forall|cx: int, cy: int|
            in_grid(X as int, Y as int, cx, cy) ==> #[trigger] self.owner(cx, cy) == (if in_span(
                p,
                cx,
                cy,
            ) {
                Some(n)
            } else {
                old.owner(cx, cy)
            })
    }
}

impl<const X: usize, const Y: usize, C: WidgetCollection> Grid<X, Y, C> {
    /// `self` is `old` after event `e`, which returned `r`, moved the
    /// selection: an arrow key that the selected child did not use, with the
    /// selection now at the cell where the scan in that direction stops.
    pub open spec fn moved(&self, old: &Self, e: Event, r: Option<Event>) -> bool {
        &&& r is None
        &&& match (e, old.selected_cell(), self.selected_cell()) {
            (Event::KeyDown(k), Some(from), Some(c)) => k.is_arrow() && first_stop(
                old.cells(),
                X as int,
                Y as int,
                from,
                k,
                c,
            ),
            _ => false,
        }
    }

    /// The same layout: region, cells, placements and number of children.
    pub open spec fn keeps_layout(&self, old: &Self) -> bool {
        &&& self.spec_region() == old.spec_region()
        &&& self.cells() == old.cells()
        &&& self.placements() == old.placements()
        &&& self.kids().len() == old.kids().len()
    }

    /// `self` is `old` with child `i` replaced by a well-formed widget at the
    /// same place, as focusable as before, and not holding the focus unless it
    /// is selected: it is well formed.
    proof fn lemma_child_replaced(&self, old: &Self, i: int)
        requires
            old.grid_wf(),
            self.keeps_layout(old),
            self.selected_cell() == old.selected_cell(),
            self.has_focus() ==> self.selected_cell() is Some,
            0 <= i < old.kids().len(),
            self.kids() == old.kids().update(i, self.kids()[i]),
            self.kids()[i].wf(),
            self.kids()[i].region() == old.kids()[i].region(),
            old.selected_index() != Some(i as usize) ==> self.kids()[i].focus() != Some(true),
        ensures
            self.grid_wf(),
            self.kids_kept(old),
    {
        assert(self.selected_index() == old.selected_index());
        assert forall|j: int|
            0 <= j < self.kids().len() && self.selected_index() != Some(j as usize) implies #[trigger] self.kids()[j].focus()
            != Some(true) by {
            if j != i {
                assert(self.kids()[j] == old.kids()[j]);
            }
        }
        assert forall|j: int| 0 <= j < self.kids().len() implies {
            &&& placement_fits(#[trigger] self.placements()[j], X as int, Y as int)
            &&& self.kids()[j].wf()
            &&& self.kids()[j].region() == cell_slot(
                self.spec_region(),
                X as nat,
                Y as nat,
                self.placements()[j],
            )
        } by {
            assert(placement_fits(old.placements()[j], X as int, Y as int));
            if j != i {
                assert(self.kids()[j] == old.kids()[j]);
            }
        }
        assert forall|j: int| 0 <= j < self.kids().len() implies #[trigger] self.kids()[j].region()
            == old.kids()[j].region() by {
            if j != i {
                assert(self.kids()[j] == old.kids()[j]);
            }
        }
        assert(self.spec_region().wf());
        assert(self.cells().len() == X * Y);
        assert(self.placements().len() == self.kids().len());
        assert(self.children_placed());
        self.lemma_cells_match_kept(old);
        assert(self.selection_valid());
        assert(self.focus_valid());
    }

    /// The cell map matches the placements as long as neither changes, nor
    /// the number of children.
    proof fn lemma_cells_match_kept(&self, old: &Self)
        requires
            old.cells_match(),
            self.cells() == old.cells(),
            self.placements() == old.placements(),
            self.kids().len() == old.kids().len(),
        ensures
            self.cells_match(),
    {
        assert forall|i: int, cx: int, cy: int|
            0 <= i < self.kids().len() && #[trigger] in_span(self.placements()[i], cx, cy)
                implies self.owner(cx, cy) == Some(i as usize) by {
            assert(in_span(old.placements()[i], cx, cy));
            assert(old.owner(cx, cy) == Some(i as usize));
        }
        assert forall|cx: int, cy: int| in_grid(X as int, Y as int, cx, cy) implies match #[trigger] self.owner(cx, cy) {
            Some(i) => i < self.kids().len() && in_span(self.placements()[i as int], cx, cy),
            None => true,
        } by {
            assert(self.owner(cx, cy) == old.owner(cx, cy));
        }
    }

    /// Moves the selection to cell `target`. The previously selected child
    /// releases the focus; when the grid holds the focus, the new one is
    /// offered it, arriving from `from_dir`.
    fn select(&mut self, target: (usize, usize), from_dir: FocusFrom)
        requires
            old(self).grid_wf(),
            old(self).selected_cell() is Some,
            in_grid(X as int, Y as int, target.0 as int, target.1 as int),
            old(self).owner(target.0 as int, target.1 as int) is Some,
        ensures
            final(self).grid_wf(),
            final(self).keeps_layout(old(self)),
            final(self).has_focus() == old(self).has_focus(),
            final(self).selected_cell() == Some(target),
            final(self).kids_kept(old(self)),
            forall|i: int|
                0 <= i < old(self).kids().len() && old(self).selected_index() != Some(i as usize)
                    && final(self).selected_index() != Some(i as usize) ==> #[trigger] final(
                    self).kids()[i] == old(self).kids()[i],
    {
        let from = match self.selected {
            Some(c) => c,
            None => target,
        };
        let previous = self.cell_at(from);
        let next = self.cell_at(target);
        let j = match previous {
            Some(j) => j,
            None => 0,
        };
        let k = match next {
            Some(k) => k,
            None => 0,
        };
        proof {
            assert(match self.owner(from.0 as int, from.1 as int) {
                Some(i) => i < self.kids().len() && in_span(self.placements()[i as int], from.0 as int, from.1 as int),
                None => true,
            });
            assert(match self.owner(target.0 as int, target.1 as int) {
                Some(i) => i < self.kids().len() && in_span(self.placements()[i as int], target.0 as int, target.1 as int),
                None => true,
            });
            assert(j < self.kids().len() && k < self.kids().len());
        }
        match self.children.get_mut(j) {
            Some(w) => {
                let _ = w.set_focus(None);
            },
            None => {},
        }
        proof {
            assert(self.kids()[j as int].focus() != Some(true));
            self.lemma_child_replaced(old(self), j as int);
        }
        let ghost released = *self;
        assert(released.kids()[j as int].focus() != Some(true));
        self.selected = Some(target);
        proof {
            assert(self.selected_index() == Some(k));
            assert(released.selected_index() == Some(j));
            assert(released.focus_valid());
            assert forall|i: int|
                0 <= i < self.kids().len() && self.selected_index() != Some(i as usize) implies #[trigger] self.kids()[i].focus()
                != Some(true) by {
                assert(self.kids()[i] == released.kids()[i]);
                if i != j {
                    assert(released.selected_index() != Some(i as usize));
                }
            }
            self.lemma_cells_match_kept(&released);
            assert(self.children_placed());
            assert(self.grid_wf());
        }
        let ghost selected = *self;
        if self.focused {
            match self.children.get_mut(k) {
                Some(w) => {
                    let _ = w.set_focus(Some(from_dir));
                },
                None => {},
            }
        }
        proof {
            assert(self.kids() =~= selected.kids().update(k as int, self.kids()[k as int]));
            self.lemma_child_replaced(&selected, k as int);
            assert(selected.kids() == released.kids());
            assert forall|i: int|
                0 <= i < old(self).kids().len() && old(self).selected_index() != Some(i as usize)
                    && self.selected_index() != Some(i as usize) implies #[trigger] self.kids()[i]
                == old(self).kids()[i] by {
                assert(old(self).selected_index() == Some(j));
                assert(self.selected_index() == Some(k));
                assert(self.kids()[i] == selected.kids()[i]);
                assert(released.kids()[i] == old(self).kids()[i]);
            }
        }
    }

    /// The index of the child that cell `(cx, cy)` belongs to; `None` for an
    /// unassigned cell or one outside the matrix.
    pub fn child_at(&self, cx: usize, cy: usize) -> (r: Option<usize>)
        requires
            self.grid_wf(),
        ensures
            in_grid(X as int, Y as int, cx as int, cy as int) ==> r == self.owner(cx as int, cy as int),
            !in_grid(X as int, Y as int, cx as int, cy as int) ==> r is None,
    {
        if cx < X && cy < Y {
            self.cell_at((cx, cy))
        } else {
            None
        }
    }

    /// The number of children.
    pub fn child_count(&self) -> (r: usize)
        ensures
            r == self.kids().len(),
    {
        self.children.len()
    }

    /// Read access to the `n`-th child.
    pub fn get_child(&self, n: usize) -> (r: Option<&C::Item>)
        ensures
            match r {
                Some(w) => n < self.kids().len() && *w == self.kids()[n as int],
                None => n >= self.kids().len(),
            },
    {
        self.children.get(n)
    }

    /// The child that cell `c` belongs to, if any.
    fn cell_at(&self, c: (usize, usize)) -> (r: Option<usize>)
        requires
            self.grid_wf(),
            in_grid(X as int, Y as int, c.0 as int, c.1 as int),
        ensures
            r == self.owner(c.0 as int, c.1 as int),
    {
        let total = self.cells.len();
        proof {
            lemma_cell_index_bound(X as int, Y as int, c.0 as int, c.1 as int);
        }
        self.cells[c.1 * X + c.0]
    }

    /// Each child is placed where it was.
    pub open spec fn kids_kept(&self, old: &Self) -> bool {
        forall|i: int|
            0 <= i < self.kids().len() ==> #[trigger] self.kids()[i].region()
                == old.kids()[i].region()
    }

    /// The selected child hands `e` back, or there is no selected child.
    pub open spec fn selected_passes(&self, e: Event, context: <C::Item as Widget>::Context) -> bool {
        match self.selected_index() {
            Some(i) => self.kids()[i as int].passes(e, context),
            None => true,
        }
    }

    /// `e` is an arrow key along which a scan from the selected cell finds
    /// a cell of another child.
    pub open spec fn finds_cell(&self, e: Event) -> bool {
        match (e, self.selected_cell()) {
            (Event::KeyDown(k), Some(from)) => k.is_arrow() && !no_stop(
                self.cells(),
                X as int,
                Y as int,
                from,
                k,
            ),
            _ => false,
        }
    }
}

impl<const X: usize, const Y: usize, C: WidgetCollection> Widget for Grid<X, Y, C> {
    type Context = <C::Item as Widget>::Context;

    open spec fn wf(&self) -> bool {
        self.grid_wf()
    }

    open spec fn region(&self) -> Region {
        self.spec_region()
    }

    open spec fn focus(&self) -> Option<bool> {
        Some(self.has_focus())
    }

    /// The selected child can take the focus.
    open spec fn focusable(&self) -> bool {
        match self.selected_index() {
            Some(i) => self.kids()[i as int].focusable(),
            None => false,
        }
    }

    /// The selected child hands the event back, and it does not move the
    /// selection.
    open spec fn passes(&self, e: Event, context: <C::Item as Widget>::Context) -> bool {
        self.selected_passes(e, context) && !self.finds_cell(e)
    }

    /// The children in index order, but the selected one, which is drawn
    /// last so that nothing covers it.
    open spec fn drawing(&self, theme: Theme) -> Seq<Draw> {
        drawings_except(self.kids(), self.kids().len() as int, self.selected_index(), theme) + match self.selected_index() {
            Some(i) => self.kids()[i as int].drawing(theme),
            None => Seq::empty(),
        }
    }

    fn render(&self, theme: &Theme, out: &mut Vec<Draw>) {
        let ghost start = out@;
        let sel = match self.selected {
            Some(c) => self.cell_at(c),
            None => None,
        };
        let n = self.children.len();
        let mut i: usize = 0;
        while i < n
            invariant
                self.grid_wf(),
                n == self.kids().len(),
                i <= n,
                sel == self.selected_index(),
                out@ == start + drawings_except(self.kids(), i as int, sel, *theme),
            decreases n - i,
        {
            let skip = match sel {
                Some(j) => j == i,
                None => false,
            };
            if !skip {
                match self.children.get(i) {
                    Some(w) => {
                        w.render(theme, out);
                    },
                    None => {},
                }
            }
            proof {
                assert(out@ =~= start + drawings_except(self.kids(), i + 1, sel, *theme));
            }
            i = i + 1;
        }
        match sel {
            Some(j) => match self.children.get(j) {
                Some(w) => {
                    w.render(theme, out);
                },
                None => {},
            },
            None => {},
        }
        assert(out@ =~= start + self.drawing(*theme));
    }

    /// Offers the event to the selected child. An arrow key that the child
    /// hands back moves the selection to the next cell in that direction
    /// that belongs to another child; when there is none, the key is handed
    /// back. Without a selection every event is handed back.
    fn on_event(&mut self, e: Event, context: &mut Self::Context) -> (r: Option<Event>)
        ensures
            final(self).keeps_layout(old(self)),
            final(self).has_focus() == old(self).has_focus(),
            old(self).selected_cell() is None ==> r == Some(e) && *final(self) == *old(self),
            final(self).selected_cell() != old(self).selected_cell() ==> final(self).moved(
                old(self),
                e,
                r,
            ),
            old(self).selected_passes(e, *old(context)) && old(self).finds_cell(e) ==> final(self).moved(old(self), e, r),
            !(old(self).selected_passes(e, *old(context)) && old(self).finds_cell(e)) ==> final(self).selected_cell() == old(self).selected_cell(),
            r is Some ==> !old(self).finds_cell(e),
            old(self).selected_cell() is None ==> *final(context) == *old(context),
            forall|i: int|
                0 <= i < old(self).kids().len() && old(self).selected_index() != Some(i as usize)
                    && final(self).selected_index() != Some(i as usize) ==> #[trigger] final(
                    self).kids()[i] == old(self).kids()[i],
    {
        let from = match self.selected {
            Some(c) => c,
            None => {
                return Some(e);
            },
        };
        let current = match self.cell_at(from) {
            Some(j) => j,
            None => {
                return Some(e);
            },
        };
        let remaining = match self.children.get_mut(current) {
            Some(w) => w.on_event(e, context),
            None => Some(e),
        };
        proof {
            self.lemma_child_replaced(old(self), current as int);
        }
        match remaining {
            Some(Event::KeyDown(key)) => {
                let arrow = match key {
                    KeyCode::Left | KeyCode::Right | KeyCode::Up | KeyCode::Down => true,
                    _ => false,
                };
                if !arrow {
                    return Some(Event::KeyDown(key));
                }
                match next_cell(&self.cells, X, Y, from, key) {
                    Some(target) => {
                        proof {
                            lemma_stop_not_edge(self.cells@, X as int, Y as int, from, key, target);
                        }
                        self.select(target, arrival(key));
                        None
                    },
                    None => Some(Event::KeyDown(key)),
                }
            },
            other => other,
        }
    }

    fn get_bounding_box(&self) -> (r: Region) {
        self.bounding_box
    }

    fn set_bounding_box(&mut self, bounding_box: Region)
        ensures
            final(self).cells() == old(self).cells(),
            final(self).placements() == old(self).placements(),
            final(self).selected_cell() == old(self).selected_cell(),
            final(self).kids().len() == old(self).kids().len(),
            forall|i: int|
                0 <= i < final(self).kids().len() ==> #[trigger] final(self).kids()[i].region()
                    == cell_slot(bounding_box, X as nat, Y as nat, final(self).placements()[i]),
    {
        let ghost start = *self;
        self.bounding_box = bounding_box;
        let n = self.children.len();
        let mut i: usize = 0;
        while i < n
            invariant
                bounding_box.wf(),
                self.spec_region() == bounding_box,
                self.cells() == start.cells(),
                self.placements() == start.placements(),
                self.selected_cell() == start.selected_cell(),
                self.has_focus() == start.has_focus(),
                self.kids().len() == n,
                start.kids().len() == n,
                start.placements().len() == n,
                forall|j: int| 0 <= j < n ==> placement_fits(#[trigger] start.placements()[j], X as int, Y as int),
                i <= n,
                forall|j: int|
                    #![trigger self.kids()[j]]
                    0 <= j < i ==> {
                        &&& self.kids()[j].wf()
                        &&& self.kids()[j].region() == cell_slot(
                            bounding_box,
                            X as nat,
                            Y as nat,
                            start.placements()[j],
                        )
                        &&& self.kids()[j].focus() == start.kids()[j].focus()
                        &&& self.kids()[j].focusable() == start.kids()[j].focusable()
                    },
                forall|j: int| i <= j < n ==> #[trigger] self.kids()[j] == start.kids()[j],
                start.children_placed(),
            decreases n - i,
        {
            let p = self.placements[i];
            let slot = slot_of(self.bounding_box, X, Y, p);
            match self.children.get_mut(i) {
                Some(w) => {
                    w.set_bounding_box(slot);
                },
                None => {},
            }
            i = i + 1;
        }
        proof {
            assert(self.selected_index() == start.selected_index());
            assert forall|j: int|
                0 <= j < self.kids().len() && self.selected_index() != Some(j as usize) implies #[trigger] self.kids()[j].focus()
                != Some(true) by {
                assert(self.kids()[j].focus() == start.kids()[j].focus());
            }
            assert(self.children_placed());
            assert(self.focus_valid());
            self.lemma_cells_match_kept(&start);
        }
    }

    fn can_focus(&self) -> (r: bool) {
        let sel = match self.selected {
            Some(c) => self.cell_at(c),
            None => None,
        };
        match sel {
            Some(j) => match self.children.get(j) {
                Some(w) => w.can_focus(),
                None => false,
            },
            None => false,
        }
    }

    fn get_focus(&self) -> (r: Option<bool>) {
        Some(self.focused)
    }

    /// Taking the focus gives it to the selected child, and fails when that
    /// child refuses it or there is none. Releasing it releases the selected
    /// child, and succeeds when that child can be focused.
    fn set_focus(&mut self, from_dir: Option<FocusFrom>) -> (r: Result<(), ()>)
        ensures
            final(self).keeps_layout(old(self)),
            final(self).selected_cell() == old(self).selected_cell(),
    {
        let sel = match self.selected {
            Some(c) => self.cell_at(c),
            None => None,
        };
        let current = match sel {
            Some(j) => j,
            None => {
                return Err(());
            },
        };
        match from_dir {
            None => {
                self.focused = false;
                let res = match self.children.get_mut(current) {
                    Some(w) => w.set_focus(None),
                    None => Err(()),
                };
                proof {
                    self.lemma_child_replaced(old(self), current as int);
                }
                res
            },
            Some(d) => {
                let ready = match self.children.get(current) {
                    Some(w) => w.can_focus(),
                    None => false,
                };
                if !ready {
                    return Err(());
                }
                let res = match self.children.get_mut(current) {
                    Some(w) => w.set_focus(Some(d)),
                    None => Err(()),
                };
                if res.is_ok() {
                    self.focused = true;
                }
                proof {
                    self.lemma_child_replaced(old(self), current as int);
                }
                res
            },
        }
    }
}

} // verus!
