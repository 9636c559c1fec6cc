//! Integer rectangles on the screen, and the arithmetic that lays them out.

use embedded_graphics::prelude::{Point, Size};
use embedded_graphics::primitives::Rectangle;
use vstd::prelude::*;

verus! {

/// The scale of a split ratio: a ratio of `SPLIT_SCALE` gives the whole
/// length to the first part.
pub const SPLIT_SCALE: u32 = 1000;

/// An axis-aligned rectangle: its top-left corner and its size in pixels.
#[derive(Debug, Clone, Copy, PartialEq, Eq, Structural, Default)]
pub struct Region {
    pub x: i32,
    pub y: i32,
    pub w: u32,
    pub h: u32,
}

/// The axis along which a region is cut in two.
#[derive(Debug, Clone, Copy, PartialEq, Eq, Structural)]
pub enum SplitDirection {
    /// Left | Right
    Horizontal,
    /// Up / Down
    Vertical,
}

pub open spec fn min_nat(a: nat, b: nat) -> nat {
    if a <= b { a } else { b }
}

impl Region {
    /// The far edges of the region are representable as `i32` coordinates.
    pub open spec fn wf(self) -> bool {
        self.x + self.w <= i32::MAX && self.y + self.h <= i32::MAX
    }

    /// The pixel `(px, py)` lies in the region.
    pub open spec fn contains(self, px: int, py: int) -> bool {
        self.x <= px < self.x + self.w && self.y <= py < self.y + self.h
    }

    /// Every pixel of `self` lies in `outer`.
    pub open spec fn inside(self, outer: Region) -> bool {
        forall|px: int, py: int| #[trigger] self.contains(px, py) ==> outer.contains(px, py)
    }

    /// No pixel lies in both regions.
    pub open spec fn disjoint(self, other: Region) -> bool {
        forall|px: int, py: int| #[trigger] self.contains(px, py) ==> !other.contains(px, py)
    }

    /// The region shrunk by `mx` on the left and right edges and by `my` on the
    /// top and bottom edges, each margin clamped to half of its dimension.
    pub open spec fn shrunk(self, mx: u32, my: u32) -> Region {
        let cx = min_nat(mx as nat, (self.w / 2) as nat);
        let cy = min_nat(my as nat, (self.h / 2) as nat);
        Region {
            x: (self.x + cx) as i32,
            y: (self.y + cy) as i32,
            w: (self.w - 2 * cx) as u32,
            h: (self.h - 2 * cy) as u32,
        }
    }

    /// The length along `dir` that a split at `ratio` (out of `SPLIT_SCALE`)
    /// gives to the first part.
    pub open spec fn first_len(self, dir: SplitDirection, ratio: u32) -> nat {
        match dir {
            SplitDirection::Horizontal => (self.w * ratio / (SPLIT_SCALE as int)) as nat,
            SplitDirection::Vertical => (self.h * ratio / (SPLIT_SCALE as int)) as nat,
        }
    }

    /// The first part of the region cut along `dir` at `ratio`.
    pub open spec fn first_part(self, dir: SplitDirection, ratio: u32) -> Region {
        let len = self.first_len(dir, ratio);
        match dir {
            SplitDirection::Horizontal => Region { w: len as u32, ..self },
            SplitDirection::Vertical => Region { h: len as u32, ..self },
        }
    }

    /// The second part of the region cut along `dir` at `ratio`.
    pub open spec fn second_part(self, dir: SplitDirection, ratio: u32) -> Region {
        let len = self.first_len(dir, ratio);
        match dir {
            SplitDirection::Horizontal => Region {
                x: (self.x + len) as i32,
                w: (self.w - len) as u32,
                ..self
            },
            SplitDirection::Vertical => Region {
                y: (self.y + len) as i32,
                h: (self.h - len) as u32,
                ..self
            },
        }
    }

    /// The point at which text is centred in the region.
    pub open spec fn center(self) -> (i32, i32) {
        (
            (self.x + (if self.w == 0 { 0 } else { (self.w - 1) / 2 })) as i32,
            (self.y + (if self.h == 0 { 0 } else { (self.h - 1) / 2 })) as i32,
        )
    }

    pub fn new(x: i32, y: i32, w: u32, h: u32) -> (r: Region)
        ensures
            r == (Region { x, y, w, h }),
    {
        Region { x, y, w, h }
    }

    /// Whether the far edges of the region are representable.
    pub fn is_valid(&self) -> (r: bool)
        ensures
            r == self.wf(),
    {
        (self.x as i64) + (self.w as i64) <= i32::MAX as i64 && (self.y as i64) + (self.h
            as i64) <= i32::MAX as i64
    }

    /// Shrinks the region by per-axis margins, each clamped to half of its
    /// dimension so that the region never inverts.
    pub fn shrink(&self, mx: u32, my: u32) -> (r: Region)
        requires
            self.wf(),
        ensures
            r == self.shrunk(mx, my),
            r.wf(),
            r.inside(*self),
    {
        let cx = if mx <= self.w / 2 { mx } else { self.w / 2 };
        let cy = if my <= self.h / 2 { my } else { self.h / 2 };
        Region { x: self.x + cx as i32, y: self.y + cy as i32, w: self.w - 2 * cx, h: self.h - 2 * cy }
    }

    /// Cuts the region in two along `dir`; the first part takes
    /// `ratio / SPLIT_SCALE` of the length.
    pub fn split(&self, dir: SplitDirection, ratio: u32) -> (r: (Region, Region))
        requires
            self.wf(),
            ratio <= SPLIT_SCALE,
        ensures
            r.0 == self.first_part(dir, ratio),
            r.1 == self.second_part(dir, ratio),
            r.0.wf(),
            r.1.wf(),
            r.0.inside(*self),
            r.1.inside(*self),
            r.0.disjoint(r.1),
    {
        proof {
            lemma_split_len(*self, dir, ratio);
        }
        match dir {
            SplitDirection::Horizontal => {
                let len = ((self.w as u64) * (ratio as u64) / (SPLIT_SCALE as u64)) as u32;
                (
                    Region { w: len, ..*self },
                    Region { x: (self.x as i64 + len as i64) as i32, w: self.w - len, ..*self },
                )
            },
            SplitDirection::Vertical => {
                let len = ((self.h as u64) * (ratio as u64) / (SPLIT_SCALE as u64)) as u32;
                (
                    Region { h: len, ..*self },
                    Region { y: (self.y as i64 + len as i64) as i32, h: self.h - len, ..*self },
                )
            },
        }
    }

    /// The point at which text is centred in the region.
    pub fn center_point(&self) -> (r: (i32, i32))
        requires
            self.wf(),
        ensures
            r == self.center(),
    {
        rectangle_center(self.x, self.y, self.w, self.h)
    }
}

/// The length given to the first part of a split never exceeds the whole.
proof fn lemma_split_len(r: Region, dir: SplitDirection, ratio: u32)
    requires
        ratio <= SPLIT_SCALE,
    ensures
        r.first_len(dir, ratio) <= (match dir {
            SplitDirection::Horizontal => r.w as nat,
            SplitDirection::Vertical => r.h as nat,
        }),
        r.w * ratio <= u64::MAX,
        r.h * ratio <= u64::MAX,
{
    assert(r.w * ratio <= r.w * 1000) by (nonlinear_arith)
        requires ratio <= 1000;
    assert(r.h * ratio <= r.h * 1000) by (nonlinear_arith)
        requires ratio <= 1000;
}

/// Relies on embedded_graphics' `Rectangle::center`: the top-left corner
/// offset by half of the size less one, rounded down, on each axis.
#[verifier::external_body]
fn rectangle_center(x: i32, y: i32, w: u32, h: u32) -> (r: (i32, i32))
    requires
        x + w <= i32::MAX,
        y + h <= i32::MAX,
    ensures
        r == (Region { x, y, w, h }).center(),
{
    let p = Rectangle::new(Point::new(x, y), Size::new(w, h)).center();
    (p.x, p.y)
}

/// A shrunk region is well formed and lies in the region it was shrunk from.
pub proof fn lemma_shrunk_inside(r: Region, mx: u32, my: u32)
    requires
        r.wf(),
    ensures
        r.shrunk(mx, my).wf(),
        r.shrunk(mx, my).inside(r),
{
}

/// The two parts of a split are well formed, lie in the region, and share
/// no pixel.
pub proof fn lemma_parts(r: Region, dir: SplitDirection, ratio: u32)
    requires
        r.wf(),
        ratio <= SPLIT_SCALE,
    ensures
        r.first_part(dir, ratio).wf(),
        r.second_part(dir, ratio).wf(),
        r.first_part(dir, ratio).inside(r),
        r.second_part(dir, ratio).inside(r),
        r.first_part(dir, ratio).disjoint(r.second_part(dir, ratio)),
{
    lemma_split_len(r, dir, ratio);
}

/// A region inside another lies in everything that the other lies in.
pub proof fn lemma_inside_trans(a: Region, b: Region, c: Region)
    requires
        a.inside(b),
        b.inside(c),
    ensures
        a.inside(c),
{
}

/// Regions inside two disjoint regions are disjoint.
pub proof fn lemma_disjoint_inside(a: Region, b: Region, a2: Region, b2: Region)
    requires
        a.disjoint(b),
        a2.inside(a),
        b2.inside(b),
    ensures
        a2.disjoint(b2),
{
}

} // verus!
