//! Rectangles of terminal cells.

use vstd::prelude::*;

verus! {

/// A rectangle of character cells: its top-left corner and its extent.
#[derive(Clone, Copy, Debug, PartialEq, Eq, Structural, Hash, Default)]
pub struct Rect {
    pub x: u16,
    pub y: u16,
    pub width: u16,
    pub height: u16,
}

impl Rect {
    /// The first column to the right of the rectangle, held at `u16::MAX`.
    pub open spec fn spec_right(self) -> int {
        if self.x + self.width > u16::MAX {
            u16::MAX as int
        } else {
            self.x + self.width
        }
    }

    /// The first row below the rectangle, held at `u16::MAX`.
    pub open spec fn spec_bottom(self) -> int {
        if self.y + self.height > u16::MAX {
            u16::MAX as int
        } else {
            self.y + self.height
        }
    }

    /// Whether the cell `(x, y)` lies in the rectangle.
    pub open spec fn spec_contains(self, x: int, y: int) -> bool {
        &&& self.x <= x < self.spec_right()
        &&& self.y <= y < self.spec_bottom()
    }

    /// Whether every cell of `self` lies in `outer`.
    pub open spec fn spec_within(self, outer: Rect) -> bool {
        forall|x: int, y: int| #[trigger] self.spec_contains(x, y) ==> outer.spec_contains(x, y)
    }

    /// The rectangle of the cells that lie in both.
    pub open spec fn spec_intersection(self, other: Rect) -> Rect {
        let x1 = if self.x >= other.x { self.x } else { other.x };
        let y1 = if self.y >= other.y { self.y } else { other.y };
        let x2 = if self.spec_right() <= other.spec_right() {
            self.spec_right()
        } else {
            other.spec_right()
        };
        let y2 = if self.spec_bottom() <= other.spec_bottom() {
            self.spec_bottom()
        } else {
            other.spec_bottom()
        };
        Rect {
            x: x1,
            y: y1,
            width: if x2 >= x1 { (x2 - x1) as u16 } else { 0 },
            height: if y2 >= y1 { (y2 - y1) as u16 } else { 0 },
        }
    }

    /// Whether the rectangle has no cell.
    pub open spec fn spec_is_empty(self) -> bool {
        self.width == 0 || self.height == 0
    }

    /// The rectangle with its corner at `(x, y)`.
    pub fn new(x: u16, y: u16, width: u16, height: u16) -> (r: Rect)
        ensures
            r == (Rect { x, y, width, height }),
    {
        Rect { x, y, width, height }
    }

    /// The first column to the right of the rectangle, held at `u16::MAX`.
    pub fn right(self) -> (r: u16)
        ensures
            r == self.spec_right(),
    {
        self.x.saturating_add(self.width)
    }

    /// The first row below the rectangle, held at `u16::MAX`.
    pub fn bottom(self) -> (r: u16)
        ensures
            r == self.spec_bottom(),
    {
        self.y.saturating_add(self.height)
    }

    /// Whether the rectangle has no cell.
    pub fn is_empty(self) -> (b: bool)
        ensures
            b == self.spec_is_empty(),
    {
        self.width == 0 || self.height == 0
    }

    /// Whether the cell `(x, y)` lies in the rectangle.
    pub fn contains(self, x: u16, y: u16) -> (b: bool)
        ensures
            b == self.spec_contains(x as int, y as int),
    {
        x >= self.x && x < self.right() && y >= self.y && y < self.bottom()
    }

    /// The common part of two rectangles. It is empty where they do not
    /// meet, and every cell of it lies in both.
    pub fn intersection(self, other: Rect) -> (r: Rect)
        ensures
            r == self.spec_intersection(other),
            forall|x: int, y: int|
                r.spec_contains(x, y) <==> self.spec_contains(x, y) && other.spec_contains(x, y),
    {
        let x1: u16 = if self.x >= other.x { self.x } else { other.x };
        let y1: u16 = if self.y >= other.y { self.y } else { other.y };
        let x2: u16 = if self.right() <= other.right() { self.right() } else { other.right() };
        let y2: u16 = if self.bottom() <= other.bottom() { self.bottom() } else { other.bottom() };
        Rect {
            x: x1,
            y: y1,
            width: if x2 >= x1 { x2 - x1 } else { 0 },
            height: if y2 >= y1 { y2 - y1 } else { 0 },
        }
    }
}

/// Every cell of an intersection lies in each of the two rectangles.
pub proof fn lemma_intersection_within(a: Rect, b: Rect)
    ensures
        a.spec_intersection(b).spec_within(a),
        a.spec_intersection(b).spec_within(b),
{
}

} // verus!
