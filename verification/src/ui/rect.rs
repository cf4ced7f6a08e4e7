//! Rectangular screen areas in terminal cells.

use vstd::prelude::*;

verus! {

/// Largest coordinate of the terminal grid.
pub const COORD_MAX: u16 = 65535;

/// The smaller of two integers.
pub open spec fn min_int(a: int, b: int) -> int {
    if a <= b { a } else { b }
}

/// The larger of two integers.
pub open spec fn max_int(a: int, b: int) -> int {
    if a >= b { a } else { b }
}

/// `a - b`, or zero where that would be negative.
pub open spec fn sub0(a: int, b: int) -> int {
    if a >= b { a - b } else { 0 }
}

/// `a + b`, held at `limit` where it would pass it.
pub open spec fn add_upto(a: int, b: int, limit: int) -> int {
    if a + b > limit { limit } else { a + b }
}

/// `a + b` for cell coordinates, held at the largest coordinate.
pub open spec fn add16(a: int, b: int) -> int {
    add_upto(a, b, COORD_MAX as int)
}

/// A rectangle of terminal cells: its top-left corner and its size.
#[derive(Clone, Copy, Debug, PartialEq, Eq, Structural)]
pub struct Rect {
    pub x: u16,
    pub y: u16,
    pub width: u16,
    pub height: u16,
}

impl Rect {
    /// The rectangle with no position and no area.
    pub fn zero() -> (r: Rect)
        ensures
            r == (Rect { x: 0, y: 0, width: 0, height: 0 }),
    {
        Rect { x: 0, y: 0, width: 0, height: 0 }
    }

    /// A rectangle at `(x, y)`, its width and height cut so that its right and
    /// bottom edges stay on the grid.
    pub open spec fn placed(x: int, y: int, width: int, height: int) -> Rect {
        Rect {
            x: x as u16,
            y: y as u16,
            width: min_int(width, COORD_MAX - x) as u16,
            height: min_int(height, COORD_MAX - y) as u16,
        }
    }

    /// A rectangle at `(x, y)`; see `placed`.
    pub fn new(x: u16, y: u16, width: u16, height: u16) -> (r: Rect)
        ensures
            r == Rect::placed(x as int, y as int, width as int, height as int),
    {
        let max_width = COORD_MAX - x;
        let max_height = COORD_MAX - y;
        let width = if width > max_width { max_width } else { width };
        let height = if height > max_height { max_height } else { height };
        Rect { x, y, width, height }
    }

    /// The first column to the right of the rectangle.
    pub open spec fn right_spec(self) -> int {
        add16(self.x as int, self.width as int)
    }

    /// The first row below the rectangle.
    pub open spec fn bottom_spec(self) -> int {
        add16(self.y as int, self.height as int)
    }

    /// The first column to the right of the rectangle.
    pub fn right(self) -> (r: u16)
        ensures
            r == self.right_spec(),
    {
        self.x.saturating_add(self.width)
    }

    /// The first row below the rectangle.
    pub fn bottom(self) -> (r: u16)
        ensures
            r == self.bottom_spec(),
    {
        self.y.saturating_add(self.height)
    }

    /// Whether the rectangle covers no cell.
    pub fn is_empty(self) -> (r: bool)
        ensures
            r == (self.width == 0 || self.height == 0),
    {
        self.width == 0 || self.height == 0
    }

    /// Whether the cell `(px, py)` lies inside the rectangle.
    pub open spec fn contains_spec(self, px: int, py: int) -> bool {
        &&& self.x <= px < self.right_spec()
        &&& self.y <= py < self.bottom_spec()
    }

    /// The rectangle shrunk by a margin on each side (each margin counted twice,
    /// held at the largest coordinate); the empty rectangle at the origin when the
    /// margins do not fit.
    pub open spec fn shrunk(self, vertical: int, horizontal: int) -> Rect {
        let dh = add16(horizontal, horizontal);
        let dv = add16(vertical, vertical);
        if self.width < dh || self.height < dv {
            Rect { x: 0, y: 0, width: 0, height: 0 }
        } else {
            Rect {
                x: add16(self.x as int, horizontal) as u16,
                y: add16(self.y as int, vertical) as u16,
                width: (self.width - dh) as u16,
                height: (self.height - dv) as u16,
            }
        }
    }

    /// The rectangle shrunk by a margin on each side; see `shrunk`.
    pub fn inner(self, vertical: u16, horizontal: u16) -> (r: Rect)
        ensures
            r == self.shrunk(vertical as int, horizontal as int),
    {
        let double_h = horizontal.saturating_add(horizontal);
        let double_v = vertical.saturating_add(vertical);
        if self.width < double_h || self.height < double_v {
            Rect::zero()
        } else {
            Rect {
                x: self.x.saturating_add(horizontal),
                y: self.y.saturating_add(vertical),
                width: self.width - double_h,
                height: self.height - double_v,
            }
        }
    }
}

} // verus!
