//! Points and axis-aligned rectangles on the integer grid.

use crate::randomness::rand_range;
use vstd::prelude::*;

verus! {

/// A point in world or screen space, measured in cells.
#[derive(Debug, Copy, Clone, PartialEq, Eq, Structural)]
pub struct Position {
    pub x: isize,
    pub y: isize,
}

impl Position {
    /// Pure translation by `(dx, dy)`; bounds are the caller's concern.
    pub fn move_by(self, delta: (isize, isize)) -> (r: Position)
        requires
            isize::MIN <= self.x + delta.0 <= isize::MAX,
            isize::MIN <= self.y + delta.1 <= isize::MAX,
        ensures
            r.x == self.x + delta.0,
            r.y == self.y + delta.1,
    {
        Position { x: self.x + delta.0, y: self.y + delta.1 }
    }
}

/// An axis-aligned rectangle. `bottom_right` lies one cell past the last
/// cell of the rectangle on each axis.
#[derive(Debug, Copy, Clone, PartialEq, Eq, Structural)]
pub struct Rectangle {
    pub top_left: Position,
    pub bottom_right: Position,
}

impl Rectangle {
    /// A rectangle is well formed when both extents are positive and each
    /// fits in `isize`.
    pub open spec fn wf(self) -> bool {
        &&& self.top_left.x < self.bottom_right.x
        &&& self.top_left.y < self.bottom_right.y
        &&& self.bottom_right.x - self.top_left.x <= isize::MAX
        &&& self.bottom_right.y - self.top_left.y <= isize::MAX
    }

    pub open spec fn spec_width(self) -> int {
        self.bottom_right.x - self.top_left.x
    }

    pub open spec fn spec_height(self) -> int {
        self.bottom_right.y - self.top_left.y
    }

    /// Builds the rectangle spanned by the two corners. Corners that are
    /// reversed or coincide on either axis make no rectangle.
    pub fn new(top_left: Position, bottom_right: Position) -> (r: Option<Rectangle>)
        requires
            bottom_right.x - top_left.x <= isize::MAX,
            bottom_right.y - top_left.y <= isize::MAX,
        ensures
            r is Some <==> top_left.x < bottom_right.x && top_left.y < bottom_right.y,
            r matches Some(rect) ==> {
                &&& rect.top_left == top_left
                &&& rect.bottom_right == bottom_right
                &&& rect.wf()
            },
    {
        if top_left.x < bottom_right.x && top_left.y < bottom_right.y {
            Some(Rectangle { top_left, bottom_right })
        } else {
            None
        }
    }

    /// The horizontal extent; positive on every well-formed rectangle.
    pub fn width(&self) -> (r: isize)
        requires
            self.wf(),
        ensures
            r == self.spec_width(),
            r > 0,
    {
        self.bottom_right.x - self.top_left.x
    }

    /// The vertical extent; positive on every well-formed rectangle.
    pub fn height(&self) -> (r: isize)
        requires
            self.wf(),
        ensures
            r == self.spec_height(),
            r > 0,
    {
        self.bottom_right.y - self.top_left.y
    }

    /// Moves every corner inward by `amount` on each axis. A rectangle
    /// whose width or height would not stay positive cannot be shrunk.
    pub fn shrink(self, amount: isize) -> (r: Option<Rectangle>)
        requires
            self.wf(),
            0 <= amount,
        ensures
            r is Some <==> self.spec_width() > 2 * amount && self.spec_height() > 2 * amount,
            r matches Some(rect) ==> {
                &&& rect.top_left.x == self.top_left.x + amount
                &&& rect.top_left.y == self.top_left.y + amount
                &&& rect.bottom_right.x == self.bottom_right.x - amount
                &&& rect.bottom_right.y == self.bottom_right.y - amount
                &&& rect.wf()
                &&& amount > 0 ==> {
                    &&& self.top_left.x < rect.top_left.x
                    &&& self.top_left.y < rect.top_left.y
                    &&& rect.bottom_right.x < self.bottom_right.x
                    &&& rect.bottom_right.y < self.bottom_right.y
                }
            },
    {
        let w = self.width();
        let h = self.height();
        if amount < w - amount && amount < h - amount {
            Some(Rectangle {
                top_left: Position { x: self.top_left.x + amount, y: self.top_left.y + amount },
                bottom_right: Position {
                    x: self.bottom_right.x - amount,
                    y: self.bottom_right.y - amount,
                },
            })
        } else {
            None
        }
    }

    /// A location drawn uniformly at random from the rectangle, half-open
    /// on each axis and independent per axis.
    pub fn random_location(&self, rng: &mut rand::rngs::StdRng) -> (r: Position)
        requires
            self.wf(),
        ensures
            self.top_left.x <= r.x < self.bottom_right.x,
            self.top_left.y <= r.y < self.bottom_right.y,
    {
        Position {
            x: rand_range(rng, self.top_left.x, self.bottom_right.x),
            y: rand_range(rng, self.top_left.y, self.bottom_right.y),
        }
    }
}

} // verus!
