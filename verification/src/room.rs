//! Rooms: rectangles whose one-cell border is wall and whose strict
//! interior is walkable floor, with a viewport-relative draw routine.

use crate::canvas::Canvas;
use crate::geometry::{Position, Rectangle};
use vstd::prelude::*;

verus! {

/// The glyph a wall cell is drawn with.
pub const WALL_GLYPH: char = '#';

/// The glyph a floor (interior) cell is drawn with.
pub const FLOOR_GLYPH: char = '.';

/// A room. Its rectangle's one-cell border is the wall; everything
/// strictly inside the border is walkable floor.
#[derive(Debug, Copy, Clone, PartialEq, Eq, Structural)]
pub struct Room {
    pub bounds: Rectangle,
}

impl Room {
    /// The world cell (`x`, `y`) lies on the room's one-cell wall border.
    pub open spec fn wall_at(self, x: int, y: int) -> bool {
        let tl = self.bounds.top_left;
        let br = self.bounds.bottom_right;
        ||| ((y == tl.y || y == br.y - 1) && tl.x <= x < br.x)
        ||| ((x == tl.x || x == br.x - 1) && tl.y <= y < br.y)
    }

    /// The world cell (`x`, `y`) lies strictly inside the room, excluding
    /// the one-cell wall border on every side.
    pub open spec fn interior_at(self, x: int, y: int) -> bool {
        let tl = self.bounds.top_left;
        let br = self.bounds.bottom_right;
        &&& tl.x < x < br.x - 1
        &&& tl.y < y < br.y - 1
    }

    /// What the room draws at world cell (`x`, `y`): wall, floor, or
    /// nothing.
    pub open spec fn glyph_at(self, x: int, y: int) -> Option<char> {
        if self.wall_at(x, y) {
            Some(WALL_GLYPH)
        } else if self.interior_at(x, y) {
            Some(FLOOR_GLYPH)
        } else {
            None
        }
    }

    pub open spec fn spec_contains(self, point: Position) -> bool {
        self.interior_at(point.x as int, point.y as int)
    }

    pub fn new(bounds: Rectangle) -> (r: Room)
        requires
            bounds.wf(),
        ensures
            r.bounds == bounds,
    {
        Room { bounds }
    }

    /// Whether `point` is strictly inside the room, off the wall border.
    pub fn contains(&self, point: Position) -> (r: bool)
        requires
            self.bounds.wf(),
        ensures
            r == self.spec_contains(point),
    {
        point.x > self.bounds.top_left.x && point.x < self.bounds.bottom_right.x - 1
            && point.y > self.bounds.top_left.y && point.y < self.bounds.bottom_right.y - 1
    }

    /// Draws the room onto `draw`, relative to the world-space viewport
    /// `screen`: `#` along the wall border, `.` over the interior, every
    /// cell clipped to the canvas. Cells the room does not cover keep
    /// their glyph.
    pub fn draw(&self, screen: Rectangle, draw: &mut Canvas)
        requires
            self.bounds.wf(),
            screen.wf(),
            old(draw).wf(),
            screen.spec_width() == old(draw).spec_columns(),
            screen.spec_height() == old(draw).spec_rows(),
            isize::MIN <= self.bounds.top_left.x - screen.top_left.x,
            isize::MIN <= self.bounds.top_left.y - screen.top_left.y,
            self.bounds.bottom_right.x - screen.top_left.x <= isize::MAX,
            self.bounds.bottom_right.y - screen.top_left.y <= isize::MAX,
        ensures
            final(draw).wf(),
            final(draw).spec_columns() == old(draw).spec_columns(),
            final(draw).spec_rows() == old(draw).spec_rows(),
            forall|i: int, j: int|
                0 <= i < old(draw).spec_rows() && 0 <= j < old(draw).spec_columns()
                    ==> final(draw).at(i, j) == (match self.glyph_at(
                    j + screen.top_left.x,
                    i + screen.top_left.y,
                ) {
                    Some(g) => g,
                    None => old(draw).at(i, j),
                }),
    {
        let bounds = self.bounds;
        // Discard the room when it cannot meet the screen.
        if screen.top_left.x > bounds.bottom_right.x || screen.top_left.y
            > bounds.bottom_right.y || screen.bottom_right.x < bounds.top_left.x
            || screen.bottom_right.y < bounds.top_left.y {
            proof {
                lemma_render_culling(*self, screen);
            }
            return;
        }
        let cols = draw.columns();
        let rows = draw.rows();
        // The room's corners in screen-local coordinates.
        let left_x = bounds.top_left.x - screen.top_left.x;
        let top_y = bounds.top_left.y - screen.top_left.y;
        let right_x = bounds.bottom_right.x - screen.top_left.x;
        let bottom_y = bounds.bottom_right.y - screen.top_left.y;
        let ghost d0 = *draw;
        // Top wall row, culled and clipped to the canvas.
        if top_y >= 0 && top_y < rows {
            let l = if left_x > 0 { left_x } else { 0 };
            let r = if right_x < cols { right_x } else { cols };
            fill_row(draw, top_y, l, r, WALL_GLYPH);
        }
        let ghost d1 = *draw;
        assert(forall|i: int, j: int|
            0 <= i < rows && 0 <= j < cols ==> d1.at(i, j) == (if i + screen.top_left.y
                == bounds.top_left.y && bounds.top_left.x <= j + screen.top_left.x
                < bounds.bottom_right.x {
                WALL_GLYPH
            } else {
                d0.at(i, j)
            }));
        // Bottom wall row.
        let bot = bottom_y - 1;
        if bot >= 0 && bot < rows {
            let l = if left_x > 0 { left_x } else { 0 };
            let r = if right_x < cols { right_x } else { cols };
            fill_row(draw, bot, l, r, WALL_GLYPH);
        }
        let ghost d2 = *draw;
        assert(forall|i: int, j: int|
            0 <= i < rows && 0 <= j < cols ==> d2.at(i, j) == (if i + screen.top_left.y
                == bounds.bottom_right.y - 1 && bounds.top_left.x <= j + screen.top_left.x
                < bounds.bottom_right.x {
                WALL_GLYPH
            } else {
                d1.at(i, j)
            }));
        // Left wall column.
        if left_x >= 0 && left_x < cols {
            let t = if top_y > 0 { top_y } else { 0 };
            let b = if bottom_y < rows { bottom_y } else { rows };
            fill_column(draw, left_x, t, b, WALL_GLYPH);
        }
        let ghost d3 = *draw;
        assert(forall|i: int, j: int|
            0 <= i < rows && 0 <= j < cols ==> d3.at(i, j) == (if j + screen.top_left.x
                == bounds.top_left.x && bounds.top_left.y <= i + screen.top_left.y
                < bounds.bottom_right.y {
                WALL_GLYPH
            } else {
                d2.at(i, j)
            }));
        // Right wall column.
        let rt = right_x - 1;
        if rt >= 0 && rt < cols {
            let t = if top_y > 0 { top_y } else { 0 };
            let b = if bottom_y < rows { bottom_y } else { rows };
            fill_column(draw, rt, t, b, WALL_GLYPH);
        }
        let ghost d4 = *draw;
        assert(forall|i: int, j: int|
            0 <= i < rows && 0 <= j < cols ==> d4.at(i, j) == (if j + screen.top_left.x
                == bounds.bottom_right.x - 1 && bounds.top_left.y <= i + screen.top_left.y
                < bounds.bottom_right.y {
                WALL_GLYPH
            } else {
                d3.at(i, j)
            }));
        // Interior floor, clipped to the canvas.
        let il = if left_x + 1 > 0 { left_x + 1 } else { 0 };
        let ir = if right_x - 1 < cols { right_x - 1 } else { cols };
        let it = if top_y + 1 > 0 { top_y + 1 } else { 0 };
        let ib = if bottom_y - 1 < rows { bottom_y - 1 } else { rows };
        fill_rect(draw, il, ir, it, ib, FLOOR_GLYPH);
        proof {
            assert forall|i: int, j: int| 0 <= i < rows && 0 <= j < cols implies draw.at(i, j) == (
            match self.glyph_at(j + screen.top_left.x, i + screen.top_left.y) {
                Some(g) => g,
                None => d0.at(i, j),
            }) by {
                let x = j + screen.top_left.x;
                let y = i + screen.top_left.y;
                assert(draw.at(i, j) == (if self.interior_at(x, y) {
                    FLOOR_GLYPH
                } else {
                    d4.at(i, j)
                }));
            }
        }
    }

    /// A uniformly random walkable location in the room's interior.
    pub fn random_location(&self, rng: &mut rand::rngs::StdRng) -> (r: Position)
        requires
            self.bounds.wf(),
            self.bounds.spec_width() > 2,
            self.bounds.spec_height() > 2,
        ensures
            self.spec_contains(r),
    {
        let interior = self.bounds.shrink(1).unwrap();
        interior.random_location(rng)
    }
}

/// Writes `glyph` across row `row` of the canvas, at columns
/// `left..right`; an empty range writes nothing.
fn fill_row(draw: &mut Canvas, row: isize, left: isize, right: isize, glyph: char)
    requires
        old(draw).wf(),
        0 <= row < old(draw).spec_rows(),
        0 <= left,
        right <= old(draw).spec_columns(),
    ensures
        final(draw).wf(),
        final(draw).spec_columns() == old(draw).spec_columns(),
        final(draw).spec_rows() == old(draw).spec_rows(),
        forall|i: int, j: int|
            0 <= i < old(draw).spec_rows() && 0 <= j < old(draw).spec_columns() ==> final(draw).at(
                i,
                j,
            ) == (if i == row && left <= j < right {
                glyph
            } else {
                old(draw).at(i, j)
            }),
{
    let mut c = left;
    while c < right
        invariant
            draw.wf(),
            draw.spec_columns() == old(draw).spec_columns(),
            draw.spec_rows() == old(draw).spec_rows(),
            0 <= row < draw.spec_rows(),
            0 <= left <= c,
            c <= right || c == left,
            right <= draw.spec_columns(),
            forall|i: int, j: int|
                0 <= i < draw.spec_rows() && 0 <= j < draw.spec_columns() ==> draw.at(i, j) == (
                if i == row && left <= j < c {
                    glyph
                } else {
                    old(draw).at(i, j)
                }),
        decreases right - c,
    {
        draw.set(row, c, glyph);
        c = c + 1;
    }
}

/// Writes `glyph` down column `col` of the canvas, at rows `top..bottom`;
/// an empty range writes nothing.
fn fill_column(draw: &mut Canvas, col: isize, top: isize, bottom: isize, glyph: char)
    requires
        old(draw).wf(),
        0 <= col < old(draw).spec_columns(),
        0 <= top,
        bottom <= old(draw).spec_rows(),
    ensures
        final(draw).wf(),
        final(draw).spec_columns() == old(draw).spec_columns(),
        final(draw).spec_rows() == old(draw).spec_rows(),
        forall|i: int, j: int|
            0 <= i < old(draw).spec_rows() && 0 <= j < old(draw).spec_columns() ==> final(draw).at(
                i,
                j,
            ) == (if j == col && top <= i < bottom {
                glyph
            } else {
                old(draw).at(i, j)
            }),
{
    let mut r = top;
    while r < bottom
        invariant
            draw.wf(),
            draw.spec_columns() == old(draw).spec_columns(),
            draw.spec_rows() == old(draw).spec_rows(),
            0 <= col < draw.spec_columns(),
            0 <= top <= r,
            r <= bottom || r == top,
            bottom <= draw.spec_rows(),
            forall|i: int, j: int|
                0 <= i < draw.spec_rows() && 0 <= j < draw.spec_columns() ==> draw.at(i, j) == (
                if j == col && top <= i < r {
                    glyph
                } else {
                    old(draw).at(i, j)
                }),
        decreases bottom - r,
    {
        draw.set(r, col, glyph);
        r = r + 1;
    }
}

/// Writes `glyph` over the cells `top..bottom` by `left..right`; an empty
/// range on either axis writes nothing.
fn fill_rect(draw: &mut Canvas, left: isize, right: isize, top: isize, bottom: isize, glyph: char)
    requires
        old(draw).wf(),
        0 <= left,
        right <= old(draw).spec_columns(),
        0 <= top,
        bottom <= old(draw).spec_rows(),
    ensures
        final(draw).wf(),
        final(draw).spec_columns() == old(draw).spec_columns(),
        final(draw).spec_rows() == old(draw).spec_rows(),
        forall|i: int, j: int|
            0 <= i < old(draw).spec_rows() && 0 <= j < old(draw).spec_columns() ==> final(draw).at(
                i,
                j,
            ) == (if left <= j < right && top <= i < bottom {
                glyph
            } else {
                old(draw).at(i, j)
            }),
{
    let mut c = left;
    while c < right
        invariant
            draw.wf(),
            draw.spec_columns() == old(draw).spec_columns(),
            draw.spec_rows() == old(draw).spec_rows(),
            0 <= left <= c,
            c <= right || c == left,
            right <= draw.spec_columns(),
            0 <= top,
            bottom <= draw.spec_rows(),
            forall|i: int, j: int|
                0 <= i < draw.spec_rows() && 0 <= j < draw.spec_columns() ==> draw.at(i, j) == (
                if left <= j < c && top <= i < bottom {
                    glyph
                } else {
                    old(draw).at(i, j)
                }),
        decreases right - c,
    {
        fill_column(draw, c, top, bottom, glyph);
        c = c + 1;
    }
}

/// A room that lies entirely outside the screen rectangle draws no glyph
/// at any on-screen world cell.
pub proof fn lemma_render_culling(room: Room, screen: Rectangle)
    requires
        room.bounds.wf(),
        room.bounds.bottom_right.x <= screen.top_left.x || screen.bottom_right.x
            <= room.bounds.top_left.x || room.bounds.bottom_right.y <= screen.top_left.y
            || screen.bottom_right.y <= room.bounds.top_left.y,
    ensures
        forall|x: int, y: int|
            screen.top_left.x <= x < screen.bottom_right.x && screen.top_left.y <= y
                < screen.bottom_right.y ==> room.glyph_at(x, y) is None,
{
    assert forall|x: int, y: int|
        screen.top_left.x <= x < screen.bottom_right.x && screen.top_left.y <= y
            < screen.bottom_right.y implies room.glyph_at(x, y) is None by {
        let tl = room.bounds.top_left;
        let br = room.bounds.bottom_right;
        assert(room.glyph_at(x, y) is Some ==> tl.x <= x < br.x && tl.y <= y < br.y);
    }
}

} // verus!
