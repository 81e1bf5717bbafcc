//! The avatar: a single position, moved one cell at a time, with each
//! move gated on landing strictly inside some room's interior.

use crate::canvas::Canvas;
use crate::geometry::{Position, Rectangle};
use crate::room::Room;
use vstd::prelude::*;

verus! {

/// The glyph the avatar is drawn with.
pub const AVATAR_GLYPH: char = '@';

/// A directional input event.
#[derive(Debug, Copy, Clone, PartialEq, Eq, Structural)]
pub enum Direction {
    Up,
    Right,
    Down,
    Left,
}

/// The unit step along the x axis for a direction.
pub open spec fn spec_dx(direction: Direction) -> int {
    match direction {
        Direction::Left => -1,
        Direction::Right => 1,
        Direction::Up => 0,
        Direction::Down => 0,
    }
}

/// The unit step along the y axis for a direction. The y axis grows
/// downward, so `Up` is `-1`.
pub open spec fn spec_dy(direction: Direction) -> int {
    match direction {
        Direction::Up => -1,
        Direction::Down => 1,
        Direction::Left => 0,
        Direction::Right => 0,
    }
}

/// Whether some room of `rooms` has the world cell (`x`, `y`) strictly in
/// its interior.
pub open spec fn some_room_interior_at(rooms: Seq<Room>, x: int, y: int) -> bool {
    exists|k: int| 0 <= k < rooms.len() && rooms[k].interior_at(x, y)
}

/// The avatar.
#[derive(Debug, Copy, Clone, PartialEq, Eq, Structural)]
pub struct Player {
    pub location: Position,
}

impl Player {
    pub fn new_unchecked(location: Position) -> (r: Player)
        ensures
            r.location == location,
    {
        Player { location }
    }

    pub fn set_location_unchecked(&mut self, location: Position)
        ensures
            final(self).location == location,
    {
        self.location = location;
    }

    pub fn x(&self) -> (r: isize)
        ensures
            r == self.location.x,
    {
        self.location.x
    }

    pub fn y(&self) -> (r: isize)
        ensures
            r == self.location.y,
    {
        self.location.y
    }

    /// Draws the avatar at its viewport-relative position, which must lie
    /// on the canvas.
    pub fn draw(&self, screen: Rectangle, draw: &mut Canvas)
        requires
            screen.wf(),
            old(draw).wf(),
            screen.spec_width() == old(draw).spec_columns(),
            screen.spec_height() == old(draw).spec_rows(),
            screen.top_left.x <= self.location.x < screen.bottom_right.x,
            screen.top_left.y <= self.location.y < screen.bottom_right.y,
        ensures
            final(draw).wf(),
            final(draw).spec_columns() == old(draw).spec_columns(),
            final(draw).spec_rows() == old(draw).spec_rows(),
            forall|i: int, j: int|
                0 <= i < old(draw).spec_rows() && 0 <= j < old(draw).spec_columns()
                    ==> final(draw).at(i, j) == (if i == self.location.y - screen.top_left.y
                    && j == self.location.x - screen.top_left.x {
                    AVATAR_GLYPH
                } else {
                    old(draw).at(i, j)
                }),
    {
        let col = self.location.x - screen.top_left.x;
        let row = self.location.y - screen.top_left.y;
        draw.set(row, col, AVATAR_GLYPH);
    }

    /// Attempts a one-cell move. The move lands iff the candidate cell
    /// lies strictly inside the interior of at least one room; otherwise
    /// the position is unchanged.
    pub fn move_by(&mut self, direction: Direction, rooms: &[Room])
        requires
            isize::MIN < old(self).location.x < isize::MAX,
            isize::MIN < old(self).location.y < isize::MAX,
            forall|k: int| 0 <= k < rooms@.len() ==> (#[trigger] rooms@[k]).bounds.wf(),
        ensures
            ({
                let nx = old(self).location.x + spec_dx(direction);
                let ny = old(self).location.y + spec_dy(direction);
                final(self).location == (if some_room_interior_at(rooms@, nx, ny) {
                    Position { x: nx as isize, y: ny as isize }
                } else {
                    old(self).location
                })
            }),
    {
        let next_loc = match direction {
            Direction::Up => self.location.move_by((0, -1)),
            Direction::Down => self.location.move_by((0, 1)),
            Direction::Left => self.location.move_by((-1, 0)),
            Direction::Right => self.location.move_by((1, 0)),
        };
        if any_room_contains(rooms, next_loc) {
            self.location = next_loc;
        }
    }
}

/// Whether some room of `rooms` has `point` strictly in its interior.
pub fn any_room_contains(rooms: &[Room], point: Position) -> (r: bool)
    requires
        forall|k: int| 0 <= k < rooms@.len() ==> (#[trigger] rooms@[k]).bounds.wf(),
    ensures
        r == some_room_interior_at(rooms@, point.x as int, point.y as int),
{
    let n = rooms.len();
    let mut k: usize = 0;
    while k < n
        invariant
            k <= n,
            n == rooms@.len(),
            forall|m: int| 0 <= m < rooms@.len() ==> (#[trigger] rooms@[m]).bounds.wf(),
            forall|m: int| 0 <= m < k ==> !(#[trigger] rooms@[m]).spec_contains(point),
        decreases n - k,
    {
        if rooms[k].contains(point) {
            return true;
        }
        k = k + 1;
    }
    false
}

} // verus!
