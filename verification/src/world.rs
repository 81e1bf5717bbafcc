//! The world: overall dimensions, the room list and the avatar, with the
//! generation procedure, movement, and per-frame drawing.

use crate::canvas::Canvas;
use crate::geometry::{Position, Rectangle};
use crate::player::{
    any_room_contains, some_room_interior_at, spec_dx, spec_dy, Direction, Player, AVATAR_GLYPH,
};
use crate::randomness::rand_range;
use crate::room::Room;
use rand::seq::SliceRandom;
use vstd::prelude::*;

verus! {

/// Smallest generated room extent, walls included.
pub const MIN_ROOM_SIZE: isize = 4;

/// One past the largest generated room extent, walls included.
pub const MAX_ROOM_SIZE: isize = 15;

/// World cells per generated room.
pub const CELLS_PER_ROOM: isize = 300;

/// A room whose rectangle is well formed and placed inside a
/// `width`-by-`height` world.
pub open spec fn room_within(room: Room, width: int, height: int) -> bool {
    &&& room.bounds.wf()
    &&& 0 <= room.bounds.top_left.x
    &&& 0 <= room.bounds.top_left.y
    &&& room.bounds.bottom_right.x <= width
    &&& room.bounds.bottom_right.y <= height
}

/// What the rooms of `rooms`, drawn in list order, leave at world cell
/// (`x`, `y`): a later room's glyph overwrites an earlier one's.
pub open spec fn rooms_glyph_at(rooms: Seq<Room>, x: int, y: int) -> Option<char>
    decreases rooms.len(),
{
    if rooms.len() == 0 {
        None
    } else {
        match rooms.last().glyph_at(x, y) {
            Some(g) => Some(g),
            None => rooms_glyph_at(rooms.drop_last(), x, y),
        }
    }
}

/// Relies on rand's `SliceRandom::choose`: `Some` of one of the slice's
/// elements when the slice is nonempty, `None` when it is empty.
#[verifier::external_body]
fn pick_room(rooms: &Vec<Room>, rng: &mut rand::rngs::StdRng) -> (r: Option<Room>)
    ensures
        r is Some <==> rooms@.len() > 0,
        r matches Some(room) ==> exists|k: int| 0 <= k < rooms@.len() && rooms@[k] == room,
{
    rooms.choose(rng).copied()
}

/// The world. Rooms are immutable after generation; only the avatar
/// moves.
#[derive(Debug, Clone, PartialEq)]
pub struct World {
    width: isize,
    height: isize,
    player: Player,
    rooms: Vec<Room>,
}

impl World {
    pub closed spec fn spec_width(self) -> int {
        self.width as int
    }

    pub closed spec fn spec_height(self) -> int {
        self.height as int
    }

    pub closed spec fn spec_rooms(self) -> Seq<Room> {
        self.rooms@
    }

    pub closed spec fn spec_player(self) -> Player {
        self.player
    }

    /// Well-formedness: positive dimensions, at least one room, every
    /// room placed inside the bounds, and the avatar strictly inside the
    /// interior of some room.
    pub open spec fn wf(self) -> bool {
        &&& 0 < self.spec_width()
        &&& 0 < self.spec_height()
        &&& 0 < self.spec_rooms().len()
        &&& forall|k: int|
            0 <= k < self.spec_rooms().len() ==> room_within(
                #[trigger] self.spec_rooms()[k],
                self.spec_width(),
                self.spec_height(),
            )
        &&& some_room_interior_at(
            self.spec_rooms(),
            self.spec_player().location.x as int,
            self.spec_player().location.y as int,
        )
    }

    pub fn width(&self) -> (r: isize)
        ensures
            r == self.spec_width(),
    {
        self.width
    }

    pub fn height(&self) -> (r: isize)
        ensures
            r == self.spec_height(),
    {
        self.height
    }

    pub fn rooms(&self) -> (r: &Vec<Room>)
        ensures
            r@ == self.spec_rooms(),
    {
        &self.rooms
    }

    pub fn player(&self) -> (r: &Player)
        ensures
            *r == self.spec_player(),
    {
        &self.player
    }

    /// Builds a world from parts, checking everything well-formedness
    /// demands; any failed check builds nothing.
    pub fn new(width: isize, height: isize, rooms: Vec<Room>, player: Player) -> (r: Option<
        World,
    >)
        ensures
            r is Some <==> {
                &&& 0 < width
                &&& 0 < height
                &&& 0 < rooms@.len()
                &&& forall|k: int|
                    0 <= k < rooms@.len() ==> room_within(
                        #[trigger] rooms@[k],
                        width as int,
                        height as int,
                    )
                &&& some_room_interior_at(
                    rooms@,
                    player.location.x as int,
                    player.location.y as int,
                )
            },
            r matches Some(w) ==> {
                &&& w.wf()
                &&& w.spec_width() == width
                &&& w.spec_height() == height
                &&& w.spec_rooms() == rooms@
                &&& w.spec_player() == player
            },
    {
        if width <= 0 || height <= 0 {
            return None;
        }
        if rooms.len() == 0 {
            return None;
        }
        let n = rooms.len();
        let mut k: usize = 0;
        while k < n
            invariant
                k <= n,
                n == rooms@.len(),
                forall|m: int|
                    0 <= m < k ==> room_within(#[trigger] rooms@[m], width as int, height as int),
            decreases n - k,
        {
            let room = rooms[k];
            let ok = room.bounds.top_left.x >= 0 && room.bounds.top_left.y >= 0
                && room.bounds.top_left.x < room.bounds.bottom_right.x
                && room.bounds.top_left.y < room.bounds.bottom_right.y
                && room.bounds.bottom_right.x <= width && room.bounds.bottom_right.y <= height;
            if !ok {
                return None;
            }
            k = k + 1;
        }
        if !any_room_contains(rooms.as_slice(), player.location) {
            return None;
        }
        Some(World { width, height, player, rooms })
    }

    /// Procedurally generates a world: `width * height / CELLS_PER_ROOM`
    /// rooms with extents drawn uniformly from
    /// `[MIN_ROOM_SIZE, MAX_ROOM_SIZE)`, placed uniformly inside the
    /// bounds (rooms may overlap; that is accepted), and the avatar at a
    /// uniformly random interior cell of a uniformly chosen room.
    /// Dimensions too small to place a room, or too few cells for even
    /// one room, generate nothing.
    pub fn gen(width: isize, height: isize, rng: &mut rand::rngs::StdRng) -> (r: Option<World>)
        requires
            0 < width,
            0 < height,
            width * height <= isize::MAX,
        ensures
            r is Some <==> (MAX_ROOM_SIZE <= width && MAX_ROOM_SIZE <= height && 0 < width * height
                / (CELLS_PER_ROOM as int)),
            r matches Some(w) ==> {
                &&& w.wf()
                &&& w.spec_width() == width
                &&& w.spec_height() == height
                &&& w.spec_rooms().len() == width * height / (CELLS_PER_ROOM as int)
                &&& forall|k: int|
                    0 <= k < w.spec_rooms().len() ==> {
                        let room = #[trigger] w.spec_rooms()[k];
                        &&& room_within(room, width as int, height as int)
                        &&& MIN_ROOM_SIZE <= room.bounds.spec_width() < MAX_ROOM_SIZE
                        &&& MIN_ROOM_SIZE <= room.bounds.spec_height() < MAX_ROOM_SIZE
                    }
            },
    {
        if width < MAX_ROOM_SIZE || height < MAX_ROOM_SIZE {
            return None;
        }
        let num_rooms: usize = ((width as usize) * (height as usize)) / (CELLS_PER_ROOM as usize);
        if num_rooms == 0 {
            return None;
        }
        let mut rooms: Vec<Room> = Vec::new();
        let mut n: usize = 0;
        while n < num_rooms
            invariant
                n <= num_rooms,
                rooms@.len() == n,
                MAX_ROOM_SIZE <= width,
                MAX_ROOM_SIZE <= height,
                forall|k: int|
                    0 <= k < rooms@.len() ==> {
                        let room = #[trigger] rooms@[k];
                        &&& room_within(room, width as int, height as int)
                        &&& MIN_ROOM_SIZE <= room.bounds.spec_width() < MAX_ROOM_SIZE
                        &&& MIN_ROOM_SIZE <= room.bounds.spec_height() < MAX_ROOM_SIZE
                    },
            decreases num_rooms - n,
        {
            let room_width = rand_range(rng, MIN_ROOM_SIZE, MAX_ROOM_SIZE);
            let room_height = rand_range(rng, MIN_ROOM_SIZE, MAX_ROOM_SIZE);
            let left = rand_range(rng, 0, width - room_width);
            let top = rand_range(rng, 0, height - room_height);
            let room_rect = Rectangle::new(
                Position { x: left, y: top },
                Position { x: left + room_width, y: top + room_height },
            ).unwrap();
            rooms.push(Room::new(room_rect));
            n = n + 1;
        }
        let chosen = pick_room(&rooms, rng).unwrap();
        proof {
            let k = choose|k: int| 0 <= k < rooms@.len() && rooms@[k] == chosen;
        }
        let location = chosen.random_location(rng);
        let player = Player::new_unchecked(location);
        Some(World { width, height, player, rooms })
    }

    /// The world-space column of the viewport's left edge for a canvas
    /// `columns` wide: the viewport centers the avatar.
    pub open spec fn spec_screen_left(self, columns: int) -> int {
        self.spec_player().location.x - columns / 2
    }

    /// The world-space row of the viewport's top edge for a canvas
    /// `rows` tall.
    pub open spec fn spec_screen_top(self, rows: int) -> int {
        self.spec_player().location.y - rows / 2
    }

    /// Renders one frame onto `draw`: the viewport is centered on the
    /// avatar, every room draws itself in list order (later rooms
    /// overwrite earlier ones), and the avatar is drawn last. Cells no
    /// room covers keep their glyph.
    pub fn draw(&self, draw: &mut Canvas)
        requires
            self.wf(),
            old(draw).wf(),
            0 < old(draw).spec_columns(),
            0 < old(draw).spec_rows(),
            self.spec_width() + old(draw).spec_columns() <= isize::MAX,
            self.spec_height() + old(draw).spec_rows() <= isize::MAX,
        ensures
            final(draw).wf(),
            final(draw).spec_columns() == old(draw).spec_columns(),
            final(draw).spec_rows() == old(draw).spec_rows(),
            forall|i: int, j: int|
                0 <= i < old(draw).spec_rows() && 0 <= j < old(draw).spec_columns()
                    ==> final(draw).at(i, j) == ({
                    let x = j + self.spec_screen_left(old(draw).spec_columns());
                    let y = i + self.spec_screen_top(old(draw).spec_rows());
                    if x == self.spec_player().location.x && y == self.spec_player().location.y {
                        AVATAR_GLYPH
                    } else {
                        match rooms_glyph_at(self.spec_rooms(), x, y) {
                            Some(g) => g,
                            None => old(draw).at(i, j),
                        }
                    }
                }),
    {
        let cols = draw.columns();
        let rows = draw.rows();
        let half_w = ((cols as usize) / 2) as isize;
        let half_h = ((rows as usize) / 2) as isize;
        let px = self.player.x();
        let py = self.player.y();
        proof {
            let k = choose|k: int|
                0 <= k < self.spec_rooms().len() && self.spec_rooms()[k].interior_at(
                    self.spec_player().location.x as int,
                    self.spec_player().location.y as int,
                );
            assert(room_within(self.spec_rooms()[k], self.spec_width(), self.spec_height()));
        }
        let screen_left = px - half_w;
        let screen_top = py - half_h;
        let screen = Rectangle::new(
            Position { x: screen_left, y: screen_top },
            Position { x: screen_left + cols, y: screen_top + rows },
        ).unwrap();
        let ghost d0 = *draw;
        let n = self.rooms.len();
        let mut k: usize = 0;
        while k < n
            invariant
                k <= n,
                n == self.spec_rooms().len(),
                self.wf(),
                draw.wf(),
                d0.wf(),
                draw.spec_columns() == d0.spec_columns(),
                draw.spec_rows() == d0.spec_rows(),
                cols == d0.spec_columns(),
                rows == d0.spec_rows(),
                0 < cols,
                0 < rows,
                self.spec_width() + cols <= isize::MAX,
                self.spec_height() + rows <= isize::MAX,
                px == self.spec_player().location.x,
                py == self.spec_player().location.y,
                0 < px < self.spec_width() - 1,
                0 < py < self.spec_height() - 1,
                screen.top_left.x == self.spec_screen_left(cols as int),
                screen.top_left.y == self.spec_screen_top(rows as int),
                screen.bottom_right.x == screen.top_left.x + cols,
                screen.bottom_right.y == screen.top_left.y + rows,
                screen.wf(),
                forall|i: int, j: int|
                    0 <= i < rows && 0 <= j < cols ==> draw.at(i, j) == (match rooms_glyph_at(
                        self.spec_rooms().take(k as int),
                        j + screen.top_left.x,
                        i + screen.top_left.y,
                    ) {
                        Some(g) => g,
                        None => d0.at(i, j),
                    }),
            decreases n - k,
        {
            let room = self.rooms[k];
            let ghost before = *draw;
            room.draw(screen, draw);
            proof {
                let rs = self.spec_rooms();
                assert(rs.take(k as int + 1).drop_last() =~= rs.take(k as int));
                assert(rs.take(k as int + 1).last() == rs[k as int]);
                assert forall|i: int, j: int| 0 <= i < rows && 0 <= j < cols implies draw.at(i, j)
                    == (match rooms_glyph_at(
                    rs.take(k as int + 1),
                    j + screen.top_left.x,
                    i + screen.top_left.y,
                ) {
                    Some(g) => g,
                    None => d0.at(i, j),
                }) by {
                    assert(draw.at(i, j) == (match room.glyph_at(
                        j + screen.top_left.x,
                        i + screen.top_left.y,
                    ) {
                        Some(g) => g,
                        None => before.at(i, j),
                    }));
                }
            }
            k = k + 1;
        }
        proof {
            assert(self.spec_rooms().take(n as int) =~= self.spec_rooms());
        }
        self.player.draw(screen, draw);
    }

    /// Applies one directional input: the avatar takes the one-cell step
    /// iff the step lands strictly inside some room's interior; otherwise
    /// it stays where it is.
    pub fn move_player(&mut self, direction: Direction)
        requires
            old(self).wf(),
        ensures
            final(self).wf(),
            final(self).spec_width() == old(self).spec_width(),
            final(self).spec_height() == old(self).spec_height(),
            final(self).spec_rooms() == old(self).spec_rooms(),
            ({
                let nx = old(self).spec_player().location.x + spec_dx(direction);
                let ny = old(self).spec_player().location.y + spec_dy(direction);
                final(self).spec_player().location == (if some_room_interior_at(
                    old(self).spec_rooms(),
                    nx,
                    ny,
                ) {
                    Position { x: nx as isize, y: ny as isize }
                } else {
                    old(self).spec_player().location
                })
            }),
    {
        proof {
            let k = choose|k: int|
                0 <= k < self.spec_rooms().len() && self.spec_rooms()[k].interior_at(
                    self.spec_player().location.x as int,
                    self.spec_player().location.y as int,
                );
            assert(room_within(self.spec_rooms()[k], self.spec_width(), self.spec_height()));
            assert forall|m: int| 0 <= m < self.rooms@.len() implies (
            #[trigger] self.rooms@[m]).bounds.wf() by {
                assert(room_within(self.rooms@[m], self.spec_width(), self.spec_height()));
            }
        }
        self.player.move_by(direction, self.rooms.as_slice());
    }
}

} // verus!
