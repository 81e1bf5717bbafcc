//! A small dungeon-exploration core: procedural generation of a world of
//! axis-aligned rectangular rooms, an avatar whose movement is restricted
//! to room interiors, and a viewport-culling render pipeline that emits
//! glyphs onto a screen-sized canvas.
//!
//! Terminal input and output live outside this crate; the library works on
//! plain values (positions, rectangles, canvases of characters) and states
//! what each operation does in its contract.

pub mod canvas;
pub mod geometry;
pub mod player;
pub mod randomness;
pub mod room;
pub mod world;

pub use canvas::Canvas;
pub use geometry::{Position, Rectangle};
pub use player::{Direction, Player};
pub use room::Room;
pub use world::World;
