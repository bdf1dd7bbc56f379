//! Movement-and-collision core for a tile-based 2D platformer.
//!
//! Given a character's position and velocity, an immutable tile grid, and a
//! per-tick input snapshot, the library produces the character's next
//! position, answers directional collision queries against tile boundaries,
//! accumulates fall distance, and drives the game-progress state machine
//! (`Loading -> Level -> {Won, Dead}`).

pub mod character;
pub mod game;
pub mod level;
pub mod tile;

use vstd::prelude::*;

verus! {

/// Width and height of one tile, in screen units.
pub const TILE_SIZE: i64 = 16;

} // verus!
