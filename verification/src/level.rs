//! Level grid: screen/tile coordinate mapping and tile lookup.
//!
//! The grid is centered on the screen origin: tile column `0` starts
//! `width / 2` tiles to the left of the origin, and screen Y grows upward
//! while tile rows grow downward, so the Y axis is negated by the mapping.
//! Out-of-range lookups return `None`; callers treat an absent tile as open
//! space, so the world edge is open rather than solid.

use vstd::prelude::*;

use crate::tile::TileStorage;
use crate::tile::TileType;
use crate::TILE_SIZE;

verus! {

/// Largest magnitude a screen coordinate may take in the coordinate
/// mapping; far beyond any playable grid, it only keeps the conversion
/// arithmetic inside `i64`.
pub const COORD_LIMIT: i64 = 0x1000_0000_0000_0000;

/// A position in screen units. Y grows upward.
#[derive(Clone, Copy, PartialEq, Eq, Structural, Debug)]
pub struct ScreenPos {
    pub x: i64,
    pub y: i64,
}

impl ScreenPos {
    /// The position is small enough for the coordinate mapping.
    pub open spec fn in_range(self) -> bool {
        &&& -COORD_LIMIT <= self.x <= COORD_LIMIT
        &&& -COORD_LIMIT <= self.y <= COORD_LIMIT
    }
}

/// A tile coordinate: `x` is the column, `y` the row (growing downward).
/// Coordinates are signed because a screen position off the map converts
/// to a column or row outside `[0, width) x [0, height)`.
#[derive(Clone, Copy, PartialEq, Eq, Structural, Debug)]
pub struct TilePos {
    pub x: i64,
    pub y: i64,
}

/// Extent of the grid in tiles.
#[derive(Clone, Copy, PartialEq, Eq, Structural, Debug)]
pub struct TilemapSize {
    pub width: u32,
    pub height: u32,
}

/// Column of the tile containing screen coordinate `px`.
pub open spec fn spec_screen_to_tile_x(px: int, width: int) -> int {
    px / (TILE_SIZE as int) + width / 2
}

/// Row of the tile containing screen coordinate `py` (screen Y is negated:
/// rows grow downward).
pub open spec fn spec_screen_to_tile_y(py: int, height: int) -> int {
    (-py) / (TILE_SIZE as int) + height / 2
}

/// Screen X of the left edge of tile column `tx`.
pub open spec fn spec_tile_to_screen_x(tx: int, width: int) -> int {
    (tx - width / 2) * (TILE_SIZE as int)
}

/// Screen Y of the top edge of tile row `ty`.
pub open spec fn spec_tile_to_screen_y(ty: int, height: int) -> int {
    (height / 2 - ty) * (TILE_SIZE as int)
}

/// Flooring division by the tile size, so that negative coordinates round
/// toward the tile below/left of them rather than toward the origin.
fn floor_div_tile(a: i64) -> (r: i64)
    requires
        -COORD_LIMIT <= a <= COORD_LIMIT,
    ensures
        r == a as int / (TILE_SIZE as int),
{
    let q: i64 = a / TILE_SIZE;
    let rem: i64 = a % TILE_SIZE;
    if rem < 0 {
        q - 1
    } else {
        q
    }
}

/// The two coordinate transforms are exact inverses starting from a tile
/// coordinate: converting a tile's top-left screen corner back to a tile
/// coordinate recovers the tile exactly, on both axes and for every grid
/// extent.
pub proof fn lemma_tile_screen_exact_inverse(tx: int, ty: int, width: int, height: int)
    ensures
        spec_screen_to_tile_x(spec_tile_to_screen_x(tx, width), width) == tx,
        spec_screen_to_tile_y(spec_tile_to_screen_y(ty, height), height) == ty,
{
    let ts = TILE_SIZE as int;
    vstd::arithmetic::div_mod::lemma_div_multiples_vanish(tx - width / 2, ts);
    assert((tx - width / 2) * ts == ts * (tx - width / 2)) by (nonlinear_arith);
    vstd::arithmetic::div_mod::lemma_div_multiples_vanish(ty - height / 2, ts);
    assert(-((height / 2 - ty) * ts) == ts * (ty - height / 2)) by (nonlinear_arith);
}

/// Round-trip law on the centering transform: mapping a screen position to
/// its tile and back to that tile's top-left corner recovers the position
/// up to tile-size rounding, on both axes. On the X axis the corner sits
/// at or left of the position; on the (negated) Y axis it sits at or above
/// it.
pub proof fn lemma_screen_tile_round_trip(px: int, py: int, width: int, height: int)
    ensures
        ({
            let rx = spec_tile_to_screen_x(spec_screen_to_tile_x(px, width), width);
            0 <= px - rx < TILE_SIZE as int
        }),
        ({
            let ry = spec_tile_to_screen_y(spec_screen_to_tile_y(py, height), height);
            0 <= ry - py < TILE_SIZE as int
        }),
{
    let ts = TILE_SIZE as int;
    vstd::arithmetic::div_mod::lemma_fundamental_div_mod(px, ts);
    vstd::arithmetic::div_mod::lemma_mod_bound(px, ts);
    assert((px / ts) * ts == ts * (px / ts)) by (nonlinear_arith);
    vstd::arithmetic::div_mod::lemma_fundamental_div_mod(-py, ts);
    vstd::arithmetic::div_mod::lemma_mod_bound(-py, ts);
    assert((height / 2 - ((-py) / ts + height / 2)) * ts == -(ts * ((-py) / ts)))
        by (nonlinear_arith);
}

/// No false negative at rest: a character whose feet rest exactly on top
/// of a solid row — its top-left corner two rows above `row`, at that
/// tile's exact top edge, horizontally over the grid — always reports a
/// bottom collision.
pub proof fn lemma_resting_on_wall_reports_bottom(level: Level, px: int, row: int)
    requires
        0 <= spec_screen_to_tile_x(px, level.size.width as int) < level.size.width as int,
        forall|c: int|
            0 <= c < level.size.width as int ==> #[trigger] level.spec_wall_at(c, row),
    ensures
        level.spec_collides_bottom(
            px,
            spec_tile_to_screen_y(row - 2, level.size.height as int),
        ),
{
    let w = level.size.width as int;
    let h = level.size.height as int;
    lemma_tile_screen_exact_inverse(0, row - 2, w, h);
    let tx = spec_screen_to_tile_x(px, w);
    assert(level.spec_wall_at(tx, row));
}

/// One loaded level: grid extent, tile contents, the start tile the
/// character is homed to, and an opaque handle to the level's rendered
/// representation (owned by the presentation layer).
#[derive(Clone, Debug)]
pub struct Level {
    pub size: TilemapSize,
    pub tile_storage: TileStorage,
    pub tilemap_entity: Option<u64>,
    pub start_tile: TilePos,
}

impl Level {
    /// The backing sequence holds exactly one tile per grid cell and the
    /// start tile lies on the grid.
    pub open spec fn wf(&self) -> bool {
        &&& self.tile_storage.tiles@.len() == self.size.width * self.size.height
        &&& 0 <= self.start_tile.x < self.size.width as int
        &&& 0 <= self.start_tile.y < self.size.height as int
    }

    /// The tile at column `tx`, row `ty`: `None` off the grid or past the
    /// end of the backing sequence, `Some` of the stored kind otherwise.
    pub open spec fn spec_tile_at(&self, tx: int, ty: int) -> Option<TileType> {
        let w = self.size.width as int;
        let h = self.size.height as int;
        if 0 <= tx < w && 0 <= ty < h && ty * w + tx < self.tile_storage.tiles@.len() {
            Some(self.tile_storage.tiles@[ty * w + tx])
        } else {
            None
        }
    }

    /// Look up the tile at column `tx`, row `ty`. Out-of-range coordinates
    /// yield `None` rather than an error: off-map is open space.
    pub fn tile_at(&self, tx: i64, ty: i64) -> (r: Option<TileType>)
        ensures
            r == self.spec_tile_at(tx as int, ty as int),
    {
        if tx >= 0 && ty >= 0 && tx < self.size.width as i64 && ty < self.size.height as i64 {
            proof {
                assert((ty as int) * (self.size.width as int) + tx as int
                    <= 0xffff_ffff * 0xffff_ffff + 0xffff_ffff) by (nonlinear_arith)
                    requires
                        0 <= ty as int <= 0xffff_ffff,
                        0 <= tx as int <= 0xffff_ffff,
                        0 <= self.size.width as int <= 0xffff_ffff,
                ;
            }
            let idx: u64 = (ty as u64) * (self.size.width as u64) + (tx as u64);
            if idx < self.tile_storage.tiles.len() as u64 {
                Some(self.tile_storage.tiles[idx as usize])
            } else {
                None
            }
        } else {
            None
        }
    }

    /// The tile at `(tx, ty)` exists and is solid.
    pub open spec fn spec_wall_at(&self, tx: int, ty: int) -> bool {
        match self.spec_tile_at(tx, ty) {
            Some(t) => t.spec_is_wall(),
            None => false,
        }
    }

    /// Whether the tile at `(tx, ty)` blocks movement; an absent tile does
    /// not.
    pub fn wall_at(&self, tx: i64, ty: i64) -> (r: bool)
        ensures
            r == self.spec_wall_at(tx as int, ty as int),
    {
        match self.tile_at(tx, ty) {
            Some(t) => t.is_wall(),
            None => false,
        }
    }

    /// The tile at `(tx, ty)` exists and is the key pickup.
    pub open spec fn spec_key_at(&self, tx: int, ty: int) -> bool {
        self.spec_tile_at(tx, ty) == Some(TileType::Key)
    }

    /// Whether the tile at `(tx, ty)` is the key pickup.
    pub fn key_at(&self, tx: i64, ty: i64) -> (r: bool)
        ensures
            r == self.spec_key_at(tx as int, ty as int),
    {
        match self.tile_at(tx, ty) {
            Some(t) => t == TileType::Key,
            None => false,
        }
    }

    /// Convert a screen position to the coordinate of the tile containing
    /// it.
    pub fn screen_pos_to_tile_pos(&self, screen_pos: ScreenPos) -> (r: TilePos)
        requires
            screen_pos.in_range(),
        ensures
            r.x == spec_screen_to_tile_x(screen_pos.x as int, self.size.width as int),
            r.y == spec_screen_to_tile_y(screen_pos.y as int, self.size.height as int),
    {
        let tx = floor_div_tile(screen_pos.x) + (self.size.width / 2) as i64;
        let ty = floor_div_tile(-screen_pos.y) + (self.size.height / 2) as i64;
        TilePos { x: tx, y: ty }
    }

    /// Build a level from a parsed asset, validating it: the tile sequence
    /// must hold exactly `width * height` entries and the start tile must
    /// lie on the grid. A malformed asset yields `None`, so a loader can
    /// keep the game in `Loading` rather than enter a level with corrupt
    /// data.
    pub fn new(size: TilemapSize, tiles: Vec<TileType>, start_tile: TilePos) -> (r: Option<
        Level,
    >)
        ensures
            r is Some <==> {
                &&& tiles@.len() == size.width * size.height
                &&& 0 <= start_tile.x < size.width as int
                &&& 0 <= start_tile.y < size.height as int
            },
            r is Some ==> r->Some_0 == (Level {
                size,
                tile_storage: TileStorage { tiles },
                tilemap_entity: None::<u64>,
                start_tile,
            }),
            r is Some ==> r->Some_0.wf(),
    {
        proof {
            assert((size.width as int) * (size.height as int)
                <= 0xffff_ffff * 0xffff_ffff) by (nonlinear_arith)
                requires
                    0 <= size.width as int <= 0xffff_ffff,
                    0 <= size.height as int <= 0xffff_ffff,
            ;
        }
        let cells: u64 = (size.width as u64) * (size.height as u64);
        if tiles.len() as u64 == cells && start_tile.x >= 0 && start_tile.y >= 0
            && start_tile.x < size.width as i64 && start_tile.y < size.height as i64 {
            Some(
                Level {
                    size,
                    tile_storage: TileStorage { tiles },
                    tilemap_entity: None,
                    start_tile,
                },
            )
        } else {
            None
        }
    }

    /// Screen position of the top-left corner of the level's start tile.
    pub fn get_start_tile_screen_pos(&self) -> (r: ScreenPos)
        requires
            self.wf(),
        ensures
            r.x == spec_tile_to_screen_x(self.start_tile.x as int, self.size.width as int),
            r.y == spec_tile_to_screen_y(self.start_tile.y as int, self.size.height as int),
            r.in_range(),
    {
        let x = (self.start_tile.x - (self.size.width / 2) as i64) * TILE_SIZE;
        let y = ((self.size.height / 2) as i64 - self.start_tile.y) * TILE_SIZE;
        ScreenPos { x, y }
    }

    /// A wall lies directly under the character's feet: the character's
    /// top-left corner is at screen position `(px, py)`, its hitbox spans
    /// two tiles each way, so the probe samples the two cells in the row
    /// below its feet.
    pub open spec fn spec_collides_bottom(&self, px: int, py: int) -> bool {
        let tx = spec_screen_to_tile_x(px, self.size.width as int);
        let ty = spec_screen_to_tile_y(py, self.size.height as int);
        self.spec_wall_at(tx, ty + 2) || self.spec_wall_at(tx + 1, ty + 2)
    }

    /// A wall lies directly above the character's head: the two cells in
    /// the row above the tile holding its top-left corner.
    pub open spec fn spec_collides_top(&self, px: int, py: int) -> bool {
        let tx = spec_screen_to_tile_x(px, self.size.width as int);
        let ty = spec_screen_to_tile_y(py, self.size.height as int);
        self.spec_wall_at(tx, ty - 1) || self.spec_wall_at(tx + 1, ty - 1)
    }

    /// A wall lies directly right of the character: the two cells in the
    /// column past its right edge.
    pub open spec fn spec_collides_right(&self, px: int, py: int) -> bool {
        let tx = spec_screen_to_tile_x(px, self.size.width as int);
        let ty = spec_screen_to_tile_y(py, self.size.height as int);
        self.spec_wall_at(tx + 2, ty) || self.spec_wall_at(tx + 2, ty + 1)
    }

    /// A wall lies directly left of the character: the two cells in the
    /// column before its left edge.
    pub open spec fn spec_collides_left(&self, px: int, py: int) -> bool {
        let tx = spec_screen_to_tile_x(px, self.size.width as int);
        let ty = spec_screen_to_tile_y(py, self.size.height as int);
        self.spec_wall_at(tx - 1, ty) || self.spec_wall_at(tx - 1, ty + 1)
    }

    /// The key pickup lies in the 2x2 block of cells the character's
    /// hitbox can overlap.
    pub open spec fn spec_key_in_probe(&self, px: int, py: int) -> bool {
        let tx = spec_screen_to_tile_x(px, self.size.width as int);
        let ty = spec_screen_to_tile_y(py, self.size.height as int);
        ||| self.spec_key_at(tx, ty)
        ||| self.spec_key_at(tx + 1, ty)
        ||| self.spec_key_at(tx, ty + 1)
        ||| self.spec_key_at(tx + 1, ty + 1)
    }

    /// Would the character standing at `pos` collide with a wall one row
    /// below its feet? Samples the two cells straddling its bottom edge.
    pub fn is_colliding_bottom(&self, pos: ScreenPos) -> (r: bool)
        requires
            pos.in_range(),
        ensures
            r == self.spec_collides_bottom(pos.x as int, pos.y as int),
    {
        let t = self.screen_pos_to_tile_pos(pos);
        self.wall_at(t.x, t.y + 2) || self.wall_at(t.x + 1, t.y + 2)
    }

    /// Would the character standing at `pos` collide with a wall one row
    /// above its head? Samples the two cells straddling its top edge.
    pub fn is_colliding_top(&self, pos: ScreenPos) -> (r: bool)
        requires
            pos.in_range(),
        ensures
            r == self.spec_collides_top(pos.x as int, pos.y as int),
    {
        let t = self.screen_pos_to_tile_pos(pos);
        self.wall_at(t.x, t.y - 1) || self.wall_at(t.x + 1, t.y - 1)
    }

    /// Would the character standing at `pos` collide with a wall one
    /// column past its right edge? Samples the two cells straddling it.
    pub fn is_colliding_right(&self, pos: ScreenPos) -> (r: bool)
        requires
            pos.in_range(),
        ensures
            r == self.spec_collides_right(pos.x as int, pos.y as int),
    {
        let t = self.screen_pos_to_tile_pos(pos);
        self.wall_at(t.x + 2, t.y) || self.wall_at(t.x + 2, t.y + 1)
    }

    /// Would the character standing at `pos` collide with a wall one
    /// column before its left edge? Samples the two cells straddling it.
    pub fn is_colliding_left(&self, pos: ScreenPos) -> (r: bool)
        requires
            pos.in_range(),
        ensures
            r == self.spec_collides_left(pos.x as int, pos.y as int),
    {
        let t = self.screen_pos_to_tile_pos(pos);
        self.wall_at(t.x - 1, t.y) || self.wall_at(t.x - 1, t.y + 1)
    }

    /// Does the 2x2 block of cells the character at `pos` can overlap
    /// contain the key pickup?
    pub fn colliding_key(&self, pos: ScreenPos) -> (r: bool)
        requires
            pos.in_range(),
        ensures
            r == self.spec_key_in_probe(pos.x as int, pos.y as int),
    {
        let t = self.screen_pos_to_tile_pos(pos);
        self.key_at(t.x, t.y) || self.key_at(t.x + 1, t.y) || self.key_at(t.x, t.y + 1)
            || self.key_at(t.x + 1, t.y + 1)
    }
}

} // verus!
