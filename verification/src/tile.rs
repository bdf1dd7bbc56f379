//! Tile kinds and the flat tile store backing a level grid.

use vstd::prelude::*;

verus! {

/// One kind of tile. `GrassL` and `GrassR` are cosmetic edge variants of
/// `Grass`; all three collide exactly like `Wall`.
#[derive(Clone, Copy, PartialEq, Eq, PartialOrd, Ord, Structural, Debug)]
pub enum TileType {
    Air,
    Grass,
    GrassL,
    GrassR,
    Wall,
    Key,
}

impl TileType {
    /// A tile is solid unless it is open air or the key pickup.
    pub open spec fn spec_is_wall(self) -> bool {
        !(self == TileType::Air || self == TileType::Key)
    }

    /// Whether this tile blocks movement.
    pub fn is_wall(&self) -> (r: bool)
        ensures
            r == self.spec_is_wall(),
    {
        match self {
            TileType::Air => false,
            TileType::Key => false,
            _ => true,
        }
    }

    /// Numeric tag of this kind in the rendered-tile encoding.
    pub open spec fn spec_to_u32(self) -> u32 {
        match self {
            TileType::Air => 0,
            TileType::Grass => 1,
            TileType::GrassL => 2,
            TileType::GrassR => 3,
            TileType::Wall => 4,
            TileType::Key => 5,
        }
    }

    /// Encode this kind as the small-integer tag consumed by the
    /// presentation layer's tile material.
    pub fn to_u32(&self) -> (r: u32)
        ensures
            r == self.spec_to_u32(),
    {
        match self {
            TileType::Air => 0,
            TileType::Grass => 1,
            TileType::GrassL => 2,
            TileType::GrassR => 3,
            TileType::Wall => 4,
            TileType::Key => 5,
        }
    }
}

/// The flat, row-major sequence of tiles of one level.
#[derive(Clone, Debug)]
pub struct TileStorage {
    pub tiles: Vec<TileType>,
}

impl TileStorage {
    /// Flatten the store into the numeric encoding, one tag per tile in
    /// order; this is the array handed to the presentation layer.
    pub fn to_vec_u32(&self) -> (r: Vec<u32>)
        ensures
            r@.len() == self.tiles@.len(),
            forall|i: int| 0 <= i < r@.len() ==> r@[i] == self.tiles@[i].spec_to_u32(),
    {
        let mut out: Vec<u32> = Vec::new();
        let mut i: usize = 0;
        while i < self.tiles.len()
            invariant
                i <= self.tiles@.len(),
                out@.len() == i as int,
                forall|j: int| 0 <= j < i as int ==> out@[j] == self.tiles@[j].spec_to_u32(),
            decreases self.tiles@.len() - i,
        {
            out.push(self.tiles[i].to_u32());
            i = i + 1;
        }
        out
    }
}

} // verus!
