//! Tiles and their sprite-atlas cells.
//!
//! A tile is either air or a border piece; a border piece records which of
//! its four sides connects to a neighboring border. Each combination of
//! sides has one fixed cell in the sprite atlas, addressed by integer
//! column and row.

use vstd::prelude::*;

verus! {

/// A cell of the sprite atlas, addressed by column and row.
#[derive(Copy, Clone, Debug, PartialEq, Eq, Structural, Hash, Default)]
pub struct SpriteCell {
    /// The atlas column.
    pub x: u32,
    /// The atlas row.
    pub y: u32,
}

/// A border piece: which of the four sides connect to neighboring
/// borders.
#[derive(Copy, Clone, Debug, PartialEq, Eq, Structural, Hash, Default)]
pub struct BorderTile {
    /// The border continues upward.
    pub top: bool,
    /// The border continues downward.
    pub bottom: bool,
    /// The border continues to the left.
    pub left: bool,
    /// The border continues to the right.
    pub right: bool,
}

/// One cell of the tile grid: a border piece, or empty air.
#[derive(Copy, Clone, Debug, PartialEq, Eq, Structural, Hash)]
pub enum Tile {
    /// A border piece.
    Border(BorderTile),
    /// Empty air.
    Air,
}

impl BorderTile {
    /// The atlas cell for this combination of connected sides.
    pub open spec fn sprite_spec(self) -> SpriteCell {
        match (self.top, self.bottom, self.left, self.right) {
            (true, false, true, true) => SpriteCell { x: 10, y: 12 },
            (false, true, true, true) => SpriteCell { x: 11, y: 12 },
            (true, true, true, false) => SpriteCell { x: 9, y: 11 },
            (true, true, false, true) => SpriteCell { x: 12, y: 12 },
            (true, false, false, false) => SpriteCell { x: 6, y: 13 },
            (false, true, false, false) => SpriteCell { x: 13, y: 11 },
            (false, false, true, false) => SpriteCell { x: 5, y: 13 },
            (false, false, false, true) => SpriteCell { x: 14, y: 11 },
            (false, true, false, true) => SpriteCell { x: 9, y: 12 },
            (true, false, false, true) => SpriteCell { x: 8, y: 12 },
            (false, true, true, false) => SpriteCell { x: 11, y: 11 },
            (true, false, true, false) => SpriteCell { x: 12, y: 11 },
            (true, true, false, false) => SpriteCell { x: 13, y: 12 },
            (false, false, true, true) => SpriteCell { x: 10, y: 11 },
            (true, true, true, true) => SpriteCell { x: 14, y: 12 },
            (false, false, false, false) => SpriteCell { x: 0, y: 0 },
        }
    }

    /// The merge of two border pieces: a side connects when it connects in
    /// either piece.
    pub open spec fn union_spec(self, rhs: Self) -> Self {
        BorderTile {
            top: self.top || rhs.top,
            bottom: self.bottom || rhs.bottom,
            left: self.left || rhs.left,
            right: self.right || rhs.right,
        }
    }

    /// The border piece with no connected sides.
    pub fn empty() -> (r: Self)
        ensures
            r == (BorderTile { top: false, bottom: false, left: false, right: false }),
    {
        BorderTile { top: false, bottom: false, left: false, right: false }
    }

    /// Builds a border piece from its four sides.
    pub fn new(top: bool, bottom: bool, left: bool, right: bool) -> (r: Self)
        ensures
            r == (BorderTile { top, bottom, left, right }),
    {
        BorderTile { top, bottom, left, right }
    }

    /// Returns the atlas cell for this combination of connected sides.
    pub fn sprite(&self) -> (r: SpriteCell)
        ensures
            r == self.sprite_spec(),
    {
        match (self.top, self.bottom, self.left, self.right) {
            (true, false, true, true) => SpriteCell { x: 10, y: 12 },
            (false, true, true, true) => SpriteCell { x: 11, y: 12 },
            (true, true, true, false) => SpriteCell { x: 9, y: 11 },
            (true, true, false, true) => SpriteCell { x: 12, y: 12 },
            (true, false, false, false) => SpriteCell { x: 6, y: 13 },
            (false, true, false, false) => SpriteCell { x: 13, y: 11 },
            (false, false, true, false) => SpriteCell { x: 5, y: 13 },
            (false, false, false, true) => SpriteCell { x: 14, y: 11 },
            (false, true, false, true) => SpriteCell { x: 9, y: 12 },
            (true, false, false, true) => SpriteCell { x: 8, y: 12 },
            (false, true, true, false) => SpriteCell { x: 11, y: 11 },
            (true, false, true, false) => SpriteCell { x: 12, y: 11 },
            (true, true, false, false) => SpriteCell { x: 13, y: 12 },
            (false, false, true, true) => SpriteCell { x: 10, y: 11 },
            (true, true, true, true) => SpriteCell { x: 14, y: 12 },
            (false, false, false, false) => SpriteCell { x: 0, y: 0 },
        }
    }

    /// Merges this piece with another: a side connects when it connects in
    /// either.
    pub fn bitor(self, rhs: Self) -> (r: Self)
        ensures
            r == self.union_spec(rhs),
    {
        BorderTile {
            top: self.top || rhs.top,
            bottom: self.bottom || rhs.bottom,
            left: self.left || rhs.left,
            right: self.right || rhs.right,
        }
    }

    /// Merges another piece into this one in place.
    pub fn bitor_assign(&mut self, rhs: Self)
        ensures
            *final(self) == old(self).union_spec(rhs),
    {
        *self = self.bitor(rhs);
    }
}

impl Tile {
    /// The atlas cell a tile is drawn with: air uses the empty cell, a
    /// border piece its own cell.
    pub open spec fn sprite_tile_spec(self) -> SpriteCell {
        match self {
            Tile::Air => SpriteCell { x: 0, y: 0 },
            Tile::Border(border_tile) => border_tile.sprite_spec(),
        }
    }

    /// Returns the atlas cell this tile is drawn with.
    pub fn sprite(&self) -> (r: SpriteCell)
        ensures
            r == self.sprite_tile_spec(),
    {
        match *self {
            Tile::Air => SpriteCell { x: 0, y: 0 },
            Tile::Border(border_tile) => border_tile.sprite(),
        }
    }

    /// Returns the border piece if this tile is one, and nothing for air.
    pub fn as_border(&self) -> (r: Option<BorderTile>)
        ensures
            match *self {
                Tile::Border(bt) => r == Some(bt),
                Tile::Air => r is None,
            },
    {
        if let Tile::Border(bt) = *self {
            Some(bt)
        } else {
            None
        }
    }
}

} // verus!
