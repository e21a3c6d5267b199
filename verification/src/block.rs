//! Terrain blocks and their bounding geometry.
//!
//! A block is a fixed 64-by-64 world-unit square of terrain, stored by its
//! *center* position.  Its axis-aligned bounding box is derived on demand,
//! never stored: the box's minimum corner is the center translated by the
//! half-extents, with no rotation ever applied, so the arithmetic is exact.

use vstd::prelude::*;

use crate::POS_SCALE;

verus! {

/// Width of a terrain block, in position steps (64 world units).
pub const BLOCK_WIDTH: i64 = 64 * POS_SCALE;

/// Height of a terrain block, in position steps (64 world units).
pub const BLOCK_HEIGHT: i64 = 64 * POS_SCALE;

/// Half of [`BLOCK_WIDTH`]: how far the box extends from the center.
pub const BLOCK_HALF_WIDTH: i64 = 32 * POS_SCALE;

/// Half of [`BLOCK_HEIGHT`].
pub const BLOCK_HALF_HEIGHT: i64 = 32 * POS_SCALE;

/// An axis-aligned bounding box: a minimum corner and a size, with no
/// rotation.  Coordinates are in position steps.
#[derive(Copy, Clone, Debug, PartialEq, Eq, Structural)]
pub struct Aabb {
    pub min_x: i64,
    pub min_y: i64,
    pub size_x: i64,
    pub size_y: i64,
}

/// A terrain block.  `position` is the center of the block, in position
/// steps — care must be taken to recall this when anchoring sprites and
/// when building bounding boxes.  Blocks are immutable once placed in a
/// level.
#[derive(Copy, Clone, Debug)]
pub struct Block {
    pub position: (i64, i64),
}

impl Block {
    /// A block centered at the origin.
    pub fn new() -> (b: Block)
        ensures
            b.position == (0i64, 0i64),
    {
        Block {
            position: (0, 0),
        }
    }

    /// The axis-aligned bounding box for the block: minimum corner at the
    /// center minus the half-extents, size twice the half-extents.  Exact
    /// for this never-rotated square.
    pub fn get_bounding(&self) -> (bb: Aabb)
        requires
            i64::MIN + BLOCK_HALF_WIDTH <= self.position.0 <= i64::MAX - BLOCK_HALF_WIDTH,
            i64::MIN + BLOCK_HALF_HEIGHT <= self.position.1 <= i64::MAX - BLOCK_HALF_HEIGHT,
        ensures
            bb.min_x == self.position.0 - BLOCK_HALF_WIDTH,
            bb.min_y == self.position.1 - BLOCK_HALF_HEIGHT,
            bb.size_x == BLOCK_WIDTH,
            bb.size_y == BLOCK_HEIGHT,
    {
        Aabb {
            min_x: self.position.0 - BLOCK_HALF_WIDTH,
            min_y: self.position.1 - BLOCK_HALF_HEIGHT,
            size_x: BLOCK_WIDTH,
            size_y: BLOCK_HEIGHT,
        }
    }

    pub fn get_position(&self) -> (pos: (i64, i64))
        ensures
            pos == self.position,
    {
        self.position
    }

    pub fn set_position(&mut self, position: (i64, i64))
        ensures
            final(self).position == position,
    {
        self.position = position;
    }
}

} // verus!
