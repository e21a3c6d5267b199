//! Levels: ordered collections of terrain blocks.
//!
//! A level owns its blocks.  The default layout is one row of nine blocks,
//! spaced one block width apart at a fixed height; loading it replaces any
//! prior content outright, so loading twice still leaves exactly nine
//! blocks.

use vstd::prelude::*;

use crate::POS_SCALE;
use crate::block::BLOCK_WIDTH;
use crate::block::Block;

verus! {

/// Vertical center of the default block row, in position steps
/// (364 world units).
pub const BLOCK_ROW_Y: i64 = 364 * POS_SCALE;

/// Number of blocks in the default layout.
pub const BLOCK_COUNT: usize = 9;

/// Whether `blocks` is exactly the default layout: nine blocks with
/// centers at one to nine block widths along the row, all at the row
/// height, in that order.
pub open spec fn default_layout(blocks: Seq<Block>) -> bool {
    &&& blocks.len() == BLOCK_COUNT
    &&& forall|i: int|
        0 <= i < blocks.len() ==> (#[trigger] blocks[i]).position.0 == (i + 1) * BLOCK_WIDTH
            && blocks[i].position.1 == BLOCK_ROW_Y
}

/// An ordered sequence of terrain blocks.
pub struct Level {
    pub blocks: Vec<Block>,
}

impl Level {
    /// An empty level, no blocks loaded yet.
    pub fn new() -> (lv: Level)
        ensures
            lv.blocks@.len() == 0,
    {
        let blocks = Vec::new();
        Level {
            blocks,
        }
    }

    /// A read-only view of the blocks; the level stays the sole owner.
    pub fn get_blocks(&self) -> (blocks: &Vec<Block>)
        ensures
            blocks@ == self.blocks@,
    {
        &self.blocks
    }

    /// Fill the level with the default layout, replacing any prior content
    /// in full — calling this twice in a row still yields exactly nine
    /// blocks, not eighteen.
    pub fn load_blocks(&mut self)
        ensures
            default_layout(final(self).blocks@),
    {
        let mut blocks: Vec<Block> = Vec::new();
        let mut x: i64 = 1;
        while x < 10
            invariant
                1 <= x <= 10,
                blocks@.len() == x - 1,
                forall|i: int|
                    0 <= i < blocks@.len() ==> (#[trigger] blocks@[i]).position.0 == (i + 1)
                        * BLOCK_WIDTH && blocks@[i].position.1 == BLOCK_ROW_Y,
            decreases 10 - x,
        {
            let mut block: Block = Block::new();
            let position: (i64, i64) = (x * BLOCK_WIDTH, BLOCK_ROW_Y);
            block.set_position(position);
            blocks.push(block);
            x = x + 1;
        }
        self.blocks = blocks;
    }
}

} // verus!
