//! The piston block's pure movability rule. The rest of the piston state
//! machine rides on the live world and its event loop, outside this
//! library's scope.

use vstd::prelude::*;
use crate::block::Block;
use crate::block::BlockStateInfo;

verus! {

pub struct PistonBlock;

pub struct PistonHeadBlock;

// Blocks that are anchored in place regardless of state; the classic
// rules name them outright.
pub const BLOCK_IMMOVABLE_OBSIDIAN: u16 = 0x100;
pub const BLOCK_IMMOVABLE_CRYING_OBSIDIAN: u16 = 0x101;
pub const BLOCK_IMMOVABLE_RESPAWN_ANCHOR: u16 = 0x102;
pub const BLOCK_IMMOVABLE_REINFORCED_DEEPSLATE: u16 = 0x103;

/// Whether a piston may move the block: air always moves; the four
/// hardcoded anchored blocks never move; everything else moves.
pub open spec fn spec_is_movable(block: Block, state: BlockStateInfo) -> bool {
    if state.air {
        true
    } else if block.id == BLOCK_IMMOVABLE_OBSIDIAN || block.id == BLOCK_IMMOVABLE_CRYING_OBSIDIAN
        || block.id == BLOCK_IMMOVABLE_RESPAWN_ANCHOR || block.id
        == BLOCK_IMMOVABLE_REINFORCED_DEEPSLATE {
        false
    } else {
        true
    }
}

impl PistonBlock {
    pub fn is_movable(block: &Block, state: &BlockStateInfo) -> (r: bool)
        ensures
            r == spec_is_movable(*block, *state),
    {
        if state.air {
            return true;
        }
        if block.id == BLOCK_IMMOVABLE_OBSIDIAN || block.id == BLOCK_IMMOVABLE_CRYING_OBSIDIAN
            || block.id == BLOCK_IMMOVABLE_RESPAWN_ANCHOR || block.id
            == BLOCK_IMMOVABLE_REINFORCED_DEEPSLATE {
            return false;
        }
        true
    }
}

} // verus!
