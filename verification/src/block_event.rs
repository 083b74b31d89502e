//! The block-event notification record, as the play protocol frames it:
//! a position, an event type and datum, and the block's protocol id.

use vstd::prelude::*;
use crate::math::BlockPos;

verus! {

/// A protocol variable-length integer, modeled by its value.
#[derive(Clone, Copy, PartialEq, Eq, Structural, Debug)]
pub struct VarInt(pub i32);

pub struct CBlockEvent {
    pub location: BlockPos,
    pub kind: u8,
    pub data: u8,
    pub block_type: VarInt,
}

impl CBlockEvent {
    pub fn new(location: BlockPos, kind: u8, data: u8, block_type: VarInt) -> (r: CBlockEvent)
        ensures
            r.location == location,
            r.kind == kind,
            r.data == data,
            r.block_type == block_type,
    {
        Self { location, kind, data, block_type }
    }
}

} // verus!
