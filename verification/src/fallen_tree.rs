//! The fallen-tree feature: declared with its trunk provider and stump
//! writer, but generation is a no-op for now.

use vstd::prelude::*;
use crate::block_state_provider::BlockStateProvider;
use crate::block_state_provider::bsp_wf;
use crate::block_state_provider::spec_bsp_get;
use crate::block_state_provider::NOISE_LIMIT;
use crate::chunk::ProtoChunk;
use crate::math::BlockPos;
use crate::random::RandomGenerator;

verus! {

pub struct FallenTreeFeature {
    pub trunk_provider: BlockStateProvider,
}

impl FallenTreeFeature {
    /// Declared but not behavior-defined yet: no placement is reported
    /// and nothing is written.
    pub fn generate(
        &self,
        chunk: &mut ProtoChunk,
        _min_y: i8,
        _height: u16,
        _feature: &str,
        random: &mut RandomGenerator,
        _pos: BlockPos,
    ) -> (r: bool)
        ensures
            r == false,
            *final(chunk) == *old(chunk),
            *final(random) == *old(random),
    {
        false
    }

    /// Write one stump block from the trunk provider; `noise` is the
    /// provider's sample at the position.
    pub fn gen_stump(
        &self,
        chunk: &mut ProtoChunk,
        random: &mut RandomGenerator,
        pos: BlockPos,
        noise: i64,
    )
        requires
            old(random).wf(),
            bsp_wf(self.trunk_provider),
            -NOISE_LIMIT <= noise <= NOISE_LIMIT,
        ensures
            *final(random) == spec_bsp_get(self.trunk_provider, *old(random), noise as int).1,
            final(chunk).block_at(pos.key()) == spec_bsp_get(
                self.trunk_provider,
                *old(random),
                noise as int,
            ).0,
            forall|k: (int, int, int)|
                k != pos.key() ==> final(chunk).block_at(k) == old(chunk).block_at(k),
            final(chunk).same_config(*old(chunk)),
            final(random).wf(),
    {
        let state = self.trunk_provider.get(random, pos, noise);
        chunk.set_block_state(&pos, state);
    }
}

} // verus!
