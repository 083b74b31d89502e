//! The simplest generation unit: select one state and write it.

use vstd::prelude::*;
use crate::block_state_provider::BlockStateProvider;
use crate::block_state_provider::bsp_wf;
use crate::block_state_provider::spec_bsp_get;
use crate::block_state_provider::NOISE_LIMIT;
use crate::chunk::ProtoChunk;
use crate::math::BlockPos;
use crate::random::RandomGenerator;

verus! {

pub struct SimpleBlockFeature {
    pub to_place: BlockStateProvider,
    /// Configured flag with no implemented behavior yet: no tick is
    /// scheduled.
    pub schedule_tick: Option<bool>,
}

impl SimpleBlockFeature {
    /// Write the provider's pick at the position and report placement.
    /// `noise` is the provider's noise sample there, supplied by the
    /// caller.
    pub fn generate(
        &self,
        chunk: &mut ProtoChunk,
        random: &mut RandomGenerator,
        pos: BlockPos,
        noise: i64,
    ) -> (r: bool)
        requires
            old(random).wf(),
            bsp_wf(self.to_place),
            -NOISE_LIMIT <= noise <= NOISE_LIMIT,
        ensures
            r == true,
            *final(random) == spec_bsp_get(self.to_place, *old(random), noise as int).1,
            final(chunk).block_at(pos.key()) == spec_bsp_get(
                self.to_place,
                *old(random),
                noise as int,
            ).0,
            forall|k: (int, int, int)|
                k != pos.key() ==> final(chunk).block_at(k) == old(chunk).block_at(k),
            final(chunk).same_config(*old(chunk)),
            old(chunk).wf() ==> final(chunk).wf(),
            final(random).wf(),
    {
        let state = self.to_place.get(random, pos, noise);
        chunk.set_block_state(&pos, state);
        true
    }
}

} // verus!
