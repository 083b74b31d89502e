//! The uniform selector: index one feature from the list and delegate,
//! with no retry.

use vstd::prelude::*;
use crate::block_state_provider::NOISE_LIMIT;
use crate::chunk::ProtoChunk;
use crate::configured_features::spec_simple_random_generates;
use crate::math::BlockPos;
use crate::math::in_bounds;
use crate::placed_features::FeatureRegistry;
use crate::placed_features::PlacedFeature;
use crate::random::RandomGenerator;
use crate::random::rg_bounded;

verus! {

pub struct SimpleRandomFeature {
    pub features: Vec<PlacedFeature>,
}

impl SimpleRandomFeature {
    /// One uniform index draw picks the feature; it generates at the
    /// position as it stands, with no retry. The whole call obeys the
    /// uniform-selector model.
    pub fn generate(
        &self,
        chunk: &mut ProtoChunk,
        min_y: i8,
        height: u16,
        feature_name: &str,
        random: &mut RandomGenerator,
        pos: BlockPos,
        registry: &FeatureRegistry,
        noise: i64,
        fuel: u32,
    ) -> (r: bool)
        requires
            old(random).wf(),
            1 <= self.features@.len() <= 0x7FFF_FFFF,
            forall|i: int| 0 <= i < self.features@.len() ==> (#[trigger] self.features@[i]).wf(),
            registry.wf(),
            old(chunk).wf(),
            old(chunk).min_y == min_y,
            in_bounds(pos),
            -NOISE_LIMIT <= noise <= NOISE_LIMIT,
        ensures
            final(chunk).same_config(*old(chunk)),
            final(chunk).wf(),
            final(random).wf(),
            spec_simple_random_generates(
                *self,
                min_y,
                height,
                feature_name@,
                *registry,
                noise as int,
                pos,
                *old(chunk),
                *old(random),
                *final(chunk),
                *final(random),
                r,
                fuel as nat,
            ),
        decreases fuel, 2int, 0int,
    {
        if fuel == 0 {
            return false;
        }
        let i = random.next_bounded_i32(self.features.len() as i32);
        let feature = &self.features[i as usize];
        let r = feature.generate(
            chunk,
            min_y,
            height,
            feature_name,
            random,
            pos,
            registry,
            noise,
            fuel - 1,
        );
        proof {
            assert(i == rg_bounded(*old(random), self.features@.len() as u32).0);
        }
        r
    }
}

} // verus!
