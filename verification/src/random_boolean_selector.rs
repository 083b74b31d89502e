//! The boolean selector: a single coin flip between two feature
//! branches.

use vstd::prelude::*;
use crate::block_state_provider::NOISE_LIMIT;
use crate::chunk::ProtoChunk;
use crate::configured_features::spec_boolean_generates;
use crate::math::BlockPos;
use crate::math::in_bounds;
use crate::placed_features::FeatureRegistry;
use crate::placed_features::PlacedFeatureWrapper;
use crate::placed_features::lemma_find_placed_wf;
use crate::random::RandomGenerator;

verus! {

pub struct RandomBooleanFeature {
    pub feature_true: Box<PlacedFeatureWrapper>,
    pub feature_false: Box<PlacedFeatureWrapper>,
}

impl RandomBooleanFeature {
    /// One coin flip chooses the branch; the chosen feature generates. A
    /// named branch the registry does not hold reports no placement. The
    /// whole call obeys the boolean-selector model.
    pub fn generate(
        &self,
        chunk: &mut ProtoChunk,
        min_y: i8,
        height: u16,
        feature_name: &str,
        random: &mut RandomGenerator,
        pos: BlockPos,
        registry: &FeatureRegistry,
        noise: i64,
        fuel: u32,
    ) -> (r: bool)
        requires
            old(random).wf(),
            self.feature_true.wf(),
            self.feature_false.wf(),
            registry.wf(),
            old(chunk).wf(),
            old(chunk).min_y == min_y,
            in_bounds(pos),
            -NOISE_LIMIT <= noise <= NOISE_LIMIT,
        ensures
            final(chunk).same_config(*old(chunk)),
            final(chunk).wf(),
            final(random).wf(),
            spec_boolean_generates(
                *self,
                min_y,
                height,
                feature_name@,
                *registry,
                noise as int,
                pos,
                *old(chunk),
                *old(random),
                *final(chunk),
                *final(random),
                r,
                fuel as nat,
            ),
        decreases fuel, 2int, 0int,
    {
        if fuel == 0 {
            return false;
        }
        let val = random.next_bool();
        let feature = if val {
            &self.feature_true
        } else {
            &self.feature_false
        };
        let resolved = feature.get(registry);
        proof {
            lemma_find_placed_wf(registry.placed@, (*self.feature_true)->Named_0@);
            lemma_find_placed_wf(registry.placed@, (*self.feature_false)->Named_0@);
        }
        match resolved {
            Some(feature) => feature.generate(
                chunk,
                min_y,
                height,
                feature_name,
                random,
                pos,
                registry,
                noise,
                fuel - 1,
            ),
            None => false,
        }
    }
}

} // verus!
