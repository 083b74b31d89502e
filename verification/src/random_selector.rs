//! The weighted random selector: the first entry that passes its chance
//! check generates; a mandatory default stands in when none does.

use vstd::prelude::*;
use crate::block_state_provider::NOISE_LIMIT;
use crate::chunk::ProtoChunk;
use crate::configured_features::spec_selector_generates;
use crate::configured_features::spec_selector_walk;
use crate::math::BlockPos;
use crate::math::in_bounds;
use crate::placed_features::FeatureRegistry;
use crate::placed_features::PlacedFeatureWrapper;
use crate::placed_features::lemma_find_placed_wf;
use crate::random::RandomGenerator;

verus! {

/// One candidate: a feature and its independent chance, in fractional
/// units of 2^24.
pub struct RandomFeatureEntry {
    pub feature: PlacedFeatureWrapper,
    pub chance: u32,
}

pub struct RandomFeature {
    pub features: Vec<RandomFeatureEntry>,
    pub default: Box<PlacedFeatureWrapper>,
}

/// The entry walk from index `i`: each entry is tested against its own
/// fraction draw; the first passing entry generates and ends the walk;
/// the default generates when none passed.
fn selector_walk(
    f: &RandomFeature,
    i: usize,
    chunk: &mut ProtoChunk,
    min_y: i8,
    height: u16,
    feature_name: &str,
    random: &mut RandomGenerator,
    pos: BlockPos,
    registry: &FeatureRegistry,
    noise: i64,
    fuel: u32,
) -> (r: bool)
    requires
        old(random).wf(),
        forall|i0: int|
            0 <= i0 < f.features@.len() ==> (#[trigger] f.features@[i0].feature).wf(),
        f.default.wf(),
        registry.wf(),
        old(chunk).wf(),
        old(chunk).min_y == min_y,
        in_bounds(pos),
        -NOISE_LIMIT <= noise <= NOISE_LIMIT,
        i <= f.features@.len(),
        fuel >= 1,
    ensures
        final(chunk).same_config(*old(chunk)),
        final(chunk).wf(),
        final(random).wf(),
        spec_selector_walk(
            *f,
            i as int,
            min_y,
            height,
            feature_name@,
            *registry,
            noise as int,
            pos,
            *old(chunk),
            *old(random),
            *final(chunk),
            *final(random),
            r,
            fuel as nat,
        ),
    decreases fuel, 1int, f.features@.len() - i,
{
    if i == f.features.len() {
        let resolved = f.default.get(registry);
        proof {
            lemma_find_placed_wf(registry.placed@, (*f.default)->Named_0@);
        }
        match resolved {
            Some(feature) => feature.generate(
                chunk,
                min_y,
                height,
                feature_name,
                random,
                pos,
                registry,
                noise,
                fuel - 1,
            ),
            None => false,
        }
    } else {
        let entry = &f.features[i];
        let draw = random.next_fraction24();
        if draw >= entry.chance {
            selector_walk(
                f,
                i + 1,
                chunk,
                min_y,
                height,
                feature_name,
                random,
                pos,
                registry,
                noise,
                fuel,
            )
        } else {
            let resolved = entry.feature.get(registry);
            proof {
                lemma_find_placed_wf(registry.placed@, f.features@[i as int].feature->Named_0@);
            }
            match resolved {
                Some(feature) => feature.generate(
                    chunk,
                    min_y,
                    height,
                    feature_name,
                    random,
                    pos,
                    registry,
                    noise,
                    fuel - 1,
                ),
                None => false,
            }
        }
    }
}

impl RandomFeature {
    /// Walk the weighted list: each entry is tested against its own
    /// chance draw and the first passing entry generates; the default
    /// feature generates when no entry passed. The whole call obeys the
    /// weighted-selector model.
    pub fn generate(
        &self,
        chunk: &mut ProtoChunk,
        min_y: i8,
        height: u16,
        feature_name: &str,
        random: &mut RandomGenerator,
        pos: BlockPos,
        registry: &FeatureRegistry,
        noise: i64,
        fuel: u32,
    ) -> (r: bool)
        requires
            old(random).wf(),
            forall|i: int|
                0 <= i < self.features@.len() ==> (#[trigger] self.features@[i].feature).wf(),
            self.default.wf(),
            registry.wf(),
            old(chunk).wf(),
            old(chunk).min_y == min_y,
            in_bounds(pos),
            -NOISE_LIMIT <= noise <= NOISE_LIMIT,
        ensures
            final(chunk).same_config(*old(chunk)),
            final(chunk).wf(),
            final(random).wf(),
            spec_selector_generates(
                *self,
                min_y,
                height,
                feature_name@,
                *registry,
                noise as int,
                pos,
                *old(chunk),
                *old(random),
                *final(chunk),
                *final(random),
                r,
                fuel as nat,
            ),
        decreases fuel, 2int, 0int,
    {
        if fuel == 0 {
            return false;
        }
        selector_walk(
            self,
            0,
            chunk,
            min_y,
            height,
            feature_name,
            random,
            pos,
            registry,
            noise,
            fuel,
        )
    }
}

} // verus!
