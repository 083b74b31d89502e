//! The random patch: repeated jittered attempts at an inner placed
//! feature.

use vstd::prelude::*;
use crate::block_state_provider::NOISE_LIMIT;
use crate::chunk::ProtoChunk;
use crate::configured_features::spec_patch_attempts;
use crate::configured_features::spec_patch_generates;
use crate::math::BlockPos;
use crate::math::COORD_LIMIT;
use crate::math::in_bounds;
use crate::placed_features::FeatureRegistry;
use crate::placed_features::PlacedFeature;
use crate::random::RandomGenerator;

verus! {

pub struct RandomPatchFeature {
    pub tries: u8,
    pub xz_spread: u8,
    pub y_spread: u8,
    pub feature: Box<PlacedFeature>,
}

/// The attempt walk from attempt `t`: jitter the seed position by six
/// bounded draws and delegate to the inner feature; a jitter outside the
/// coordinate range counts as a failed attempt.
#[verifier::rlimit(50)]
fn patch_attempts(
    f: &RandomPatchFeature,
    t: u8,
    acc: bool,
    chunk: &mut ProtoChunk,
    min_y: i8,
    height: u16,
    feature_name: &str,
    random: &mut RandomGenerator,
    pos: BlockPos,
    registry: &FeatureRegistry,
    noise: i64,
    fuel: u32,
) -> (r: bool)
    requires
        old(random).wf(),
        f.feature.wf(),
        registry.wf(),
        old(chunk).wf(),
        old(chunk).min_y == min_y,
        in_bounds(pos),
        -NOISE_LIMIT <= noise <= NOISE_LIMIT,
        t <= f.tries,
        fuel >= 1,
    ensures
        final(chunk).same_config(*old(chunk)),
        final(chunk).wf(),
        final(random).wf(),
        spec_patch_attempts(
            *f,
            t as int,
            acc,
            min_y,
            height,
            feature_name@,
            *registry,
            noise as int,
            pos,
            *old(chunk),
            *old(random),
            *final(chunk),
            *final(random),
            r,
            fuel as nat,
        ),
    decreases fuel, 1int, f.tries - t,
{
    if t == f.tries {
        return acc;
    }
    let xz = f.xz_spread as i32 + 1;
    let yb = f.y_spread as i32 + 1;
    let b1 = random.next_bounded_i32(xz);
    let b2 = random.next_bounded_i32(xz);
    let b3 = random.next_bounded_i32(yb);
    let b4 = random.next_bounded_i32(yb);
    let b5 = random.next_bounded_i32(xz);
    let b6 = random.next_bounded_i32(xz);
    let jittered = BlockPos(crate::math::Vector3 {
        x: pos.0.x + b1 - b2,
        y: pos.0.y + b3 - b4,
        z: pos.0.z + b5 - b6,
    });
    if jittered.0.x >= -COORD_LIMIT && jittered.0.x <= COORD_LIMIT && jittered.0.y >= -COORD_LIMIT
        && jittered.0.y <= COORD_LIMIT && jittered.0.z >= -COORD_LIMIT && jittered.0.z
        <= COORD_LIMIT {
        let ghost c_pre = *chunk;
        let ghost g_pre = *random;
        let ri = f.feature.generate(
            chunk,
            min_y,
            height,
            feature_name,
            random,
            jittered,
            registry,
            noise,
            fuel - 1,
        );
        let ghost cm = *chunk;
        let ghost gm = *random;
        let res = patch_attempts(
            f,
            t + 1,
            acc || ri,
            chunk,
            min_y,
            height,
            feature_name,
            random,
            pos,
            registry,
            noise,
            fuel,
        );
        proof {
            crate::configured_features::lemma_patch_step(
                *f,
                t as int,
                acc,
                min_y,
                height,
                feature_name@,
                *registry,
                noise as int,
                pos,
                *old(chunk),
                *old(random),
                cm,
                gm,
                ri,
                *chunk,
                *random,
                res,
                fuel as nat,
            );
        }
        res
    } else {
        patch_attempts(
            f,
            t + 1,
            acc,
            chunk,
            min_y,
            height,
            feature_name,
            random,
            pos,
            registry,
            noise,
            fuel,
        )
    }
}

impl RandomPatchFeature {
    /// Try `tries` times: jitter the position within the configured
    /// spreads and delegate to the inner placed feature; report placement
    /// if at least one attempt succeeded. The whole call obeys the
    /// random-patch model.
    pub fn generate(
        &self,
        chunk: &mut ProtoChunk,
        min_y: i8,
        height: u16,
        feature_name: &str,
        random: &mut RandomGenerator,
        pos: BlockPos,
        registry: &FeatureRegistry,
        noise: i64,
        fuel: u32,
    ) -> (r: bool)
        requires
            old(random).wf(),
            self.feature.wf(),
            registry.wf(),
            old(chunk).wf(),
            old(chunk).min_y == min_y,
            in_bounds(pos),
            -NOISE_LIMIT <= noise <= NOISE_LIMIT,
        ensures
            final(chunk).same_config(*old(chunk)),
            final(chunk).wf(),
            final(random).wf(),
            self.tries == 0 ==> r == false,
            spec_patch_generates(
                *self,
                min_y,
                height,
                feature_name@,
                *registry,
                noise as int,
                pos,
                *old(chunk),
                *old(random),
                *final(chunk),
                *final(random),
                r,
                fuel as nat,
            ),
        decreases fuel, 2int, 0int,
    {
        if fuel == 0 {
            return false;
        }
        patch_attempts(
            self,
            0,
            false,
            chunk,
            min_y,
            height,
            feature_name,
            random,
            pos,
            registry,
            noise,
            fuel,
        )
    }
}

} // verus!
