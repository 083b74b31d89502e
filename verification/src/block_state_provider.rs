//! Position-to-block selection strategies.
//!
//! The noise-driven strategies read a double-Perlin sample. Sampling is
//! floating-point work done outside this library; here the sample arrives
//! as a plain value in fractional units of 2^24, and everything decided
//! from it is exact.

use vstd::prelude::*;
use crate::block::ChunkBlockState;
use crate::block::spec_default_state;
use crate::block::BLOCK_AIR;
use crate::math::BlockPos;
use crate::random::RandomGenerator;
use crate::random::rg_bounded;
use crate::random::rg_fraction24;

verus! {

/// One whole, in the fixed-point scale noise samples arrive in.
pub const NOISE_ONE: i64 = 0x100_0000;

/// The largest normalized value a bucket selection may see: just under
/// one whole, so the last bucket is reachable but never exceeded.
pub const BUCKET_MAX: i64 = 16775538;

/// Noise samples and thresholds stay within a few wholes.
pub const NOISE_LIMIT: i64 = 0x400_0000;

pub enum BlockStateProvider {
    SimpleStateProvider(SimpleStateProvider),
    WeightedBlockStateProvider(WeightedBlockStateProvider),
    NoiseThresholdBlockStateProvider(NoiseThresholdBlockStateProvider),
    NoiseProvider(NoiseBlockStateProvider),
    DualNoiseBlockStateProvider(DualNoiseBlockStateProvider),
    PillarBlockStateProvider(PillarBlockStateProvider),
    RandomizedIntBlockStateProvider(RandomizedIntBlockStateProvider),
}

/// Declared strategy with no behavior defined yet; it resolves to air.
pub struct RandomizedIntBlockStateProvider {}

/// Declared strategy with no behavior defined yet; it resolves to air.
pub struct PillarBlockStateProvider {}

/// Declared strategy with no behavior defined yet; it resolves to air.
pub struct DualNoiseBlockStateProvider {}

/// Declared strategy with no behavior defined yet; it resolves to air.
pub struct WeightedBlockStateProvider {}

/// A fixed block, whatever the position.
pub struct SimpleStateProvider {
    pub state: ChunkBlockState,
}

/// The seed and shape of a double-Perlin noise: first-octave exponent and
/// ordered amplitudes (amplitudes in fractional units of 2^24). The
/// sampler built from these lives outside the verified core; only its
/// sample value comes back in.
pub struct NoiseBlockStateProviderBase {
    pub seed: i64,
    pub first_octave: i32,
    pub amplitudes: Vec<i64>,
    pub scale: i64,
}

/// Deterministic bucket selection: the sample, normalized from [-1, 1]
/// to [0, 1) and clamped just under one, indexes the state list.
pub struct NoiseBlockStateProvider {
    pub base: NoiseBlockStateProviderBase,
    pub states: Vec<ChunkBlockState>,
}

/// Threshold selection: below the threshold a uniform pick from the low
/// list; otherwise, with the configured chance, a uniform pick from the
/// high list, else the default state.
pub struct NoiseThresholdBlockStateProvider {
    pub base: NoiseBlockStateProviderBase,
    pub threshold: i64,
    pub high_chance: u32,
    pub default_state: ChunkBlockState,
    pub low_states: Vec<ChunkBlockState>,
    pub high_states: Vec<ChunkBlockState>,
}

/// The bucket a sample falls in among `len` ordered states.
pub open spec fn spec_bucket_index(noise: int, len: int) -> int {
    let half = (NOISE_ONE + noise) / 2;
    let clamped = if half < 0 {
        0
    } else if half > BUCKET_MAX {
        BUCKET_MAX as int
    } else {
        half
    };
    clamped * len / (NOISE_ONE as int)
}

/// The bucket index stays inside the list.
pub proof fn lemma_bucket_in_range(noise: int, len: int)
    requires
        1 <= len,
    ensures
        0 <= spec_bucket_index(noise, len) < len,
{
    let half = (NOISE_ONE + noise) / 2;
    let clamped: int = if half < 0 {
        0
    } else if half > BUCKET_MAX {
        BUCKET_MAX as int
    } else {
        half
    };
    assert(0 <= clamped <= BUCKET_MAX);
    assert(clamped * len < 0x100_0000 * len) by (nonlinear_arith)
        requires
            0 <= clamped < 0x100_0000 && len >= 1,
    ;
    assert(clamped * len >= 0) by (nonlinear_arith)
        requires
            clamped >= 0 && len >= 0,
    ;
    assert(clamped * len / 0x100_0000 < len) by (nonlinear_arith)
        requires
            0 <= clamped * len < 0x100_0000 * len,
    ;
}

/// What a threshold provider selects from a sample and a generator state.
pub open spec fn spec_threshold_get(
    p: NoiseThresholdBlockStateProvider,
    g: RandomGenerator,
    noise: int,
) -> (ChunkBlockState, RandomGenerator) {
    if noise < p.threshold {
        let d = rg_bounded(g, p.low_states@.len() as u32);
        (p.low_states@[d.0 as int], d.1)
    } else {
        let c = rg_fraction24(g);
        if c.0 < p.high_chance {
            let d = rg_bounded(c.1, p.high_states@.len() as u32);
            (p.high_states@[d.0 as int], d.1)
        } else {
            (p.default_state, c.1)
        }
    }
}

/// What a provider selects at a position, given the noise sample for its
/// parameters there; and the generator state after its draws.
pub open spec fn spec_bsp_get(
    p: BlockStateProvider,
    g: RandomGenerator,
    noise: int,
) -> (ChunkBlockState, RandomGenerator) {
    match p {
        BlockStateProvider::SimpleStateProvider(s) => (s.state, g),
        BlockStateProvider::NoiseProvider(n) => (
            n.states@[spec_bucket_index(noise, n.states@.len() as int)],
            g,
        ),
        BlockStateProvider::NoiseThresholdBlockStateProvider(t) => spec_threshold_get(t, g, noise),
        _ => (spec_default_state(BLOCK_AIR), g),
    }
}

/// The structural bounds a configured provider obeys: the state lists it
/// draws from are non-empty and small, and its thresholds are in range.
pub open spec fn bsp_wf(p: BlockStateProvider) -> bool {
    match p {
        BlockStateProvider::NoiseProvider(n) => 1 <= n.states@.len() <= 0xFFFF,
        BlockStateProvider::NoiseThresholdBlockStateProvider(t) => 1 <= t.low_states@.len()
            <= 0xFFFF && 1 <= t.high_states@.len() <= 0xFFFF && -NOISE_LIMIT <= t.threshold
            <= NOISE_LIMIT,
        _ => true,
    }
}

impl SimpleStateProvider {
    pub fn get(&self, _pos: BlockPos) -> (r: ChunkBlockState)
        ensures
            r == self.state,
    {
        self.state
    }
}

impl NoiseBlockStateProvider {
    /// The bucketed pick for a sample: a deterministic selection, not a
    /// weighted-random one.
    pub fn get_state_by_value(&self, noise: i64) -> (r: ChunkBlockState)
        requires
            1 <= self.states@.len() <= 0xFFFF,
            -NOISE_LIMIT <= noise <= NOISE_LIMIT,
        ensures
            r == self.states@[spec_bucket_index(noise as int, self.states@.len() as int)],
    {
        let len = self.states.len();
        let half: i64 = (NOISE_ONE + noise) / 2;
        let clamped: i64 = if half < 0 {
            0
        } else if half > BUCKET_MAX {
            BUCKET_MAX
        } else {
            half
        };
        proof {
            lemma_bucket_in_range(noise as int, len as int);
            assert(clamped * (len as int) <= 0x100_0000 * 0xFFFF) by (nonlinear_arith)
                requires
                    0 <= clamped <= 0x100_0000 && len <= 0xFFFFusize,
            ;
        }
        let idx: usize = ((clamped * (len as i64)) / NOISE_ONE) as usize;
        self.states[idx]
    }

    /// The bucketed pick at a position, given the sample for this
    /// provider's parameters there.
    pub fn get(&self, _pos: BlockPos, noise: i64) -> (r: ChunkBlockState)
        requires
            1 <= self.states@.len() <= 0xFFFF,
            -NOISE_LIMIT <= noise <= NOISE_LIMIT,
        ensures
            r == self.states@[spec_bucket_index(noise as int, self.states@.len() as int)],
    {
        self.get_state_by_value(noise)
    }
}

impl NoiseThresholdBlockStateProvider {
    /// The threshold pick at a position, given the sample for this
    /// provider's parameters there.
    pub fn get(&self, random: &mut RandomGenerator, _pos: BlockPos, noise: i64) -> (r:
        ChunkBlockState)
        requires
            old(random).wf(),
            1 <= self.low_states@.len() <= 0xFFFF,
            1 <= self.high_states@.len() <= 0xFFFF,
        ensures
            r == spec_threshold_get(*self, *old(random), noise as int).0,
            *final(random) == spec_threshold_get(*self, *old(random), noise as int).1,
            final(random).wf(),
    {
        if noise < self.threshold {
            let i = random.next_bounded_i32(self.low_states.len() as i32);
            return self.low_states[i as usize];
        }
        let c = random.next_fraction24();
        if c < self.high_chance {
            let i = random.next_bounded_i32(self.high_states.len() as i32);
            return self.high_states[i as usize];
        }
        self.default_state
    }
}

impl BlockStateProvider {
    /// The state selected at a position. `noise` is the double-Perlin
    /// sample for the provider's own parameters at that position, in
    /// fractional units of 2^24; strategies that sample no noise ignore
    /// it. Declared-only strategies resolve to air rather than failing.
    pub fn get(&self, random: &mut RandomGenerator, pos: BlockPos, noise: i64) -> (r:
        ChunkBlockState)
        requires
            old(random).wf(),
            bsp_wf(*self),
            -NOISE_LIMIT <= noise <= NOISE_LIMIT,
        ensures
            r == spec_bsp_get(*self, *old(random), noise as int).0,
            *final(random) == spec_bsp_get(*self, *old(random), noise as int).1,
            final(random).wf(),
    {
        match self {
            BlockStateProvider::NoiseThresholdBlockStateProvider(provider) => provider.get(
                random,
                pos,
                noise,
            ),
            BlockStateProvider::NoiseProvider(provider) => provider.get(pos, noise),
            BlockStateProvider::SimpleStateProvider(provider) => provider.get(pos),
            BlockStateProvider::WeightedBlockStateProvider(_) => ChunkBlockState::air(),
            BlockStateProvider::DualNoiseBlockStateProvider(_) => ChunkBlockState::air(),
            BlockStateProvider::PillarBlockStateProvider(_) => ChunkBlockState::air(),
            BlockStateProvider::RandomizedIntBlockStateProvider(_) => ChunkBlockState::air(),
        }
    }
}

} // verus!
