//! The placement-modifier pipeline: ordered position-stream transformers
//! between a feature's seed position and its generation calls.

use vstd::prelude::*;
use crate::block_predicate::BlockPredicate;
use crate::block_predicate::spec_eval;
use crate::block_predicate::spec_pred_wf;
use crate::chunk::ProtoChunk;
use crate::height_provider::HeightProvider;
use crate::height_provider::spec_height_get;
use crate::int_provider::IntProvider;
use crate::int_provider::ip_wf;
use crate::int_provider::spec_ip_get;
use crate::math::BlockPos;
use crate::math::Vector3;
use crate::math::COORD_LIMIT;
use crate::math::in_bounds;
use crate::random::RandomGenerator;
use crate::random::rg_bounded;
use crate::random::rg_fraction24;

verus! {

/// One stage of the candidate-position pipeline. Declared-only kinds act
/// as a no-op pass-through rather than failing the pipeline.
pub enum PlacementModifier {
    BlockPredicateFilter(BlockFilterPlacementModifier),
    RarityFilter(RarityFilterPlacementModifier),
    SurfaceRelativeThresholdFilter,
    SurfaceWaterDepthFilter,
    Biome(BiomePlacementModifier),
    Count(CountPlacementModifier),
    NoiseBasedCount,
    NoiseThresholdCount(NoiseThresholdCountPlacementModifier),
    CountOnEveryLayer,
    EnvironmentScan,
    Heightmap(HeightmapPlacementModifier),
    HeightRange(HeightRangePlacementModifier),
    InSquare(SquarePlacementModifier),
    RandomOffset(RandomOffsetPlacementModifier),
    FixedPlacement,
}

/// Replication count chosen by the chunk's sampled temperature noise
/// against a fixed level, both in fractional units of 2^24.
pub struct NoiseThresholdCountPlacementModifier {
    pub noise_level: i64,
    pub below_noise: i32,
    pub above_noise: i32,
}

pub struct RandomOffsetPlacementModifier {
    pub xz_spread: IntProvider,
    pub y_spread: IntProvider,
}

pub struct BlockFilterPlacementModifier {
    pub predicate: BlockPredicate,
}

/// Keeps a candidate with probability 1 in `chance`.
pub struct RarityFilterPlacementModifier {
    pub chance: u32,
}

pub struct SquarePlacementModifier;

pub struct CountPlacementModifier {
    pub count: IntProvider,
}

pub struct BiomePlacementModifier;

pub struct HeightRangePlacementModifier {
    pub height: HeightProvider,
}

pub struct HeightmapPlacementModifier {
    pub heightmap: String,
}

/// Whether one rarity draw keeps the candidate: the 24-bit fraction lies
/// under 1 over `chance`. A chance of zero keeps every candidate, as the
/// unbounded reciprocal would.
pub open spec fn spec_rarity_keeps(draw: u32, chance: u32) -> bool {
    (draw as int) * (chance as int) < 0x100_0000
}

/// The position a replicating stage emits `n` times.
pub open spec fn spec_repeat(pos: BlockPos, n: int) -> Seq<BlockPos> {
    Seq::new(if n >= 0 { n as nat } else { 0 }, |i: int| pos)
}

/// What one pipeline stage yields from one input position: the emitted
/// positions (`None` drops the candidate) and the generator state after
/// the stage's draws.
pub open spec fn spec_get_positions(
    m: PlacementModifier,
    chunk: ProtoChunk,
    min_y: i8,
    height: u16,
    feature: Seq<char>,
    g: RandomGenerator,
    pos: BlockPos,
) -> (Option<Seq<BlockPos>>, RandomGenerator) {
    match m {
        PlacementModifier::BlockPredicateFilter(f) => (
            if spec_eval(f.predicate, chunk, pos) {
                Some(seq![pos])
            } else {
                None
            },
            g,
        ),
        PlacementModifier::RarityFilter(f) => {
            let d = rg_fraction24(g);
            (
                if spec_rarity_keeps(d.0, f.chance) {
                    Some(seq![pos])
                } else {
                    None
                },
                d.1,
            )
        },
        PlacementModifier::Biome(_) => (
            if chunk.spec_biome_has_feature(feature) {
                Some(seq![pos])
            } else {
                None
            },
            g,
        ),
        PlacementModifier::Count(c) => {
            let d = spec_ip_get(c.count, g);
            (Some(spec_repeat(pos, d.0 as int)), d.1)
        },
        PlacementModifier::NoiseThresholdCount(c) => {
            let n = if chunk.temperature < c.noise_level {
                c.below_noise
            } else {
                c.above_noise
            };
            (Some(spec_repeat(pos, n as int)), g)
        },
        PlacementModifier::Heightmap(_) => {
            let top = chunk.spec_top(pos.0.x as int, pos.0.z as int);
            if top > chunk.min_y {
                (Some(seq![BlockPos(Vector3 { x: pos.0.x, y: top as i32, z: pos.0.z })]), g)
            } else {
                (None, g)
            }
        },
        PlacementModifier::HeightRange(h) => {
            let d = spec_height_get(h.height, g, min_y as int, height as int);
            (Some(seq![BlockPos(Vector3 { x: pos.0.x, y: d.0, z: pos.0.z })]), d.1)
        },
        PlacementModifier::InSquare(_) => {
            let d1 = rg_bounded(g, 16);
            let d2 = rg_bounded(d1.1, 16);
            (
                Some(
                    seq![
                        BlockPos(
                            Vector3 {
                                x: (d1.0 + pos.0.x) as i32,
                                y: pos.0.y,
                                z: (d2.0 + pos.0.z) as i32,
                            },
                        )
                    ],
                ),
                d2.1,
            )
        },
        PlacementModifier::RandomOffset(o) => {
            let dx = spec_ip_get(o.xz_spread, g);
            let dy = spec_ip_get(o.y_spread, dx.1);
            let dz = spec_ip_get(o.xz_spread, dy.1);
            (
                Some(
                    seq![
                        BlockPos(
                            Vector3 {
                                x: (pos.0.x + dx.0) as i32,
                                y: (pos.0.y + dy.0) as i32,
                                z: (pos.0.z + dz.0) as i32,
                            },
                        )
                    ],
                ),
                dz.1,
            )
        },
        _ => (Some(seq![pos]), g),
    }
}

/// Structural well-formedness: configured providers and predicates are
/// bounded.
pub open spec fn spec_modifier_wf(m: PlacementModifier) -> bool {
    match m {
        PlacementModifier::BlockPredicateFilter(f) => spec_pred_wf(f.predicate),
        PlacementModifier::Count(c) => ip_wf(c.count),
        PlacementModifier::RandomOffset(o) => ip_wf(o.xz_spread) && ip_wf(o.y_spread),
        PlacementModifier::HeightRange(h) => h.height.wf(),
        _ => true,
    }
}

impl RarityFilterPlacementModifier {
    /// One Bernoulli draw: kept with probability 1 in `chance`. A chance
    /// of 1 keeps every candidate.
    pub fn should_place(&self, random: &mut RandomGenerator) -> (r: bool)
        requires
            old(random).wf(),
        ensures
            r == spec_rarity_keeps(rg_fraction24(*old(random)).0, self.chance),
            *final(random) == rg_fraction24(*old(random)).1,
            self.chance == 1 ==> r,
            final(random).wf(),
    {
        let draw = random.next_fraction24();
        proof {
            assert((draw as int) * (self.chance as int) < 0x100_0000_0000_0000) by (nonlinear_arith)
                requires
                    draw < 0x100_0000u32 && self.chance <= 0xFFFF_FFFFu32,
            ;
            if self.chance == 1 {
                assert((draw as int) * 1 == draw as int);
            }
        }
        (draw as u64) * (self.chance as u64) < 0x100_0000
    }
}

impl BlockFilterPlacementModifier {
    /// Keep the candidate exactly when the predicate holds there.
    pub fn should_place(&self, chunk: &ProtoChunk, pos: &BlockPos) -> (r: bool)
        requires
            spec_pred_wf(self.predicate),
            in_bounds(*pos),
        ensures
            r == spec_eval(self.predicate, *chunk, *pos),
    {
        self.predicate.test(chunk, pos)
    }
}

impl BiomePlacementModifier {
    /// Keep the candidate exactly when the generating feature is
    /// registered for the biome's first step.
    pub fn should_place(&self, feature: &str, chunk: &ProtoChunk) -> (r: bool)
        requires
            chunk.wf(),
        ensures
            r == chunk.spec_biome_has_feature(feature@),
    {
        chunk.biome_has_feature(feature)
    }
}

impl CountPlacementModifier {
    /// The replication count: one provider draw per input position.
    pub fn get_count(&self, random: &mut RandomGenerator) -> (r: i32)
        requires
            old(random).wf(),
            ip_wf(self.count),
        ensures
            r == spec_ip_get(self.count, *old(random)).0,
            *final(random) == spec_ip_get(self.count, *old(random)).1,
            final(random).wf(),
    {
        self.count.get(random)
    }
}

impl NoiseThresholdCountPlacementModifier {
    /// The replication count chosen by the chunk's temperature sample.
    pub fn get_count(&self, chunk: &ProtoChunk) -> (r: i32)
        ensures
            r == if chunk.temperature < self.noise_level {
                self.below_noise
            } else {
                self.above_noise
            },
    {
        if chunk.temperature < self.noise_level {
            self.below_noise
        } else {
            self.above_noise
        }
    }
}

impl SquarePlacementModifier {
    /// Perturb x and z uniformly within the 16 by 16 chunk footprint.
    pub fn get_positions(random: &mut RandomGenerator, pos: BlockPos) -> (r: BlockPos)
        requires
            old(random).wf(),
            in_bounds(pos),
        ensures
            ({
                let d1 = rg_bounded(*old(random), 16);
                let d2 = rg_bounded(d1.1, 16);
                r == BlockPos(
                    Vector3 { x: (d1.0 + pos.0.x) as i32, y: pos.0.y, z: (d2.0 + pos.0.z) as i32 },
                ) && *final(random) == d2.1
            }),
            final(random).wf(),
    {
        let x = random.next_bounded_i32(16) + pos.0.x;
        let z = random.next_bounded_i32(16) + pos.0.z;
        BlockPos(Vector3 { x, y: pos.0.y, z })
    }
}

impl HeightRangePlacementModifier {
    /// Overwrite the y coordinate with one height-provider draw.
    pub fn get_positions(
        &self,
        min_y: i8,
        height: u16,
        random: &mut RandomGenerator,
        pos: BlockPos,
    ) -> (r: BlockPos)
        requires
            old(random).wf(),
            self.height.wf(),
        ensures
            ({
                let d = spec_height_get(self.height, *old(random), min_y as int, height as int);
                r == BlockPos(Vector3 { x: pos.0.x, y: d.0, z: pos.0.z }) && *final(random) == d.1
            }),
            final(random).wf(),
    {
        let y = self.height.get(random, min_y, height);
        BlockPos(Vector3 { x: pos.0.x, y, z: pos.0.z })
    }
}

impl HeightmapPlacementModifier {
    /// Project to one above the column's highest non-air block; the
    /// candidate is dropped when no height above the floor exists.
    pub fn get_positions(&self, chunk: &ProtoChunk, min_y: i8, pos: BlockPos) -> (r: Option<
        BlockPos,
    >)
        requires
            chunk.min_y == min_y,
        ensures
            ({
                let top = chunk.spec_top(pos.0.x as int, pos.0.z as int);
                if top > min_y {
                    r == Some(BlockPos(Vector3 { x: pos.0.x, y: top as i32, z: pos.0.z }))
                } else {
                    r is None
                }
            }),
    {
        let x = pos.0.x;
        let z = pos.0.z;
        let top = chunk.top_block_height_exclusive(x, z);
        if top > min_y as i32 {
            return Some(BlockPos(Vector3 { x, y: top, z }));
        }
        None
    }
}

impl RandomOffsetPlacementModifier {
    /// Perturb x, z and y independently by provider draws, x first, then
    /// y, then z.
    pub fn get_positions(&self, random: &mut RandomGenerator, pos: BlockPos) -> (r: BlockPos)
        requires
            old(random).wf(),
            ip_wf(self.xz_spread),
            ip_wf(self.y_spread),
            in_bounds(pos),
        ensures
            ({
                let dx = spec_ip_get(self.xz_spread, *old(random));
                let dy = spec_ip_get(self.y_spread, dx.1);
                let dz = spec_ip_get(self.xz_spread, dy.1);
                r == BlockPos(
                    Vector3 {
                        x: (pos.0.x + dx.0) as i32,
                        y: (pos.0.y + dy.0) as i32,
                        z: (pos.0.z + dz.0) as i32,
                    },
                ) && *final(random) == dz.1
            }),
            final(random).wf(),
    {
        proof {
            lemma_ip_get_bounded(self.xz_spread, *random);
        }
        let x = pos.0.x + self.xz_spread.get(random);
        proof {
            lemma_ip_get_bounded(self.y_spread, *random);
        }
        let y = pos.0.y + self.y_spread.get(random);
        proof {
            lemma_ip_get_bounded(self.xz_spread, *random);
        }
        let z = pos.0.z + self.xz_spread.get(random);
        BlockPos(Vector3 { x, y, z })
    }
}

/// A well-formed provider's draw stays within the configured spread
/// limit, whichever variant it is.
pub proof fn lemma_ip_get_bounded(p: IntProvider, g: RandomGenerator)
    requires
        ip_wf(p),
    ensures
        -crate::math::SPREAD_LIMIT <= spec_ip_get(p, g).0 <= crate::math::SPREAD_LIMIT,
    decreases p,
{
    match p {
        IntProvider::Constant(_) => {},
        IntProvider::Object(n) => match n {
            crate::int_provider::NormalIntProvider::Uniform(u) => {
                crate::random::lemma_rg_inbetween_range(g, u.min_inclusive, u.max_inclusive);
            },
            crate::int_provider::NormalIntProvider::WeightedList(_) => {},
            crate::int_provider::NormalIntProvider::Clamped(c) => {
                lemma_ip_get_bounded(*c.source, g);
            },
            crate::int_provider::NormalIntProvider::BiasedToBottom(_) => {},
        },
    }
}

impl PlacementModifier {
    /// One pipeline stage applied to one input position: the emitted
    /// positions, or `None` when the stage drops the candidate. Draws are
    /// made in stage order, so the stream is reproducible from the seed.
    pub fn get_positions(
        &self,
        chunk: &ProtoChunk,
        min_y: i8,
        height: u16,
        feature: &str,
        random: &mut RandomGenerator,
        pos: BlockPos,
    ) -> (r: Option<Vec<BlockPos>>)
        requires
            old(random).wf(),
            spec_modifier_wf(*self),
            chunk.wf(),
            chunk.min_y == min_y,
            in_bounds(pos),
        ensures
            ({
                let s = spec_get_positions(*self, *chunk, min_y, height, feature@, *old(random), pos);
                (match r {
                    Some(v) => s.0 == Some(v@),
                    None => s.0 is None,
                }) && *final(random) == s.1
            }),
            final(random).wf(),
    {
        match self {
            PlacementModifier::BlockPredicateFilter(modifier) => {
                if modifier.should_place(chunk, &pos) {
                    Some(vec![pos])
                } else {
                    None
                }
            },
            PlacementModifier::RarityFilter(modifier) => {
                if modifier.should_place(random) {
                    Some(vec![pos])
                } else {
                    None
                }
            },
            PlacementModifier::Biome(modifier) => {
                if modifier.should_place(feature, chunk) {
                    Some(vec![pos])
                } else {
                    None
                }
            },
            PlacementModifier::Count(modifier) => {
                let n = modifier.get_count(random);
                Some(repeat_pos(pos, n))
            },
            PlacementModifier::NoiseThresholdCount(modifier) => {
                let n = modifier.get_count(chunk);
                Some(repeat_pos(pos, n))
            },
            PlacementModifier::Heightmap(modifier) => {
                match modifier.get_positions(chunk, min_y, pos) {
                    Some(p) => Some(vec![p]),
                    None => None,
                }
            },
            PlacementModifier::HeightRange(modifier) => Some(
                vec![modifier.get_positions(min_y, height, random, pos)],
            ),
            PlacementModifier::InSquare(_) => Some(
                vec![SquarePlacementModifier::get_positions(random, pos)],
            ),
            PlacementModifier::RandomOffset(modifier) => Some(
                vec![modifier.get_positions(random, pos)],
            ),
            PlacementModifier::SurfaceRelativeThresholdFilter => Some(vec![pos]),
            PlacementModifier::SurfaceWaterDepthFilter => Some(vec![pos]),
            PlacementModifier::NoiseBasedCount => Some(vec![pos]),
            PlacementModifier::CountOnEveryLayer => Some(vec![pos]),
            PlacementModifier::EnvironmentScan => Some(vec![pos]),
            PlacementModifier::FixedPlacement => Some(vec![pos]),
        }
    }
}

/// A vector holding one position `n` times; a negative count yields none.
fn repeat_pos(pos: BlockPos, n: i32) -> (r: Vec<BlockPos>)
    ensures
        r@ == spec_repeat(pos, n as int),
{
    let mut out: Vec<BlockPos> = Vec::new();
    if n <= 0 {
        proof {
            assert(out@ =~= spec_repeat(pos, n as int));
        }
        return out;
    }
    let count: usize = n as usize;
    let mut i: usize = 0;
    while i < count
        invariant
            i <= count,
            out@.len() == i,
            forall|j: int| 0 <= j < i ==> out@[j] == pos,
        decreases count - i,
    {
        out.push(pos);
        i = i + 1;
    }
    proof {
        assert(out@ =~= spec_repeat(pos, n as int));
    }
    out
}

/// A replicating stage: one count draw per input position, emitting the
/// position that many times.
pub trait CountPlacementModifierBase {
    /// The count the stage draws from a chunk and generator state, and
    /// the state after the draw.
    spec fn spec_count(&self, chunk: ProtoChunk, g: RandomGenerator) -> (i32, RandomGenerator);

    fn get_count(&self, chunk: &ProtoChunk, random: &mut RandomGenerator) -> (r: i32)
        requires
            old(random).wf(),
        ensures
            final(random).wf(),
            r == self.spec_count(*chunk, *old(random)).0,
            *final(random) == self.spec_count(*chunk, *old(random)).1,
    ;

    fn get_positions(&self, chunk: &ProtoChunk, random: &mut RandomGenerator, pos: BlockPos) -> (r:
        Vec<BlockPos>)
        requires
            old(random).wf(),
        ensures
            final(random).wf(),
            r@ == spec_repeat(pos, self.spec_count(*chunk, *old(random)).0 as int),
            *final(random) == self.spec_count(*chunk, *old(random)).1,
    {
        let count = self.get_count(chunk, random);
        repeat_pos(pos, count)
    }
}

/// A keep-or-drop stage: one test per input position; a kept position
/// passes through unchanged.
pub trait ConditionalPlacementModifier {
    /// Whether the stage keeps a candidate, from the generating feature's
    /// name, the chunk and the generator state; and the state after the
    /// test's draws.
    spec fn spec_keeps(
        &self,
        feature: Seq<char>,
        chunk: ProtoChunk,
        g: RandomGenerator,
        pos: BlockPos,
    ) -> (bool, RandomGenerator);

    fn should_place(
        &self,
        feature: &str,
        chunk: &ProtoChunk,
        random: &mut RandomGenerator,
        pos: BlockPos,
    ) -> (r: bool)
        requires
            old(random).wf(),
            chunk.wf(),
        ensures
            final(random).wf(),
            r == self.spec_keeps(feature@, *chunk, *old(random), pos).0,
            *final(random) == self.spec_keeps(feature@, *chunk, *old(random), pos).1,
    ;

    fn get_positions(
        &self,
        chunk: &ProtoChunk,
        feature: &str,
        random: &mut RandomGenerator,
        pos: BlockPos,
    ) -> (r: Option<Vec<BlockPos>>)
        requires
            old(random).wf(),
            chunk.wf(),
        ensures
            final(random).wf(),
            r is Some <==> self.spec_keeps(feature@, *chunk, *old(random), pos).0,
            r is Some ==> r->Some_0@ == seq![pos],
            *final(random) == self.spec_keeps(feature@, *chunk, *old(random), pos).1,
    {
        if self.should_place(feature, chunk, random, pos) {
            let mut out: Vec<BlockPos> = Vec::new();
            out.push(pos);
            proof {
                assert(out@ =~= seq![pos]);
            }
            Some(out)
        } else {
            None
        }
    }
}

impl CountPlacementModifierBase for CountPlacementModifier {
    /// The configured provider's draw; a provider outside the spread
    /// limit draws nothing.
    open spec fn spec_count(&self, chunk: ProtoChunk, g: RandomGenerator) -> (i32, RandomGenerator) {
        if ip_wf(self.count) {
            spec_ip_get(self.count, g)
        } else {
            (0, g)
        }
    }

    fn get_count(&self, _chunk: &ProtoChunk, random: &mut RandomGenerator) -> (r: i32) {
        if ip_check(&self.count) {
            self.count.get(random)
        } else {
            0
        }
    }
}

impl CountPlacementModifierBase for NoiseThresholdCountPlacementModifier {
    /// The count chosen by the chunk's temperature sample; no draw is
    /// made.
    open spec fn spec_count(&self, chunk: ProtoChunk, g: RandomGenerator) -> (i32, RandomGenerator) {
        (
            if chunk.temperature < self.noise_level {
                self.below_noise
            } else {
                self.above_noise
            },
            g,
        )
    }

    fn get_count(&self, chunk: &ProtoChunk, random: &mut RandomGenerator) -> (r: i32) {
        NoiseThresholdCountPlacementModifier::get_count(self, chunk)
    }
}

impl ConditionalPlacementModifier for RarityFilterPlacementModifier {
    /// One fraction draw under 1 over `chance`.
    open spec fn spec_keeps(
        &self,
        feature: Seq<char>,
        chunk: ProtoChunk,
        g: RandomGenerator,
        pos: BlockPos,
    ) -> (bool, RandomGenerator) {
        (spec_rarity_keeps(rg_fraction24(g).0, self.chance), rg_fraction24(g).1)
    }

    fn should_place(
        &self,
        _feature: &str,
        _chunk: &ProtoChunk,
        random: &mut RandomGenerator,
        pos: BlockPos,
    ) -> (r: bool) {
        RarityFilterPlacementModifier::should_place(self, random)
    }
}

impl ConditionalPlacementModifier for BiomePlacementModifier {
    /// Membership of the feature in the biome's first step; no draw.
    open spec fn spec_keeps(
        &self,
        feature: Seq<char>,
        chunk: ProtoChunk,
        g: RandomGenerator,
        pos: BlockPos,
    ) -> (bool, RandomGenerator) {
        (chunk.spec_biome_has_feature(feature), g)
    }

    fn should_place(
        &self,
        feature: &str,
        chunk: &ProtoChunk,
        random: &mut RandomGenerator,
        pos: BlockPos,
    ) -> (r: bool) {
        BiomePlacementModifier::should_place(self, feature, chunk)
    }
}

impl ConditionalPlacementModifier for BlockFilterPlacementModifier {
    /// The predicate at the position; a predicate or position outside
    /// the structural bounds drops the candidate. No draw.
    open spec fn spec_keeps(
        &self,
        feature: Seq<char>,
        chunk: ProtoChunk,
        g: RandomGenerator,
        pos: BlockPos,
    ) -> (bool, RandomGenerator) {
        (spec_pred_wf(self.predicate) && in_bounds(pos) && spec_eval(self.predicate, chunk, pos), g)
    }

    fn should_place(
        &self,
        _feature: &str,
        chunk: &ProtoChunk,
        random: &mut RandomGenerator,
        pos: BlockPos,
    ) -> (r: bool) {
        if pred_check(&self.predicate) && pos_check(&pos) {
            BlockFilterPlacementModifier::should_place(self, chunk, &pos)
        } else {
            false
        }
    }
}

/// Whether a provider's configured bounds are inside the spread limit.
fn ip_check(p: &IntProvider) -> (r: bool)
    ensures
        r == ip_wf(*p),
    decreases *p,
{
    match p {
        IntProvider::Constant(i) => -crate::math::SPREAD_LIMIT <= *i && *i
            <= crate::math::SPREAD_LIMIT,
        IntProvider::Object(n) => match n {
            crate::int_provider::NormalIntProvider::Uniform(u) => -crate::math::SPREAD_LIMIT
                <= u.min_inclusive && u.min_inclusive <= crate::math::SPREAD_LIMIT
                && -crate::math::SPREAD_LIMIT <= u.max_inclusive && u.max_inclusive
                <= crate::math::SPREAD_LIMIT,
            crate::int_provider::NormalIntProvider::WeightedList(_) => true,
            crate::int_provider::NormalIntProvider::Clamped(c) => ip_check(&*c.source)
                && -crate::math::SPREAD_LIMIT <= c.min_inclusive && c.min_inclusive
                <= crate::math::SPREAD_LIMIT && -crate::math::SPREAD_LIMIT <= c.max_inclusive
                && c.max_inclusive <= crate::math::SPREAD_LIMIT,
            crate::int_provider::NormalIntProvider::BiasedToBottom(b) => -crate::math::SPREAD_LIMIT
                <= b.min_inclusive && b.min_inclusive <= crate::math::SPREAD_LIMIT
                && -crate::math::SPREAD_LIMIT <= b.max_inclusive && b.max_inclusive
                <= crate::math::SPREAD_LIMIT,
        },
    }
}

/// Whether a predicate tree's offsets are inside the spread limit.
fn pred_check(p: &BlockPredicate) -> (r: bool)
    ensures
        r == spec_pred_wf(*p),
    decreases *p,
{
    match p {
        BlockPredicate::MatchingBlocksBlockPredicate(m) => offset_check(&m.offset),
        BlockPredicate::SolidBlockPredicate(s) => offset_check(&s.offset),
        BlockPredicate::ReplaceableBlockPredicate(s) => offset_check(&s.offset),
        BlockPredicate::NotBlockPredicate(n) => pred_check(&*n.predicate),
        BlockPredicate::AnyOfBlockPredicate(a) => preds_check(&a.predicates),
        BlockPredicate::AllOfBlockPredicate(a) => preds_check(&a.predicates),
        _ => true,
    }
}

fn preds_check(ps: &Vec<BlockPredicate>) -> (r: bool)
    ensures
        r == forall|i: int| 0 <= i < ps@.len() ==> spec_pred_wf(#[trigger] ps@[i]),
    decreases *ps,
{
    let n = ps.len();
    let mut i: usize = 0;
    while i < n
        invariant
            i <= n,
            n == ps@.len(),
            forall|j: int| 0 <= j < i ==> spec_pred_wf(#[trigger] ps@[j]),
        decreases n - i,
    {
        if !pred_check(&ps[i]) {
            return false;
        }
        i = i + 1;
    }
    true
}

fn offset_check(o: &crate::block_predicate::OffsetBlocksBlockPredicate) -> (r: bool)
    ensures
        r == o.wf(),
{
    match &o.offset {
        Some(v) => -crate::math::SPREAD_LIMIT <= v.x && v.x <= crate::math::SPREAD_LIMIT
            && -crate::math::SPREAD_LIMIT <= v.y && v.y <= crate::math::SPREAD_LIMIT
            && -crate::math::SPREAD_LIMIT <= v.z && v.z <= crate::math::SPREAD_LIMIT,
        None => true,
    }
}

fn pos_check(p: &BlockPos) -> (r: bool)
    ensures
        r == in_bounds(*p),
{
    p.0.x >= -COORD_LIMIT && p.0.x <= COORD_LIMIT && p.0.y >= -COORD_LIMIT && p.0.y <= COORD_LIMIT
        && p.0.z >= -COORD_LIMIT && p.0.z <= COORD_LIMIT
}

// ------------------------------------------------------------------
// Placed features: a feature reference plus its placement chain
// ------------------------------------------------------------------

/// The read-only tables a generation run resolves names against,
/// populated once at load time and never mutated afterwards.
pub struct FeatureRegistry {
    pub placed: Vec<(String, PlacedFeature)>,
    pub configured: Vec<(String, crate::configured_features::ConfiguredFeature)>,
}

/// A placed feature held inline or referenced by registry name.
pub enum PlacedFeatureWrapper {
    Direct(PlacedFeature),
    Named(String),
}

/// A feature reference plus its placement-modifier chain.
pub struct PlacedFeature {
    pub feature: Feature,
    pub placement: Vec<PlacementModifier>,
}

/// The generation logic a placed feature invokes: inline, or resolved by
/// registry name.
pub enum Feature {
    Named(String),
    Inlined(crate::configured_features::ConfiguredFeature),
}

/// First match in the placed-feature table.
pub open spec fn spec_find_placed(
    entries: Seq<(String, PlacedFeature)>,
    name: Seq<char>,
) -> Option<PlacedFeature>
    decreases entries.len(),
{
    if entries.len() == 0 {
        None
    } else if entries[0].0@ == name {
        Some(entries[0].1)
    } else {
        spec_find_placed(entries.drop_first(), name)
    }
}

/// First match in the configured-feature table.
pub open spec fn spec_find_configured(
    entries: Seq<(String, crate::configured_features::ConfiguredFeature)>,
    name: Seq<char>,
) -> Option<crate::configured_features::ConfiguredFeature>
    decreases entries.len(),
{
    if entries.len() == 0 {
        None
    } else if entries[0].0@ == name {
        Some(entries[0].1)
    } else {
        spec_find_configured(entries.drop_first(), name)
    }
}

impl FeatureRegistry {
    pub fn find_placed<'a>(&'a self, name: &str) -> (r: Option<&'a PlacedFeature>)
        ensures
            match spec_find_placed(self.placed@, name@) {
                Some(f) => r is Some && *r->Some_0 == f,
                None => r is None,
            },
    {
        let n = self.placed.len();
        proof {
            assert(self.placed@.subrange(0, n as int) =~= self.placed@);
        }
        let mut i: usize = 0;
        while i < n
            invariant
                i <= n,
                n == self.placed@.len(),
                spec_find_placed(self.placed@, name@) == spec_find_placed(
                    self.placed@.subrange(i as int, n as int),
                    name@,
                ),
            decreases n - i,
        {
            proof {
                assert(self.placed@.subrange(i as int, n as int)[0] == self.placed@[i as int]);
                assert(self.placed@.subrange(i as int, n as int).drop_first()
                    =~= self.placed@.subrange(i + 1, n as int));
            }
            if crate::block::str_equal(self.placed[i].0.as_str(), name) {
                return Some(&self.placed[i].1);
            }
            i = i + 1;
        }
        proof {
            assert(self.placed@.subrange(n as int, n as int)
                =~= Seq::<(String, PlacedFeature)>::empty());
        }
        None
    }

    pub fn find_configured<'a>(&'a self, name: &str) -> (r: Option<
        &'a crate::configured_features::ConfiguredFeature,
    >)
        ensures
            match spec_find_configured(self.configured@, name@) {
                Some(f) => r is Some && *r->Some_0 == f,
                None => r is None,
            },
    {
        let n = self.configured.len();
        proof {
            assert(self.configured@.subrange(0, n as int) =~= self.configured@);
        }
        let mut i: usize = 0;
        while i < n
            invariant
                i <= n,
                n == self.configured@.len(),
                spec_find_configured(self.configured@, name@) == spec_find_configured(
                    self.configured@.subrange(i as int, n as int),
                    name@,
                ),
            decreases n - i,
        {
            proof {
                assert(self.configured@.subrange(i as int, n as int)[0]
                    == self.configured@[i as int]);
                assert(self.configured@.subrange(i as int, n as int).drop_first()
                    =~= self.configured@.subrange(i + 1, n as int));
            }
            if crate::block::str_equal(self.configured[i].0.as_str(), name) {
                return Some(&self.configured[i].1);
            }
            i = i + 1;
        }
        proof {
            assert(self.configured@.subrange(n as int, n as int) =~= Seq::<
                (String, crate::configured_features::ConfiguredFeature),
            >::empty());
        }
        None
    }
}

impl PlacedFeatureWrapper {
    /// Structural well-formedness of the wrapped feature.
    pub open spec fn wf(self) -> bool
        decreases self,
    {
        match self {
            PlacedFeatureWrapper::Direct(p) => p.wf(),
            PlacedFeatureWrapper::Named(_) => true,
        }
    }

    /// Resolve to the placed feature itself, or to its registry entry; a
    /// name the registry does not hold resolves to nothing.
    pub fn get<'a>(&'a self, registry: &'a FeatureRegistry) -> (r: Option<&'a PlacedFeature>)
        ensures
            match *self {
                PlacedFeatureWrapper::Direct(_) => r is Some && *r->Some_0 == self->Direct_0,
                PlacedFeatureWrapper::Named(_) => match spec_find_placed(
                    registry.placed@,
                    self->Named_0@,
                ) {
                    Some(f) => r is Some && *r->Some_0 == f,
                    None => r is None,
                },
            },
    {
        match self {
            Self::Named(name) => registry.find_placed(name.as_str()),
            Self::Direct(feature) => Some(feature),
        }
    }
}

/// The stream positions that survive the world-coordinate bound; a
/// candidate that leaves the coordinate range is dropped.
pub open spec fn spec_keep(s: Seq<BlockPos>) -> Seq<BlockPos>
    decreases s.len(),
{
    if s.len() == 0 {
        Seq::<BlockPos>::empty()
    } else {
        spec_keep(s.drop_last()) + if in_bounds(s.last()) {
            seq![s.last()]
        } else {
            Seq::<BlockPos>::empty()
        }
    }
}

/// Every kept position is in bounds.
pub proof fn lemma_keep_in_bounds(s: Seq<BlockPos>)
    ensures
        forall|i: int| 0 <= i < spec_keep(s).len() ==> in_bounds(#[trigger] spec_keep(s)[i]),
    decreases s.len(),
{
    if s.len() > 0 {
        lemma_keep_in_bounds(s.drop_last());
        assert forall|i: int| 0 <= i < spec_keep(s).len() implies in_bounds(
            #[trigger] spec_keep(s)[i],
        ) by {
            let pre = spec_keep(s.drop_last());
            if i < pre.len() {
                assert(spec_keep(s)[i] == pre[i]);
            } else {
                assert(in_bounds(s.last()));
                assert(spec_keep(s)[i] == s.last());
            }
        }
    }
}

/// One stage applied over a whole stream, in order: each position of the
/// previous stage's stream is handed to the stage unchanged, the stage's
/// emissions are bounds-filtered and concatenated, and the generator
/// threads through left to right.
pub open spec fn spec_stage_over(
    m: PlacementModifier,
    chunk: ProtoChunk,
    min_y: i8,
    height: u16,
    feature: Seq<char>,
    g: RandomGenerator,
    stream: Seq<BlockPos>,
) -> (Seq<BlockPos>, RandomGenerator)
    decreases stream.len(),
{
    if stream.len() == 0 {
        (Seq::<BlockPos>::empty(), g)
    } else {
        let s0 = spec_get_positions(m, chunk, min_y, height, feature, g, stream[0]);
        let emitted = match s0.0 {
            Some(ps) => spec_keep(ps),
            None => Seq::<BlockPos>::empty(),
        };
        let rest = spec_stage_over(m, chunk, min_y, height, feature, s0.1, stream.drop_first());
        (emitted + rest.0, rest.1)
    }
}

/// The whole pipeline: the stream starts as the origin alone and each
/// stage maps it in order.
pub open spec fn spec_pipeline(
    mods: Seq<PlacementModifier>,
    chunk: ProtoChunk,
    min_y: i8,
    height: u16,
    feature: Seq<char>,
    g: RandomGenerator,
    stream: Seq<BlockPos>,
) -> (Seq<BlockPos>, RandomGenerator)
    decreases mods.len(),
{
    if mods.len() == 0 {
        (stream, g)
    } else {
        let s = spec_stage_over(mods[0], chunk, min_y, height, feature, g, stream);
        spec_pipeline(mods.drop_first(), chunk, min_y, height, feature, s.1, s.0)
    }
}

impl PlacedFeature {
    /// Structural well-formedness: every stage and the feature itself.
    pub open spec fn wf(self) -> bool
        decreases self,
    {
        (forall|i: int|
            0 <= i < self.placement@.len() ==> spec_modifier_wf(#[trigger] self.placement@[i]))
            && match self.feature {
            Feature::Named(_) => true,
            Feature::Inlined(c) => c.wf(),
        }
    }

    /// Run the placement chain from the seed position: the candidate
    /// stream and the generator state after it are exactly the pipeline
    /// model's, each stage reading the previous stage's positions
    /// unchanged.
    pub fn run_pipeline(
        &self,
        chunk: &ProtoChunk,
        min_y: i8,
        height: u16,
        feature_name: &str,
        random: &mut RandomGenerator,
        pos: BlockPos,
    ) -> (r: Vec<BlockPos>)
        requires
            old(random).wf(),
            forall|i: int|
                0 <= i < self.placement@.len() ==> spec_modifier_wf(#[trigger] self.placement@[i]),
            chunk.wf(),
            chunk.min_y == min_y,
            in_bounds(pos),
        ensures
            r@ == spec_pipeline(
                self.placement@,
                *chunk,
                min_y,
                height,
                feature_name@,
                *old(random),
                seq![pos],
            ).0,
            *final(random) == spec_pipeline(
                self.placement@,
                *chunk,
                min_y,
                height,
                feature_name@,
                *old(random),
                seq![pos],
            ).1,
            forall|i: int| 0 <= i < r@.len() ==> in_bounds(#[trigger] r@[i]),
            final(random).wf(),
    {
        let ghost g0 = *random;
        let mut stream: Vec<BlockPos> = Vec::new();
        stream.push(pos);
        proof {
            assert(stream@ =~= seq![pos]);
        }
        let n = self.placement.len();
        proof {
            assert(self.placement@.subrange(0, n as int) =~= self.placement@);
        }
        let mut mi: usize = 0;
        while mi < n
            invariant
                mi <= n,
                n == self.placement@.len(),
                forall|i: int|
                    0 <= i < self.placement@.len() ==> spec_modifier_wf(
                        #[trigger] self.placement@[i],
                    ),
                chunk.wf(),
                chunk.min_y == min_y,
                random.wf(),
                forall|i: int| 0 <= i < stream@.len() ==> in_bounds(#[trigger] stream@[i]),
                spec_pipeline(
                    self.placement@,
                    *chunk,
                    min_y,
                    height,
                    feature_name@,
                    g0,
                    seq![pos],
                ).0 == spec_pipeline(
                    self.placement@.subrange(mi as int, n as int),
                    *chunk,
                    min_y,
                    height,
                    feature_name@,
                    *random,
                    stream@,
                ).0,
                spec_pipeline(
                    self.placement@,
                    *chunk,
                    min_y,
                    height,
                    feature_name@,
                    g0,
                    seq![pos],
                ).1 == spec_pipeline(
                    self.placement@.subrange(mi as int, n as int),
                    *chunk,
                    min_y,
                    height,
                    feature_name@,
                    *random,
                    stream@,
                ).1,
            decreases n - mi,
        {
            let ghost g1 = *random;
            let ghost s_in = stream@;
            let mut next_stream: Vec<BlockPos> = Vec::new();
            let sn = stream.len();
            proof {
                assert(s_in.subrange(0, sn as int) =~= s_in);
                assert(next_stream@ + spec_stage_over(
                    self.placement@[mi as int],
                    *chunk,
                    min_y,
                    height,
                    feature_name@,
                    g1,
                    s_in,
                ).0 =~= spec_stage_over(
                    self.placement@[mi as int],
                    *chunk,
                    min_y,
                    height,
                    feature_name@,
                    g1,
                    s_in,
                ).0);
            }
            let mut si: usize = 0;
            while si < sn
                invariant
                    si <= sn,
                    sn == s_in.len(),
                    stream@ == s_in,
                    mi < n,
                    n == self.placement@.len(),
                    forall|i: int|
                        0 <= i < self.placement@.len() ==> spec_modifier_wf(
                            #[trigger] self.placement@[i],
                        ),
                    chunk.wf(),
                    chunk.min_y == min_y,
                    random.wf(),
                    forall|i: int| 0 <= i < s_in.len() ==> in_bounds(#[trigger] s_in[i]),
                    forall|i: int|
                        0 <= i < next_stream@.len() ==> in_bounds(#[trigger] next_stream@[i]),
                    spec_stage_over(
                        self.placement@[mi as int],
                        *chunk,
                        min_y,
                        height,
                        feature_name@,
                        g1,
                        s_in,
                    ).0 == next_stream@ + spec_stage_over(
                        self.placement@[mi as int],
                        *chunk,
                        min_y,
                        height,
                        feature_name@,
                        *random,
                        s_in.subrange(si as int, sn as int),
                    ).0,
                    spec_stage_over(
                        self.placement@[mi as int],
                        *chunk,
                        min_y,
                        height,
                        feature_name@,
                        g1,
                        s_in,
                    ).1 == spec_stage_over(
                        self.placement@[mi as int],
                        *chunk,
                        min_y,
                        height,
                        feature_name@,
                        *random,
                        s_in.subrange(si as int, sn as int),
                    ).1,
                decreases sn - si,
            {
                let posx = stream[si];
                let ghost g_pre = *random;
                let ghost ns_pre = next_stream@;
                proof {
                    assert(s_in.subrange(si as int, sn as int)[0] == s_in[si as int]);
                    assert(s_in.subrange(si as int, sn as int).drop_first() =~= s_in.subrange(
                        si + 1,
                        sn as int,
                    ));
                }
                let out = self.placement[mi].get_positions(
                    chunk,
                    min_y,
                    height,
                    feature_name,
                    random,
                    posx,
                );
                match out {
                    Some(positions) => {
                        let ghost ns0 = next_stream@;
                        let ghost ps = positions@;
                        let pn = positions.len();
                        let mut pi: usize = 0;
                        proof {
                            assert(ps.subrange(0, 0) =~= Seq::<BlockPos>::empty());
                            assert(spec_keep(ps.subrange(0, 0)) =~= Seq::<BlockPos>::empty());
                            assert(next_stream@ =~= ns0 + spec_keep(ps.subrange(0, 0)));
                        }
                        while pi < pn
                            invariant
                                pi <= pn,
                                pn == ps.len(),
                                positions@ == ps,
                                next_stream@ == ns0 + spec_keep(ps.subrange(0, pi as int)),
                                forall|i: int|
                                    0 <= i < ns0.len() ==> in_bounds(#[trigger] ns0[i]),
                            decreases pn - pi,
                        {
                            let p = positions[pi];
                            if p.0.x >= -COORD_LIMIT && p.0.x <= COORD_LIMIT && p.0.y
                                >= -COORD_LIMIT && p.0.y <= COORD_LIMIT && p.0.z >= -COORD_LIMIT
                                && p.0.z <= COORD_LIMIT {
                                next_stream.push(p);
                            }
                            pi = pi + 1;
                            proof {
                                assert(ps.subrange(0, pi as int).drop_last() =~= ps.subrange(
                                    0,
                                    pi - 1,
                                ));
                                assert(ps.subrange(0, pi as int).last() == ps[pi - 1]);
                            }
                        }
                        proof {
                            assert(ps.subrange(0, pn as int) =~= ps);
                            lemma_keep_in_bounds(ps);
                        }
                    },
                    None => {
                        proof {
                            assert(next_stream@ =~= next_stream@ + Seq::<BlockPos>::empty());
                        }
                    },
                }
                proof {
                    let m = self.placement@[mi as int];
                    let subr = s_in.subrange(si as int, sn as int);
                    let s0 = spec_get_positions(
                        m,
                        *chunk,
                        min_y,
                        height,
                        feature_name@,
                        g_pre,
                        s_in[si as int],
                    );
                    let emitted = match s0.0 {
                        Some(ps2) => spec_keep(ps2),
                        None => Seq::<BlockPos>::empty(),
                    };
                    let rest = spec_stage_over(
                        m,
                        *chunk,
                        min_y,
                        height,
                        feature_name@,
                        s0.1,
                        s_in.subrange(si + 1, sn as int),
                    );
                    assert(*random == s0.1);
                    assert(next_stream@ =~= ns_pre + emitted);
                    assert(spec_stage_over(m, *chunk, min_y, height, feature_name@, g_pre, subr).0
                        =~= emitted + rest.0);
                    assert(spec_stage_over(m, *chunk, min_y, height, feature_name@, g_pre, subr).1
                        == rest.1);
                    assert((ns_pre + emitted) + rest.0 =~= ns_pre + (emitted + rest.0));
                }
                si = si + 1;
            }
            proof {
                assert(s_in.subrange(sn as int, sn as int) =~= Seq::<BlockPos>::empty());
                assert(spec_stage_over(
                    self.placement@[mi as int],
                    *chunk,
                    min_y,
                    height,
                    feature_name@,
                    g1,
                    s_in,
                ).0 =~= next_stream@);
                assert(self.placement@.subrange(mi as int, n as int)[0]
                    == self.placement@[mi as int]);
                assert(self.placement@.subrange(mi as int, n as int).drop_first()
                    =~= self.placement@.subrange(mi + 1, n as int));
            }
            stream = next_stream;
            mi = mi + 1;
        }
        proof {
            assert(self.placement@.subrange(n as int, n as int) =~= Seq::<
                PlacementModifier,
            >::empty());
        }
        stream
    }

    /// Generate the placed feature: run the placement chain from the
    /// seed position, resolve the feature inline or by stripped registry
    /// name, and generate it at every candidate in order, reporting
    /// whether any placement succeeded. The whole call obeys the
    /// placed-feature model. `noise` is the block-state sample for the
    /// run and `fuel` bounds recursion depth; an exhausted budget or an
    /// unknown name generates nothing.
    pub fn generate(
        &self,
        chunk: &mut ProtoChunk,
        min_y: i8,
        height: u16,
        feature_name: &str,
        random: &mut RandomGenerator,
        pos: BlockPos,
        registry: &FeatureRegistry,
        noise: i64,
        fuel: u32,
    ) -> (r: bool)
        requires
            old(random).wf(),
            self.wf(),
            registry.wf(),
            old(chunk).wf(),
            old(chunk).min_y == min_y,
            in_bounds(pos),
            -crate::block_state_provider::NOISE_LIMIT <= noise
                <= crate::block_state_provider::NOISE_LIMIT,
        ensures
            final(chunk).same_config(*old(chunk)),
            final(chunk).wf(),
            final(random).wf(),
            fuel == 0 ==> !r && *final(chunk) == *old(chunk) && *final(random) == *old(random),
            crate::configured_features::spec_placed_generates(
                *self,
                min_y,
                height,
                feature_name@,
                *registry,
                noise as int,
                pos,
                *old(chunk),
                *old(random),
                *final(chunk),
                *final(random),
                r,
                fuel as nat,
            ),
        decreases fuel, 2int, 0int,
    {
        if fuel == 0 {
            return false;
        }
        let stream = self.run_pipeline(chunk, min_y, height, feature_name, random, pos);
        let feature: &crate::configured_features::ConfiguredFeature = match &self.feature {
            Feature::Named(name) => {
                let n = name.as_str().unicode_len();
                let has_prefix = crate::block_predicate::has_namespace_prefix(name.as_str());
                let bare: &str = if has_prefix {
                    name.as_str().substring_char(10, n)
                } else {
                    name.as_str()
                };
                proof {
                    assert(bare@ == crate::block_predicate::spec_strip_namespace(
                        self.feature->Named_0@,
                    ));
                }
                let found = registry.find_configured(bare);
                proof {
                    lemma_find_configured_wf(registry.configured@, bare@);
                }
                match found {
                    Some(f) => f,
                    None => {
                        return false;
                    },
                }
            },
            Feature::Inlined(feature) => feature,
        };
        generate_at_candidates(
            feature,
            &stream,
            0,
            false,
            chunk,
            min_y,
            height,
            feature_name,
            random,
            registry,
            noise,
            fuel,
        )
    }
}

/// The candidate walk from index `i`: the resolved feature generates at
/// each remaining stream position in order, accumulating success.
fn generate_at_candidates(
    feature: &crate::configured_features::ConfiguredFeature,
    stream: &Vec<BlockPos>,
    i: usize,
    acc: bool,
    chunk: &mut ProtoChunk,
    min_y: i8,
    height: u16,
    feature_name: &str,
    random: &mut RandomGenerator,
    registry: &FeatureRegistry,
    noise: i64,
    fuel: u32,
) -> (r: bool)
    requires
        old(random).wf(),
        feature.wf(),
        registry.wf(),
        old(chunk).wf(),
        old(chunk).min_y == min_y,
        i <= stream@.len(),
        forall|j: int| 0 <= j < stream@.len() ==> in_bounds(#[trigger] stream@[j]),
        -crate::block_state_provider::NOISE_LIMIT <= noise
            <= crate::block_state_provider::NOISE_LIMIT,
        fuel >= 1,
    ensures
        final(chunk).same_config(*old(chunk)),
        final(chunk).wf(),
        final(random).wf(),
        crate::configured_features::spec_candidates_generate(
            *feature,
            stream@,
            i as int,
            acc,
            min_y,
            height,
            feature_name@,
            *registry,
            noise as int,
            *old(chunk),
            *old(random),
            *final(chunk),
            *final(random),
            r,
            fuel as nat,
        ),
    decreases fuel, 1int, stream@.len() - i,
{
    if i == stream.len() {
        return acc;
    }
    let p = stream[i];
    let ghost c_pre = *chunk;
    let ghost g_pre = *random;
    let ri = feature.generate(
        chunk,
        min_y,
        height,
        feature_name,
        random,
        p,
        registry,
        noise,
        fuel - 1,
    );
    let ghost cm = *chunk;
    let ghost gm = *random;
    let res = generate_at_candidates(
        feature,
        stream,
        i + 1,
        acc || ri,
        chunk,
        min_y,
        height,
        feature_name,
        random,
        registry,
        noise,
        fuel,
    );
    proof {
        crate::configured_features::lemma_candidates_step(
            *feature,
            stream@,
            i as int,
            acc,
            min_y,
            height,
            feature_name@,
            *registry,
            noise as int,
            *old(chunk),
            *old(random),
            cm,
            gm,
            ri,
            *chunk,
            *random,
            res,
            fuel as nat,
        );
    }
    res
}

/// What a configured-feature name resolves to: the table entry under the
/// name with its namespace prefix stripped.
pub open spec fn spec_resolve_configured(
    reg: FeatureRegistry,
    name: Seq<char>,
) -> Option<crate::configured_features::ConfiguredFeature> {
    spec_find_configured(reg.configured@, crate::block_predicate::spec_strip_namespace(name))
}

/// What a placed-feature wrapper resolves to: itself when inline, its
/// registry entry when named.
pub open spec fn spec_resolve_wrapper(
    w: PlacedFeatureWrapper,
    reg: FeatureRegistry,
) -> Option<PlacedFeature> {
    match w {
        PlacedFeatureWrapper::Direct(p) => Some(p),
        PlacedFeatureWrapper::Named(n) => spec_find_placed(reg.placed@, n@),
    }
}

/// A feature found in the placed table is well formed when the whole
/// table is.
pub proof fn lemma_find_placed_wf(entries: Seq<(String, PlacedFeature)>, name: Seq<char>)
    requires
        forall|i: int| 0 <= i < entries.len() ==> (#[trigger] entries[i].1).wf(),
    ensures
        match spec_find_placed(entries, name) {
            Some(f) => f.wf(),
            None => true,
        },
    decreases entries.len(),
{
    if entries.len() > 0 && entries[0].0@ != name {
        lemma_find_placed_wf(entries.drop_first(), name);
    }
}

/// A feature found in the configured table is well formed when the whole
/// table is.
pub proof fn lemma_find_configured_wf(
    entries: Seq<(String, crate::configured_features::ConfiguredFeature)>,
    name: Seq<char>,
)
    requires
        forall|i: int| 0 <= i < entries.len() ==> (#[trigger] entries[i].1).wf(),
    ensures
        match spec_find_configured(entries, name) {
            Some(f) => f.wf(),
            None => true,
        },
    decreases entries.len(),
{
    if entries.len() > 0 && entries[0].0@ != name {
        lemma_find_configured_wf(entries.drop_first(), name);
    }
}

impl FeatureRegistry {
    /// Every table entry is structurally well formed.
    pub open spec fn wf(self) -> bool {
        (forall|i: int| 0 <= i < self.placed@.len() ==> (#[trigger] self.placed@[i].1).wf())
            && (forall|i: int|
            0 <= i < self.configured@.len() ==> (#[trigger] self.configured@[i].1).wf())
    }
}

/// A count stage over the constant-zero distribution emits the empty
/// stream from any input position, any chunk and any generator state,
/// without advancing the generator.
pub proof fn lemma_count_zero_empty(
    c: CountPlacementModifier,
    chunk: ProtoChunk,
    min_y: i8,
    height: u16,
    feature: Seq<char>,
    g: RandomGenerator,
    pos: BlockPos,
)
    requires
        c.count == IntProvider::Constant(0),
    ensures
        spec_get_positions(PlacementModifier::Count(c), chunk, min_y, height, feature, g, pos).0
            == Some(Seq::<BlockPos>::empty()),
        spec_get_positions(PlacementModifier::Count(c), chunk, min_y, height, feature, g, pos).1
            == g,
{
    assert(spec_repeat(pos, 0) =~= Seq::<BlockPos>::empty());
}

/// Determinism of placement: identical seeds and positions drive the
/// pipeline to identical candidate streams and generator states, for any
/// chunk and stage list. Whole-run reproducibility from a world seed
/// rests on this together with the per-draw determinism of the random
/// source.
pub proof fn lemma_pipeline_deterministic(
    mods: Seq<PlacementModifier>,
    chunk: ProtoChunk,
    min_y: i8,
    height: u16,
    feature: Seq<char>,
    g1: RandomGenerator,
    g2: RandomGenerator,
    stream: Seq<BlockPos>,
)
    requires
        g1 == g2,
    ensures
        spec_pipeline(mods, chunk, min_y, height, feature, g1, stream) == spec_pipeline(
            mods,
            chunk,
            min_y,
            height,
            feature,
            g2,
            stream,
        ),
{
}

/// A rarity stage with chance 1 passes every input position through
/// unchanged, whatever the generator state.
pub proof fn lemma_rarity_one_keeps_all(
    f: RarityFilterPlacementModifier,
    chunk: ProtoChunk,
    min_y: i8,
    height: u16,
    feature: Seq<char>,
    g: RandomGenerator,
    pos: BlockPos,
)
    requires
        f.chance == 1,
    ensures
        spec_get_positions(
            PlacementModifier::RarityFilter(f),
            chunk,
            min_y,
            height,
            feature,
            g,
            pos,
        ).0 == Some(seq![pos]),
{
    crate::random::lemma_rg_fraction24_lt(g);
    assert((rg_fraction24(g).0 as int) * 1 == rg_fraction24(g).0 as int);
}

} // verus!
