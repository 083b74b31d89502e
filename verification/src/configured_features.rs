//! The configured feature tree: the tagged union of generation units a
//! placed feature ultimately invokes. Kinds without defined behavior
//! report no placement and write nothing.

use vstd::prelude::*;
use crate::block::ChunkBlockState;
use crate::block_state_provider::bsp_wf;
use crate::block_state_provider::NOISE_LIMIT;
use crate::chunk::ProtoChunk;
use crate::desert_well::DesertWellFeature;
use crate::fallen_tree::FallenTreeFeature;
use crate::math::BlockPos;
use crate::math::in_bounds;
use crate::placed_features::FeatureRegistry;
use crate::random::RandomGenerator;
use crate::random::rg_bool;
use crate::random::rg_bounded;
use crate::random::rg_fraction24;
use crate::random_boolean_selector::RandomBooleanFeature;
use crate::random_patch::RandomPatchFeature;
use crate::random_selector::RandomFeature;
use crate::simple_block::SimpleBlockFeature;
use crate::simple_random_selector::SimpleRandomFeature;
use crate::tree::TreeFeature;

verus! {

/// One rule of an ore's replacement table: which state the ore writes.
pub struct Target {
    pub state: ChunkBlockState,
}

/// The ore feature's shape: declared, with no generation behavior yet.
/// The exposure-discard chance is in fractional units of 2^24.
pub struct OreFeatureConfig {
    pub targets: Vec<Target>,
    pub size: u8,
    pub discard_chance_on_air_exposure: u32,
}

pub enum ConfiguredFeature {
    Ore(OreFeatureConfig),
    SimpleBlock(SimpleBlockFeature),
    RandomPatch(RandomPatchFeature),
    RandomSelector(RandomFeature),
    SimpleRandomSelector(SimpleRandomFeature),
    RandomBooleanSelector(RandomBooleanFeature),
    Tree(TreeFeature),
    DesertWell(DesertWellFeature),
    FallenTree(FallenTreeFeature),
}

impl ConfiguredFeature {
    /// Structural well-formedness of the whole feature tree under this
    /// node.
    pub open spec fn wf(self) -> bool
        decreases self,
    {
        match self {
            ConfiguredFeature::Ore(_) => true,
            ConfiguredFeature::SimpleBlock(f) => bsp_wf(f.to_place),
            ConfiguredFeature::RandomPatch(f) => f.feature.wf(),
            ConfiguredFeature::RandomSelector(f) => (forall|i: int|
                0 <= i < f.features@.len() ==> (#[trigger] f.features@[i].feature).wf())
                && f.default.wf(),
            ConfiguredFeature::SimpleRandomSelector(f) => 1 <= f.features@.len() <= 0x7FFF_FFFF
                && forall|i: int| 0 <= i < f.features@.len() ==> (#[trigger] f.features@[i]).wf(),
            ConfiguredFeature::RandomBooleanSelector(f) => f.feature_true.wf()
                && f.feature_false.wf(),
            ConfiguredFeature::Tree(f) => bsp_wf(f.trunk_provider),
            ConfiguredFeature::DesertWell(_) => true,
            ConfiguredFeature::FallenTree(f) => bsp_wf(f.trunk_provider),
        }
    }

    /// Generate this feature at a position. Every kind leaves the
    /// chunk's shape and well-formedness intact, and the whole call obeys
    /// the generation model: declared-only kinds generate nothing,
    /// recursive kinds delegate on a reduced budget, and the leaf kinds
    /// behave exactly as their own contracts say. `noise` is the run's
    /// block-state sample and `fuel` bounds recursion depth.
    pub fn generate(
        &self,
        chunk: &mut ProtoChunk,
        min_y: i8,
        height: u16,
        feature_name: &str,
        random: &mut RandomGenerator,
        pos: BlockPos,
        registry: &FeatureRegistry,
        noise: i64,
        fuel: u32,
    ) -> (r: bool)
        requires
            old(random).wf(),
            self.wf(),
            registry.wf(),
            old(chunk).wf(),
            old(chunk).min_y == min_y,
            in_bounds(pos),
            -NOISE_LIMIT <= noise <= NOISE_LIMIT,
        ensures
            final(chunk).same_config(*old(chunk)),
            final(chunk).wf(),
            final(random).wf(),
            self is Ore ==> r == false && *final(chunk) == *old(chunk) && *final(random) == *old(
                random,
            ),
            fuel == 0 ==> !r && *final(chunk) == *old(chunk) && *final(random) == *old(random),
            spec_configured_generates(
                *self,
                min_y,
                height,
                feature_name@,
                *registry,
                noise as int,
                pos,
                *old(chunk),
                *old(random),
                *final(chunk),
                *final(random),
                r,
                fuel as nat,
            ),
        decreases fuel, 3int, 0int,
    {
        if fuel == 0 {
            return false;
        }
        match self {
            ConfiguredFeature::Ore(_) => false,
            ConfiguredFeature::SimpleBlock(feature) => feature.generate(chunk, random, pos, noise),
            ConfiguredFeature::RandomPatch(feature) => feature.generate(
                chunk,
                min_y,
                height,
                feature_name,
                random,
                pos,
                registry,
                noise,
                fuel - 1,
            ),
            ConfiguredFeature::RandomSelector(feature) => feature.generate(
                chunk,
                min_y,
                height,
                feature_name,
                random,
                pos,
                registry,
                noise,
                fuel - 1,
            ),
            ConfiguredFeature::SimpleRandomSelector(feature) => feature.generate(
                chunk,
                min_y,
                height,
                feature_name,
                random,
                pos,
                registry,
                noise,
                fuel - 1,
            ),
            ConfiguredFeature::RandomBooleanSelector(feature) => feature.generate(
                chunk,
                min_y,
                height,
                feature_name,
                random,
                pos,
                registry,
                noise,
                fuel - 1,
            ),
            ConfiguredFeature::Tree(feature) => {
                let rr = feature.generate(
                    chunk,
                    min_y,
                    height,
                    feature_name,
                    random,
                    pos,
                    noise,
                );
                proof {
                    assert(spec_tree_generates(
                        *feature,
                        noise as int,
                        pos,
                        *old(chunk),
                        *old(random),
                        *chunk,
                        *random,
                        rr,
                    ));
                }
                rr
            },
            ConfiguredFeature::DesertWell(feature) => {
                let rr = feature.generate(chunk, min_y, height, feature_name, random, pos);
                proof {
                    assert(spec_well_generates(pos, *old(chunk), *old(random), *chunk, *random, rr));
                }
                rr
            },
            ConfiguredFeature::FallenTree(feature) => feature.generate(
                chunk,
                min_y,
                height,
                feature_name,
                random,
                pos,
            ),
        }
    }

}

// ------------------------------------------------------------------
// The generation model
// ------------------------------------------------------------------
//
// What each generate call means, stated as relations between the chunk
// and generator before and after, the position, and the result. Each
// relation mirrors the executable recursion, decreasing on the same
// recursion budget, with intermediate chunk states of a sequence of
// sub-generations bound existentially. Every generate function ensures
// its relation, so a run's outcome is pinned to the model.

/// A marker for one sub-generation outcome: the chunk, generator and
/// result it left. It means nothing by itself; the intermediate states
/// of a generation sequence are quantified through it.
pub open spec fn spec_gen_witness(c: ProtoChunk, g: RandomGenerator, r: bool) -> bool {
    true
}

/// A placed feature's run: the pipeline from the seed position, the
/// feature resolved inline or by stripped name, and one generation per
/// surviving candidate in order, true iff any succeeded. An exhausted
/// budget or an unknown name generates nothing.
pub open spec fn spec_placed_generates(
    f: crate::placed_features::PlacedFeature,
    min_y: i8,
    height: u16,
    feature: Seq<char>,
    reg: FeatureRegistry,
    noise: int,
    pos: BlockPos,
    c0: ProtoChunk,
    g0: RandomGenerator,
    c1: ProtoChunk,
    g1: RandomGenerator,
    r: bool,
    fuel: nat,
) -> bool
    decreases fuel, 2int, 0int,
{
    &&& (fuel == 0 ==> !r && c1.unchanged_from(c0) && g1 == g0)
    &&& (fuel > 0 ==> ({
        let pl = crate::placed_features::spec_pipeline(
            f.placement@,
            c0,
            min_y,
            height,
            feature,
            g0,
            seq![pos],
        );
        match f.feature {
            crate::placed_features::Feature::Inlined(cf) => spec_candidates_generate(
                cf, pl.0, 0, false, min_y, height, feature, reg, noise, c0, pl.1, c1, g1, r, fuel,
            ),
            crate::placed_features::Feature::Named(n) => match
                crate::placed_features::spec_resolve_configured(reg, n@) {
                Some(cf) => spec_candidates_generate(
                    cf, pl.0, 0, false, min_y, height, feature, reg, noise, c0, pl.1, c1, g1, r,
                    fuel,
                ),
                None => !r && c1.unchanged_from(c0) && g1 == pl.1,
            },
        }
    }))
}

/// The candidate walk from index `i`: the feature generates at each
/// remaining stream position in order, accumulating success into `acc`.
pub open spec fn spec_candidates_generate(
    cf: ConfiguredFeature,
    stream: Seq<BlockPos>,
    i: int,
    acc: bool,
    min_y: i8,
    height: u16,
    feature: Seq<char>,
    reg: FeatureRegistry,
    noise: int,
    c: ProtoChunk,
    g: RandomGenerator,
    c1: ProtoChunk,
    g1: RandomGenerator,
    r: bool,
    fuel: nat,
) -> bool
    decreases fuel, 1int, stream.len() - i,
{
    &&& (i >= stream.len() ==> c1.unchanged_from(c) && g1 == g && r == acc)
    &&& (i < stream.len() ==> fuel > 0 && (exists|cm: ProtoChunk, gm: RandomGenerator, ri: bool|
        (#[trigger] spec_gen_witness(cm, gm, ri)) && spec_configured_generates(
            cf, min_y, height, feature, reg, noise, stream[i], c, g, cm, gm, ri,
            (fuel - 1) as nat,
        ) && spec_candidates_generate(
            cf, stream, i + 1, acc || ri, min_y, height, feature, reg, noise, cm, gm, c1, g1, r,
            fuel,
        )))
}

/// One configured feature's generation at a position: the kind's own
/// behavior, with recursive kinds delegating on a reduced budget and
/// declared-only kinds generating nothing.
pub open spec fn spec_configured_generates(
    cf: ConfiguredFeature,
    min_y: i8,
    height: u16,
    feature: Seq<char>,
    reg: FeatureRegistry,
    noise: int,
    pos: BlockPos,
    c0: ProtoChunk,
    g0: RandomGenerator,
    c1: ProtoChunk,
    g1: RandomGenerator,
    r: bool,
    fuel: nat,
) -> bool
    decreases fuel, 3int, 0int,
{
    &&& (fuel == 0 ==> !r && c1.unchanged_from(c0) && g1 == g0)
    &&& (fuel > 0 ==> match cf {
            ConfiguredFeature::Ore(_) => !r && c1.unchanged_from(c0) && g1 == g0,
            ConfiguredFeature::SimpleBlock(f) => {
                let sel = crate::block_state_provider::spec_bsp_get(f.to_place, g0, noise);
                r && g1 == sel.1 && crate::chunk::spec_single_write(c0, c1, pos, sel.0)
            },
            ConfiguredFeature::RandomPatch(f) => spec_patch_generates(
                f, min_y, height, feature, reg, noise, pos, c0, g0, c1, g1, r, (fuel - 1) as nat,
            ),
            ConfiguredFeature::RandomSelector(f) => spec_selector_generates(
                f, min_y, height, feature, reg, noise, pos, c0, g0, c1, g1, r, (fuel - 1) as nat,
            ),
            ConfiguredFeature::SimpleRandomSelector(f) => spec_simple_random_generates(
                f, min_y, height, feature, reg, noise, pos, c0, g0, c1, g1, r, (fuel - 1) as nat,
            ),
            ConfiguredFeature::RandomBooleanSelector(f) => spec_boolean_generates(
                f, min_y, height, feature, reg, noise, pos, c0, g0, c1, g1, r, (fuel - 1) as nat,
            ),
            ConfiguredFeature::Tree(f) => spec_tree_generates(f, noise, pos, c0, g0, c1, g1, r),
            ConfiguredFeature::DesertWell(_) => spec_well_generates(pos, c0, g0, c1, g1, r),
            ConfiguredFeature::FallenTree(_) => !r && c1.unchanged_from(c0) && g1 == g0,
        })
}

/// The random patch: `tries` jittered attempts at the inner placed
/// feature, true iff any succeeded.
pub open spec fn spec_patch_generates(
    f: RandomPatchFeature,
    min_y: i8,
    height: u16,
    feature: Seq<char>,
    reg: FeatureRegistry,
    noise: int,
    pos: BlockPos,
    c0: ProtoChunk,
    g0: RandomGenerator,
    c1: ProtoChunk,
    g1: RandomGenerator,
    r: bool,
    fuel: nat,
) -> bool
    decreases fuel, 2int, 0int,
{
    &&& (fuel == 0 ==> !r && c1.unchanged_from(c0) && g1 == g0)
    &&& (fuel > 0 ==> spec_patch_attempts(
        f, 0, false, min_y, height, feature, reg, noise, pos, c0, g0, c1, g1, r, fuel,
    ))
}

/// The attempt walk from attempt `t`: six bounded draws jitter the seed
/// position; an attempt inside the coordinate range delegates to the
/// inner feature, one outside it counts as a failure.
pub open spec fn spec_patch_attempts(
    f: RandomPatchFeature,
    t: int,
    acc: bool,
    min_y: i8,
    height: u16,
    feature: Seq<char>,
    reg: FeatureRegistry,
    noise: int,
    pos: BlockPos,
    c: ProtoChunk,
    g: RandomGenerator,
    c1: ProtoChunk,
    g1: RandomGenerator,
    r: bool,
    fuel: nat,
) -> bool
    decreases fuel, 1int, f.tries - t,
{
    &&& (t >= f.tries ==> c1.unchanged_from(c) && g1 == g && r == acc)
    &&& (t < f.tries ==> fuel > 0 && ({
        let xz = (f.xz_spread + 1) as u32;
        let yb = (f.y_spread + 1) as u32;
        let a1 = rg_bounded(g, xz);
        let a2 = rg_bounded(a1.1, xz);
        let a3 = rg_bounded(a2.1, yb);
        let a4 = rg_bounded(a3.1, yb);
        let a5 = rg_bounded(a4.1, xz);
        let a6 = rg_bounded(a5.1, xz);
        let jit = BlockPos(
            crate::math::Vector3 {
                x: (pos.0.x + a1.0 - a2.0) as i32,
                y: (pos.0.y + a3.0 - a4.0) as i32,
                z: (pos.0.z + a5.0 - a6.0) as i32,
            },
        );
        if in_bounds(jit) {
            exists|cm: ProtoChunk, gm: RandomGenerator, ri: bool|
                (#[trigger] spec_gen_witness(cm, gm, ri)) && spec_placed_generates(
                    *f.feature, min_y, height, feature, reg, noise, jit, c, a6.1, cm, gm, ri,
                    (fuel - 1) as nat,
                ) && spec_patch_attempts(
                    f, t + 1, acc || ri, min_y, height, feature, reg, noise, pos, cm, gm, c1, g1,
                    r, fuel,
                )
        } else {
            spec_patch_attempts(
                f, t + 1, acc, min_y, height, feature, reg, noise, pos, c, a6.1, c1, g1, r, fuel,
            )
        }
    }))
}

/// The weighted selector: walk the entries in order; the first whose
/// fraction draw passes its chance generates, the default when none
/// does; a named feature the registry lacks generates nothing.
pub open spec fn spec_selector_generates(
    f: RandomFeature,
    min_y: i8,
    height: u16,
    feature: Seq<char>,
    reg: FeatureRegistry,
    noise: int,
    pos: BlockPos,
    c0: ProtoChunk,
    g0: RandomGenerator,
    c1: ProtoChunk,
    g1: RandomGenerator,
    r: bool,
    fuel: nat,
) -> bool
    decreases fuel, 2int, 0int,
{
    &&& (fuel == 0 ==> !r && c1.unchanged_from(c0) && g1 == g0)
    &&& (fuel > 0 ==> spec_selector_walk(
        f, 0, min_y, height, feature, reg, noise, pos, c0, g0, c1, g1, r, fuel,
    ))
}

/// The entry walk from index `i`.
pub open spec fn spec_selector_walk(
    f: RandomFeature,
    i: int,
    min_y: i8,
    height: u16,
    feature: Seq<char>,
    reg: FeatureRegistry,
    noise: int,
    pos: BlockPos,
    c: ProtoChunk,
    g: RandomGenerator,
    c1: ProtoChunk,
    g1: RandomGenerator,
    r: bool,
    fuel: nat,
) -> bool
    decreases fuel, 1int, f.features@.len() - i,
{
    &&& fuel > 0
    &&& (i >= f.features@.len() ==> match crate::placed_features::spec_resolve_wrapper(
        *f.default,
        reg,
    ) {
        Some(p) => spec_placed_generates(
            p, min_y, height, feature, reg, noise, pos, c, g, c1, g1, r, (fuel - 1) as nat,
        ),
        None => !r && c1.unchanged_from(c) && g1 == g,
    })
    &&& (i < f.features@.len() ==> ({
        let d = rg_fraction24(g);
        if d.0 >= f.features@[i].chance {
            spec_selector_walk(
                f, i + 1, min_y, height, feature, reg, noise, pos, c, d.1, c1, g1, r, fuel,
            )
        } else {
            match crate::placed_features::spec_resolve_wrapper(f.features@[i].feature, reg) {
                Some(p) => spec_placed_generates(
                    p, min_y, height, feature, reg, noise, pos, c, d.1, c1, g1, r,
                    (fuel - 1) as nat,
                ),
                None => !r && c1.unchanged_from(c) && g1 == d.1,
            }
        }
    }))
}

/// The uniform selector: one index draw, one delegation, no retry.
pub open spec fn spec_simple_random_generates(
    f: SimpleRandomFeature,
    min_y: i8,
    height: u16,
    feature: Seq<char>,
    reg: FeatureRegistry,
    noise: int,
    pos: BlockPos,
    c0: ProtoChunk,
    g0: RandomGenerator,
    c1: ProtoChunk,
    g1: RandomGenerator,
    r: bool,
    fuel: nat,
) -> bool
    decreases fuel, 2int, 0int,
{
    &&& (fuel == 0 ==> !r && c1.unchanged_from(c0) && g1 == g0)
    &&& (fuel > 0 ==> ({
        let d = rg_bounded(g0, f.features@.len() as u32);
        spec_placed_generates(
            f.features@[d.0 as int], min_y, height, feature, reg, noise, pos, c0, d.1, c1, g1, r,
            (fuel - 1) as nat,
        )
    }))
}

/// The boolean selector: one coin flip chooses the branch; it generates,
/// or nothing does when its name is unknown.
pub open spec fn spec_boolean_generates(
    f: RandomBooleanFeature,
    min_y: i8,
    height: u16,
    feature: Seq<char>,
    reg: FeatureRegistry,
    noise: int,
    pos: BlockPos,
    c0: ProtoChunk,
    g0: RandomGenerator,
    c1: ProtoChunk,
    g1: RandomGenerator,
    r: bool,
    fuel: nat,
) -> bool
    decreases fuel, 2int, 0int,
{
    &&& (fuel == 0 ==> !r && c1.unchanged_from(c0) && g1 == g0)
    &&& (fuel > 0 ==> ({
        let b = rg_bool(g0);
        let w = if b.0 {
            *f.feature_true
        } else {
            *f.feature_false
        };
        match crate::placed_features::spec_resolve_wrapper(w, reg) {
            Some(p) => spec_placed_generates(
                p, min_y, height, feature, reg, noise, pos, c0, b.1, c1, g1, r, (fuel - 1) as nat,
            ),
            None => !r && c1.unchanged_from(c0) && g1 == b.1,
        }
    }))
}

/// The tree's whole behavior: the height draws, the canopy scan, the
/// clip rejection, and the straight-trunk stamp; other trunk shapes
/// write nothing.
pub open spec fn spec_tree_generates(
    f: TreeFeature,
    noise: int,
    pos: BlockPos,
    c0: ProtoChunk,
    g0: RandomGenerator,
    c1: ProtoChunk,
    g1: RandomGenerator,
    r: bool,
) -> bool {
    let d1 = rg_bounded(g0, (f.trunk_placer.height_rand_a + 1) as u32);
    let d2 = rg_bounded(d1.1, (f.trunk_placer.height_rand_b + 1) as u32);
    let th = f.trunk_placer.base_height + d1.0 + d2.0;
    let top = crate::tree::spec_top_scan(f, c0, pos, th as int, 0);
    let rejected = top < th && (match f.minimum_size.min_clipped_height {
        None => true,
        Some(cl) => top < cl,
    });
    let sel = crate::block_state_provider::spec_bsp_get(f.trunk_provider, d2.1, noise);
    &&& c1.same_config(c0)
    &&& (rejected ==> !r && g1 == d2.1 && c1.unchanged_from(c0))
    &&& (!rejected ==> g1 == sel.1 && (if f.trunk_placer.kind == crate::tree::TrunkType::Straight {
        r && forall|k: (int, int, int)|
            c1.block_at(k) == if crate::tree::spec_in_column(pos, top, k)
                && crate::tree::spec_can_replace(c0, k) {
                sel.0
            } else {
                c0.block_at(k)
            }
    } else {
        !r && c1.unchanged_from(c0)
    }))
}

/// The desert well's whole behavior: placement exactly on a sand surface
/// with a clear foundation, the full stamp on success, nothing on
/// failure, and no draw either way.
pub open spec fn spec_well_generates(
    pos: BlockPos,
    c0: ProtoChunk,
    g0: RandomGenerator,
    c1: ProtoChunk,
    g1: RandomGenerator,
    r: bool,
) -> bool {
    &&& g1 == g0
    &&& c1.same_config(c0)
    &&& r == crate::desert_well::spec_can_generate(c0, pos)
    &&& (!r ==> c1.unchanged_from(c0))
    &&& (r ==> forall|k: (int, int, int)|
        c1.block_at(k) == crate::desert_well::spec_well_value(
            c0,
            crate::desert_well::spec_well_base(c0, pos),
            k,
        ))
}

/// Determinism of the non-recursive feature kinds: from one chunk and
/// one generator state, two runs that obey the model agree on the
/// result, the generator after, and every block reading. The recursive
/// kinds chain these same steps, so their runs are reproducible from the
/// seed as well, through the model's draws.
pub proof fn lemma_leaf_generate_deterministic(
    cf: ConfiguredFeature,
    min_y: i8,
    height: u16,
    feature: Seq<char>,
    reg: FeatureRegistry,
    noise: int,
    pos: BlockPos,
    c0: ProtoChunk,
    g0: RandomGenerator,
    c1: ProtoChunk,
    g1: RandomGenerator,
    r: bool,
    c2: ProtoChunk,
    g2: RandomGenerator,
    r2: bool,
    fuel: nat,
)
    requires
        !(cf is RandomPatch),
        !(cf is RandomSelector),
        !(cf is SimpleRandomSelector),
        !(cf is RandomBooleanSelector),
        spec_configured_generates(
            cf, min_y, height, feature, reg, noise, pos, c0, g0, c1, g1, r, fuel,
        ),
        spec_configured_generates(
            cf, min_y, height, feature, reg, noise, pos, c0, g0, c2, g2, r2, fuel,
        ),
    ensures
        r == r2,
        g1 == g2,
        c1.same_config(c2),
        forall|k: (int, int, int)| c1.block_at(k) == c2.block_at(k),
{
}


/// One step of the candidate walk: a generation at position `i` composed
/// with the walk from `i + 1` is the walk from `i`.
pub proof fn lemma_candidates_step(
    cf: ConfiguredFeature,
    stream: Seq<BlockPos>,
    i: int,
    acc: bool,
    min_y: i8,
    height: u16,
    feature: Seq<char>,
    reg: FeatureRegistry,
    noise: int,
    c0: ProtoChunk,
    g0: RandomGenerator,
    cm: ProtoChunk,
    gm: RandomGenerator,
    ri: bool,
    c1: ProtoChunk,
    g1: RandomGenerator,
    r: bool,
    fuel: nat,
)
    requires
        0 <= i < stream.len(),
        fuel > 0,
        spec_configured_generates(
            cf, min_y, height, feature, reg, noise, stream[i], c0, g0, cm, gm, ri,
            (fuel - 1) as nat,
        ),
        spec_candidates_generate(
            cf, stream, i + 1, acc || ri, min_y, height, feature, reg, noise, cm, gm, c1, g1, r,
            fuel,
        ),
    ensures
        spec_candidates_generate(
            cf, stream, i, acc, min_y, height, feature, reg, noise, c0, g0, c1, g1, r, fuel,
        ),
{
    assert(spec_gen_witness(cm, gm, ri));
}

/// One step of the patch's attempt walk, for an attempt whose jitter
/// stayed inside the coordinate range.
pub proof fn lemma_patch_step(
    f: RandomPatchFeature,
    t: int,
    acc: bool,
    min_y: i8,
    height: u16,
    feature: Seq<char>,
    reg: FeatureRegistry,
    noise: int,
    pos: BlockPos,
    c0: ProtoChunk,
    g0: RandomGenerator,
    cm: ProtoChunk,
    gm: RandomGenerator,
    ri: bool,
    c1: ProtoChunk,
    g1: RandomGenerator,
    r: bool,
    fuel: nat,
)
    requires
        0 <= t < f.tries,
        fuel > 0,
        ({
            let xz = (f.xz_spread + 1) as u32;
            let yb = (f.y_spread + 1) as u32;
            let a1 = rg_bounded(g0, xz);
            let a2 = rg_bounded(a1.1, xz);
            let a3 = rg_bounded(a2.1, yb);
            let a4 = rg_bounded(a3.1, yb);
            let a5 = rg_bounded(a4.1, xz);
            let a6 = rg_bounded(a5.1, xz);
            let jit = BlockPos(
                crate::math::Vector3 {
                    x: (pos.0.x + a1.0 - a2.0) as i32,
                    y: (pos.0.y + a3.0 - a4.0) as i32,
                    z: (pos.0.z + a5.0 - a6.0) as i32,
                },
            );
            in_bounds(jit) && spec_placed_generates(
                *f.feature, min_y, height, feature, reg, noise, jit, c0, a6.1, cm, gm, ri,
                (fuel - 1) as nat,
            )
        }),
        spec_patch_attempts(
            f, t + 1, acc || ri, min_y, height, feature, reg, noise, pos, cm, gm, c1, g1, r, fuel,
        ),
    ensures
        spec_patch_attempts(
            f, t, acc, min_y, height, feature, reg, noise, pos, c0, g0, c1, g1, r, fuel,
        ),
{
    assert(spec_gen_witness(cm, gm, ri));
}

} // verus!
