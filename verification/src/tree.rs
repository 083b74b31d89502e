//! The tree feature: trunk height distribution, canopy-ceiling scan, and
//! straight-trunk placement. Trunk shapes without defined behavior fail
//! closed: they report no placement and write nothing.

use vstd::prelude::*;
use crate::block::get_state_by_state_id;
use crate::block::is_replaceable_by_trees;
use crate::block::is_tagged_log;
use crate::block::spec_is_log;
use crate::block::spec_replaceable_by_trees;
use crate::block::spec_state_info;
use crate::block::BLOCK_VINE;
use crate::block::ChunkBlockState;
use crate::block_state_provider::BlockStateProvider;
use crate::block_state_provider::bsp_wf;
use crate::block_state_provider::spec_bsp_get;
use crate::block_state_provider::NOISE_LIMIT;
use crate::chunk::ProtoChunk;
use crate::math::BlockPos;
use crate::math::in_bounds;
use crate::random::RandomGenerator;
use crate::random::rg_bounded;

verus! {

/// Whether the cell can be overwritten by tree growth: air, or a block
/// that trees may replace.
pub open spec fn spec_can_replace(chunk: ProtoChunk, k: (int, int, int)) -> bool {
    let s = chunk.block_at(k);
    (match spec_state_info(s.state_id) {
        Some(info) => info.air,
        None => false,
    }) || spec_replaceable_by_trees(s.block_id)
}

/// Whether the cell can be overwritten, or already holds a log.
pub open spec fn spec_can_replace_or_log(chunk: ProtoChunk, k: (int, int, int)) -> bool {
    spec_can_replace(chunk, k) || spec_is_log(chunk.block_at(k).block_id)
}

/// The lateral scan radius: one width below the limit layer, another
/// above it.
#[derive(Clone, Copy, PartialEq, Eq, Structural, Debug)]
pub struct FeatureSize {
    pub min_clipped_height: Option<u8>,
    pub limit: u8,
    pub lower_size: u8,
    pub upper_size: u8,
}

impl FeatureSize {
    pub open spec fn spec_radius(self, y: int) -> int {
        if y < self.limit {
            self.lower_size as int
        } else {
            self.upper_size as int
        }
    }

    pub fn get_radius(&self, _height: i32, y: i32) -> (r: i32)
        ensures
            r == self.spec_radius(y as int),
    {
        if y < self.limit as i32 {
            self.lower_size as i32
        } else {
            self.upper_size as i32
        }
    }
}

/// The trunk shapes; only the straight one has defined behavior.
#[derive(Clone, Copy, PartialEq, Eq, Structural, Debug)]
pub enum TrunkType {
    Straight,
    Forking,
    Giant,
    MegaJungle,
    DarkOak,
    Fancy,
    Bending,
    UpwardsBranching,
    Cherry,
}

#[derive(Clone, Copy, PartialEq, Eq, Structural, Debug)]
pub struct TrunkPlacer {
    pub base_height: u8,
    pub height_rand_a: u8,
    pub height_rand_b: u8,
    pub kind: TrunkType,
}

#[derive(Clone, Copy, PartialEq, Eq, Structural, Debug)]
pub struct StraightTrunkPlacer;

/// The column a straight trunk of the given height covers.
pub open spec fn spec_in_column(start: BlockPos, height: int, k: (int, int, int)) -> bool {
    k.0 == start.0.x && k.2 == start.0.z && start.0.y <= k.1 < start.0.y + height
}

impl TrunkPlacer {
    /// The trunk height: the base plus two independent bounded draws.
    /// With both random ranges zero the height is exactly the base,
    /// whatever the generator state.
    pub fn get_height(&self, random: &mut RandomGenerator) -> (r: u32)
        requires
            old(random).wf(),
        ensures
            ({
                let d1 = rg_bounded(*old(random), (self.height_rand_a + 1) as u32);
                let d2 = rg_bounded(d1.1, (self.height_rand_b + 1) as u32);
                r == self.base_height + d1.0 + d2.0 && *final(random) == d2.1
            }),
            self.height_rand_a == 0 && self.height_rand_b == 0 ==> r == self.base_height,
            r <= 765,
            final(random).wf(),
    {
        let d1 = random.next_bounded_i32(self.height_rand_a as i32 + 1);
        let d2 = random.next_bounded_i32(self.height_rand_b as i32 + 1);
        self.base_height as u32 + d1 as u32 + d2 as u32
    }

    /// Stamp one trunk block, permitted only where the cell can be
    /// replaced.
    pub fn place(&self, chunk: &mut ProtoChunk, pos: &BlockPos, trunk_block: &ChunkBlockState) -> (r:
        bool)
        ensures
            r == spec_can_replace(*old(chunk), pos.key()),
            r ==> final(chunk).block_at(pos.key()) == *trunk_block && forall|k: (int, int, int)|
                k != pos.key() ==> final(chunk).block_at(k) == old(chunk).block_at(k),
            !r ==> *final(chunk) == *old(chunk),
            final(chunk).same_config(*old(chunk)),
    {
        if TreeFeature::can_replace(chunk, pos) {
            chunk.set_block_state(pos, *trunk_block);
            return true;
        }
        false
    }

    /// Delegate to the configured trunk shape.
    pub fn generate(
        &self,
        height: i32,
        start_pos: BlockPos,
        chunk: &mut ProtoChunk,
        trunk_block: &ChunkBlockState,
    ) -> (r: bool)
        requires
            height <= 766,
            in_bounds(start_pos),
        ensures
            self.kind == TrunkType::Straight ==> r && forall|k: (int, int, int)|
                final(chunk).block_at(k) == if spec_in_column(start_pos, height as int, k)
                    && spec_can_replace(*old(chunk), k) {
                    *trunk_block
                } else {
                    old(chunk).block_at(k)
                },
            self.kind != TrunkType::Straight ==> !r && *final(chunk) == *old(chunk),
            final(chunk).same_config(*old(chunk)),
    {
        match self.kind {
            TrunkType::Straight => {
                StraightTrunkPlacer::generate(self, height, start_pos, chunk, trunk_block);
                true
            },
            _ => false,
        }
    }
}

impl StraightTrunkPlacer {
    /// Stamp trunk blocks upward from the start, each only where its cell
    /// can be replaced.
    pub fn generate(
        placer: &TrunkPlacer,
        height: i32,
        start_pos: BlockPos,
        chunk: &mut ProtoChunk,
        trunk_block: &ChunkBlockState,
    )
        requires
            height <= 766,
            in_bounds(start_pos),
        ensures
            forall|k: (int, int, int)|
                final(chunk).block_at(k) == if spec_in_column(start_pos, height as int, k)
                    && spec_can_replace(*old(chunk), k) {
                    *trunk_block
                } else {
                    old(chunk).block_at(k)
                },
            final(chunk).same_config(*old(chunk)),
    {
        let mut i: i32 = 0;
        if height <= 0 {
            return ;
        }
        while i < height
            invariant
                0 <= i <= height,
                height <= 766,
                in_bounds(start_pos),
                forall|k: (int, int, int)|
                    chunk.block_at(k) == if spec_in_column(start_pos, i as int, k)
                        && spec_can_replace(*old(chunk), k) {
                        *trunk_block
                    } else {
                        old(chunk).block_at(k)
                    },
                chunk.same_config(*old(chunk)),
            decreases height - i,
        {
            let pos = BlockPos(crate::math::Vector3 {
                x: start_pos.0.x,
                y: start_pos.0.y + i,
                z: start_pos.0.z,
            });
            proof {
                assert(!spec_in_column(start_pos, i as int, pos.key()));
                assert(spec_can_replace(*chunk, pos.key()) == spec_can_replace(
                    *old(chunk),
                    pos.key(),
                ));
            }
            placer.place(chunk, &pos, trunk_block);
            i = i + 1;
        }
    }
}

pub struct TreeFeature {
    pub trunk_provider: BlockStateProvider,
    pub trunk_placer: TrunkPlacer,
    pub minimum_size: FeatureSize,
    pub ignore_vines: bool,
}

/// Whether tree growth may pass through the cell: replaceable-or-log,
/// and not a vine unless vines are ignored.
pub open spec fn spec_tree_free(f: TreeFeature, chunk: ProtoChunk, k: (int, int, int)) -> bool {
    spec_can_replace_or_log(chunk, k) && (f.ignore_vines || chunk.block_at(k).block_id
        != BLOCK_VINE)
}

/// Whether some cell of the scan layer at relative height `y` blocks the
/// tree.
pub open spec fn spec_layer_blocked(
    f: TreeFeature,
    chunk: ProtoChunk,
    init: BlockPos,
    y: int,
) -> bool {
    let j = f.minimum_size.spec_radius(y);
    exists|x: int, z: int|
        -j <= x <= j && -j <= z <= j && !(#[trigger] spec_tree_free(
            f,
            chunk,
            (init.0.x + x, init.0.y + y, init.0.z + z),
        ))
}

/// The canopy-ceiling scan from relative height `y` upward: two below
/// the first blocked layer, or the full height if nothing blocks.
pub open spec fn spec_top_scan(
    f: TreeFeature,
    chunk: ProtoChunk,
    init: BlockPos,
    height: int,
    y: int,
) -> int
    decreases height + 2 - y,
{
    if y > height + 1 {
        height
    } else if spec_layer_blocked(f, chunk, init, y) {
        y - 2
    } else {
        spec_top_scan(f, chunk, init, height, y + 1)
    }
}

impl TreeFeature {
    /// Whether the cell can be overwritten by tree growth, or already
    /// holds a log.
    pub fn can_replace_or_log(chunk: &ProtoChunk, pos: &BlockPos) -> (r: bool)
        ensures
            r == spec_can_replace_or_log(*chunk, pos.key()),
    {
        let state = chunk.get_block_state(pos);
        Self::can_replace(chunk, pos) || is_tagged_log(state.block_id)
    }

    /// Whether the cell can be overwritten by tree growth.
    pub fn can_replace(chunk: &ProtoChunk, pos: &BlockPos) -> (r: bool)
        ensures
            r == spec_can_replace(*chunk, pos.key()),
    {
        let state = chunk.get_block_state(pos);
        let air = match get_state_by_state_id(state.state_id) {
            Some(info) => info.air,
            None => false,
        };
        air || is_replaceable_by_trees(state.block_id)
    }

    /// Scan upward layer by layer at the configured radius for the first
    /// height at which the trunk is blocked.
    fn get_top(&self, height: u32, chunk: &ProtoChunk, init_pos: BlockPos) -> (r: i32)
        requires
            height <= 765,
            in_bounds(init_pos),
        ensures
            r == spec_top_scan(*self, *chunk, init_pos, height as int, 0),
            r <= height,
    {
        let mut y: i32 = 0;
        let h: i32 = height as i32;
        while y <= h + 1
            invariant
                0 <= y <= h + 2,
                h == height,
                height <= 765,
                in_bounds(init_pos),
                spec_top_scan(*self, *chunk, init_pos, h as int, 0) == spec_top_scan(
                    *self,
                    *chunk,
                    init_pos,
                    h as int,
                    y as int,
                ),
            decreases h + 2 - y,
        {
            let j = self.minimum_size.get_radius(h, y);
            let mut x: i32 = -j;
            while x <= j
                invariant
                    -j <= x <= j + 1,
                    0 <= j <= 255,
                    0 <= y <= h + 1,
                    h <= 766,
                    h == height,
                    in_bounds(init_pos),
                    spec_top_scan(*self, *chunk, init_pos, h as int, 0) == spec_top_scan(
                        *self,
                        *chunk,
                        init_pos,
                        h as int,
                        y as int,
                    ),
                    j == self.minimum_size.spec_radius(y as int),
                    forall|x0: int, z0: int|
                        -j <= x0 < x && -j <= z0 <= j ==> #[trigger] spec_tree_free(
                            *self,
                            *chunk,
                            (init_pos.0.x + x0, init_pos.0.y + y, init_pos.0.z + z0),
                        ),
                decreases j + 1 - x,
            {
                let mut z: i32 = -j;
                while z <= j
                    invariant
                        -j <= z <= j + 1,
                        -j <= x <= j,
                        0 <= j <= 255,
                        0 <= y <= h + 1,
                        h <= 766,
                        h == height,
                        in_bounds(init_pos),
                        spec_top_scan(*self, *chunk, init_pos, h as int, 0) == spec_top_scan(
                            *self,
                            *chunk,
                            init_pos,
                            h as int,
                            y as int,
                        ),
                        j == self.minimum_size.spec_radius(y as int),
                        forall|x0: int, z0: int|
                            -j <= x0 < x && -j <= z0 <= j ==> #[trigger] spec_tree_free(
                                *self,
                                *chunk,
                                (init_pos.0.x + x0, init_pos.0.y + y, init_pos.0.z + z0),
                            ),
                        forall|z0: int|
                            -j <= z0 < z ==> #[trigger] spec_tree_free(
                                *self,
                                *chunk,
                                (init_pos.0.x + x, init_pos.0.y + y, init_pos.0.z + z0),
                            ),
                    decreases j + 1 - z,
                {
                    let pos = BlockPos(crate::math::Vector3 {
                        x: init_pos.0.x + x,
                        y: init_pos.0.y + y,
                        z: init_pos.0.z + z,
                    });
                    let state = chunk.get_block_state(&pos);
                    let free = Self::can_replace_or_log(chunk, &pos) && (self.ignore_vines
                        || state.block_id != BLOCK_VINE);
                    if !free {
                        proof {
                            assert(!spec_tree_free(
                                *self,
                                *chunk,
                                (
                                    init_pos.0.x + x as int,
                                    init_pos.0.y + y as int,
                                    init_pos.0.z + z as int,
                                ),
                            ));
                            assert(spec_layer_blocked(*self, *chunk, init_pos, y as int));
                        }
                        return y - 2;
                    }
                    z = z + 1;
                }
                x = x + 1;
            }
            proof {
                assert(!spec_layer_blocked(*self, *chunk, init_pos, y as int));
            }
            y = y + 1;
        }
        h
    }

    /// Grow the tree: draw the trunk height, scan for the canopy ceiling,
    /// reject a placement clipped below the configured minimum, and stamp
    /// a straight trunk of the clipped height. `noise` is the trunk
    /// provider's sample at the position.
    pub fn generate(
        &self,
        chunk: &mut ProtoChunk,
        _min_y: i8,
        _height: u16,
        _feature_name: &str,
        random: &mut RandomGenerator,
        pos: BlockPos,
        noise: i64,
    ) -> (r: bool)
        requires
            old(random).wf(),
            bsp_wf(self.trunk_provider),
            -NOISE_LIMIT <= noise <= NOISE_LIMIT,
            in_bounds(pos),
        ensures
            final(chunk).same_config(*old(chunk)),
            old(chunk).wf() ==> final(chunk).wf(),
            final(random).wf(),
            self.trunk_placer.kind != TrunkType::Straight ==> !r,
            !r ==> forall|k: (int, int, int)| final(chunk).block_at(k) == old(chunk).block_at(k),
            ({
                let d1 = rg_bounded(*old(random), (self.trunk_placer.height_rand_a + 1) as u32);
                let d2 = rg_bounded(d1.1, (self.trunk_placer.height_rand_b + 1) as u32);
                let th = self.trunk_placer.base_height + d1.0 + d2.0;
                let top = spec_top_scan(*self, *old(chunk), pos, th as int, 0);
                let rejected = top < th && (match self.minimum_size.min_clipped_height {
                    None => true,
                    Some(c) => top < c,
                });
                &&& (rejected ==> !r && *final(random) == d2.1)
                &&& (!rejected ==> *final(random) == spec_bsp_get(
                    self.trunk_provider,
                    d2.1,
                    noise as int,
                ).1)
                &&& ((!rejected && self.trunk_placer.kind == TrunkType::Straight) ==> ({
                    let sel = spec_bsp_get(self.trunk_provider, d2.1, noise as int);
                    r && *final(random) == sel.1 && forall|k: (int, int, int)|
                        final(chunk).block_at(k) == if spec_in_column(pos, top, k)
                            && spec_can_replace(*old(chunk), k) {
                            sel.0
                        } else {
                            old(chunk).block_at(k)
                        }
                }))
            }),
    {
        let trunk_height = self.trunk_placer.get_height(random);
        let top = self.get_top(trunk_height, chunk, pos);
        let rejected = top < trunk_height as i32 && (match self.minimum_size.min_clipped_height {
            None => true,
            Some(clipped) => top < clipped as i32,
        });
        if rejected {
            return false;
        }
        let state = self.trunk_provider.get(random, pos, noise);
        self.trunk_placer.generate(top, pos, chunk, &state)
    }
}

} // verus!
