//! The integer core of the stochastic cave carver: the activation check,
//! the cave-count distribution, per-cave origins, the lava-or-air carve
//! state, and the per-cell excavation guarded by the carving mask.
//!
//! The tunnel walk itself (headings, radii and the ellipsoid test) is
//! floating-point geometry and lives outside the verified core; it decides
//! which cells to excavate and excavates each one through `carve_cell`.

use vstd::prelude::*;
use crate::block::default_state_of;
use crate::block::spec_default_state;
use crate::block::BLOCK_AIR;
use crate::block::BLOCK_GRASS_BLOCK;
use crate::block::BLOCK_LAVA;
use crate::block::BLOCK_MYCELIUM;
use crate::block::ChunkBlockState;
use crate::chunk::CarvingMask;
use crate::chunk::ProtoChunk;
use crate::chunk::spec_mark;
use crate::height_provider::HeightProvider;
use crate::height_provider::spec_height_get;
use crate::height_provider::YOffset;
use crate::math::BlockPos;
use crate::random::RandomGenerator;
use crate::random::rg_bounded;
use crate::random::rg_fraction24;

verus! {

pub const BRANCH_FACTOR: i32 = 4;
pub const MAX_CAVE_COUNT: i32 = 15;

/// The cave carver's integer configuration: the activation probability in
/// fractional units of 2^24, the origin height distribution, and the lava
/// level. The radius and scale multipliers it draws are floating-point
/// providers handled outside the verified core.
pub struct CaveCraver {
    pub y: HeightProvider,
    pub lava_level: YOffset,
    pub probability: u32,
}

/// The three nested bounded draws that pick how many caves a chunk gets;
/// each draw's bound is the previous draw's result plus one, biasing the
/// count toward small values.
pub open spec fn spec_cave_count(g: RandomGenerator) -> (u32, RandomGenerator) {
    let d1 = rg_bounded(g, MAX_CAVE_COUNT as u32);
    let d2 = rg_bounded(d1.1, (d1.0 + 1) as u32);
    let d3 = rg_bounded(d2.1, (d2.0 + 1) as u32);
    (d3.0, d3.1)
}

/// What excavation writes at a height: lava at or below the configured
/// level, air above it.
pub open spec fn spec_carve_state(c: CaveCraver, y: int, min_y: int, height: int) -> ChunkBlockState {
    if y <= c.lava_level.spec_y(min_y, height) {
        spec_default_state(BLOCK_LAVA)
    } else {
        spec_default_state(BLOCK_AIR)
    }
}

/// Determinism of the carver's draws: identical generator states yield
/// the same activation draw and the same cave count, so a chunk's carve
/// pass is reproducible from its seed.
pub proof fn lemma_carver_deterministic(g1: RandomGenerator, g2: RandomGenerator)
    requires
        g1 == g2,
    ensures
        spec_cave_count(g1) == spec_cave_count(g2),
        rg_fraction24(g1) == rg_fraction24(g2),
{
}

impl CaveCraver {
    /// The per-chunk activation check: one fraction draw at or under the
    /// configured probability.
    pub fn should_carve(&self, random: &mut RandomGenerator) -> (r: bool)
        requires
            old(random).wf(),
        ensures
            r == (rg_fraction24(*old(random)).0 <= self.probability),
            *final(random) == rg_fraction24(*old(random)).1,
            final(random).wf(),
    {
        let draw = random.next_fraction24();
        draw <= self.probability
    }

    /// How many caves this chunk gets.
    pub fn cave_count(&self, random: &mut RandomGenerator) -> (r: u32)
        requires
            old(random).wf(),
        ensures
            r == spec_cave_count(*old(random)).0,
            *final(random) == spec_cave_count(*old(random)).1,
            r < MAX_CAVE_COUNT,
            final(random).wf(),
    {
        let first_rnd = random.next_bounded_i32(MAX_CAVE_COUNT);
        let sec_rnd = random.next_bounded_i32(first_rnd + 1);
        let third_rnd = random.next_bounded_i32(sec_rnd + 1);
        third_rnd as u32
    }

    /// One cave's origin within the chunk footprint: a column offset draw
    /// for x, a height-provider draw for y, a column offset draw for z.
    pub fn cave_origin(
        &self,
        random: &mut RandomGenerator,
        chunk_x: i32,
        chunk_z: i32,
        min_y: i8,
        height: u16,
    ) -> (r: BlockPos)
        requires
            old(random).wf(),
            self.y.wf(),
            -0x10_0000 <= chunk_x <= 0x10_0000,
            -0x10_0000 <= chunk_z <= 0x10_0000,
        ensures
            ({
                let dx = rg_bounded(*old(random), 16);
                let dy = spec_height_get(self.y, dx.1, min_y as int, height as int);
                let dz = rg_bounded(dy.1, 16);
                r.0.x == chunk_x * 16 + dx.0 && r.0.y == dy.0 && r.0.z == chunk_z * 16 + dz.0
                    && *final(random) == dz.1
            }),
            final(random).wf(),
    {
        let x = chunk_x * 16 + random.next_bounded_i32(16);
        let y = self.y.get(random, min_y, height);
        let z = chunk_z * 16 + random.next_bounded_i32(16);
        BlockPos(crate::math::Vector3 { x, y, z })
    }

    /// The state excavation writes at a position.
    pub fn get_state(&self, pos: &BlockPos, min_y: i8, height: u16) -> (r: ChunkBlockState)
        requires
            self.lava_level.wf(),
        ensures
            r == spec_carve_state(*self, pos.0.y as int, min_y as int, height as int),
    {
        if pos.0.y <= self.lava_level.get_y(min_y, height) {
            return default_state_of(BLOCK_LAVA);
        }
        default_state_of(BLOCK_AIR)
    }

    /// Excavate one point: replace the block with air, or lava at or
    /// below the lava level, and report whether a grass or mycelium
    /// surface was disturbed here or earlier in the walk. What to do with
    /// that flag is left open; nothing is patched up yet.
    pub fn carve_at_point(
        &self,
        chunk: &mut ProtoChunk,
        pos: &BlockPos,
        min_y: i8,
        height: u16,
        grass: bool,
    ) -> (r: bool)
        requires
            self.lava_level.wf(),
        ensures
            r == (grass || old(chunk).block_at(pos.key()).block_id == BLOCK_GRASS_BLOCK || old(
                chunk,
            ).block_at(pos.key()).block_id == BLOCK_MYCELIUM),
            final(chunk).block_at(pos.key()) == spec_carve_state(
                *self,
                pos.0.y as int,
                min_y as int,
                height as int,
            ),
            forall|k: (int, int, int)|
                k != pos.key() ==> final(chunk).block_at(k) == old(chunk).block_at(k),
            final(chunk).same_config(*old(chunk)),
    {
        let state = chunk.get_block_state(pos);
        let saw_grass = grass || state.block_id == BLOCK_GRASS_BLOCK || state.block_id
            == BLOCK_MYCELIUM;
        let carved = self.get_state(pos, min_y, height);
        chunk.set_block_state(pos, carved);
        saw_grass
    }

    /// Excavate one local cell under the carving mask: a cell already
    /// marked is skipped outright, so excavating the same cell twice
    /// within one chunk's carve pass has no further effect; a fresh cell
    /// is marked and excavated.
    pub fn carve_cell(
        &self,
        chunk: &mut ProtoChunk,
        mask: &mut CarvingMask,
        pos: &BlockPos,
        local_x: i32,
        local_z: i32,
        min_y: i8,
        height: u16,
        grass: bool,
    ) -> (r: bool)
        requires
            self.lava_level.wf(),
            old(mask).wf(),
            old(mask).valid_cell(local_x as int, local_z as int, pos.0.y as int),
        ensures
            final(mask).wf(),
            final(mask).min_y == old(mask).min_y,
            final(mask).height == old(mask).height,
            old(mask).is_marked(local_x as int, local_z as int, pos.0.y as int) ==> *final(chunk)
                == *old(chunk) && *final(mask) == *old(mask) && r == grass,
            !old(mask).is_marked(local_x as int, local_z as int, pos.0.y as int) ==> ({
                &&& final(mask).bits@ == spec_mark(
                    old(mask).bits@,
                    old(mask).idx(local_x as int, local_z as int, pos.0.y as int),
                )
                &&& final(chunk).block_at(pos.key()) == spec_carve_state(
                    *self,
                    pos.0.y as int,
                    min_y as int,
                    height as int,
                )
                &&& forall|k: (int, int, int)|
                    k != pos.key() ==> final(chunk).block_at(k) == old(chunk).block_at(k)
                &&& final(chunk).same_config(*old(chunk))
                &&& r == (grass || old(chunk).block_at(pos.key()).block_id == BLOCK_GRASS_BLOCK
                    || old(chunk).block_at(pos.key()).block_id == BLOCK_MYCELIUM)
            }),
    {
        if mask.get(local_x, local_z, pos.0.y) {
            return grass;
        }
        mask.set(local_x, local_z, pos.0.y);
        self.carve_at_point(chunk, pos, min_y, height, grass)
    }
}

} // verus!
