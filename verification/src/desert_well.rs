//! The desert well: a fixed structural stamp. It validates a sand surface
//! with clear air beneath the full 5 by 5 footprint two cells down, then
//! carves a fixed geometry of wall, slab, water and sand blocks at literal
//! relative offsets. No randomness is drawn.

use vstd::prelude::*;
use crate::block::default_state_of;
use crate::block::spec_default_state;
use crate::block::BLOCK_SAND;
use crate::block::BLOCK_SANDSTONE;
use crate::block::BLOCK_SANDSTONE_SLAB;
use crate::block::BLOCK_WATER;
use crate::chunk::ProtoChunk;
use crate::math::BlockPos;
use crate::math::in_bounds;
use crate::random::RandomGenerator;

verus! {

pub struct DesertWellFeature;

/// Where a well base may stand so that every stamp offset stays inside
/// `i32`.
pub open spec fn well_base_ok(b: BlockPos) -> bool {
    -crate::math::COORD_LIMIT <= b.0.x <= crate::math::COORD_LIMIT
        && -crate::math::COORD_LIMIT <= b.0.z <= crate::math::COORD_LIMIT
        && -crate::math::COORD_LIMIT - 2 <= b.0.y <= crate::math::COORD_LIMIT + 2
}

/// The downward search for the well's base: the first non-air cell at or
/// below `y`, stopping two cells above the chunk bottom.
pub open spec fn spec_descend(chunk: ProtoChunk, x: int, z: int, y: int, floor: int) -> int
    decreases y - floor,
{
    if y <= floor {
        y
    } else if !chunk.block_at((x, y, z)).air {
        y
    } else {
        spec_descend(chunk, x, z, y - 1, floor)
    }
}

/// The well's base cell: straight down from one above the seed position.
pub open spec fn spec_well_base(chunk: ProtoChunk, pos: BlockPos) -> (int, int, int) {
    (
        pos.0.x as int,
        spec_descend(
            chunk,
            pos.0.x as int,
            pos.0.z as int,
            pos.0.y + 1,
            chunk.min_y + 2,
        ),
        pos.0.z as int,
    )
}

/// Clear air across the full 5 by 5 footprint, one and two cells below
/// the base.
pub open spec fn spec_foundation_clear(chunk: ProtoChunk, b: (int, int, int)) -> bool {
    forall|i: int, j: int|
        -2 <= i <= 2 && -2 <= j <= 2 ==> (#[trigger] chunk.block_at((b.0 + i, b.1 - 1, b.2 + j))).air
            && chunk.block_at((b.0 + i, b.1 - 2, b.2 + j)).air
}

/// When the well may generate: the seed position holds sand, and the air
/// beneath the base's footprint is clear.
pub open spec fn spec_can_generate(chunk: ProtoChunk, pos: BlockPos) -> bool {
    chunk.block_at(pos.key()).block_id == BLOCK_SAND && spec_foundation_clear(
        chunk,
        spec_well_base(chunk, pos),
    )
}

/// One layer of the buried wall cube.
pub open spec fn spec_in_cube_layer(b: (int, int, int), dy: int, k: (int, int, int)) -> bool {
    k.1 == b.1 + dy && -2 <= k.0 - b.0 <= 2 && -2 <= k.2 - b.2 <= 2
}

/// The buried wall layers written so far: every layer from -2 up to but
/// not including `dy`.
pub open spec fn spec_in_cube_upto(b: (int, int, int), dy: int, k: (int, int, int)) -> bool {
    -2 <= k.1 - b.1 < dy && -2 <= k.0 - b.0 <= 2 && -2 <= k.2 - b.2 <= 2
}

/// The rim at one above the base: the perimeter of the 5 by 5 footprint.
pub open spec fn spec_in_rim(b: (int, int, int), k: (int, int, int)) -> bool {
    k.1 == b.1 + 1 && -2 <= k.0 - b.0 <= 2 && -2 <= k.2 - b.2 <= 2 && (k.0 - b.0 == -2 || k.0 - b.0
        == 2 || k.2 - b.2 == -2 || k.2 - b.2 == 2)
}

/// The roof at four above the base: a 3 by 3 plate.
pub open spec fn spec_in_top(b: (int, int, int), k: (int, int, int)) -> bool {
    k.1 == b.1 + 4 && -1 <= k.0 - b.0 <= 1 && -1 <= k.2 - b.2 <= 1
}

/// The four corner pillars from one to three above the base.
pub open spec fn spec_in_pillars(b: (int, int, int), k: (int, int, int)) -> bool {
    (k.0 - b.0 == 1 || k.0 - b.0 == -1) && (k.2 - b.2 == 1 || k.2 - b.2 == -1) && 1 <= k.1 - b.1
        <= 3
}

/// The four slab corners on the rim.
pub open spec fn spec_is_slab_corner(b: (int, int, int), k: (int, int, int)) -> bool {
    k.1 == b.1 + 1 && ((k.2 == b.2 && (k.0 - b.0 == 2 || k.0 - b.0 == -2)) || (k.0 == b.0 && (k.2
        - b.2 == 2 || k.2 - b.2 == -2)))
}

/// The water basin: the base cell and its four horizontal neighbors.
pub open spec fn spec_is_water_basin(b: (int, int, int), k: (int, int, int)) -> bool {
    k.1 == b.1 && ((k.0 == b.0 && k.2 == b.2) || (k.2 == b.2 && (k.0 - b.0 == 1 || k.0 - b.0
        == -1)) || (k.0 == b.0 && (k.2 - b.2 == 1 || k.2 - b.2 == -1)))
}

/// The sand bed: one below the basin, same plus shape.
pub open spec fn spec_is_sand_bed(b: (int, int, int), k: (int, int, int)) -> bool {
    k.1 == b.1 - 1 && ((k.0 == b.0 && k.2 == b.2) || (k.2 == b.2 && (k.0 - b.0 == 1 || k.0 - b.0
        == -1)) || (k.0 == b.0 && (k.2 - b.2 == 1 || k.2 - b.2 == -1)))
}

/// The whole stamp, cell by cell: what a successful generation leaves at
/// every coordinate, over the chunk as it stood before. Regions are
/// listed so that a later write of the stamp wins over an earlier one.
pub open spec fn spec_well_value(
    chunk0: ProtoChunk,
    b: (int, int, int),
    k: (int, int, int),
) -> crate::block::ChunkBlockState {
    if spec_in_pillars(b, k) {
        spec_default_state(BLOCK_SANDSTONE)
    } else if spec_in_top(b, k) {
        if k.0 == b.0 && k.2 == b.2 {
            spec_default_state(BLOCK_SANDSTONE)
        } else {
            spec_default_state(BLOCK_SANDSTONE_SLAB)
        }
    } else if spec_is_slab_corner(b, k) {
        spec_default_state(BLOCK_SANDSTONE_SLAB)
    } else if spec_in_rim(b, k) {
        spec_default_state(BLOCK_SANDSTONE)
    } else if spec_is_sand_bed(b, k) {
        spec_default_state(BLOCK_SAND)
    } else if spec_is_water_basin(b, k) {
        spec_default_state(BLOCK_WATER)
    } else if spec_in_cube_upto(b, 1, k) {
        spec_default_state(BLOCK_SANDSTONE)
    } else {
        chunk0.block_at(k)
    }
}

/// One row of a wall layer: fixed `dy` and `dx`, all five `dz` offsets.
fn wall_row(chunk: &mut ProtoChunk, base: BlockPos, dy: i32, dx: i32)
    requires
        well_base_ok(base),
        -2 <= dy <= 2,
        -2 <= dx <= 2,
    ensures
        forall|k: (int, int, int)|
            k.1 == base.0.y + dy && k.0 == base.0.x + dx && -2 <= k.2 - base.0.z <= 2
                ==> #[trigger] final(chunk).block_at(k) == spec_default_state(BLOCK_SANDSTONE),
        forall|k: (int, int, int)|
            !(k.1 == base.0.y + dy && k.0 == base.0.x + dx && -2 <= k.2 - base.0.z <= 2)
                ==> #[trigger] final(chunk).block_at(k) == old(chunk).block_at(k),
        final(chunk).same_config(*old(chunk)),
{
    let ghost chunk0 = *chunk;
    let wall = default_state_of(BLOCK_SANDSTONE);
    let mut dz: i32 = -2;
    while dz <= 2
        invariant
            -2 <= dz <= 3,
            -2 <= dy <= 2,
            -2 <= dx <= 2,
            well_base_ok(base),
            wall == spec_default_state(BLOCK_SANDSTONE),
            forall|k: (int, int, int)|
                k.1 == base.0.y + dy && k.0 == base.0.x + dx && -2 <= k.2 - base.0.z < dz
                    ==> #[trigger] chunk.block_at(k) == spec_default_state(BLOCK_SANDSTONE),
            forall|k: (int, int, int)|
                !(k.1 == base.0.y + dy && k.0 == base.0.x + dx && -2 <= k.2 - base.0.z < dz)
                    ==> #[trigger] chunk.block_at(k) == chunk0.block_at(k),
            chunk.same_config(chunk0),
        decreases 3 - dz,
    {
        let pos = BlockPos(crate::math::Vector3 {
            x: base.0.x + dx,
            y: base.0.y + dy,
            z: base.0.z + dz,
        });
        chunk.set_block_state(&pos, wall);
        dz = dz + 1;
    }
}

/// One full 5 by 5 wall layer at a fixed `dy`.
fn wall_layer(chunk: &mut ProtoChunk, base: BlockPos, dy: i32)
    requires
        well_base_ok(base),
        -2 <= dy <= 2,
    ensures
        forall|k: (int, int, int)|
            spec_in_cube_layer(base.key(), dy as int, k) ==> #[trigger] final(chunk).block_at(k)
                == spec_default_state(BLOCK_SANDSTONE),
        forall|k: (int, int, int)|
            !spec_in_cube_layer(base.key(), dy as int, k) ==> #[trigger] final(chunk).block_at(k)
                == old(chunk).block_at(k),
        final(chunk).same_config(*old(chunk)),
{
    let ghost chunk0 = *chunk;
    let mut dx: i32 = -2;
    while dx <= 2
        invariant
            -2 <= dx <= 3,
            -2 <= dy <= 2,
            well_base_ok(base),
            forall|k: (int, int, int)|
                k.1 == base.0.y + dy && -2 <= k.0 - base.0.x < dx && -2 <= k.2 - base.0.z <= 2
                    ==> #[trigger] chunk.block_at(k) == spec_default_state(BLOCK_SANDSTONE),
            forall|k: (int, int, int)|
                !(k.1 == base.0.y + dy && -2 <= k.0 - base.0.x < dx && -2 <= k.2 - base.0.z <= 2)
                    ==> #[trigger] chunk.block_at(k) == chunk0.block_at(k),
            chunk.same_config(chunk0),
        decreases 3 - dx,
    {
        wall_row(chunk, base, dy, dx);
        dx = dx + 1;
    }
}

/// The buried cube: wall layers from two below the base up to the base.
fn wall_cube(chunk: &mut ProtoChunk, base: BlockPos)
    requires
        well_base_ok(base),
    ensures
        forall|k: (int, int, int)|
            spec_in_cube_upto(base.key(), 1, k) ==> #[trigger] final(chunk).block_at(k)
                == spec_default_state(BLOCK_SANDSTONE),
        forall|k: (int, int, int)|
            !spec_in_cube_upto(base.key(), 1, k) ==> #[trigger] final(chunk).block_at(k) == old(
                chunk,
            ).block_at(k),
        final(chunk).same_config(*old(chunk)),
{
    let ghost chunk0 = *chunk;
    let mut dy: i32 = -2;
    while dy <= 0
        invariant
            -2 <= dy <= 1,
            well_base_ok(base),
            forall|k: (int, int, int)|
                spec_in_cube_upto(base.key(), dy as int, k) ==> #[trigger] chunk.block_at(k)
                    == spec_default_state(BLOCK_SANDSTONE),
            forall|k: (int, int, int)|
                !spec_in_cube_upto(base.key(), dy as int, k) ==> #[trigger] chunk.block_at(k)
                    == chunk0.block_at(k),
            chunk.same_config(chunk0),
        decreases 1 - dy,
    {
        wall_layer(chunk, base, dy);
        dy = dy + 1;
    }
}

/// The rim: wall blocks around the perimeter one above the base.
fn rim_layer(chunk: &mut ProtoChunk, base: BlockPos)
    requires
        well_base_ok(base),
    ensures
        forall|k: (int, int, int)|
            spec_in_rim(base.key(), k) ==> #[trigger] final(chunk).block_at(k)
                == spec_default_state(BLOCK_SANDSTONE),
        forall|k: (int, int, int)|
            !spec_in_rim(base.key(), k) ==> #[trigger] final(chunk).block_at(k) == old(
                chunk,
            ).block_at(k),
        final(chunk).same_config(*old(chunk)),
{
    let ghost chunk0 = *chunk;
    let wall = default_state_of(BLOCK_SANDSTONE);
    let mut dx: i32 = -2;
    while dx <= 2
        invariant
            -2 <= dx <= 3,
            well_base_ok(base),
            wall == spec_default_state(BLOCK_SANDSTONE),
            forall|k: (int, int, int)|
                spec_in_rim(base.key(), k) && k.0 - base.0.x < dx ==> #[trigger] chunk.block_at(k)
                    == spec_default_state(BLOCK_SANDSTONE),
            forall|k: (int, int, int)|
                !(spec_in_rim(base.key(), k) && k.0 - base.0.x < dx) ==> #[trigger] chunk.block_at(
                    k,
                ) == chunk0.block_at(k),
            chunk.same_config(chunk0),
        decreases 3 - dx,
    {
        let mut dz: i32 = -2;
        while dz <= 2
            invariant
                -2 <= dz <= 3,
                -2 <= dx <= 2,
                well_base_ok(base),
                wall == spec_default_state(BLOCK_SANDSTONE),
                forall|k: (int, int, int)|
                    spec_in_rim(base.key(), k) && (k.0 - base.0.x < dx || (k.0 - base.0.x == dx
                        && k.2 - base.0.z < dz)) ==> #[trigger] chunk.block_at(k)
                        == spec_default_state(BLOCK_SANDSTONE),
                forall|k: (int, int, int)|
                    !(spec_in_rim(base.key(), k) && (k.0 - base.0.x < dx || (k.0 - base.0.x == dx
                        && k.2 - base.0.z < dz))) ==> #[trigger] chunk.block_at(k)
                        == chunk0.block_at(k),
                chunk.same_config(chunk0),
            decreases 3 - dz,
        {
            if dx == -2 || dx == 2 || dz == -2 || dz == 2 {
                let pos = BlockPos(crate::math::Vector3 {
                    x: base.0.x + dx,
                    y: base.0.y + 1,
                    z: base.0.z + dz,
                });
                chunk.set_block_state(&pos, wall);
            }
            dz = dz + 1;
        }
        dx = dx + 1;
    }
}

/// The roof plate four above the base: slabs with a wall block at the
/// center.
fn top_plate(chunk: &mut ProtoChunk, base: BlockPos)
    requires
        well_base_ok(base),
    ensures
        forall|k: (int, int, int)|
            spec_in_top(base.key(), k) && k.0 == base.0.x && k.2 == base.0.z
                ==> #[trigger] final(chunk).block_at(k) == spec_default_state(BLOCK_SANDSTONE),
        forall|k: (int, int, int)|
            spec_in_top(base.key(), k) && !(k.0 == base.0.x && k.2 == base.0.z)
                ==> #[trigger] final(chunk).block_at(k) == spec_default_state(
                BLOCK_SANDSTONE_SLAB,
            ),
        forall|k: (int, int, int)|
            !spec_in_top(base.key(), k) ==> #[trigger] final(chunk).block_at(k) == old(
                chunk,
            ).block_at(k),
        final(chunk).same_config(*old(chunk)),
{
    let ghost chunk0 = *chunk;
    let wall = default_state_of(BLOCK_SANDSTONE);
    let slab = default_state_of(BLOCK_SANDSTONE_SLAB);
    let mut dx: i32 = -1;
    while dx <= 1
        invariant
            -1 <= dx <= 2,
            well_base_ok(base),
            wall == spec_default_state(BLOCK_SANDSTONE),
            slab == spec_default_state(BLOCK_SANDSTONE_SLAB),
            forall|k: (int, int, int)|
                spec_in_top(base.key(), k) && k.0 - base.0.x < dx && k.0 == base.0.x && k.2
                    == base.0.z ==> #[trigger] chunk.block_at(k) == spec_default_state(
                    BLOCK_SANDSTONE,
                ),
            forall|k: (int, int, int)|
                spec_in_top(base.key(), k) && k.0 - base.0.x < dx && !(k.0 == base.0.x && k.2
                    == base.0.z) ==> #[trigger] chunk.block_at(k) == spec_default_state(
                    BLOCK_SANDSTONE_SLAB,
                ),
            forall|k: (int, int, int)|
                !(spec_in_top(base.key(), k) && k.0 - base.0.x < dx) ==> #[trigger] chunk.block_at(
                    k,
                ) == chunk0.block_at(k),
            chunk.same_config(chunk0),
        decreases 2 - dx,
    {
        let mut dz: i32 = -1;
        while dz <= 1
            invariant
                -1 <= dz <= 2,
                -1 <= dx <= 1,
                well_base_ok(base),
                wall == spec_default_state(BLOCK_SANDSTONE),
                slab == spec_default_state(BLOCK_SANDSTONE_SLAB),
                forall|k: (int, int, int)|
                    spec_in_top(base.key(), k) && (k.0 - base.0.x < dx || (k.0 - base.0.x == dx
                        && k.2 - base.0.z < dz)) && k.0 == base.0.x && k.2 == base.0.z
                        ==> #[trigger] chunk.block_at(k) == spec_default_state(BLOCK_SANDSTONE),
                forall|k: (int, int, int)|
                    spec_in_top(base.key(), k) && (k.0 - base.0.x < dx || (k.0 - base.0.x == dx
                        && k.2 - base.0.z < dz)) && !(k.0 == base.0.x && k.2 == base.0.z)
                        ==> #[trigger] chunk.block_at(k) == spec_default_state(
                        BLOCK_SANDSTONE_SLAB,
                    ),
                forall|k: (int, int, int)|
                    !(spec_in_top(base.key(), k) && (k.0 - base.0.x < dx || (k.0 - base.0.x == dx
                        && k.2 - base.0.z < dz))) ==> #[trigger] chunk.block_at(k)
                        == chunk0.block_at(k),
                chunk.same_config(chunk0),
            decreases 2 - dz,
        {
            let pos = BlockPos(crate::math::Vector3 {
                x: base.0.x + dx,
                y: base.0.y + 4,
                z: base.0.z + dz,
            });
            if dx == 0 && dz == 0 {
                chunk.set_block_state(&pos, wall);
            } else {
                chunk.set_block_state(&pos, slab);
            }
            dz = dz + 1;
        }
        dx = dx + 1;
    }
}

/// The four corner pillars from one to three above the base.
fn pillars(chunk: &mut ProtoChunk, base: BlockPos)
    requires
        well_base_ok(base),
    ensures
        forall|k: (int, int, int)|
            spec_in_pillars(base.key(), k) ==> #[trigger] final(chunk).block_at(k)
                == spec_default_state(BLOCK_SANDSTONE),
        forall|k: (int, int, int)|
            !spec_in_pillars(base.key(), k) ==> #[trigger] final(chunk).block_at(k) == old(
                chunk,
            ).block_at(k),
        final(chunk).same_config(*old(chunk)),
{
    let ghost chunk0 = *chunk;
    let wall = default_state_of(BLOCK_SANDSTONE);
    let mut dy: i32 = 1;
    while dy <= 3
        invariant
            1 <= dy <= 4,
            well_base_ok(base),
            wall == spec_default_state(BLOCK_SANDSTONE),
            forall|k: (int, int, int)|
                spec_in_pillars(base.key(), k) && k.1 - base.0.y < dy ==> #[trigger] chunk.block_at(
                    k,
                ) == spec_default_state(BLOCK_SANDSTONE),
            forall|k: (int, int, int)|
                !(spec_in_pillars(base.key(), k) && k.1 - base.0.y < dy)
                    ==> #[trigger] chunk.block_at(k) == chunk0.block_at(k),
            chunk.same_config(chunk0),
        decreases 4 - dy,
    {
        let y = base.0.y + dy;
        chunk.set_block_state(
            &BlockPos(crate::math::Vector3 { x: base.0.x - 1, y, z: base.0.z - 1 }),
            wall,
        );
        chunk.set_block_state(
            &BlockPos(crate::math::Vector3 { x: base.0.x - 1, y, z: base.0.z + 1 }),
            wall,
        );
        chunk.set_block_state(
            &BlockPos(crate::math::Vector3 { x: base.0.x + 1, y, z: base.0.z - 1 }),
            wall,
        );
        chunk.set_block_state(
            &BlockPos(crate::math::Vector3 { x: base.0.x + 1, y, z: base.0.z + 1 }),
            wall,
        );
        dy = dy + 1;
    }
}

/// Determinism of the well: identical chunks and seed positions decide
/// placement identically and leave byte-identical chunk contents, since
/// the whole mutation is a function of the chunk before and the
/// position. No randomness is drawn at all.
pub proof fn lemma_well_deterministic(
    c1: ProtoChunk,
    c2: ProtoChunk,
    p1: BlockPos,
    p2: BlockPos,
)
    requires
        c1 == c2,
        p1 == p2,
    ensures
        spec_can_generate(c1, p1) == spec_can_generate(c2, p2),
        forall|k: (int, int, int)|
            spec_well_value(c1, spec_well_base(c1, p1), k) == spec_well_value(
                c2,
                spec_well_base(c2, p2),
                k,
            ),
{
}

impl DesertWellFeature {
    /// Validate and stamp the well. Reports placement exactly when the
    /// seed position holds sand and the foundation beneath the base's
    /// 5 by 5 footprint is clear air; on failure the chunk is untouched.
    /// On success every cell of the chunk reads as the fixed stamp says:
    /// the water basin, sand bed, walls, slab corners and roof at their
    /// literal offsets, and everything outside the stamp unchanged.
    pub fn generate(
        &self,
        chunk: &mut ProtoChunk,
        _min_y: i8,
        _height: u16,
        _feature: &str,
        random: &mut RandomGenerator,
        pos: BlockPos,
    ) -> (r: bool)
        requires
            in_bounds(pos),
        ensures
            *final(random) == *old(random),
            final(chunk).same_config(*old(chunk)),
            old(chunk).wf() ==> final(chunk).wf(),
            r == spec_can_generate(*old(chunk), pos),
            !r ==> *final(chunk) == *old(chunk),
            r ==> forall|k: (int, int, int)|
                final(chunk).block_at(k) == spec_well_value(
                    *old(chunk),
                    spec_well_base(*old(chunk), pos),
                    k,
                ),
    {
        // Descend from one above the seed position to the first non-air
        // cell, stopping two cells above the chunk bottom.
        let floor: i32 = chunk.bottom_y() as i32 + 2;
        let mut base_y: i32 = pos.0.y + 1;
        loop
            invariant_except_break
                base_y <= pos.0.y + 1,
                base_y >= floor || base_y == pos.0.y + 1,
                floor == chunk.min_y + 2,
                in_bounds(pos),
                spec_descend(*chunk, pos.0.x as int, pos.0.z as int, pos.0.y + 1, floor as int)
                    == spec_descend(*chunk, pos.0.x as int, pos.0.z as int, base_y as int, floor as int),
            ensures
                base_y <= pos.0.y + 1,
                base_y >= floor || base_y == pos.0.y + 1,
                floor == chunk.min_y + 2,
                spec_descend(*chunk, pos.0.x as int, pos.0.z as int, pos.0.y + 1, floor as int)
                    == base_y,
            decreases base_y - floor + 0x800_0001,
        {
            let here = BlockPos(crate::math::Vector3 { x: pos.0.x, y: base_y, z: pos.0.z });
            if !(chunk.is_air(&here) && base_y > floor) {
                break;
            }
            base_y = base_y - 1;
        }
        let base = BlockPos(crate::math::Vector3 { x: pos.0.x, y: base_y, z: pos.0.z });
        proof {
            assert(base.key() == spec_well_base(*chunk, pos));
        }

        // The target must be a sand surface.
        let block = chunk.get_block_state(&BlockPos(pos.0));
        if block.block_id != BLOCK_SAND {
            return false;
        }

        // The foundation beneath the full 5 by 5 footprint must be clear.
        let mut i: i32 = -2;
        while i <= 2
            invariant
                -2 <= i <= 3,
                in_bounds(pos),
                base.key() == spec_well_base(*chunk, pos),
                -0x400_0001 <= base.0.y <= 0x400_0001,
                forall|i0: int, j0: int|
                    -2 <= i0 < i && -2 <= j0 <= 2 ==> (#[trigger] chunk.block_at(
                        (base.0.x + i0, base.0.y - 1, base.0.z + j0),
                    )).air && chunk.block_at((base.0.x + i0, base.0.y - 2, base.0.z + j0)).air,
            decreases 3 - i,
        {
            let mut j: i32 = -2;
            while j <= 2
                invariant
                    -2 <= j <= 3,
                    -2 <= i <= 2,
                    in_bounds(pos),
                    base.key() == spec_well_base(*chunk, pos),
                    -0x400_0001 <= base.0.y <= 0x400_0001,
                    forall|i0: int, j0: int|
                        -2 <= i0 < i && -2 <= j0 <= 2 ==> (#[trigger] chunk.block_at(
                            (base.0.x + i0, base.0.y - 1, base.0.z + j0),
                        )).air && chunk.block_at((base.0.x + i0, base.0.y - 2, base.0.z + j0)).air,
                    forall|j0: int|
                        -2 <= j0 < j ==> (#[trigger] chunk.block_at(
                            (base.0.x + i, base.0.y - 1, base.0.z + j0),
                        )).air && chunk.block_at((base.0.x + i, base.0.y - 2, base.0.z + j0)).air,
                decreases 3 - j,
            {
                let below1 = BlockPos(crate::math::Vector3 {
                    x: base.0.x + i,
                    y: base.0.y - 1,
                    z: base.0.z + j,
                });
                let below2 = BlockPos(crate::math::Vector3 {
                    x: base.0.x + i,
                    y: base.0.y - 2,
                    z: base.0.z + j,
                });
                if !chunk.is_air(&below1) || !chunk.is_air(&below2) {
                    proof {
                        let b = base.key();
                        assert(!(chunk.block_at((b.0 + i as int, b.1 - 1, b.2 + j as int)).air
                            && chunk.block_at((b.0 + i as int, b.1 - 2, b.2 + j as int)).air));
                        assert(!spec_foundation_clear(*chunk, base.key()));
                    }
                    return false;
                }
                proof {
                    assert forall|j0: int|
                        -2 <= j0 < j + 1 implies (#[trigger] chunk.block_at(
                        (base.0.x + i, base.0.y - 1, base.0.z + j0),
                    )).air && chunk.block_at((base.0.x + i, base.0.y - 2, base.0.z + j0)).air by {
                        if j0 == j {
                            assert(chunk.block_at(
                                (base.0.x + i as int, base.0.y - 1, base.0.z + j as int),
                            ).air);
                            assert(chunk.block_at(
                                (base.0.x + i as int, base.0.y - 2, base.0.z + j as int),
                            ).air);
                        }
                    }
                }
                j = j + 1;
            }
            proof {
                assert forall|i0: int, j0: int|
                    -2 <= i0 < i + 1 && -2 <= j0 <= 2 implies (#[trigger] chunk.block_at(
                        (base.0.x + i0, base.0.y - 1, base.0.z + j0),
                    )).air && chunk.block_at((base.0.x + i0, base.0.y - 2, base.0.z + j0)).air by {
                    if i0 == i {
                        assert(chunk.block_at((base.0.x + i as int, base.0.y - 1, base.0.z + j0)).air);
                        assert(chunk.block_at((base.0.x + i as int, base.0.y - 2, base.0.z + j0)).air);
                    }
                }
            }
            i = i + 1;
        }
        proof {
            assert(spec_foundation_clear(*chunk, base.key()));
            assert(spec_can_generate(*chunk, pos));
        }

        // The stamp itself, in program order: the buried wall cube, the
        // water basin, the sand bed, the rim, the slab corners, the roof
        // plate, and the corner pillars.
        let water = default_state_of(BLOCK_WATER);
        let sand = default_state_of(BLOCK_SAND);
        let slab = default_state_of(BLOCK_SANDSTONE_SLAB);

        wall_cube(chunk, base);

        chunk.set_block_state(&base, water);
        chunk.set_block_state(
            &BlockPos(crate::math::Vector3 { x: base.0.x + 1, y: base.0.y, z: base.0.z }),
            water,
        );
        chunk.set_block_state(
            &BlockPos(crate::math::Vector3 { x: base.0.x - 1, y: base.0.y, z: base.0.z }),
            water,
        );
        chunk.set_block_state(
            &BlockPos(crate::math::Vector3 { x: base.0.x, y: base.0.y, z: base.0.z + 1 }),
            water,
        );
        chunk.set_block_state(
            &BlockPos(crate::math::Vector3 { x: base.0.x, y: base.0.y, z: base.0.z - 1 }),
            water,
        );

        chunk.set_block_state(
            &BlockPos(crate::math::Vector3 { x: base.0.x, y: base.0.y - 1, z: base.0.z }),
            sand,
        );
        chunk.set_block_state(
            &BlockPos(crate::math::Vector3 { x: base.0.x + 1, y: base.0.y - 1, z: base.0.z }),
            sand,
        );
        chunk.set_block_state(
            &BlockPos(crate::math::Vector3 { x: base.0.x - 1, y: base.0.y - 1, z: base.0.z }),
            sand,
        );
        chunk.set_block_state(
            &BlockPos(crate::math::Vector3 { x: base.0.x, y: base.0.y - 1, z: base.0.z + 1 }),
            sand,
        );
        chunk.set_block_state(
            &BlockPos(crate::math::Vector3 { x: base.0.x, y: base.0.y - 1, z: base.0.z - 1 }),
            sand,
        );

        rim_layer(chunk, base);

        chunk.set_block_state(
            &BlockPos(crate::math::Vector3 { x: base.0.x + 2, y: base.0.y + 1, z: base.0.z }),
            slab,
        );
        chunk.set_block_state(
            &BlockPos(crate::math::Vector3 { x: base.0.x - 2, y: base.0.y + 1, z: base.0.z }),
            slab,
        );
        chunk.set_block_state(
            &BlockPos(crate::math::Vector3 { x: base.0.x, y: base.0.y + 1, z: base.0.z + 2 }),
            slab,
        );
        chunk.set_block_state(
            &BlockPos(crate::math::Vector3 { x: base.0.x, y: base.0.y + 1, z: base.0.z - 2 }),
            slab,
        );

        top_plate(chunk, base);
        pillars(chunk, base);

        true
    }
}

} // verus!
