//! The chunk model the generation rules read and write: a block store with
//! a default state, a vertical extent, the biome's feature registration and
//! the per-chunk carving mask.

use vstd::prelude::*;
use crate::block::ChunkBlockState;
use crate::block::str_equal;
use crate::math::BlockPos;

verus! {

/// Last-write-wins lookup in the write log.
pub open spec fn spec_lookup(
    cells: Seq<(BlockPos, ChunkBlockState)>,
    key: (int, int, int),
) -> Option<ChunkBlockState>
    decreases cells.len(),
{
    if cells.len() == 0 {
        None
    } else if cells.last().0.key() == key {
        Some(cells.last().1)
    } else {
        spec_lookup(cells.drop_last(), key)
    }
}

/// One chunk under generation: every block reads as `default_state` until
/// something writes it. `biome_feature_steps` is the biome's ordered list of
/// generation steps, each a set of feature names registered for it;
/// `temperature` is the sampled temperature noise for this chunk's column,
/// in fractional units of 2^24.
pub struct ProtoChunk {
    pub min_y: i8,
    pub height: u16,
    pub default_state: ChunkBlockState,
    pub cells: Vec<(BlockPos, ChunkBlockState)>,
    pub biome_feature_steps: Vec<Vec<String>>,
    pub temperature: i64,
}

impl ProtoChunk {
    pub open spec fn wf(self) -> bool {
        self.height >= 1 && self.biome_feature_steps@.len() >= 1
    }

    /// The block state the chunk currently holds at a coordinate triple.
    pub open spec fn block_at(self, key: (int, int, int)) -> ChunkBlockState {
        match spec_lookup(self.cells@, key) {
            Some(s) => s,
            None => self.default_state,
        }
    }

    /// Everything but the block contents: what generation never changes.
    pub open spec fn same_config(self, other: ProtoChunk) -> bool {
        self.min_y == other.min_y && self.height == other.height && self.default_state
            == other.default_state && self.biome_feature_steps@ == other.biome_feature_steps@
            && self.temperature == other.temperature
    }

    /// Observably the same chunk: same shape and the same block reading
    /// at every coordinate.
    pub open spec fn unchanged_from(self, other: ProtoChunk) -> bool {
        self.same_config(other) && forall|k: (int, int, int)|
            self.block_at(k) == other.block_at(k)
    }

    pub fn new(
        min_y: i8,
        height: u16,
        default_state: ChunkBlockState,
        biome_feature_steps: Vec<Vec<String>>,
        temperature: i64,
    ) -> (r: ProtoChunk)
        requires
            height >= 1,
            biome_feature_steps@.len() >= 1,
        ensures
            r.wf(),
            r.min_y == min_y,
            r.height == height,
            r.default_state == default_state,
            r.biome_feature_steps@ == biome_feature_steps@,
            r.temperature == temperature,
            forall|k: (int, int, int)| r.block_at(k) == default_state,
    {
        ProtoChunk { min_y, height, default_state, cells: Vec::new(), biome_feature_steps, temperature }
    }

    pub fn bottom_y(&self) -> (r: i8)
        ensures
            r == self.min_y,
    {
        self.min_y
    }

    pub fn get_block_state(&self, pos: &BlockPos) -> (r: ChunkBlockState)
        ensures
            r == self.block_at(pos.key()),
    {
        let n = self.cells.len();
        let mut i = n;
        proof {
            assert(self.cells@.subrange(0, n as int) =~= self.cells@);
        }
        while i > 0
            invariant
                i <= n,
                n == self.cells@.len(),
                spec_lookup(self.cells@, pos.key()) == spec_lookup(
                    self.cells@.subrange(0, i as int),
                    pos.key(),
                ),
            decreases i,
        {
            i = i - 1;
            let entry = &self.cells[i];
            proof {
                assert(self.cells@.subrange(0, i + 1).last() == self.cells@[i as int]);
                assert(self.cells@.subrange(0, i + 1).drop_last() =~= self.cells@.subrange(
                    0,
                    i as int,
                ));
            }
            if entry.0.0.x == pos.0.x && entry.0.0.y == pos.0.y && entry.0.0.z == pos.0.z {
                return entry.1;
            }
        }
        proof {
            assert(self.cells@.subrange(0, 0) =~= Seq::<(BlockPos, ChunkBlockState)>::empty());
        }
        self.default_state
    }

    pub fn is_air(&self, pos: &BlockPos) -> (r: bool)
        ensures
            r == self.block_at(pos.key()).air,
    {
        self.get_block_state(pos).is_air()
    }

    /// Record a block write: the position reads as `state` from now on and
    /// every other position keeps its reading.
    pub fn set_block_state(&mut self, pos: &BlockPos, state: ChunkBlockState)
        ensures
            final(self).block_at(pos.key()) == state,
            forall|k: (int, int, int)|
                k != pos.key() ==> final(self).block_at(k) == old(self).block_at(k),
            final(self).same_config(*old(self)),
            old(self).wf() ==> final(self).wf(),
    {
        self.cells.push((*pos, state));
        proof {
            assert(self.cells@.drop_last() =~= old(self).cells@);
        }
    }

    /// The height scan for one column, downward from `y`: one above the
    /// highest non-air block, or the chunk bottom if the whole column is
    /// air.
    pub open spec fn spec_top_from(self, x: int, z: int, y: int) -> int
        decreases y - self.min_y + 1,
    {
        if y < self.min_y {
            self.min_y as int
        } else if !self.block_at((x, y, z)).air {
            y + 1
        } else {
            self.spec_top_from(x, z, y - 1)
        }
    }

    /// One above the highest non-air block of the column, or the chunk
    /// bottom if none.
    pub open spec fn spec_top(self, x: int, z: int) -> int {
        self.spec_top_from(x, z, self.min_y + self.height - 1)
    }

    pub fn top_block_height_exclusive(&self, x: i32, z: i32) -> (r: i32)
        ensures
            r == self.spec_top(x as int, z as int),
    {
        let mut y: i32 = self.min_y as i32 + self.height as i32 - 1;
        while y >= self.min_y as i32
            invariant
                y >= self.min_y - 1,
                y <= self.min_y + self.height,
                self.spec_top(x as int, z as int) == self.spec_top_from(x as int, z as int, y as int),
            decreases y - self.min_y + 1,
        {
            let state = self.get_block_state(&BlockPos::new(x, y, z));
            if !state.is_air() {
                return y + 1;
            }
            y = y - 1;
        }
        self.min_y as i32
    }

    /// Whether the biome's first generation step registers a feature name.
    pub open spec fn spec_biome_has_feature(self, name: Seq<char>) -> bool {
        exists|i: int|
            0 <= i < self.biome_feature_steps@[0]@.len() && self.biome_feature_steps@[0]@[i]@
                == name
    }

    pub fn biome_has_feature(&self, name: &str) -> (r: bool)
        requires
            self.wf(),
        ensures
            r == self.spec_biome_has_feature(name@),
    {
        let step = &self.biome_feature_steps[0];
        let n = step.len();
        let mut i: usize = 0;
        while i < n
            invariant
                i <= n,
                n == step@.len(),
                step == &self.biome_feature_steps@[0],
                forall|j: int| 0 <= j < i ==> step@[j]@ != name@,
            decreases n - i,
        {
            if str_equal(step[i].as_str(), name) {
                return true;
            }
            i = i + 1;
        }
        false
    }
}

/// One block write and nothing else: the position reads as `state`
/// afterwards, every other position keeps its reading, and the chunk's
/// shape is untouched.
pub open spec fn spec_single_write(
    before: ProtoChunk,
    after: ProtoChunk,
    pos: BlockPos,
    state: ChunkBlockState,
) -> bool {
    after.same_config(before) && after.block_at(pos.key()) == state && forall|k: (int, int, int)|
        k != pos.key() ==> after.block_at(k) == before.block_at(k)
}

// ------------------------------------------------------------------
// The carving mask
// ------------------------------------------------------------------

/// Per-chunk bitset of already-carved local cells: 16 by 16 columns over
/// the chunk's vertical extent. A cell once marked stays marked for the
/// rest of the chunk's carve pass.
pub struct CarvingMask {
    pub min_y: i32,
    pub height: u32,
    pub bits: Vec<bool>,
}

/// Marking a cell of a bit row: the row with that bit on.
pub open spec fn spec_mark(bits: Seq<bool>, idx: int) -> Seq<bool> {
    bits.update(idx, true)
}

impl CarvingMask {
    pub open spec fn wf(self) -> bool {
        self.bits@.len() == 256 * self.height && self.height <= 0xFFFF && self.min_y
            + self.height <= i32::MAX
    }

    /// The flat bit index of a local cell.
    pub open spec fn idx(self, x: int, z: int, y: int) -> int {
        (y - self.min_y) * 256 + z * 16 + x
    }

    pub open spec fn valid_cell(self, x: int, z: int, y: int) -> bool {
        0 <= x < 16 && 0 <= z < 16 && self.min_y <= y < self.min_y + self.height
    }

    /// Whether a local cell has been carved already.
    pub open spec fn is_marked(self, x: int, z: int, y: int) -> bool {
        self.valid_cell(x, z, y) && self.bits@[self.idx(x, z, y)]
    }

    pub fn new(min_y: i32, height: u32) -> (r: CarvingMask)
        requires
            height <= 0xFFFF,
            min_y + height <= i32::MAX,
        ensures
            r.wf(),
            r.min_y == min_y,
            r.height == height,
            forall|x: int, z: int, y: int| !r.is_marked(x, z, y),
    {
        let n: usize = 256 * (height as usize);
        let bits = vec![false; n];
        let r = CarvingMask { min_y, height, bits };
        proof {
            assert(forall|x: int, z: int, y: int|
                r.valid_cell(x, z, y) ==> 0 <= r.idx(x, z, y) < 256 * r.height) by {
                lemma_mask_idx_range(r);
            }
        }
        r
    }

    proof fn lemma_idx(self, x: int, z: int, y: int)
        requires
            self.valid_cell(x, z, y),
        ensures
            0 <= self.idx(x, z, y) < 256 * self.height,
    {
        lemma_mask_idx_range(self);
    }

    /// Record a cell as carved. Every other cell keeps its mark, so marking
    /// an already-marked cell changes nothing.
    pub fn set(&mut self, x: i32, z: i32, y: i32)
        requires
            old(self).wf(),
            old(self).valid_cell(x as int, z as int, y as int),
        ensures
            final(self).wf(),
            final(self).min_y == old(self).min_y,
            final(self).height == old(self).height,
            final(self).bits@ == spec_mark(old(self).bits@, old(self).idx(x as int, z as int, y as int)),
            final(self).is_marked(x as int, z as int, y as int),
            forall|a: int, b: int, c: int|
                (a, b, c) != (x as int, z as int, y as int) ==> final(self).is_marked(a, b, c)
                    == old(self).is_marked(a, b, c),
            old(self).is_marked(x as int, z as int, y as int) ==> final(self).bits@ == old(
                self,
            ).bits@,
    {
        proof {
            self.lemma_idx(x as int, z as int, y as int);
        }
        let i: usize = ((y - self.min_y) as usize) * 256 + (z as usize) * 16 + (x as usize);
        self.bits[i] = true;
        proof {
            lemma_mask_idx_range(*self);
            assert forall|a: int, b: int, c: int|
                (a, b, c) != (x as int, z as int, y as int) implies final(self).is_marked(a, b, c)
                == old(self).is_marked(a, b, c) by {
                if final(self).valid_cell(a, b, c) {
                    lemma_mask_idx_inj(*old(self), a, b, c, x as int, z as int, y as int);
                }
            }
            if old(self).is_marked(x as int, z as int, y as int) {
                assert(final(self).bits@ =~= old(self).bits@);
            }
        }
    }

    /// Whether a local cell has been carved already.
    pub fn get(&self, x: i32, z: i32, y: i32) -> (r: bool)
        requires
            self.wf(),
            self.valid_cell(x as int, z as int, y as int),
        ensures
            r == self.is_marked(x as int, z as int, y as int),
    {
        proof {
            self.lemma_idx(x as int, z as int, y as int);
        }
        let i: usize = ((y - self.min_y) as usize) * 256 + (z as usize) * 16 + (x as usize);
        self.bits[i]
    }
}

proof fn lemma_mask_idx_range(m: CarvingMask)
    ensures
        forall|x: int, z: int, y: int|
            m.valid_cell(x, z, y) ==> 0 <= #[trigger] m.idx(x, z, y) < 256 * m.height,
{
    assert forall|x: int, z: int, y: int| m.valid_cell(x, z, y) implies 0 <= #[trigger] m.idx(
        x,
        z,
        y,
    ) < 256 * m.height by {
        assert((y - m.min_y) * 256 <= (m.height - 1) * 256) by (nonlinear_arith)
            requires
                y - m.min_y <= m.height - 1,
        ;
        assert((y - m.min_y) * 256 >= 0) by (nonlinear_arith)
            requires
                y - m.min_y >= 0,
        ;
    }
}

/// Distinct valid cells have distinct bit indices.
proof fn lemma_mask_idx_inj(m: CarvingMask, a: int, b: int, c: int, x: int, z: int, y: int)
    requires
        m.valid_cell(a, b, c),
        m.valid_cell(x, z, y),
        (a, b, c) != (x, z, y),
    ensures
        m.idx(a, b, c) != m.idx(x, z, y),
{
    if c == y {
        assert((c - m.min_y) * 256 == (y - m.min_y) * 256);
    } else {
        assert(m.idx(a, b, c) != m.idx(x, z, y)) by (nonlinear_arith)
            requires
                0 <= a < 16,
                0 <= b < 16,
                0 <= x < 16,
                0 <= z < 16,
                c != y,
                m.idx(a, b, c) == (c - m.min_y) * 256 + b * 16 + a,
                m.idx(x, z, y) == (y - m.min_y) * 256 + z * 16 + x,
        ;
    }
}

/// Marking the same cell twice within one carve pass has no further
/// effect: the mask after the second mark is the mask after the first.
pub proof fn lemma_mark_idempotent(bits: Seq<bool>, idx: int)
    requires
        0 <= idx < bits.len(),
    ensures
        spec_mark(spec_mark(bits, idx), idx) == spec_mark(bits, idx),
{
    assert(spec_mark(spec_mark(bits, idx), idx) =~= spec_mark(bits, idx));
}

} // verus!
