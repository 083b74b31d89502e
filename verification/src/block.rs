//! The block model: a small built-in registry of the blocks the generation
//! rules read and write, looked up by bare name, and the per-chunk block
//! state record whose equality is defined by state id alone.

use vstd::prelude::*;
use vstd::string::StrSliceExecFns;

verus! {

/// Character-for-character string equality on the view.
pub fn str_equal(a: &str, b: &str) -> (r: bool)
    ensures
        r == (a@ == b@),
{
    let n = a.unicode_len();
    if n != b.unicode_len() {
        proof {
            if a@ == b@ {
                assert(a@.len() == b@.len());
            }
        }
        return false;
    }
    let mut i: usize = 0;
    while i < n
        invariant
            i <= n,
            n == a@.len(),
            n == b@.len(),
            forall|j: int| 0 <= j < i ==> a@[j] == b@[j],
        decreases n - i,
    {
        if a.get_char(i) != b.get_char(i) {
            proof {
                if a@ == b@ {
                    assert(a@[i as int] == b@[i as int]);
                }
            }
            return false;
        }
        i += 1;
    }
    proof {
        assert(a@ =~= b@);
    }
    true
}

// Registry ids of the built-in blocks. Each block has exactly one state in
// this model, so the default state id equals the block id.
pub const BLOCK_AIR: u16 = 0;
pub const BLOCK_STONE: u16 = 1;
pub const BLOCK_DIRT: u16 = 2;
pub const BLOCK_GRASS_BLOCK: u16 = 3;
pub const BLOCK_SAND: u16 = 4;
pub const BLOCK_SANDSTONE: u16 = 5;
pub const BLOCK_SANDSTONE_SLAB: u16 = 6;
pub const BLOCK_WATER: u16 = 7;
pub const BLOCK_LAVA: u16 = 8;
pub const BLOCK_MYCELIUM: u16 = 9;
pub const BLOCK_OAK_LOG: u16 = 10;
pub const BLOCK_VINE: u16 = 11;
pub const BLOCK_SHORT_GRASS: u16 = 12;
pub const BLOCK_COUNT: u16 = 13;

/// A registry entry: the block id and its default state.
#[derive(Clone, Copy, PartialEq, Eq, Structural, Debug)]
pub struct Block {
    pub id: u16,
    pub default_state_id: u16,
}

/// The per-state facts the generation rules read.
#[derive(Clone, Copy, PartialEq, Eq, Structural, Debug)]
pub struct BlockStateInfo {
    pub air: bool,
    pub solid: bool,
    pub replaceable: bool,
}

/// The block id registered under a bare name, if any.
pub open spec fn spec_block_id_of_name(name: Seq<char>) -> Option<u16> {
    if name == "air"@ {
        Some(BLOCK_AIR)
    } else if name == "stone"@ {
        Some(BLOCK_STONE)
    } else if name == "dirt"@ {
        Some(BLOCK_DIRT)
    } else if name == "grass_block"@ {
        Some(BLOCK_GRASS_BLOCK)
    } else if name == "sand"@ {
        Some(BLOCK_SAND)
    } else if name == "sandstone"@ {
        Some(BLOCK_SANDSTONE)
    } else if name == "sandstone_slab"@ {
        Some(BLOCK_SANDSTONE_SLAB)
    } else if name == "water"@ {
        Some(BLOCK_WATER)
    } else if name == "lava"@ {
        Some(BLOCK_LAVA)
    } else if name == "mycelium"@ {
        Some(BLOCK_MYCELIUM)
    } else if name == "oak_log"@ {
        Some(BLOCK_OAK_LOG)
    } else if name == "vine"@ {
        Some(BLOCK_VINE)
    } else if name == "short_grass"@ {
        Some(BLOCK_SHORT_GRASS)
    } else {
        None
    }
}

/// The bare name registered for a block id; an empty sequence for an id the
/// registry does not hold.
pub open spec fn spec_block_name(id: u16) -> Seq<char> {
    if id == BLOCK_AIR {
        "air"@
    } else if id == BLOCK_STONE {
        "stone"@
    } else if id == BLOCK_DIRT {
        "dirt"@
    } else if id == BLOCK_GRASS_BLOCK {
        "grass_block"@
    } else if id == BLOCK_SAND {
        "sand"@
    } else if id == BLOCK_SANDSTONE {
        "sandstone"@
    } else if id == BLOCK_SANDSTONE_SLAB {
        "sandstone_slab"@
    } else if id == BLOCK_WATER {
        "water"@
    } else if id == BLOCK_LAVA {
        "lava"@
    } else if id == BLOCK_MYCELIUM {
        "mycelium"@
    } else if id == BLOCK_OAK_LOG {
        "oak_log"@
    } else if id == BLOCK_VINE {
        "vine"@
    } else if id == BLOCK_SHORT_GRASS {
        "short_grass"@
    } else {
        Seq::<char>::empty()
    }
}

/// The state facts for a state id the registry holds.
pub open spec fn spec_state_info(state_id: u16) -> Option<BlockStateInfo> {
    if state_id == BLOCK_AIR {
        Some(BlockStateInfo { air: true, solid: false, replaceable: true })
    } else if state_id == BLOCK_WATER || state_id == BLOCK_LAVA {
        Some(BlockStateInfo { air: false, solid: false, replaceable: true })
    } else if state_id == BLOCK_VINE || state_id == BLOCK_SHORT_GRASS {
        Some(BlockStateInfo { air: false, solid: false, replaceable: true })
    } else if state_id < BLOCK_COUNT {
        Some(BlockStateInfo { air: false, solid: true, replaceable: false })
    } else {
        None
    }
}

/// Membership in the `logs` block tag.
pub open spec fn spec_is_log(block_id: u16) -> bool {
    block_id == BLOCK_OAK_LOG
}

/// Membership in the `replaceable_by_trees` block tag.
pub open spec fn spec_replaceable_by_trees(block_id: u16) -> bool {
    block_id == BLOCK_VINE || block_id == BLOCK_SHORT_GRASS || block_id == BLOCK_WATER
}

/// Look a block up by its bare registry name.
pub fn get_block(registry_id: &str) -> (r: Option<Block>)
    ensures
        match spec_block_id_of_name(registry_id@) {
            Some(id) => r == Some(Block { id, default_state_id: id }),
            None => r is None,
        },
{
    let id: u16 = if str_equal(registry_id, "air") {
        BLOCK_AIR
    } else if str_equal(registry_id, "stone") {
        BLOCK_STONE
    } else if str_equal(registry_id, "dirt") {
        BLOCK_DIRT
    } else if str_equal(registry_id, "grass_block") {
        BLOCK_GRASS_BLOCK
    } else if str_equal(registry_id, "sand") {
        BLOCK_SAND
    } else if str_equal(registry_id, "sandstone") {
        BLOCK_SANDSTONE
    } else if str_equal(registry_id, "sandstone_slab") {
        BLOCK_SANDSTONE_SLAB
    } else if str_equal(registry_id, "water") {
        BLOCK_WATER
    } else if str_equal(registry_id, "lava") {
        BLOCK_LAVA
    } else if str_equal(registry_id, "mycelium") {
        BLOCK_MYCELIUM
    } else if str_equal(registry_id, "oak_log") {
        BLOCK_OAK_LOG
    } else if str_equal(registry_id, "vine") {
        BLOCK_VINE
    } else if str_equal(registry_id, "short_grass") {
        BLOCK_SHORT_GRASS
    } else {
        return None;
    };
    Some(Block { id, default_state_id: id })
}

/// Look a block up by its id.
pub fn get_block_by_id(block_id: u16) -> (r: Option<Block>)
    ensures
        block_id < BLOCK_COUNT ==> r == Some(Block { id: block_id, default_state_id: block_id }),
        block_id >= BLOCK_COUNT ==> r is None,
{
    if block_id < BLOCK_COUNT {
        Some(Block { id: block_id, default_state_id: block_id })
    } else {
        None
    }
}

/// The state facts for a state id.
pub fn get_state_by_state_id(state_id: u16) -> (r: Option<BlockStateInfo>)
    ensures
        r == spec_state_info(state_id),
{
    if state_id == BLOCK_AIR {
        Some(BlockStateInfo { air: true, solid: false, replaceable: true })
    } else if state_id == BLOCK_WATER || state_id == BLOCK_LAVA {
        Some(BlockStateInfo { air: false, solid: false, replaceable: true })
    } else if state_id == BLOCK_VINE || state_id == BLOCK_SHORT_GRASS {
        Some(BlockStateInfo { air: false, solid: false, replaceable: true })
    } else if state_id < BLOCK_COUNT {
        Some(BlockStateInfo { air: false, solid: true, replaceable: false })
    } else {
        None
    }
}

/// Whether the block's bare name equals the given name.
pub fn block_name_equal(block_id: u16, name: &str) -> (r: bool)
    ensures
        r == (block_id < BLOCK_COUNT && name@ == spec_block_name(block_id)),
{
    if block_id == BLOCK_AIR {
        str_equal(name, "air")
    } else if block_id == BLOCK_STONE {
        str_equal(name, "stone")
    } else if block_id == BLOCK_DIRT {
        str_equal(name, "dirt")
    } else if block_id == BLOCK_GRASS_BLOCK {
        str_equal(name, "grass_block")
    } else if block_id == BLOCK_SAND {
        str_equal(name, "sand")
    } else if block_id == BLOCK_SANDSTONE {
        str_equal(name, "sandstone")
    } else if block_id == BLOCK_SANDSTONE_SLAB {
        str_equal(name, "sandstone_slab")
    } else if block_id == BLOCK_WATER {
        str_equal(name, "water")
    } else if block_id == BLOCK_LAVA {
        str_equal(name, "lava")
    } else if block_id == BLOCK_MYCELIUM {
        str_equal(name, "mycelium")
    } else if block_id == BLOCK_OAK_LOG {
        str_equal(name, "oak_log")
    } else if block_id == BLOCK_VINE {
        str_equal(name, "vine")
    } else if block_id == BLOCK_SHORT_GRASS {
        str_equal(name, "short_grass")
    } else {
        false
    }
}

/// Whether the block carries the `logs` tag.
pub fn is_tagged_log(block_id: u16) -> (r: bool)
    ensures
        r == spec_is_log(block_id),
{
    block_id == BLOCK_OAK_LOG
}

/// Whether the block carries the `replaceable_by_trees` tag.
pub fn is_replaceable_by_trees(block_id: u16) -> (r: bool)
    ensures
        r == spec_replaceable_by_trees(block_id),
{
    block_id == BLOCK_VINE || block_id == BLOCK_SHORT_GRASS || block_id == BLOCK_WATER
}

// ------------------------------------------------------------------
// ChunkBlockState
// ------------------------------------------------------------------

/// A block state as a chunk stores it: the state id, the owning block id,
/// and a cached air flag. Two values with one state id are interchangeable
/// regardless of the cached fields: equality is state id alone, by design.
#[derive(Clone, Copy, Eq, Debug)]
pub struct ChunkBlockState {
    pub state_id: u16,
    pub block_id: u16,
    pub air: bool,
}

impl PartialEq for ChunkBlockState {
    fn eq(&self, other: &Self) -> (r: bool) {
        self.state_id == other.state_id
    }
}

impl vstd::std_specs::cmp::PartialEqSpecImpl for ChunkBlockState {
    open spec fn obeys_eq_spec() -> bool {
        true
    }

    open spec fn eq_spec(&self, other: &Self) -> bool {
        self.state_id == other.state_id
    }
}

/// The default state of a block in this model.
pub open spec fn spec_default_state(block_id: u16) -> ChunkBlockState {
    ChunkBlockState { state_id: block_id, block_id, air: block_id == BLOCK_AIR }
}

/// The default state value for a block id.
pub fn default_state_of(block_id: u16) -> (r: ChunkBlockState)
    ensures
        r == spec_default_state(block_id),
{
    ChunkBlockState { state_id: block_id, block_id, air: block_id == BLOCK_AIR }
}

impl ChunkBlockState {
    /// The air state.
    pub fn air() -> (r: ChunkBlockState)
        ensures
            r == spec_default_state(BLOCK_AIR),
    {
        ChunkBlockState { state_id: BLOCK_AIR, block_id: BLOCK_AIR, air: true }
    }

    /// The default state of the block registered under a bare name.
    pub fn new(registry_id: &str) -> (r: Option<Self>)
        ensures
            match spec_block_id_of_name(registry_id@) {
                Some(id) => r == Some(spec_default_state(id)),
                None => r is None,
            },
    {
        let block = get_block(registry_id);
        match block {
            Some(block) => {
                let info = get_state_by_state_id(block.default_state_id);
                match info {
                    Some(info) => Some(
                        Self {
                            state_id: block.default_state_id,
                            block_id: block.id,
                            air: info.air,
                        },
                    ),
                    None => None,
                }
            },
            None => None,
        }
    }

    pub fn get_id(&self) -> (r: u16)
        ensures
            r == self.state_id,
    {
        self.state_id
    }

    pub fn is_air(&self) -> (r: bool)
        ensures
            r == self.air,
    {
        self.air
    }

    /// Whether this state belongs to the given block.
    pub fn of_block(&self, block_id: u16) -> (r: bool)
        ensures
            r == (self.block_id == block_id),
    {
        self.block_id == block_id
    }
}

} // verus!
