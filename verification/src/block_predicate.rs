//! Composable boolean tests over chunk content at a position.

use vstd::prelude::*;
use vstd::string::StrSliceExecFns;
use crate::block::BLOCK_COUNT;
use crate::block::get_state_by_state_id;
use crate::block::Block;
use crate::block::BlockStateInfo;
use crate::block::block_name_equal;
use crate::block::spec_block_name;
use crate::block::spec_state_info;
use crate::chunk::ProtoChunk;
use crate::math::BlockPos;
use crate::math::SPREAD_LIMIT;
use crate::math::Vector3;
use crate::math::in_bounds;

verus! {

/// A declared predicate kind whose behavior is not defined yet.
pub struct EmptyTODOStruct {}

/// The predicate tree. Declared-only kinds evaluate to the conservative
/// default: `false`.
pub enum BlockPredicate {
    MatchingBlocksBlockPredicate(MatchingBlocksBlockPredicate),
    MatchingBlockTagPredicate(EmptyTODOStruct),
    MatchingFluidsBlockPredicate(EmptyTODOStruct),
    HasSturdyFacePredicate(EmptyTODOStruct),
    SolidBlockPredicate(SolidBlockPredicate),
    ReplaceableBlockPredicate(ReplaceableBlockPredicate),
    WouldSurviveBlockPredicate(EmptyTODOStruct),
    InsideWorldBoundsBlockPredicate(EmptyTODOStruct),
    AnyOfBlockPredicate(AnyOfBlockPredicate),
    AllOfBlockPredicate(AllOfBlockPredicate),
    NotBlockPredicate(NotBlockPredicate),
    AlwaysTrueBlockPredicate,
    UnobstructedBlockPredicate(EmptyTODOStruct),
}

/// An optional fixed coordinate offset applied before the chunk lookup.
pub struct OffsetBlocksBlockPredicate {
    pub offset: Option<Vector3>,
}

/// Which block names a matching-blocks test accepts.
pub enum MatchingBlocksWrapper {
    Single(String),
    Multiple(Vec<String>),
}

pub struct MatchingBlocksBlockPredicate {
    pub offset: OffsetBlocksBlockPredicate,
    pub blocks: MatchingBlocksWrapper,
}

pub struct AnyOfBlockPredicate {
    pub predicates: Vec<BlockPredicate>,
}

pub struct AllOfBlockPredicate {
    pub predicates: Vec<BlockPredicate>,
}

pub struct NotBlockPredicate {
    pub predicate: Box<BlockPredicate>,
}

pub struct SolidBlockPredicate {
    pub offset: OffsetBlocksBlockPredicate,
}

pub struct ReplaceableBlockPredicate {
    pub offset: OffsetBlocksBlockPredicate,
}

/// A configured name with its namespace prefix stripped: names are matched
/// bare.
pub open spec fn spec_strip_namespace(s: Seq<char>) -> Seq<char> {
    if spec_has_prefix(s) {
        s.subrange(10, s.len() as int)
    } else {
        s
    }
}

/// Whether a configured name denotes the block, after prefix stripping.
pub open spec fn spec_name_matches(name: Seq<char>, block_id: u16) -> bool {
    block_id < BLOCK_COUNT && spec_strip_namespace(name) == spec_block_name(block_id)
}

/// Whether a name wrapper accepts the block: the single name matches, or
/// some name of the set does.
pub open spec fn spec_blocks_match(w: MatchingBlocksWrapper, block_id: u16) -> bool {
    match w {
        MatchingBlocksWrapper::Single(s) => spec_name_matches(s@, block_id),
        MatchingBlocksWrapper::Multiple(v) => exists|i: int|
            #![trigger v@[i]]
            0 <= i < v@.len() && spec_name_matches(v@[i]@, block_id),
    }
}

/// Whether the name starts with the ten-character namespace prefix that
/// bare-name matching strips.
pub open spec fn spec_has_prefix(s: Seq<char>) -> bool {
    s.len() >= 10 && s[0] == 'm' && s[1] == 'i' && s[2] == 'n' && s[3] == 'e' && s[4] == 'c'
        && s[5] == 'r' && s[6] == 'a' && s[7] == 'f' && s[8] == 't' && s[9] == ':'
}

/// Whether the name carries the namespace prefix.
pub fn has_namespace_prefix(s: &str) -> (r: bool)
    ensures
        r == spec_has_prefix(s@),
{
    let n = s.unicode_len();
    n >= 10 && s.get_char(0) == 'm' && s.get_char(1) == 'i' && s.get_char(2) == 'n' && s.get_char(
        3,
    ) == 'e' && s.get_char(4) == 'c' && s.get_char(5) == 'r' && s.get_char(6) == 'a' && s.get_char(
        7,
    ) == 'f' && s.get_char(8) == 't' && s.get_char(9) == ':'
}

/// Strip the namespace prefix and compare with the block's bare name.
pub fn name_matches_block(cfg_name: &str, block_id: u16) -> (r: bool)
    ensures
        r == spec_name_matches(cfg_name@, block_id),
{
    let n = cfg_name.unicode_len();
    let has_prefix = n >= 10 && cfg_name.get_char(0) == 'm' && cfg_name.get_char(1) == 'i'
        && cfg_name.get_char(2) == 'n' && cfg_name.get_char(3) == 'e' && cfg_name.get_char(4)
        == 'c' && cfg_name.get_char(5) == 'r' && cfg_name.get_char(6) == 'a' && cfg_name.get_char(
        7,
    ) == 'f' && cfg_name.get_char(8) == 't' && cfg_name.get_char(9) == ':';
    if has_prefix {
        let bare = cfg_name.substring_char(10, n);
        block_name_equal(block_id, bare)
    } else {
        block_name_equal(block_id, cfg_name)
    }
}

impl OffsetBlocksBlockPredicate {
    pub open spec fn wf(self) -> bool {
        match self.offset {
            Some(v) => -SPREAD_LIMIT <= v.x <= SPREAD_LIMIT && -SPREAD_LIMIT <= v.y
                <= SPREAD_LIMIT && -SPREAD_LIMIT <= v.z <= SPREAD_LIMIT,
            None => true,
        }
    }

    /// Where the lookup lands after the configured offset.
    pub open spec fn spec_target(self, pos: BlockPos) -> (int, int, int) {
        match self.offset {
            Some(v) => (pos.0.x + v.x, pos.0.y + v.y, pos.0.z + v.z),
            None => pos.key(),
        }
    }

    pub fn get(&self, pos: &BlockPos) -> (r: BlockPos)
        requires
            self.wf(),
            in_bounds(*pos),
        ensures
            r.key() == self.spec_target(*pos),
    {
        if let Some(offset) = self.offset {
            return pos.offset(offset);
        }
        *pos
    }

    /// The block at the offset position, if the registry knows its id.
    pub fn get_block(&self, chunk: &ProtoChunk, pos: &BlockPos) -> (r: Option<Block>)
        requires
            self.wf(),
            in_bounds(*pos),
        ensures
            ({
                let id = chunk.block_at(self.spec_target(*pos)).block_id;
                if id < BLOCK_COUNT {
                    r == Some(Block { id, default_state_id: id })
                } else {
                    r is None
                }
            }),
    {
        let pos = self.get(pos);
        crate::block::get_block_by_id(chunk.get_block_state(&pos).block_id)
    }

    /// The state facts of the block's default state at the offset
    /// position, if the registry knows its id.
    pub fn get_state(&self, chunk: &ProtoChunk, pos: &BlockPos) -> (r: Option<BlockStateInfo>)
        requires
            self.wf(),
            in_bounds(*pos),
        ensures
            r == spec_state_info(chunk.block_at(self.spec_target(*pos)).block_id),
    {
        let pos = self.get(pos);
        let id = chunk.get_block_state(&pos).block_id;
        get_state_by_state_id(id)
    }
}

/// Whether the block at a key has a solid default state; an id outside the
/// registry reads as not solid.
pub open spec fn spec_solid_at(chunk: ProtoChunk, key: (int, int, int)) -> bool {
    match spec_state_info(chunk.block_at(key).block_id) {
        Some(info) => info.solid,
        None => false,
    }
}

/// Whether the block at a key has a replaceable default state; an id
/// outside the registry reads as not replaceable.
pub open spec fn spec_replaceable_at(chunk: ProtoChunk, key: (int, int, int)) -> bool {
    match spec_state_info(chunk.block_at(key).block_id) {
        Some(info) => info.replaceable,
        None => false,
    }
}

/// The meaning of a predicate at (chunk, position).
pub open spec fn spec_eval(p: BlockPredicate, chunk: ProtoChunk, pos: BlockPos) -> bool
    decreases p,
{
    match p {
        BlockPredicate::MatchingBlocksBlockPredicate(m) => spec_blocks_match(
            m.blocks,
            chunk.block_at(m.offset.spec_target(pos)).block_id,
        ),
        BlockPredicate::SolidBlockPredicate(s) => spec_solid_at(chunk, s.offset.spec_target(pos)),
        BlockPredicate::ReplaceableBlockPredicate(s) => spec_replaceable_at(
            chunk,
            s.offset.spec_target(pos),
        ),
        BlockPredicate::AlwaysTrueBlockPredicate => true,
        BlockPredicate::NotBlockPredicate(n) => !spec_eval(*n.predicate, chunk, pos),
        BlockPredicate::AnyOfBlockPredicate(a) => exists|i: int|
            0 <= i < a.predicates@.len() && spec_eval(#[trigger] a.predicates@[i], chunk, pos),
        BlockPredicate::AllOfBlockPredicate(a) => forall|i: int|
            0 <= i < a.predicates@.len() ==> spec_eval(#[trigger] a.predicates@[i], chunk, pos),
        _ => false,
    }
}

/// Structural well-formedness: every offset in the tree is bounded.
pub open spec fn spec_pred_wf(p: BlockPredicate) -> bool
    decreases p,
{
    match p {
        BlockPredicate::MatchingBlocksBlockPredicate(m) => m.offset.wf(),
        BlockPredicate::SolidBlockPredicate(s) => s.offset.wf(),
        BlockPredicate::ReplaceableBlockPredicate(s) => s.offset.wf(),
        BlockPredicate::NotBlockPredicate(n) => spec_pred_wf(*n.predicate),
        BlockPredicate::AnyOfBlockPredicate(a) => forall|i: int|
            0 <= i < a.predicates@.len() ==> spec_pred_wf(#[trigger] a.predicates@[i]),
        BlockPredicate::AllOfBlockPredicate(a) => forall|i: int|
            0 <= i < a.predicates@.len() ==> spec_pred_wf(#[trigger] a.predicates@[i]),
        _ => true,
    }
}

impl MatchingBlocksBlockPredicate {
    /// Membership of the target block's bare name in the configured name
    /// or name set.
    pub fn test(&self, chunk: &ProtoChunk, pos: &BlockPos) -> (r: bool)
        requires
            self.offset.wf(),
            in_bounds(*pos),
        ensures
            r == spec_blocks_match(
                self.blocks,
                chunk.block_at(self.offset.spec_target(*pos)).block_id,
            ),
    {
        let target = self.offset.get(pos);
        let block_id = chunk.get_block_state(&target).block_id;
        match &self.blocks {
            MatchingBlocksWrapper::Single(single_block) => name_matches_block(
                single_block.as_str(),
                block_id,
            ),
            MatchingBlocksWrapper::Multiple(blocks) => {
                let n = blocks.len();
                let mut i: usize = 0;
                while i < n
                    invariant
                        i <= n,
                        n == blocks@.len(),
                        self.blocks == MatchingBlocksWrapper::Multiple(*blocks),
                        block_id == chunk.block_at(self.offset.spec_target(*pos)).block_id,
                        forall|j: int| 0 <= j < i ==> !spec_name_matches(blocks@[j]@, block_id),
                    decreases n - i,
                {
                    if name_matches_block(blocks[i].as_str(), block_id) {
                        proof {
                            let w = i as int;
                            assert(0 <= w < blocks@.len() && spec_name_matches(
                                blocks@[w]@,
                                block_id,
                            ));
                            assert(0 <= w < self.blocks->Multiple_0@.len()
                                && spec_name_matches(self.blocks->Multiple_0@[w]@, block_id));
                            assert(spec_blocks_match(self.blocks, block_id));
                        }
                        return true;
                    }
                    i = i + 1;
                }
                false
            },
        }
    }
}

impl SolidBlockPredicate {
    pub fn test(&self, chunk: &ProtoChunk, pos: &BlockPos) -> (r: bool)
        requires
            self.offset.wf(),
            in_bounds(*pos),
        ensures
            r == spec_solid_at(*chunk, self.offset.spec_target(*pos)),
    {
        let state = self.offset.get_state(chunk, pos);
        match state {
            Some(state) => state.solid,
            None => false,
        }
    }
}

impl ReplaceableBlockPredicate {
    pub fn test(&self, chunk: &ProtoChunk, pos: &BlockPos) -> (r: bool)
        requires
            self.offset.wf(),
            in_bounds(*pos),
        ensures
            r == spec_replaceable_at(*chunk, self.offset.spec_target(*pos)),
    {
        let state = self.offset.get_state(chunk, pos);
        match state {
            Some(state) => state.replaceable,
            None => false,
        }
    }
}

impl NotBlockPredicate {
    pub fn test(&self, chunk: &ProtoChunk, pos: &BlockPos) -> (r: bool)
        requires
            spec_pred_wf(*self.predicate),
            in_bounds(*pos),
        ensures
            r == !spec_eval(*self.predicate, *chunk, *pos),
        decreases *self,
    {
        !self.predicate.test(chunk, pos)
    }
}

impl AnyOfBlockPredicate {
    /// True at the first child that holds; false when none does, so an
    /// empty list is false.
    pub fn test(&self, chunk: &ProtoChunk, pos: &BlockPos) -> (r: bool)
        requires
            forall|i: int|
                0 <= i < self.predicates@.len() ==> spec_pred_wf(#[trigger] self.predicates@[i]),
            in_bounds(*pos),
        ensures
            r == exists|i: int|
                0 <= i < self.predicates@.len() && spec_eval(
                    #[trigger] self.predicates@[i],
                    *chunk,
                    *pos,
                ),
        decreases *self,
    {
        let n = self.predicates.len();
        let mut i: usize = 0;
        while i < n
            invariant
                i <= n,
                n == self.predicates@.len(),
                forall|i0: int|
                    0 <= i0 < self.predicates@.len() ==> spec_pred_wf(
                        #[trigger] self.predicates@[i0],
                    ),
                in_bounds(*pos),
                forall|j: int| 0 <= j < i ==> !spec_eval(#[trigger] self.predicates@[j], *chunk, *pos),
            decreases n - i,
        {
            if self.predicates[i].test(chunk, pos) {
                return true;
            }
            i = i + 1;
        }
        false
    }
}

impl AllOfBlockPredicate {
    /// False at the first child that fails; true when none does, so an
    /// empty list is true.
    pub fn test(&self, chunk: &ProtoChunk, pos: &BlockPos) -> (r: bool)
        requires
            forall|i: int|
                0 <= i < self.predicates@.len() ==> spec_pred_wf(#[trigger] self.predicates@[i]),
            in_bounds(*pos),
        ensures
            r == forall|i: int|
                0 <= i < self.predicates@.len() ==> spec_eval(
                    #[trigger] self.predicates@[i],
                    *chunk,
                    *pos,
                ),
        decreases *self,
    {
        let n = self.predicates.len();
        let mut i: usize = 0;
        while i < n
            invariant
                i <= n,
                n == self.predicates@.len(),
                forall|i0: int|
                    0 <= i0 < self.predicates@.len() ==> spec_pred_wf(
                        #[trigger] self.predicates@[i0],
                    ),
                in_bounds(*pos),
                forall|j: int| 0 <= j < i ==> spec_eval(#[trigger] self.predicates@[j], *chunk, *pos),
            decreases n - i,
        {
            if !self.predicates[i].test(chunk, pos) {
                return false;
            }
            i = i + 1;
        }
        true
    }
}

impl BlockPredicate {
    /// Evaluate the predicate tree at (chunk, position).
    pub fn test(&self, chunk: &ProtoChunk, pos: &BlockPos) -> (r: bool)
        requires
            spec_pred_wf(*self),
            in_bounds(*pos),
        ensures
            r == spec_eval(*self, *chunk, *pos),
        decreases *self,
    {
        match self {
            Self::MatchingBlocksBlockPredicate(predicate) => predicate.test(chunk, pos),
            Self::ReplaceableBlockPredicate(predicate) => predicate.test(chunk, pos),
            Self::SolidBlockPredicate(predicate) => predicate.test(chunk, pos),
            Self::AlwaysTrueBlockPredicate => true,
            Self::NotBlockPredicate(predicate) => predicate.test(chunk, pos),
            Self::AnyOfBlockPredicate(predicate) => predicate.test(chunk, pos),
            Self::AllOfBlockPredicate(predicate) => predicate.test(chunk, pos),
            _ => false,
        }
    }
}

/// An empty conjunction holds: `AllOf([])` is true at every chunk and
/// position.
pub proof fn lemma_all_of_empty(a: AllOfBlockPredicate, chunk: ProtoChunk, pos: BlockPos)
    requires
        a.predicates@.len() == 0,
    ensures
        spec_eval(BlockPredicate::AllOfBlockPredicate(a), chunk, pos),
{
}

/// An empty disjunction fails: `AnyOf([])` is false at every chunk and
/// position.
pub proof fn lemma_any_of_empty(a: AnyOfBlockPredicate, chunk: ProtoChunk, pos: BlockPos)
    requires
        a.predicates@.len() == 0,
    ensures
        !spec_eval(BlockPredicate::AnyOfBlockPredicate(a), chunk, pos),
{
}

/// Negation flips the always-true predicate: `Not(AlwaysTrue)` is false at
/// every chunk and position.
pub proof fn lemma_not_always_true(n: NotBlockPredicate, chunk: ProtoChunk, pos: BlockPos)
    requires
        *n.predicate == BlockPredicate::AlwaysTrueBlockPredicate,
    ensures
        !spec_eval(BlockPredicate::NotBlockPredicate(n), chunk, pos),
{
    assert(spec_eval(BlockPredicate::AlwaysTrueBlockPredicate, chunk, pos));
}

} // verus!
