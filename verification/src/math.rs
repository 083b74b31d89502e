//! Integer 3D coordinates: the value types that positions travel in.

use vstd::prelude::*;

verus! {

/// Coordinates this far from the origin stay clear of `i32` overflow even
/// after every offset the generation code applies.
pub const COORD_LIMIT: i32 = 0x0400_0000;

/// Largest half-range a value provider may span while keeping position
/// arithmetic inside `i32`.
pub const SPREAD_LIMIT: i32 = 0x0100_0000;

/// A plain integer 3D vector, used both as an absolute block coordinate and
/// as a relative offset.
#[derive(Clone, Copy, PartialEq, Eq, Structural, Debug)]
pub struct Vector3 {
    pub x: i32,
    pub y: i32,
    pub z: i32,
}

impl Vector3 {
    pub fn new(x: i32, y: i32, z: i32) -> (r: Vector3)
        ensures
            r == (Vector3 { x, y, z }),
    {
        Vector3 { x, y, z }
    }

    /// Componentwise sum; the caller keeps both addends small enough that no
    /// component overflows.
    pub fn add(&self, other: &Vector3) -> (r: Vector3)
        requires
            self.x + other.x <= i32::MAX,
            self.x + other.x >= i32::MIN,
            self.y + other.y <= i32::MAX,
            self.y + other.y >= i32::MIN,
            self.z + other.z <= i32::MAX,
            self.z + other.z >= i32::MIN,
        ensures
            r == (Vector3 { x: (self.x + other.x) as i32, y: (self.y + other.y) as i32, z: (self.z + other.z) as i32 }),
    {
        Vector3 { x: self.x + other.x, y: self.y + other.y, z: self.z + other.z }
    }

    pub fn add_raw(&self, x: i32, y: i32, z: i32) -> (r: Vector3)
        requires
            self.x + x <= i32::MAX,
            self.x + x >= i32::MIN,
            self.y + y <= i32::MAX,
            self.y + y >= i32::MIN,
            self.z + z <= i32::MAX,
            self.z + z >= i32::MIN,
        ensures
            r == (Vector3 { x: (self.x + x) as i32, y: (self.y + y) as i32, z: (self.z + z) as i32 }),
    {
        Vector3 { x: self.x + x, y: self.y + y, z: self.z + z }
    }
}

/// An absolute block position.
#[derive(Clone, Copy, PartialEq, Eq, Structural, Debug)]
pub struct BlockPos(pub Vector3);

/// Positions the generation code works on stay well inside `i32`, so offsets
/// of a few dozen blocks can never overflow.
pub open spec fn in_bounds(p: BlockPos) -> bool {
    -COORD_LIMIT <= p.0.x <= COORD_LIMIT
    && -COORD_LIMIT <= p.0.y <= COORD_LIMIT
    && -COORD_LIMIT <= p.0.z <= COORD_LIMIT
}

impl BlockPos {
    pub fn new(x: i32, y: i32, z: i32) -> (r: BlockPos)
        ensures
            r == BlockPos(Vector3 { x, y, z }),
    {
        BlockPos(Vector3 { x, y, z })
    }

    /// The coordinate triple of this position, for map views.
    pub open spec fn key(self) -> (int, int, int) {
        (self.0.x as int, self.0.y as int, self.0.z as int)
    }

    pub fn up(&self) -> (r: BlockPos)
        requires
            self.0.y < i32::MAX,
        ensures
            r == BlockPos(Vector3 { x: self.0.x, y: (self.0.y + 1) as i32, z: self.0.z }),
    {
        BlockPos(Vector3 { x: self.0.x, y: self.0.y + 1, z: self.0.z })
    }

    pub fn down(&self) -> (r: BlockPos)
        requires
            self.0.y > i32::MIN,
        ensures
            r == BlockPos(Vector3 { x: self.0.x, y: (self.0.y - 1) as i32, z: self.0.z }),
    {
        BlockPos(Vector3 { x: self.0.x, y: self.0.y - 1, z: self.0.z })
    }

    pub fn offset(&self, offset: Vector3) -> (r: BlockPos)
        requires
            self.0.x + offset.x <= i32::MAX,
            self.0.x + offset.x >= i32::MIN,
            self.0.y + offset.y <= i32::MAX,
            self.0.y + offset.y >= i32::MIN,
            self.0.z + offset.z <= i32::MAX,
            self.0.z + offset.z >= i32::MIN,
        ensures
            r == BlockPos(Vector3 {
                x: (self.0.x + offset.x) as i32,
                y: (self.0.y + offset.y) as i32,
                z: (self.0.z + offset.z) as i32,
            }),
    {
        BlockPos(self.0.add(&offset))
    }
}

} // verus!
