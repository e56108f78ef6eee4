//! Coordinates and directions shared by the whole library.

use vstd::prelude::*;

verus! {

/// Position of a chunk in the unbounded chunk grid.
#[derive(Clone, Copy, Debug, PartialEq, Eq, Structural, Hash)]
pub struct ChunkPos {
    pub x: i32,
    pub y: i32,
    pub z: i32,
}

/// Position of a cell inside a chunk; each component is below 16 when the
/// position is used to address a cell.
#[derive(Clone, Copy, Debug, PartialEq, Eq, Structural, Hash)]
pub struct BlockPos {
    pub x: u8,
    pub y: u8,
    pub z: u8,
}

/// A signed cell position relative to a chunk's origin, which may lie
/// outside the chunk; also used for unit steps between neighbouring cells.
#[derive(Clone, Copy, Debug, PartialEq, Eq, Structural, Hash)]
pub struct LocalPos {
    pub x: i8,
    pub y: i8,
    pub z: i8,
}

/// One of the six axis-aligned faces of a cube.
#[derive(Clone, Copy, Debug, PartialEq, Eq, Structural, Hash)]
pub enum Face {
    Top,
    Bottom,
    North,
    East,
    South,
    West,
}

/// A horizontal direction, relative to where the camera looks.
#[derive(Clone, Copy, Debug, PartialEq, Eq, Structural, Hash)]
pub enum HDirection {
    Forth,
    Back,
    Left,
    Right,
}

/// A vertical direction.
#[derive(Clone, Copy, Debug, PartialEq, Eq, Structural, Hash)]
pub enum VDirection {
    Up,
    Down,
}

impl ChunkPos {
    pub fn new(x: i32, y: i32, z: i32) -> (r: ChunkPos)
        ensures
            r == (ChunkPos { x, y, z }),
    {
        ChunkPos { x, y, z }
    }

    /// The hash-map key of a chunk position: the three coordinates, each
    /// shifted into `0..2^32`, as digits in base `2^32`.
    pub open spec fn key_spec(self) -> u128 {
        (((self.x + 0x8000_0000) * 0x1_0000_0000 + (self.y + 0x8000_0000)) * 0x1_0000_0000 + (self.z
            + 0x8000_0000)) as u128
    }

    #[verifier::when_used_as_spec(key_spec)]
    pub fn key(self) -> (r: u128)
        ensures
            r == self.key_spec(),
    {
        let a = (self.x as i64 + 0x8000_0000) as u128;
        let b = (self.y as i64 + 0x8000_0000) as u128;
        let c = (self.z as i64 + 0x8000_0000) as u128;
        assert(a * 0x1_0000_0000 + b < 0x1_0000_0000_0000_0000) by (nonlinear_arith)
            requires a < 0x1_0000_0000, b < 0x1_0000_0000;
        assert((a * 0x1_0000_0000 + b) * 0x1_0000_0000 + c < 0x1_0000_0000_0000_0000_0000_0000)
            by (nonlinear_arith)
            requires a * 0x1_0000_0000 + b < 0x1_0000_0000_0000_0000, c < 0x1_0000_0000;
        (a * 0x1_0000_0000 + b) * 0x1_0000_0000 + c
    }
}

/// Distinct chunk positions have distinct keys.
pub proof fn lemma_key_injective(p: ChunkPos, q: ChunkPos)
    requires
        p.key_spec() == q.key_spec(),
    ensures
        p == q,
{
    let d: int = 0x1_0000_0000;
    let (pa, pb, pc) = (p.x + 0x8000_0000, p.y + 0x8000_0000, p.z + 0x8000_0000);
    let (qa, qb, qc) = (q.x + 0x8000_0000, q.y + 0x8000_0000, q.z + 0x8000_0000);
    assert(0 <= pa * d + pb < d * d) by (nonlinear_arith)
        requires 0 <= pa < d, 0 <= pb < d, d == 0x1_0000_0000;
    assert(0 <= qa * d + qb < d * d) by (nonlinear_arith)
        requires 0 <= qa < d, 0 <= qb < d, d == 0x1_0000_0000;
    assert(0 <= (pa * d + pb) * d + pc < d * d * d) by (nonlinear_arith)
        requires 0 <= pa * d + pb < d * d, 0 <= pc < d, d == 0x1_0000_0000;
    assert(0 <= (qa * d + qb) * d + qc < d * d * d) by (nonlinear_arith)
        requires 0 <= qa * d + qb < d * d, 0 <= qc < d, d == 0x1_0000_0000;
    let k: int = (pa * d + pb) * d + pc;
    assert(k == (qa * d + qb) * d + qc);
    vstd::arithmetic::div_mod::lemma_fundamental_div_mod_converse(k, d, pa * d + pb, pc);
    vstd::arithmetic::div_mod::lemma_fundamental_div_mod_converse(k, d, qa * d + qb, qc);
    let h: int = pa * d + pb;
    vstd::arithmetic::div_mod::lemma_fundamental_div_mod_converse(h, d, pa, pb);
    vstd::arithmetic::div_mod::lemma_fundamental_div_mod_converse(h, d, qa, qb);
}

impl BlockPos {
    pub fn new(x: u8, y: u8, z: u8) -> (r: BlockPos)
        ensures
            r == (BlockPos { x, y, z }),
    {
        BlockPos { x, y, z }
    }

    /// Every component addresses a cell of a chunk.
    pub open spec fn in_chunk(self) -> bool {
        self.x < 16 && self.y < 16 && self.z < 16
    }
}

impl LocalPos {
    pub fn new(x: i8, y: i8, z: i8) -> (r: LocalPos)
        ensures
            r == (LocalPos { x, y, z }),
    {
        LocalPos { x, y, z }
    }
}

impl Face {
    /// The ordinal of the face, as it is packed into vertex data and picking IDs.
    pub open spec fn index_spec(self) -> u8 {
        match self {
            Face::Top => 0,
            Face::Bottom => 1,
            Face::North => 2,
            Face::East => 3,
            Face::South => 4,
            Face::West => 5,
        }
    }

    #[verifier::when_used_as_spec(index_spec)]
    pub fn index(self) -> (r: u8)
        ensures
            r == self.index_spec(),
    {
        match self {
            Face::Top => 0,
            Face::Bottom => 1,
            Face::North => 2,
            Face::East => 3,
            Face::South => 4,
            Face::West => 5,
        }
    }

    /// The face with a given ordinal.
    pub open spec fn from_index_spec(i: u32) -> Option<Face> {
        if i == 0 {
            Some(Face::Top)
        } else if i == 1 {
            Some(Face::Bottom)
        } else if i == 2 {
            Some(Face::North)
        } else if i == 3 {
            Some(Face::East)
        } else if i == 4 {
            Some(Face::South)
        } else if i == 5 {
            Some(Face::West)
        } else {
            None
        }
    }

    /// The face with ordinal `i`, or `None` past the last face.
    pub fn from_index(i: u32) -> (r: Option<Face>)
        ensures
            r == Face::from_index_spec(i),
            r is Some <==> i < 6,
            r matches Some(f) ==> f.index_spec() == i,
    {
        if i == 0 {
            Some(Face::Top)
        } else if i == 1 {
            Some(Face::Bottom)
        } else if i == 2 {
            Some(Face::North)
        } else if i == 3 {
            Some(Face::East)
        } else if i == 4 {
            Some(Face::South)
        } else if i == 5 {
            Some(Face::West)
        } else {
            None
        }
    }

    /// All faces, in ordinal order.
    pub open spec fn values_spec() -> Seq<Face> {
        seq![Face::Top, Face::Bottom, Face::North, Face::East, Face::South, Face::West]
    }

    pub fn values() -> (r: Vec<Face>)
        ensures
            r@ == Face::values_spec(),
    {
        vec![Face::Top, Face::Bottom, Face::North, Face::East, Face::South, Face::West]
    }

    /// The unit step from a cell to its neighbour across this face.
    pub open spec fn to_vec_spec(self) -> LocalPos {
        match self {
            Face::Top => LocalPos { x: 0, y: 1, z: 0 },
            Face::Bottom => LocalPos { x: 0, y: -1i8, z: 0 },
            Face::North => LocalPos { x: 0, y: 0, z: -1i8 },
            Face::East => LocalPos { x: 1, y: 0, z: 0 },
            Face::South => LocalPos { x: 0, y: 0, z: 1 },
            Face::West => LocalPos { x: -1i8, y: 0, z: 0 },
        }
    }

    #[verifier::when_used_as_spec(to_vec_spec)]
    pub fn to_vec(self) -> (r: LocalPos)
        ensures
            r == self.to_vec_spec(),
    {
        match self {
            Face::Top => LocalPos { x: 0, y: 1, z: 0 },
            Face::Bottom => LocalPos { x: 0, y: -1, z: 0 },
            Face::North => LocalPos { x: 0, y: 0, z: -1 },
            Face::East => LocalPos { x: 1, y: 0, z: 0 },
            Face::South => LocalPos { x: 0, y: 0, z: 1 },
            Face::West => LocalPos { x: -1, y: 0, z: 0 },
        }
    }
}

} // verus!
