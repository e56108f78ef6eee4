//! The content of a single cell.

use vstd::prelude::*;
use crate::types::{BlockPos, Face};

verus! {

/// What fills one cell of the world.
#[derive(Clone, Copy, Debug, PartialEq, Eq, Structural, Hash)]
pub enum Block {
    Air,
    Dirt,
}

/// A corner of the unit cube, as an offset in `{0, 1}` on each axis.
pub open spec fn corner(x: u8, y: u8, z: u8) -> BlockPos {
    BlockPos { x, y, z }
}

impl Block {
    /// The faces that a block shows: nothing for air; for a solid block two
    /// opposite corners of each of the six faces, face by face.
    pub open spec fn faces_spec(self) -> Seq<(Face, BlockPos)> {
        if self == Block::Air {
            seq![]
        } else {
            seq![
                (Face::Top, corner(0, 1, 0)),
                (Face::Top, corner(1, 1, 1)),
                (Face::Bottom, corner(0, 0, 1)),
                (Face::Bottom, corner(1, 0, 0)),
                (Face::North, corner(1, 1, 0)),
                (Face::North, corner(0, 0, 0)),
                (Face::East, corner(1, 1, 1)),
                (Face::East, corner(1, 0, 0)),
                (Face::South, corner(0, 1, 1)),
                (Face::South, corner(1, 0, 1)),
                (Face::West, corner(0, 1, 0)),
                (Face::West, corner(0, 0, 1)),
            ]
        }
    }

    /// The corner pairs of the visible faces of this block.
    pub fn as_faces(self) -> (r: Vec<(Face, BlockPos)>)
        ensures
            r@ == self.faces_spec(),
    {
        match self {
            Block::Air => Vec::new(),
            Block::Dirt => {
                let r = vec![
                    (Face::Top, BlockPos::new(0, 1, 0)),
                    (Face::Top, BlockPos::new(1, 1, 1)),
                    (Face::Bottom, BlockPos::new(0, 0, 1)),
                    (Face::Bottom, BlockPos::new(1, 0, 0)),
                    (Face::North, BlockPos::new(1, 1, 0)),
                    (Face::North, BlockPos::new(0, 0, 0)),
                    (Face::East, BlockPos::new(1, 1, 1)),
                    (Face::East, BlockPos::new(1, 0, 0)),
                    (Face::South, BlockPos::new(0, 1, 1)),
                    (Face::South, BlockPos::new(1, 0, 1)),
                    (Face::West, BlockPos::new(0, 1, 0)),
                    (Face::West, BlockPos::new(0, 0, 1)),
                ];
                assert(r@ =~= self.faces_spec());
                r
            },
        }
    }
}

} // verus!
