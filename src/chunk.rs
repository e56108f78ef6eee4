//! A dense 16 x 16 x 16 grid of blocks and the mesh built from it.

use vstd::prelude::*;
use crate::block::Block;
use crate::types::{BlockPos, Face};

verus! {

/// Number of cells in a chunk.
pub const CHUNK_CELLS: usize = 4096;

/// One end of the line that stands for a visible face: the face, the cell
/// it belongs to, and a corner offset of the unit cube. Two consecutive
/// records with the same face and cell span one quad.
#[derive(Clone, Copy, Debug, PartialEq, Eq, Structural)]
pub struct FaceVertex {
    pub face: Face,
    pub pos: BlockPos,
    pub corner: BlockPos,
}

/// Where a cell is stored: x-major, then y, then z.
pub open spec fn cell_index(p: BlockPos) -> int {
    p.x * 256 + p.y * 16 + p.z
}

/// The cell stored at index `i`.
pub open spec fn cell_pos(i: int) -> BlockPos {
    BlockPos { x: (i / 256) as u8, y: ((i / 16) % 16) as u8, z: (i % 16) as u8 }
}

/// The records that the block `b` in cell `pos` contributes to a mesh.
pub open spec fn cell_faces(b: Block, pos: BlockPos) -> Seq<FaceVertex> {
    b.faces_spec().map_values(|fc: (Face, BlockPos)| FaceVertex { face: fc.0, pos, corner: fc.1 })
}

/// The records of the first `n` cells, in storage order.
pub open spec fn mesh_upto(cells: Seq<Block>, n: nat) -> Seq<FaceVertex>
    decreases n,
{
    if n == 0 {
        seq![]
    } else {
        mesh_upto(cells, (n - 1) as nat) + cell_faces(cells[n - 1], cell_pos(n - 1))
    }
}

/// The mesh of a chunk's cells: every face of every non-air block.
pub open spec fn mesh(cells: Seq<Block>) -> Seq<FaceVertex> {
    mesh_upto(cells, 4096)
}

/// A chunk: the blocks of its cells and whether they changed since the
/// flag was last cleared.
#[derive(Clone, Copy, Debug)]
pub struct Chunk {
    blocks: [Block; 4096],
    dirty: bool,
}

impl View for Chunk {
    type V = Seq<Block>;

    closed spec fn view(&self) -> Seq<Block> {
        self.blocks@
    }
}

impl Chunk {
    pub closed spec fn is_dirty_spec(&self) -> bool {
        self.dirty
    }

    /// The block in cell `p`.
    pub open spec fn block_at(&self, p: BlockPos) -> Block {
        self@[cell_index(p)]
    }

    /// Every chunk holds exactly one block per cell.
    pub proof fn lemma_len(&self)
        ensures
            self@.len() == 4096,
    {
    }

    /// A chunk of air.
    pub fn new() -> (r: Chunk)
        ensures
            r@ == Seq::new(4096, |i: int| Block::Air),
            !r.is_dirty_spec(),
    {
        Chunk::new_with(Block::Air)
    }

    /// A chunk with `block` in every cell.
    pub fn new_with(block: Block) -> (r: Chunk)
        ensures
            r@ == Seq::new(4096, |i: int| block),
            !r.is_dirty_spec(),
    {
        let r = Chunk { blocks: [block; 4096], dirty: false };
        assert(r@ =~= Seq::new(4096, |i: int| block));
        r
    }

    pub fn clear_dirty(&mut self)
        ensures
            final(self)@ == old(self)@,
            !final(self).is_dirty_spec(),
    {
        self.dirty = false;
    }

    #[verifier::when_used_as_spec(is_dirty_spec)]
    pub fn is_dirty(&self) -> (r: bool)
        ensures
            r == self.is_dirty_spec(),
    {
        self.dirty
    }

    /// The block in cell `pos`.
    pub fn get(&self, pos: BlockPos) -> (r: Block)
        requires
            pos.in_chunk(),
        ensures
            r == self.block_at(pos),
    {
        self.blocks[pos.x as usize * 256 + pos.y as usize * 16 + pos.z as usize]
    }

    /// Mutable access to the block in cell `pos`; marks the chunk dirty.
    pub fn get_mut(&mut self, pos: BlockPos) -> (r: &mut Block)
        requires
            pos.in_chunk(),
        ensures
            *r == old(self).block_at(pos),
            final(self)@ == old(self)@.update(cell_index(pos), *final(r)),
            final(self).is_dirty_spec(),
    {
        self.dirty = true;
        &mut self.blocks[pos.x as usize * 256 + pos.y as usize * 16 + pos.z as usize]
    }
    /// The mesh of this chunk: for each cell in storage order, the records
    /// of the faces of its block.
    pub fn as_faces(&self) -> (r: Vec<FaceVertex>)
        ensures
            r@ == mesh(self@),
    {
        let mut faces: Vec<FaceVertex> = Vec::new();
        let mut i: usize = 0;
        while i < CHUNK_CELLS
            invariant
                i <= CHUNK_CELLS,
                faces@ == mesh_upto(self@, i as nat),
            decreases CHUNK_CELLS - i,
        {
            let pos = BlockPos::new((i / 256) as u8, ((i / 16) % 16) as u8, (i % 16) as u8);
            let cell = self.blocks[i].as_faces();
            let ghost start = faces@;
            let mut k: usize = 0;
            while k < cell.len()
                invariant
                    k <= cell@.len(),
                    cell@ == self@[i as int].faces_spec(),
                    pos == cell_pos(i as int),
                    faces@ == start + cell_faces(self@[i as int], pos).take(k as int),
                decreases cell.len() - k,
            {
                let (face, corner) = cell[k];
                faces.push(FaceVertex { face, pos, corner });
                assert(cell_faces(self@[i as int], pos).take(k + 1) =~= cell_faces(
                    self@[i as int],
                    pos,
                ).take(k as int).push(FaceVertex { face, pos, corner }));
                k += 1;
            }
            assert(cell_faces(self@[i as int], pos).take(k as int) =~= cell_faces(
                self@[i as int],
                pos,
            ));
            i += 1;
        }
        faces
    }
}

/// The records of a run of air cells are empty.
proof fn lemma_mesh_upto_air(cells: Seq<Block>, n: nat)
    requires
        n <= cells.len(),
        forall|i: int| 0 <= i < n ==> cells[i] == Block::Air,
    ensures
        mesh_upto(cells, n) == Seq::<FaceVertex>::empty(),
    decreases n,
{
    if n > 0 {
        lemma_mesh_upto_air(cells, (n - 1) as nat);
        assert(cell_faces(cells[n - 1], cell_pos(n - 1)) =~= Seq::<FaceVertex>::empty());
        assert(mesh_upto(cells, n) =~= Seq::<FaceVertex>::empty());
    }
}

/// Past the only solid cell, the records are those of that cell.
proof fn lemma_mesh_upto_single(cells: Seq<Block>, k: int, n: nat)
    requires
        n <= cells.len(),
        0 <= k < n,
        forall|i: int| 0 <= i < cells.len() && i != k ==> cells[i] == Block::Air,
    ensures
        mesh_upto(cells, n) == cell_faces(cells[k], cell_pos(k)),
    decreases n,
{
    if n - 1 == k {
        lemma_mesh_upto_air(cells, k as nat);
        assert(mesh_upto(cells, n) =~= cell_faces(cells[k], cell_pos(k)));
    } else {
        lemma_mesh_upto_single(cells, k, (n - 1) as nat);
        assert(cell_faces(cells[n - 1], cell_pos(n - 1)) =~= Seq::<FaceVertex>::empty());
        assert(mesh_upto(cells, n) =~= cell_faces(cells[k], cell_pos(k)));
    }
}

/// How many records of a mesh belong to face `f`.
pub open spec fn count_face(s: Seq<FaceVertex>, f: Face) -> nat
    decreases s.len(),
{
    if s.len() == 0 {
        0
    } else {
        count_face(s.drop_last(), f) + if s.last().face == f { 1nat } else { 0nat }
    }
}

/// A chunk of air has an empty mesh.
pub proof fn lemma_air_chunk_mesh_empty(c: Chunk)
    requires
        forall|i: int| 0 <= i < 4096 ==> c@[i] == Block::Air,
    ensures
        mesh(c@).len() == 0,
{
    c.lemma_len();
    lemma_mesh_upto_air(c@, 4096);
}

/// A chunk whose only solid block is in cell `p` has a mesh of twelve
/// records, all in cell `p`, two for each of the six faces.
pub proof fn lemma_single_block_mesh(c: Chunk, p: BlockPos)
    requires
        p.in_chunk(),
        c.block_at(p) != Block::Air,
        forall|q: BlockPos| q.in_chunk() && q != p ==> c.block_at(q) == Block::Air,
    ensures
        mesh(c@).len() == 12,
        forall|k: int| 0 <= k < 12 ==> (#[trigger] mesh(c@)[k]).pos == p,
        forall|f: Face| count_face(mesh(c@), f) == 2,
{
    c.lemma_len();
    let k = cell_index(p);
    assert(cell_pos(k) == p);
    assert forall|i: int| 0 <= i < 4096 && i != k implies c@[i] == Block::Air by {
        let q = cell_pos(i);
        assert(cell_index(q) == i);
        assert(q.in_chunk());
        assert(q != p);
        assert(c.block_at(q) == Block::Air);
    }
    lemma_mesh_upto_single(c@, k, 4096);
    let m = mesh(c@);
    assert(m == cell_faces(c@[k], p));
    assert forall|f: Face| count_face(m, f) == 2 by {
        reveal_with_fuel(count_face, 13);
        assert(m.drop_last().drop_last().drop_last().drop_last().drop_last().drop_last().drop_last(
        ).drop_last().drop_last().drop_last().drop_last().drop_last() =~= Seq::<FaceVertex>::empty());
    }
}

} // verus!
