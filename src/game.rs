//! The edited world: the chunk store, the selected block, and the edits.

use vstd::prelude::*;
use crate::block::Block;
use crate::chunk::Chunk;
use crate::chunks::{air_cells, written, Chunks};
use crate::types::{BlockPos, ChunkPos, Face, LocalPos};

verus! {

/// A block the player aims at: its chunk, its cell, and the face hit.
pub type Selection = (ChunkPos, BlockPos, Face);

/// The chunk and in-chunk cell of the cell `local`, given relative to the
/// origin of chunk `chunk`.
pub open spec fn normalize_spec(chunk: ChunkPos, local: LocalPos) -> (ChunkPos, BlockPos) {
    (
        ChunkPos {
            x: (chunk.x + local.x / 16) as i32,
            y: (chunk.y + local.y / 16) as i32,
            z: (chunk.z + local.z / 16) as i32,
        },
        BlockPos { x: (local.x % 16) as u8, y: (local.y % 16) as u8, z: (local.z % 16) as u8 },
    )
}

/// The chunk that holds the cell `local` of chunk `chunk` has coordinates
/// that an `i32` holds.
pub open spec fn normalize_fits(chunk: ChunkPos, local: LocalPos) -> bool {
    &&& i32::MIN <= chunk.x + local.x / 16 <= i32::MAX
    &&& i32::MIN <= chunk.y + local.y / 16 <= i32::MAX
    &&& i32::MIN <= chunk.z + local.z / 16 <= i32::MAX
}

/// The cell next to `cell` across face `face`, relative to the same chunk.
pub open spec fn neighbour(cell: BlockPos, face: Face) -> LocalPos {
    LocalPos {
        x: (cell.x + face.to_vec_spec().x) as i8,
        y: (cell.y + face.to_vec_spec().y) as i8,
        z: (cell.z + face.to_vec_spec().z) as i8,
    }
}

/// Whether the world is generated with a chunk of dirt at `p`.
pub open spec fn in_start_area(p: ChunkPos) -> bool {
    -10 <= p.x < 10 && p.y == 0 && -10 <= p.z < 10
}

/// Moves one axis of a position into `0..16`, carrying into the chunk
/// coordinate.
fn normalize_axis(chunk: i32, local: i8) -> (r: (i32, u8))
    requires
        i32::MIN <= chunk + local / 16 <= i32::MAX,
    ensures
        r.0 == chunk + local / 16,
        r.1 == local % 16,
        r.1 < 16,
        r.0 * 16 + r.1 == chunk * 16 + local,
{
    let mut c: i32 = chunk;
    let mut b: i8 = local;
    while b < 0
        invariant
            c * 16 + b == chunk * 16 + local,
            local < 0 ==> c >= chunk + local / 16 && b < 16,
            local >= 0 ==> c == chunk && b == local,
            i32::MIN <= chunk + local / 16 <= i32::MAX,
        decreases 16 - b as int,
    {
        b = b + 16;
        c = c - 1;
    }
    while b >= 16
        invariant
            c * 16 + b == chunk * 16 + local,
            c <= chunk + local / 16,
            b >= 0,
            i32::MIN <= chunk + local / 16 <= i32::MAX,
        decreases b,
    {
        b = b - 16;
        c = c + 1;
    }
    (c, b as u8)
}

/// The world together with the block the player aims at.
pub struct GameState {
    chunks: Chunks,
    selected_block: Option<Selection>,
}

impl GameState {
    /// The chunk store.
    pub closed spec fn world(&self) -> Chunks {
        self.chunks
    }

    /// The block the player aims at.
    pub closed spec fn selection(&self) -> Option<Selection> {
        self.selected_block
    }

    /// The store is well formed and a selected cell lies in its chunk.
    pub open spec fn wf(&self) -> bool {
        &&& self.world().wf()
        &&& self.selection() matches Some(s) ==> s.1.in_chunk()
    }

    /// A world of 20 x 20 chunks of dirt on the layer `y == 0`, with nothing
    /// selected.
    pub fn new() -> (r: GameState)
        ensures
            r.wf(),
            r.selection() is None,
            forall|p: ChunkPos| r.world()@.contains_key(p) <==> in_start_area(p),
            forall|p: ChunkPos|
                in_start_area(p) ==> r.world()@[p]@ == Seq::new(4096, |i: int| Block::Dirt)
                    && !r.world()@[p].is_dirty_spec(),
    {
        let mut chunks = Chunks::new();
        let mut x: i32 = -10;
        while x < 10
            invariant
                -10 <= x <= 10,
                chunks.wf(),
                forall|p: ChunkPos|
                    chunks@.contains_key(p) <==> (in_start_area(p) && p.x < x),
                forall|p: ChunkPos|
                    #[trigger] chunks@.contains_key(p) ==> chunks@[p]@ == Seq::new(
                        4096,
                        |i: int| Block::Dirt,
                    ) && !chunks@[p].is_dirty_spec(),
            decreases 10 - x,
        {
            let mut z: i32 = -10;
            while z < 10
                invariant
                    -10 <= x < 10,
                    -10 <= z <= 10,
                    chunks.wf(),
                    forall|p: ChunkPos|
                        chunks@.contains_key(p) <==> (in_start_area(p) && (p.x < x || (p.x == x
                            && p.z < z))),
                    forall|p: ChunkPos|
                        #[trigger] chunks@.contains_key(p) ==> chunks@[p]@ == Seq::new(
                            4096,
                            |i: int| Block::Dirt,
                        ) && !chunks@[p].is_dirty_spec(),
                decreases 10 - z,
            {
                *chunks.get_mut(ChunkPos::new(x, 0, z)) = Chunk::new_with(Block::Dirt);
                z += 1;
            }
            x += 1;
        }
        GameState { chunks, selected_block: None }
    }

    /// The chunk and in-chunk cell of the cell `block`, given relative to the
    /// origin of chunk `chunk`: whole multiples of 16 move from the cell into
    /// the chunk coordinate, so that the absolute position is kept.
    pub fn normalize(chunk: ChunkPos, block: LocalPos) -> (r: (ChunkPos, BlockPos))
        requires
            normalize_fits(chunk, block),
        ensures
            r == normalize_spec(chunk, block),
            r.1.in_chunk(),
            r.0.x * 16 + r.1.x == chunk.x * 16 + block.x,
            r.0.y * 16 + r.1.y == chunk.y * 16 + block.y,
            r.0.z * 16 + r.1.z == chunk.z * 16 + block.z,
    {
        let (cx, bx) = normalize_axis(chunk.x, block.x);
        let (cy, by) = normalize_axis(chunk.y, block.y);
        let (cz, bz) = normalize_axis(chunk.z, block.z);
        (ChunkPos::new(cx, cy, cz), BlockPos::new(bx, by, bz))
    }

    pub fn set_selected_block(&mut self, block: Option<Selection>)
        requires
            old(self).wf(),
            block matches Some(s) ==> s.1.in_chunk(),
        ensures
            final(self).wf(),
            final(self).selection() == block,
            final(self).world() == old(self).world(),
    {
        self.selected_block = block;
    }

    pub fn get_selected_block(&self) -> (r: Option<Selection>)
        ensures
            r == self.selection(),
    {
        self.selected_block
    }

    /// Removes the selected block, leaving air; does nothing when nothing is
    /// selected.
    pub fn attack(&mut self)
        requires
            old(self).wf(),
        ensures
            final(self).wf(),
            final(self).selection() == old(self).selection(),
            match old(self).selection() {
                Some((c, b, _)) => written(&old(self).world(), &final(self).world(), c, b, Block::Air),
                None => final(self).world() == old(self).world(),
            },
    {
        if let Some((c, b, _)) = self.selected_block {
            self.chunks.set_block(c, b, Block::Air);
        }
    }

    /// Places dirt in the cell next to the selected block, across the face
    /// that was hit, moving into the neighbouring chunk where that cell lies
    /// outside the selected block's chunk; does nothing when nothing is
    /// selected.
    pub fn place(&mut self)
        requires
            old(self).wf(),
            old(self).selection() matches Some((c, b, f)) ==> normalize_fits(c, neighbour(b, f)),
        ensures
            final(self).wf(),
            final(self).selection() == old(self).selection(),
            match old(self).selection() {
                Some((c, b, f)) => {
                    let (c2, b2) = normalize_spec(c, neighbour(b, f));
                    written(&old(self).world(), &final(self).world(), c2, b2, Block::Dirt)
                },
                None => final(self).world() == old(self).world(),
            },
    {
        if let Some((c, b, f)) = self.selected_block {
            let v = f.to_vec();
            let local = LocalPos::new(b.x as i8 + v.x, b.y as i8 + v.y, b.z as i8 + v.z);
            let (c2, b2) = GameState::normalize(c, local);
            self.chunks.set_block(c2, b2, Block::Dirt);
        }
    }

    /// A copy of the chunk at `pos`, or a chunk of air where none was written.
    pub fn chunk(&self, pos: ChunkPos) -> (r: Chunk)
        requires
            self.wf(),
        ensures
            self.world()@.contains_key(pos) ==> r == self.world()@[pos],
            !self.world()@.contains_key(pos) ==> r@ == air_cells() && !r.is_dirty_spec(),
    {
        *self.chunks.get(pos)
    }

    /// Clears the dirty flag of the chunk at `pos`, if one is stored there.
    pub fn clear_dirty(&mut self, pos: ChunkPos)
        requires
            old(self).wf(),
        ensures
            final(self).wf(),
            final(self).selection() == old(self).selection(),
            final(self).world()@.dom() == old(self).world()@.dom(),
            forall|p: ChunkPos|
                p != pos && old(self).world()@.contains_key(p) ==> final(self).world()@[p] == old(
                    self,
                ).world()@[p],
            old(self).world()@.contains_key(pos) ==> final(self).world()@[pos]@ == old(
                self,
            ).world()@[pos]@ && !final(self).world()@[pos].is_dirty_spec(),
    {
        self.chunks.clear_dirty(pos);
    }
    /// Whether `place` may be called: the cell next to the selection lies in
    /// a chunk whose coordinates an `i32` holds.
    pub fn can_place(&self) -> (r: bool)
        requires
            self.wf(),
        ensures
            r == (self.selection() matches Some((c, b, f)) ==> normalize_fits(c, neighbour(b, f))),
    {
        match self.selected_block {
            None => true,
            Some((c, b, f)) => {
                let v = f.to_vec();
                let x = b.x as i8 + v.x;
                let y = b.y as i8 + v.y;
                let z = b.z as i8 + v.z;
                let fits_x = if x < 0 { c.x > i32::MIN } else if x >= 16 { c.x < i32::MAX } else { true };
                let fits_y = if y < 0 { c.y > i32::MIN } else if y >= 16 { c.y < i32::MAX } else { true };
                let fits_z = if z < 0 { c.z > i32::MIN } else if z >= 16 { c.z < i32::MAX } else { true };
                fits_x && fits_y && fits_z
            },
        }
    }
}

} // verus!
