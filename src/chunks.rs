//! The sparse world: chunks by position, created on first write.

use std::collections::HashMap;
use vstd::arithmetic::div_mod::{
    lemma_div_denominator, lemma_fundamental_div_mod_converse, lemma_multiply_divide_lt,
};
use vstd::prelude::*;
use crate::block::Block;
use crate::chunk::{cell_index, Chunk};
use crate::types::{lemma_key_injective, BlockPos, ChunkPos};

verus! {

/// The cells of a chunk that holds only air.
pub open spec fn air_cells() -> Seq<Block> {
    Seq::new(4096, |i: int| Block::Air)
}

/// The chunk that `chunk` becomes when the block in `cell` is set to `block`.
pub open spec fn cells_with(chunk: Seq<Block>, cell: BlockPos, block: Block) -> Seq<Block> {
    chunk.update(cell_index(cell), block)
}

/// `after` is `before` with `block` written into cell `cell` of the chunk at
/// `pos`, which is created as air where it was missing and marked dirty.
pub open spec fn written(before: &Chunks, after: &Chunks, pos: ChunkPos, cell: BlockPos, block: Block) -> bool {
    &&& after@.dom() == before@.dom().insert(pos)
    &&& forall|p: ChunkPos| p != pos && before@.contains_key(p) ==> after@[p] == before@[p]
    &&& after@[pos]@ == cells_with(
        if before@.contains_key(pos) {
            before@[pos]@
        } else {
            air_cells()
        },
        cell,
        block,
    )
    &&& after@[pos].is_dirty_spec()
    &&& after.len_spec() == before.len_spec() + if before@.contains_key(pos) {
        0nat
    } else {
        1nat
    }
}

/// Number of chunks along each axis of the neighbourhood of radius `dist`.
pub open spec fn side(dist: u8) -> int {
    if dist == 0 {
        0
    } else {
        2 * dist - 1
    }
}

/// The offset of the `i`-th chunk of the neighbourhood of radius `dist`:
/// offsets run from `-(dist - 1)` to `dist - 1` on each axis, x-major,
/// then y, then z.
pub open spec fn around_offset(dist: u8, i: int) -> ChunkPos {
    let n = side(dist);
    let m = dist - 1;
    ChunkPos { x: (i / (n * n) - m) as i32, y: ((i / n) % n - m) as i32, z: (i % n - m) as i32 }
}

/// `c` moved by `o`.
pub open spec fn shifted(c: ChunkPos, o: ChunkPos) -> ChunkPos {
    ChunkPos { x: (c.x + o.x) as i32, y: (c.y + o.y) as i32, z: (c.z + o.z) as i32 }
}

/// Every chunk of the neighbourhood of radius `dist` round `center` has
/// coordinates that an `i32` holds.
pub open spec fn around_fits(dist: u8, center: ChunkPos) -> bool {
    &&& center.x - (dist - 1) >= i32::MIN && center.x + (dist - 1) <= i32::MAX
    &&& center.y - (dist - 1) >= i32::MIN && center.y + (dist - 1) <= i32::MAX
    &&& center.z - (dist - 1) >= i32::MIN && center.z + (dist - 1) <= i32::MAX
}

/// The neighbourhood of radius `dist` round `center`, as pairs of absolute
/// position and offset from `center`.
pub open spec fn around_spec(dist: u8, center: ChunkPos) -> Seq<(ChunkPos, ChunkPos)> {
    let n = side(dist);
    Seq::new(
        (n * n * n) as nat,
        |i: int| (shifted(center, around_offset(dist, i)), around_offset(dist, i)),
    )
}

/// The store of chunks: those written so far, by position, and one chunk
/// of air that stands for every other position.
#[derive(Debug)]
pub struct Chunks {
    chunks: HashMap<u128, Chunk>,
    empty: Chunk,
}

impl View for Chunks {
    type V = Map<ChunkPos, Chunk>;

    closed spec fn view(&self) -> Map<ChunkPos, Chunk> {
        Map::new(
            |p: ChunkPos| self.chunks@.contains_key(p.key_spec()),
            |p: ChunkPos| self.chunks@[p.key_spec()],
        )
    }
}

impl Chunks {
    /// The chunk that stands for unwritten positions holds only air.
    pub closed spec fn wf(&self) -> bool {
        &&& self.empty@ == air_cells()
        &&& !self.empty.is_dirty_spec()
    }

    /// Number of chunks stored.
    pub closed spec fn len_spec(&self) -> nat {
        self.chunks@.len()
    }

    /// An empty store.
    pub fn new() -> (r: Chunks)
        ensures
            r.wf(),
            r@ == Map::<ChunkPos, Chunk>::empty(),
            r.len_spec() == 0,
    {
        let r = Chunks { chunks: HashMap::new(), empty: Chunk::new() };
        assert(r@ =~= Map::<ChunkPos, Chunk>::empty());
        r
    }

    pub fn len(&self) -> (r: usize)
        ensures
            r == self.len_spec(),
    {
        self.chunks.len()
    }

    pub fn contains(&self, pos: ChunkPos) -> (r: bool)
        ensures
            r == self@.contains_key(pos),
    {
        self.chunks.contains_key(&pos.key())
    }

    /// The chunk at `pos`, or a chunk of air where none was written; the
    /// store is left as it was.
    pub fn get(&self, pos: ChunkPos) -> (r: &Chunk)
        requires
            self.wf(),
        ensures
            self@.contains_key(pos) ==> *r == self@[pos],
            !self@.contains_key(pos) ==> r@ == air_cells() && !r.is_dirty_spec(),
    {
        match self.chunks.get(&pos.key()) {
            Some(c) => c,
            None => &self.empty,
        }
    }
    /// Mutable access to the chunk at `pos`; a chunk of air is stored there
    /// first where none was.
    pub fn get_mut(&mut self, pos: ChunkPos) -> (r: &mut Chunk)
        requires
            old(self).wf(),
        ensures
            final(self).wf(),
            old(self)@.contains_key(pos) ==> *r == old(self)@[pos],
            !old(self)@.contains_key(pos) ==> r@ == air_cells() && !r.is_dirty_spec(),
            final(self)@ == old(self)@.insert(pos, *final(r)),
            final(self).len_spec() == old(self).len_spec() + if old(self)@.contains_key(pos) {
                0nat
            } else {
                1nat
            },
    {
        let fresh = Chunk::new();
        let ghost before = self.chunks@;
        let r = self.chunks.entry(pos.key()).or_insert(fresh);
        proof {
            assert forall|p: ChunkPos| #[trigger] before.contains_key(p.key_spec()) && p != pos
                implies p.key_spec() != pos.key_spec() by {
                if p.key_spec() == pos.key_spec() {
                    lemma_key_injective(p, pos);
                }
            }
        }
        r
    }
    /// Writes `block` into cell `cell` of the chunk at `pos`, storing a chunk
    /// of air there first where none was; the chunk is marked dirty.
    pub fn set_block(&mut self, pos: ChunkPos, cell: BlockPos, block: Block)
        requires
            old(self).wf(),
            cell.in_chunk(),
        ensures
            final(self).wf(),
            written(&*old(self), &*final(self), pos, cell, block),
    {
        *self.get_mut(pos).get_mut(cell) = block;
    }

    /// Clears the dirty flag of the chunk at `pos`, if one is stored there.
    pub fn clear_dirty(&mut self, pos: ChunkPos)
        requires
            old(self).wf(),
        ensures
            final(self).wf(),
            final(self)@.dom() == old(self)@.dom(),
            forall|p: ChunkPos| p != pos && old(self)@.contains_key(p) ==> final(self)@[p] == old(
                self,
            )@[p],
            old(self)@.contains_key(pos) ==> final(self)@[pos]@ == old(self)@[pos]@
                && !final(self)@[pos].is_dirty_spec(),
            final(self).len_spec() == old(self).len_spec(),
    {
        if self.contains(pos) {
            self.get_mut(pos).clear_dirty();
        }
    }

    /// The neighbourhood of radius `dist` round `center`: for every offset
    /// whose components all lie strictly between `-dist` and `dist`, the
    /// chunk `center + offset` and the offset, x-major, then y, then z.
    pub fn around(dist: u8, center: ChunkPos) -> (r: Vec<(ChunkPos, ChunkPos)>)
        requires
            around_fits(dist, center),
        ensures
            r@ == around_spec(dist, center),
    {
        let mut res: Vec<(ChunkPos, ChunkPos)> = Vec::new();
        if dist == 0 {
            assert(res@ =~= around_spec(dist, center));
            return res;
        }
        let n: u32 = 2 * dist as u32 - 1;
        let m: i64 = dist as i64 - 1;
        assert(n * n <= 509 * 509) by (nonlinear_arith)
            requires 1 <= n <= 509;
        assert(n * n * n <= 509 * 509 * 509) by (nonlinear_arith)
            requires 1 <= n <= 509, n * n <= 509 * 509;
        let total: u32 = n * n * n;
        let mut i: u32 = 0;
        while i < total
            invariant
                n == side(dist),
                m == dist - 1,
                1 <= n <= 509,
                total == n * n * n,
                i <= total,
                around_fits(dist, center),
                res@ == around_spec(dist, center).take(i as int),
            decreases total - i,
        {
            let ghost o = around_offset(dist, i as int);
            proof {
                let (ii, nn) = (i as int, n as int);
                assert(nn * nn <= 509 * 509 && nn * nn * nn == total) by (nonlinear_arith)
                    requires 1 <= nn <= 509, total == nn * nn * nn;
                assert(0 <= ii / (nn * nn) < nn) by (nonlinear_arith)
                    requires 0 <= ii < nn * nn * nn, nn >= 1;
            }
            let off = ChunkPos::new(
                ((i / (n * n)) as i64 - m) as i32,
                (((i / n) % n) as i64 - m) as i32,
                ((i % n) as i64 - m) as i32,
            );
            assert(off == o);
            let abs = ChunkPos::new(center.x + off.x, center.y + off.y, center.z + off.z);
            res.push((abs, off));
            assert(res@ =~= around_spec(dist, center).take(i + 1));
            i += 1;
        }
        assert(res@ =~= around_spec(dist, center));
        res
    }
}

/// Writing into the chunk at a position that held none stores exactly one
/// new chunk; afterwards the chunk at that position holds the block written.
pub proof fn lemma_write_then_read(
    before: Chunks,
    after: Chunks,
    pos: ChunkPos,
    cell: BlockPos,
    block: Block,
)
    requires
        written(&before, &after, pos, cell, block),
        cell.in_chunk(),
    ensures
        after@.contains_key(pos),
        after@[pos].block_at(cell) == block,
        !before@.contains_key(pos) ==> after.len_spec() == before.len_spec() + 1,
{
    let idx = cell_index(cell);
    assert(0 <= idx < 4096);
    if before@.contains_key(pos) {
        before@[pos].lemma_len();
    }
}

/// Whether every component of `o` lies strictly between `-dist` and `dist`.
pub open spec fn within(dist: u8, o: ChunkPos) -> bool {
    -dist < o.x < dist && -dist < o.y < dist && -dist < o.z < dist
}

/// The neighbourhood of radius `dist` is the cube of offsets whose
/// components lie strictly between `-dist` and `dist`: each entry pairs
/// such an offset with `center` moved by it, and each such offset has an
/// entry.
pub proof fn lemma_around_is_cube(dist: u8, center: ChunkPos)
    ensures
        forall|i: int|
            0 <= i < around_spec(dist, center).len() ==> within(
                dist,
                (#[trigger] around_spec(dist, center)[i]).1,
            ) && around_spec(dist, center)[i].0 == shifted(center, around_spec(dist, center)[i].1),
        forall|o: ChunkPos|
            within(dist, o) ==> exists|i: int|
                0 <= i < around_spec(dist, center).len() && (#[trigger] around_spec(
                    dist,
                    center,
                )[i]).1 == o,
{
    let n = side(dist);
    let m = dist - 1;
    let s = around_spec(dist, center);
    assert forall|i: int| 0 <= i < s.len() implies within(dist, (#[trigger] s[i]).1) by {
        assert(n >= 1);
        assert(0 <= i < n * n * n);
        assert(n * n > 0) by (nonlinear_arith)
            requires n >= 1;
        assert(n * n * n == (n * n) * n) by (nonlinear_arith);
        lemma_multiply_divide_lt(i, n * n, n);
        assert(0 <= i / (n * n)) by (nonlinear_arith)
            requires 0 <= i, n * n > 0;
        assert(0 <= i / n) by (nonlinear_arith)
            requires 0 <= i, n > 0;
        assert(0 <= (i / n) % n < n) by (nonlinear_arith)
            requires 0 <= i / n, n > 0;
        assert(0 <= i % n < n) by (nonlinear_arith)
            requires 0 <= i, n > 0;
    }
    assert forall|o: ChunkPos| within(dist, o) implies exists|i: int|
        0 <= i < s.len() && (#[trigger] s[i]).1 == o by {
        let (a, b, c) = (o.x + m, o.y + m, o.z + m);
        assert(0 <= a < n && 0 <= b < n && 0 <= c < n);
        let h = a * n + b;
        let i = h * n + c;
        assert(0 <= h < n * n) by (nonlinear_arith)
            requires 0 <= a < n, 0 <= b < n, h == a * n + b;
        assert(0 <= i < n * n * n) by (nonlinear_arith)
            requires 0 <= h < n * n, 0 <= c < n, i == h * n + c;
        lemma_fundamental_div_mod_converse(i, n, h, c);
        lemma_fundamental_div_mod_converse(h, n, a, b);
        lemma_div_denominator(i, n, n);
        assert(s[i].1 == o);
    }
}

} // verus!
