//! The view-distance mesh cache: which chunks round the camera have a
//! mesh, and which of them must be rebuilt.
//!
//! The cache keeps the set of chunks whose mesh is current; the meshes
//! themselves live with the caller, which rebuilds exactly those that
//! `update` reports and drops those no longer in view.

use std::collections::HashSet;
use vstd::prelude::*;
use crate::chunks::{around_fits, around_spec, Chunks};
use crate::game::GameState;
use crate::types::{lemma_key_injective, ChunkPos};

verus! {

/// The absolute positions of the neighbourhood of radius `dist` round
/// `center`.
pub open spec fn around_set(dist: u8, center: ChunkPos) -> Set<ChunkPos> {
    Set::new(
        |p: ChunkPos|
            exists|i: int|
                0 <= i < around_spec(dist, center).len() && (#[trigger] around_spec(dist, center)[i]).0
                    == p,
    )
}

/// Whether the mesh of the chunk at `p` must be built: it is not cached, or
/// the chunk changed since its mesh was built.
pub open spec fn needs_rebuild(cached: Set<ChunkPos>, world: Chunks, p: ChunkPos) -> bool {
    !cached.contains(p) || (world@.contains_key(p) && world@[p].is_dirty_spec())
}

/// The cache: the chunk it was last centred on, its radius in chunks, and
/// the chunks whose mesh is current.
#[derive(Debug)]
pub struct ChunkBuffer {
    center: ChunkPos,
    view_dist: u8,
    buffer: HashSet<u128>,
}

impl View for ChunkBuffer {
    type V = Set<ChunkPos>;

    closed spec fn view(&self) -> Set<ChunkPos> {
        Set::new(|p: ChunkPos| self.buffer@.contains(p.key_spec()))
    }
}

impl ChunkBuffer {
    pub closed spec fn center_spec(&self) -> ChunkPos {
        self.center
    }

    pub closed spec fn view_dist_spec(&self) -> u8 {
        self.view_dist
    }

    /// An empty cache of radius `view_dist`, centred on the origin.
    pub fn new(view_dist: u8) -> (r: ChunkBuffer)
        ensures
            r@ == Set::<ChunkPos>::empty(),
            r.view_dist_spec() == view_dist,
            r.center_spec() == (ChunkPos { x: 0, y: 0, z: 0 }),
    {
        let r = ChunkBuffer {
            center: ChunkPos::new(0, 0, 0),
            view_dist,
            buffer: HashSet::new(),
        };
        assert(r@ =~= Set::<ChunkPos>::empty());
        r
    }

    pub fn get_view_dist(&self) -> (r: u8)
        ensures
            r == self.view_dist_spec(),
    {
        self.view_dist
    }

    /// Sets the radius, two at least.
    pub fn set_view_dist(&mut self, view_dist: u8)
        ensures
            final(self).view_dist_spec() == if view_dist < 2 {
                2
            } else {
                view_dist
            },
            final(self)@ == old(self)@,
            final(self).center_spec() == old(self).center_spec(),
    {
        self.view_dist = if view_dist < 2 {
            2
        } else {
            view_dist
        };
    }

    /// Moves the cache to `center`. For each chunk of the neighbourhood, in
    /// the order of `Chunks::around`, reports its absolute position, its
    /// offset from `center`, and whether its mesh must be rebuilt. Afterwards
    /// the cache holds exactly the neighbourhood, and the chunks of the
    /// neighbourhood are no longer dirty.
    pub fn update(&mut self, game: &mut GameState, center: ChunkPos) -> (r: Vec<
        (ChunkPos, ChunkPos, bool),
    >)
        requires
            old(game).wf(),
            around_fits(old(self).view_dist_spec(), center),
        ensures
            final(game).wf(),
            final(game).selection() == old(game).selection(),
            final(game).world()@.dom() == old(game).world()@.dom(),
            forall|p: ChunkPos| #[trigger]
                old(game).world()@.contains_key(p) ==> final(game).world()@[p]@ == old(
                    game,
                ).world()@[p]@ && final(game).world()@[p].is_dirty_spec() == (old(
                    game,
                ).world()@[p].is_dirty_spec() && !around_set(
                    old(self).view_dist_spec(),
                    center,
                ).contains(p)),
            r@.len() == around_spec(old(self).view_dist_spec(), center).len(),
            forall|i: int|
                0 <= i < r@.len() ==> (#[trigger] r@[i]) == ({
                    let e = around_spec(old(self).view_dist_spec(), center)[i];
                    (e.0, e.1, needs_rebuild(old(self)@, old(game).world(), e.0))
                }),
            final(self)@ == around_set(old(self).view_dist_spec(), center),
            final(self).view_dist_spec() == old(self).view_dist_spec(),
            final(self).center_spec() == center,
    {
        let ghost d = self.view_dist;
        let ghost nbs = around_spec(d, center);
        let ghost world0 = game.world();
        let ghost cached0 = self@;
        let nb = Chunks::around(self.view_dist, center);
        let mut r: Vec<(ChunkPos, ChunkPos, bool)> = Vec::new();
        let mut i: usize = 0;
        while i < nb.len()
            invariant
                nb@ == nbs,
                i <= nb@.len(),
                game.wf(),
                game.world() == world0,
                self@ == cached0,
                r@.len() == i,
                forall|j: int|
                    0 <= j < i ==> (#[trigger] r@[j]) == (nbs[j].0, nbs[j].1, needs_rebuild(
                        cached0,
                        world0,
                        nbs[j].0,
                    )),
            decreases nb.len() - i,
        {
            let (abs, rel) = nb[i];
            let rebuild = !self.buffer.contains(&abs.key()) || game.chunk(abs).is_dirty();
            r.push((abs, rel, rebuild));
            i += 1;
        }
        let mut fresh: HashSet<u128> = HashSet::new();
        let mut i: usize = 0;
        while i < nb.len()
            invariant
                nb@ == nbs,
                i <= nb@.len(),
                game.wf(),
                game.selection() == old(game).selection(),
                game.world()@.dom() == world0@.dom(),
                forall|p: ChunkPos| #[trigger]
                    world0@.contains_key(p) ==> game.world()@[p]@ == world0@[p]@
                        && game.world()@[p].is_dirty_spec() == (world0@[p].is_dirty_spec()
                        && !(exists|j: int| 0 <= j < i && (#[trigger] nbs[j]).0 == p)),
                forall|k: u128|
                    fresh@.contains(k) <==> exists|j: int|
                        0 <= j < i && (#[trigger] nbs[j]).0.key_spec() == k,
            decreases nb.len() - i,
        {
            let (abs, _) = nb[i];
            game.clear_dirty(abs);
            fresh.insert(abs.key());
            proof {
                assert forall|p: ChunkPos| #[trigger]
                    world0@.contains_key(p) implies (exists|j: int|
                        0 <= j < i + 1 && (#[trigger] nbs[j]).0 == p) == ((exists|j: int|
                        0 <= j < i && (#[trigger] nbs[j]).0 == p) || p == abs) by {
                    if p == abs {
                        assert(nbs[i as int].0 == p);
                    }
                }
                assert forall|k: u128|
                    fresh@.contains(k) implies exists|j: int|
                        0 <= j < i + 1 && (#[trigger] nbs[j]).0.key_spec() == k by {
                    if k == abs.key_spec() {
                        assert(nbs[i as int].0.key_spec() == k);
                    }
                }
            }
            i += 1;
        }
        self.buffer = fresh;
        self.center = center;
        proof {
            assert forall|p: ChunkPos| #[trigger]
                self@.contains(p) == around_set(d, center).contains(p) by {
                if self@.contains(p) {
                    let j = choose|j: int| 0 <= j < nbs.len() && (#[trigger] nbs[j]).0.key_spec() == p.key_spec();
                    lemma_key_injective(nbs[j].0, p);
                }
                if around_set(d, center).contains(p) {
                    let j = choose|j: int| 0 <= j < nbs.len() && (#[trigger] nbs[j]).0 == p;
                    assert(nbs[j].0.key_spec() == p.key_spec());
                }
            }
            assert(self@ =~= around_set(d, center));
        }
        r
    }
}

/// A second update round the same centre rebuilds nothing: once the cache
/// holds the neighbourhood of `center` and no chunk there is dirty, which
/// is what `update` leaves behind, no chunk of the neighbourhood needs a
/// new mesh.
pub proof fn lemma_update_again_rebuilds_nothing(cache: ChunkBuffer, world: Chunks, center: ChunkPos)
    requires
        cache@ == around_set(cache.view_dist_spec(), center),
        forall|p: ChunkPos|
            around_set(cache.view_dist_spec(), center).contains(p) && world@.contains_key(p)
                ==> !world@[p].is_dirty_spec(),
    ensures
        forall|i: int|
            0 <= i < around_spec(cache.view_dist_spec(), center).len() ==> !needs_rebuild(
                cache@,
                world,
                (#[trigger] around_spec(cache.view_dist_spec(), center)[i]).0,
            ),
{
    let d = cache.view_dist_spec();
    assert forall|i: int| 0 <= i < around_spec(d, center).len() implies around_set(d, center).contains(
        (#[trigger] around_spec(d, center)[i]).0,
    ) by {}
}

} // verus!
