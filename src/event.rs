//! What the player asks for, and how it changes the held keys and the world.

use vstd::prelude::*;
use crate::camera::{fly_of, move_of, turn_of, MoveState};
use crate::chunks::written;
use crate::block::Block;
use crate::game::{neighbour, normalize_fits, normalize_spec, GameState};
use crate::types::{HDirection, VDirection};

verus! {

/// An input of the player, as far as the world and the camera's keys care.
#[derive(Clone, Copy, Debug, PartialEq, Eq, Structural)]
pub enum Event {
    Turn { dir: HDirection, toogle: bool },
    Move { dir: HDirection, toogle: bool },
    Fly { dir: VDirection, toogle: bool },
    Jump,
    Sneak { toogle: bool },
    Attack,
    UseItem,
    Nothing,
}

/// Applies `ev`: a move, turn or fly key is held or released, an attack
/// removes the selected block, using an item places dirt next to it (where
/// the neighbouring chunk is representable); other events change nothing.
pub fn apply(ev: Event, moves: &mut MoveState, game: &mut GameState)
    requires
        old(game).wf(),
    ensures
        final(game).wf(),
        final(game).selection() == old(game).selection(),
        match ev {
            Event::Move { dir, toogle } => final(moves)@ == (if toogle {
                old(moves)@.insert(move_of(dir))
            } else {
                old(moves)@.remove(move_of(dir))
            }),
            Event::Turn { dir, toogle } => final(moves)@ == (if toogle {
                old(moves)@.insert(turn_of(dir))
            } else {
                old(moves)@.remove(turn_of(dir))
            }),
            Event::Fly { dir, toogle } => final(moves)@ == (if toogle {
                old(moves)@.insert(fly_of(dir))
            } else {
                old(moves)@.remove(fly_of(dir))
            }),
            _ => final(moves)@ == old(moves)@,
        },
        match (ev, old(game).selection()) {
            (Event::Attack, Some((c, b, _))) => written(
                &old(game).world(),
                &final(game).world(),
                c,
                b,
                Block::Air,
            ),
            (Event::UseItem, Some((c, b, f))) => if normalize_fits(c, neighbour(b, f)) {
                let (c2, b2) = normalize_spec(c, neighbour(b, f));
                written(&old(game).world(), &final(game).world(), c2, b2, Block::Dirt)
            } else {
                final(game).world() == old(game).world()
            },
            _ => final(game).world() == old(game).world(),
        },
{
    match ev {
        Event::Move { dir, toogle } => moves.mov(dir, toogle),
        Event::Turn { dir, toogle } => moves.turn(dir, toogle),
        Event::Fly { dir, toogle } => moves.fly(dir, toogle),
        Event::Attack => game.attack(),
        Event::UseItem => {
            if game.can_place() {
                game.place();
            }
        },
        _ => {},
    }
}

} // verus!
