//! The held-key state of the camera: which movements and turns are held,
//! kept in a bit set indexed by movement.

use bit_set::BitSet;
use vstd::prelude::*;
use crate::types::{HDirection, VDirection};

verus! {

/// The bits of the held keys, kept in a `bit_set::BitSet` that only the
/// functions below touch.
#[verifier::external_body]
pub struct HeldBits {
    bits: BitSet,
}

/// The numbers that a bit set holds.
pub uninterp spec fn bits_of(s: HeldBits) -> Set<usize>;

/// Relies on `bit_set::BitSet::new`: a new set holds nothing.
#[verifier::external_body]
fn bits_new() -> (r: HeldBits)
    ensures
        bits_of(r) == Set::<usize>::empty(),
{
    HeldBits { bits: BitSet::new() }
}

/// Relies on `bit_set::BitSet::insert`: the value is in the set afterwards,
/// the rest is kept. The set grows to hold `value + 1` bits.
#[verifier::external_body]
fn bits_insert(s: &mut HeldBits, value: usize)
    requires
        value < 64,
    ensures
        bits_of(*final(s)) == bits_of(*old(s)).insert(value),
{
    s.bits.insert(value);
}

/// Relies on `bit_set::BitSet::remove`: the value is not in the set
/// afterwards, the rest is kept.
#[verifier::external_body]
fn bits_remove(s: &mut HeldBits, value: usize)
    ensures
        bits_of(*final(s)) == bits_of(*old(s)).remove(value),
{
    s.bits.remove(value);
}

/// Relies on `bit_set::BitSet::contains`: whether the value is in the set.
#[verifier::external_body]
fn bits_contains(s: &HeldBits, value: usize) -> (r: bool)
    ensures
        r == bits_of(*s).contains(value),
{
    s.bits.contains(value)
}

/// A movement or turn that a held key asks for.
#[derive(Clone, Copy, Debug, PartialEq, Eq, Structural, Hash)]
pub enum Movements {
    Forth,
    Back,
    Up,
    Down,
    Left,
    Right,
    TurnUp,
    TurnDown,
    TurnLeft,
    TurnRight,
}

impl Movements {
    /// The bit that stands for the movement.
    pub open spec fn index_spec(self) -> usize {
        match self {
            Movements::Forth => 0,
            Movements::Back => 1,
            Movements::Up => 2,
            Movements::Down => 3,
            Movements::Left => 4,
            Movements::Right => 5,
            Movements::TurnUp => 6,
            Movements::TurnDown => 7,
            Movements::TurnLeft => 8,
            Movements::TurnRight => 9,
        }
    }

    #[verifier::when_used_as_spec(index_spec)]
    pub fn index(self) -> (r: usize)
        ensures
            r == self.index_spec(),
    {
        match self {
            Movements::Forth => 0,
            Movements::Back => 1,
            Movements::Up => 2,
            Movements::Down => 3,
            Movements::Left => 4,
            Movements::Right => 5,
            Movements::TurnUp => 6,
            Movements::TurnDown => 7,
            Movements::TurnLeft => 8,
            Movements::TurnRight => 9,
        }
    }

    /// The movements that translate the camera, in the order they apply.
    pub open spec fn moves_spec() -> Seq<Movements> {
        seq![
            Movements::Forth,
            Movements::Back,
            Movements::Up,
            Movements::Down,
            Movements::Left,
            Movements::Right,
        ]
    }

    /// The movements that turn the camera, in the order they apply.
    pub open spec fn turns_spec() -> Seq<Movements> {
        seq![Movements::TurnUp, Movements::TurnDown, Movements::TurnLeft, Movements::TurnRight]
    }

    pub fn moves() -> (r: Vec<Movements>)
        ensures
            r@ == Movements::moves_spec(),
    {
        vec![
            Movements::Forth,
            Movements::Back,
            Movements::Up,
            Movements::Down,
            Movements::Left,
            Movements::Right,
        ]
    }

    pub fn turns() -> (r: Vec<Movements>)
        ensures
            r@ == Movements::turns_spec(),
    {
        vec![Movements::TurnUp, Movements::TurnDown, Movements::TurnLeft, Movements::TurnRight]
    }

    /// The heading of a horizontal movement, in degrees clockwise from the
    /// direction the camera faces.
    pub open spec fn to_angle_spec(self) -> Option<u16> {
        match self {
            Movements::Forth => Some(0),
            Movements::Back => Some(180),
            Movements::Left => Some(270),
            Movements::Right => Some(90),
            _ => None,
        }
    }

    pub fn to_angle(self) -> (r: Option<u16>)
        ensures
            r == self.to_angle_spec(),
    {
        match self {
            Movements::Forth => Some(0),
            Movements::Back => Some(180),
            Movements::Left => Some(270),
            Movements::Right => Some(90),
            _ => None,
        }
    }
}

/// The movement that a horizontal move key asks for.
pub open spec fn move_of(dir: HDirection) -> Movements {
    match dir {
        HDirection::Forth => Movements::Forth,
        HDirection::Back => Movements::Back,
        HDirection::Left => Movements::Left,
        HDirection::Right => Movements::Right,
    }
}

/// The turn that a look key asks for.
pub open spec fn turn_of(dir: HDirection) -> Movements {
    match dir {
        HDirection::Forth => Movements::TurnUp,
        HDirection::Back => Movements::TurnDown,
        HDirection::Left => Movements::TurnLeft,
        HDirection::Right => Movements::TurnRight,
    }
}

/// The movement that a vertical move key asks for.
pub open spec fn fly_of(dir: VDirection) -> Movements {
    match dir {
        VDirection::Up => Movements::Up,
        VDirection::Down => Movements::Down,
    }
}

/// The movements of `s` that are held, in the order of `s`.
pub open spec fn held_in(s: Seq<Movements>, held: Set<Movements>) -> Seq<Movements>
    decreases s.len(),
{
    if s.len() == 0 {
        seq![]
    } else if held.contains(s.last()) {
        held_in(s.drop_last(), held).push(s.last())
    } else {
        held_in(s.drop_last(), held)
    }
}

/// One for a held movement, zero otherwise.
pub open spec fn held_count(held: Set<Movements>, m: Movements) -> int {
    if held.contains(m) {
        1
    } else {
        0
    }
}

/// The keys held down: a movement is held from the press of its key to the
/// release.
pub struct MoveState {
    state: HeldBits,
}

impl View for MoveState {
    type V = Set<Movements>;

    closed spec fn view(&self) -> Set<Movements> {
        Set::new(|m: Movements| bits_of(self.state).contains(m.index_spec()))
    }
}

impl MoveState {
    /// Nothing held.
    pub fn new() -> (r: MoveState)
        ensures
            r@ == Set::<Movements>::empty(),
    {
        let r = MoveState { state: bits_new() };
        assert(r@ =~= Set::<Movements>::empty());
        r
    }

    /// Whether `dir` is held.
    pub fn is_held(&self, dir: Movements) -> (r: bool)
        ensures
            r == self@.contains(dir),
    {
        bits_contains(&self.state, dir.index())
    }

    /// Marks `dir` as held when `toogle` is set, as released otherwise.
    pub fn set_dir(&mut self, dir: Movements, toogle: bool)
        ensures
            final(self)@ == if toogle {
                old(self)@.insert(dir)
            } else {
                old(self)@.remove(dir)
            },
    {
        let ghost before = self@;
        if toogle {
            bits_insert(&mut self.state, dir.index());
            assert(self@ =~= before.insert(dir));
        } else {
            bits_remove(&mut self.state, dir.index());
            assert(self@ =~= before.remove(dir));
        }
    }

    /// Holds or releases a horizontal movement.
    pub fn mov(&mut self, dir: HDirection, toogle: bool)
        ensures
            final(self)@ == if toogle {
                old(self)@.insert(move_of(dir))
            } else {
                old(self)@.remove(move_of(dir))
            },
    {
        let m = match dir {
            HDirection::Forth => Movements::Forth,
            HDirection::Back => Movements::Back,
            HDirection::Left => Movements::Left,
            HDirection::Right => Movements::Right,
        };
        self.set_dir(m, toogle);
    }

    /// Holds or releases a turn.
    pub fn turn(&mut self, dir: HDirection, toogle: bool)
        ensures
            final(self)@ == if toogle {
                old(self)@.insert(turn_of(dir))
            } else {
                old(self)@.remove(turn_of(dir))
            },
    {
        let m = match dir {
            HDirection::Forth => Movements::TurnUp,
            HDirection::Back => Movements::TurnDown,
            HDirection::Left => Movements::TurnLeft,
            HDirection::Right => Movements::TurnRight,
        };
        self.set_dir(m, toogle);
    }

    /// Holds or releases a vertical movement.
    pub fn fly(&mut self, dir: VDirection, toogle: bool)
        ensures
            final(self)@ == if toogle {
                old(self)@.insert(fly_of(dir))
            } else {
                old(self)@.remove(fly_of(dir))
            },
    {
        let m = match dir {
            VDirection::Up => Movements::Up,
            VDirection::Down => Movements::Down,
        };
        self.set_dir(m, toogle);
    }
    /// The translations to apply this frame: the held movements among
    /// `Movements::moves()`, in that order.
    pub fn held_moves(&self) -> (r: Vec<Movements>)
        ensures
            r@ == held_in(Movements::moves_spec(), self@),
    {
        let all = Movements::moves();
        let mut r: Vec<Movements> = Vec::new();
        let mut i: usize = 0;
        while i < all.len()
            invariant
                all@ == Movements::moves_spec(),
                i <= all@.len(),
                r@ == held_in(all@.take(i as int), self@),
            decreases all.len() - i,
        {
            assert(all@.take(i + 1).drop_last() =~= all@.take(i as int));
            if self.is_held(all[i]) {
                r.push(all[i]);
            }
            i += 1;
        }
        assert(all@.take(i as int) =~= all@);
        r
    }

    /// The turn to apply this frame, in fixed angular steps: to the right
    /// (yaw) and upwards (pitch), each held turn counting one step.
    pub fn turn_steps(&self) -> (r: (i8, i8))
        ensures
            r.0 == held_count(self@, Movements::TurnRight) - held_count(self@, Movements::TurnLeft),
            r.1 == held_count(self@, Movements::TurnUp) - held_count(self@, Movements::TurnDown),
    {
        let mut phi: i8 = 0;
        let mut theta: i8 = 0;
        if self.is_held(Movements::TurnUp) {
            theta = theta + 1;
        }
        if self.is_held(Movements::TurnDown) {
            theta = theta - 1;
        }
        if self.is_held(Movements::TurnLeft) {
            phi = phi - 1;
        }
        if self.is_held(Movements::TurnRight) {
            phi = phi + 1;
        }
        (phi, theta)
    }
}

} // verus!
