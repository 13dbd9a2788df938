//! The turret's rotation set-point, kept within a closed range.
use vstd::prelude::*;
use crate::turret::Direction;

verus! {

/// Lowest set-point of the rotation actuator.
pub const MIN_POS: u16 = 625;

/// Highest set-point of the rotation actuator.
pub const MAX_POS: u16 = 3125;

/// Change of the set-point for one move command.
pub const STEP: u16 = 125;

/// Set-point at power-on: the middle of the travel.
pub const CENTER_POS: u16 = 1875;

/// The set-point after one move: left adds a step, right takes one away, and a
/// move that would leave `[MIN_POS, MAX_POS]` is dropped.
pub open spec fn moved(p: int, d: Direction) -> int {
    match d {
        Direction::Left => if p + STEP <= MAX_POS {
            p + STEP
        } else {
            p
        },
        Direction::Right => if p - STEP >= MIN_POS {
            p - STEP
        } else {
            p
        },
    }
}

/// The set-point after a sequence of moves, taken in order.
pub open spec fn moved_all(p: int, ds: Seq<Direction>) -> int
    decreases ds.len(),
{
    if ds.len() == 0 {
        p
    } else {
        moved_all(moved(p, ds[0]), ds.drop_first())
    }
}

/// A rotation set-point; it never leaves `[MIN_POS, MAX_POS]`.
#[derive(Clone, Copy, Debug, PartialEq, Eq, Structural)]
pub struct RotationPosition {
    value: u16,
}

impl View for RotationPosition {
    type V = int;

    closed spec fn view(&self) -> int {
        self.value as int
    }
}

impl RotationPosition {
    #[verifier::type_invariant]
    closed spec fn in_range(self) -> bool {
        MIN_POS <= self.value <= MAX_POS
    }

    /// The power-on set-point.
    pub fn new() -> (r: RotationPosition)
        ensures
            r@ == CENTER_POS,
    {
        RotationPosition { value: CENTER_POS }
    }

    /// A set-point of the given value, if it lies within the range.
    pub fn try_new(value: u16) -> (r: Option<RotationPosition>)
        ensures
            r is Some <==> MIN_POS <= value <= MAX_POS,
            r matches Option::Some(p) ==> p@ == value,
    {
        if MIN_POS <= value && value <= MAX_POS {
            Some(RotationPosition { value })
        } else {
            None
        }
    }

    pub fn value(&self) -> (r: u16)
        ensures
            r == self@,
            MIN_POS <= r <= MAX_POS,
    {
        proof {
            use_type_invariant(self);
        }
        self.value
    }

    /// Applies one move; returns whether the set-point changed, that is whether
    /// the actuator needs a new value.
    pub fn apply(&mut self, d: Direction) -> (changed: bool)
        ensures
            final(self)@ == moved(old(self)@, d),
            changed == (final(self)@ != old(self)@),
    {
        proof {
            use_type_invariant(&*self);
        }
        match d {
            Direction::Left => {
                if self.value + STEP <= MAX_POS {
                    self.value = self.value + STEP;
                    true
                } else {
                    false
                }
            },
            Direction::Right => {
                if self.value - STEP >= MIN_POS {
                    self.value = self.value - STEP;
                    true
                } else {
                    false
                }
            },
        }
    }
}

/// One move keeps a set-point within range, and a move that would cross a
/// bound leaves it where it was.
pub proof fn lemma_move_stays_in_range(p: int, d: Direction)
    requires
        MIN_POS <= p <= MAX_POS,
    ensures
        MIN_POS <= moved(p, d) <= MAX_POS,
        d == Direction::Left && p + STEP > MAX_POS ==> moved(p, d) == p,
        d == Direction::Right && p - STEP < MIN_POS ==> moved(p, d) == p,
{
}

/// No sequence of moves takes a set-point out of `[MIN_POS, MAX_POS]`.
pub proof fn lemma_moves_stay_in_range(p: int, ds: Seq<Direction>)
    requires
        MIN_POS <= p <= MAX_POS,
    ensures
        MIN_POS <= moved_all(p, ds) <= MAX_POS,
    decreases ds.len(),
{
    if ds.len() > 0 {
        lemma_move_stays_in_range(p, ds[0]);
        lemma_moves_stay_in_range(moved(p, ds[0]), ds.drop_first());
    }
}

} // verus!
