//! The turret unit's view of the protocol: it rotates on one axis only, so it
//! knows two directions, and reads bytes of the shared table.
use vstd::prelude::*;
use crate::axis::{AxisReading, axis_of, read_axis};
use crate::operator;
use crate::wire::{BYTE_LEFT, BYTE_NONE, BYTE_RIGHT, BYTE_SHOOT};

verus! {

/// A rotation direction of the turret.
#[derive(Clone, Copy, Debug, PartialEq, Eq, Structural)]
pub enum Direction {
    Left,
    Right,
}

/// A command as the turret understands it.
#[derive(Clone, Copy, Debug, PartialEq, Eq, Structural)]
pub enum Packet {
    Shoot,
    Move(Direction),
    NoOp,
}

/// The turret's direction for a pair of samples: X alone decides, Y is ignored.
pub open spec fn classify(x: u16, y: u16) -> Option<Direction> {
    match axis_of(x) {
        AxisReading::Low => Option::Some(Direction::Left),
        AxisReading::High => Option::Some(Direction::Right),
        AxisReading::Centered => Option::None,
    }
}

/// The byte that stands for each turret command.
pub open spec fn encode(p: Packet) -> u8 {
    match p {
        Packet::Shoot => BYTE_SHOOT,
        Packet::NoOp => BYTE_NONE,
        Packet::Move(Direction::Left) => BYTE_LEFT,
        Packet::Move(Direction::Right) => BYTE_RIGHT,
    }
}

/// The command a byte stands for at the turret, if any.
pub open spec fn decode(b: u8) -> Option<Packet> {
    if b == BYTE_SHOOT {
        Option::Some(Packet::Shoot)
    } else if b == BYTE_NONE {
        Option::Some(Packet::NoOp)
    } else if b == BYTE_LEFT {
        Option::Some(Packet::Move(Direction::Left))
    } else if b == BYTE_RIGHT {
        Option::Some(Packet::Move(Direction::Right))
    } else {
        Option::None
    }
}

impl Direction {
    /// Classifies the X sample against the dead zone; `y` plays no part.
    pub fn from_samples(x: u16, y: u16) -> (r: Option<Direction>)
        ensures
            r == classify(x, y),
    {
        match read_axis(x) {
            AxisReading::Low => Some(Direction::Left),
            AxisReading::High => Some(Direction::Right),
            AxisReading::Centered => None,
        }
    }
}

impl Packet {
    pub fn to_u8(&self) -> (r: u8)
        ensures
            r == encode(*self),
    {
        match self {
            Packet::Shoot => BYTE_SHOOT,
            Packet::NoOp => BYTE_NONE,
            Packet::Move(Direction::Left) => BYTE_LEFT,
            Packet::Move(Direction::Right) => BYTE_RIGHT,
        }
    }

    /// Reads one byte; `None` for a byte the turret does not recognise.
    pub fn from_u8(byte: u8) -> (r: Option<Packet>)
        ensures
            r == decode(byte),
    {
        if byte == BYTE_SHOOT {
            Some(Packet::Shoot)
        } else if byte == BYTE_NONE {
            Some(Packet::NoOp)
        } else if byte == BYTE_LEFT {
            Some(Packet::Move(Direction::Left))
        } else if byte == BYTE_RIGHT {
            Some(Packet::Move(Direction::Right))
        } else {
            None
        }
    }
}

/// The horizontal thresholds on the turret side: below 250 left, above 2500
/// right, and from 250 to 2500 inclusive no direction at all.
pub proof fn lemma_thresholds(x: u16, y: u16)
    ensures
        x < 250 ==> classify(x, y) == Option::Some(Direction::Left),
        x > 2500 ==> classify(x, y) == Option::Some(Direction::Right),
        250 <= x <= 2500 ==> classify(x, y) is None,
{
}

/// Decoding what the turret encodes gives back the same command.
pub proof fn lemma_round_trip(p: Packet)
    ensures
        decode(encode(p)) == Option::Some(p),
{
}

/// The turret's reading of an operator command: the same command where the
/// turret has one, and an unrecognised byte for a vertical or diagonal move.
pub open spec fn received(p: operator::Packet) -> Option<Packet> {
    match p {
        operator::Packet::Shoot => Option::Some(Packet::Shoot),
        operator::Packet::NoOp => Option::Some(Packet::NoOp),
        operator::Packet::Move(operator::Direction::Left) => Option::Some(
            Packet::Move(Direction::Left),
        ),
        operator::Packet::Move(operator::Direction::Right) => Option::Some(
            Packet::Move(Direction::Right),
        ),
        _ => Option::None,
    }
}

/// Both ends read the one byte table alike: what the operator sends is
/// decoded by the turret as the matching command.
pub proof fn lemma_link_agrees(p: operator::Packet)
    ensures
        decode(operator::encode(p)) == received(p),
{
}

} // verus!
