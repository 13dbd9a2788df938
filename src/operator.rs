//! The operator unit's view of the protocol: eight directions, and the
//! command chosen from one sample of the joystick and the trigger.
use vstd::prelude::*;
use crate::axis::{AxisReading, axis_of, read_axis};
use crate::wire::{
    BYTE_DOWN, BYTE_DOWN_LEFT, BYTE_DOWN_RIGHT, BYTE_LEFT, BYTE_NONE, BYTE_RIGHT, BYTE_SHOOT,
    BYTE_UP, BYTE_UP_LEFT, BYTE_UP_RIGHT,
};

verus! {

/// A joystick direction: four cardinal and four diagonal values.
#[derive(Clone, Copy, Debug, PartialEq, Eq, Structural)]
pub enum Direction {
    Up,
    Down,
    Left,
    Right,
    UpLeft,
    UpRight,
    DownLeft,
    DownRight,
}

/// A command of the operator unit.
#[derive(Clone, Copy, Debug, PartialEq, Eq, Structural)]
pub enum Packet {
    Shoot,
    Move(Direction),
    NoOp,
}

/// Combines the two axis readings: X gives left or right, Y gives down or up.
pub open spec fn combine(h: AxisReading, v: AxisReading) -> Option<Direction> {
    match (h, v) {
        (AxisReading::Centered, AxisReading::Centered) => Option::None,
        (AxisReading::Low, AxisReading::Centered) => Option::Some(Direction::Left),
        (AxisReading::High, AxisReading::Centered) => Option::Some(Direction::Right),
        (AxisReading::Centered, AxisReading::Low) => Option::Some(Direction::Down),
        (AxisReading::Centered, AxisReading::High) => Option::Some(Direction::Up),
        (AxisReading::Low, AxisReading::Low) => Option::Some(Direction::DownLeft),
        (AxisReading::High, AxisReading::Low) => Option::Some(Direction::DownRight),
        (AxisReading::Low, AxisReading::High) => Option::Some(Direction::UpLeft),
        (AxisReading::High, AxisReading::High) => Option::Some(Direction::UpRight),
    }
}

/// The direction of a pair of samples, each axis classified on its own.
pub open spec fn classify(x: u16, y: u16) -> Option<Direction> {
    combine(axis_of(x), axis_of(y))
}

impl Direction {
    /// The horizontal component: `Low` for the left-ish values, `High` for the right-ish ones.
    pub open spec fn horizontal(self) -> AxisReading {
        match self {
            Direction::Left | Direction::UpLeft | Direction::DownLeft => AxisReading::Low,
            Direction::Right | Direction::UpRight | Direction::DownRight => AxisReading::High,
            Direction::Up | Direction::Down => AxisReading::Centered,
        }
    }

    /// The vertical component: `Low` for the down-ish values, `High` for the up-ish ones.
    pub open spec fn vertical(self) -> AxisReading {
        match self {
            Direction::Down | Direction::DownLeft | Direction::DownRight => AxisReading::Low,
            Direction::Up | Direction::UpLeft | Direction::UpRight => AxisReading::High,
            Direction::Left | Direction::Right => AxisReading::Centered,
        }
    }

    pub open spec fn is_diagonal(self) -> bool {
        self.horizontal() != AxisReading::Centered && self.vertical() != AxisReading::Centered
    }

    /// Classifies a pair of joystick samples; `None` when both axes are in the dead zone.
    pub fn from_samples(x: u16, y: u16) -> (r: Option<Direction>)
        ensures
            r == classify(x, y),
    {
        let h = read_axis(x);
        let v = read_axis(y);
        match (h, v) {
            (AxisReading::Centered, AxisReading::Centered) => None,
            (AxisReading::Low, AxisReading::Centered) => Some(Direction::Left),
            (AxisReading::High, AxisReading::Centered) => Some(Direction::Right),
            (AxisReading::Centered, AxisReading::Low) => Some(Direction::Down),
            (AxisReading::Centered, AxisReading::High) => Some(Direction::Up),
            (AxisReading::Low, AxisReading::Low) => Some(Direction::DownLeft),
            (AxisReading::High, AxisReading::Low) => Some(Direction::DownRight),
            (AxisReading::Low, AxisReading::High) => Some(Direction::UpLeft),
            (AxisReading::High, AxisReading::High) => Some(Direction::UpRight),
        }
    }
}

/// The byte that stands for each operator command.
pub open spec fn encode(p: Packet) -> u8 {
    match p {
        Packet::Shoot => BYTE_SHOOT,
        Packet::NoOp => BYTE_NONE,
        Packet::Move(d) => match d {
            Direction::Up => BYTE_UP,
            Direction::Down => BYTE_DOWN,
            Direction::Left => BYTE_LEFT,
            Direction::Right => BYTE_RIGHT,
            Direction::UpLeft => BYTE_UP_LEFT,
            Direction::UpRight => BYTE_UP_RIGHT,
            Direction::DownLeft => BYTE_DOWN_LEFT,
            Direction::DownRight => BYTE_DOWN_RIGHT,
        },
    }
}

/// The command a byte stands for, if any.
pub open spec fn decode(b: u8) -> Option<Packet> {
    if b == BYTE_SHOOT {
        Option::Some(Packet::Shoot)
    } else if b == BYTE_NONE {
        Option::Some(Packet::NoOp)
    } else if b == BYTE_UP {
        Option::Some(Packet::Move(Direction::Up))
    } else if b == BYTE_DOWN {
        Option::Some(Packet::Move(Direction::Down))
    } else if b == BYTE_LEFT {
        Option::Some(Packet::Move(Direction::Left))
    } else if b == BYTE_RIGHT {
        Option::Some(Packet::Move(Direction::Right))
    } else if b == BYTE_UP_LEFT {
        Option::Some(Packet::Move(Direction::UpLeft))
    } else if b == BYTE_UP_RIGHT {
        Option::Some(Packet::Move(Direction::UpRight))
    } else if b == BYTE_DOWN_LEFT {
        Option::Some(Packet::Move(Direction::DownLeft))
    } else if b == BYTE_DOWN_RIGHT {
        Option::Some(Packet::Move(Direction::DownRight))
    } else {
        Option::None
    }
}

/// The command for one tick: the trigger wins over the joystick, and a failed
/// sample gives `None` rather than a spurious move.
pub open spec fn command_for(trigger_active: bool, samples: Option<(u16, u16)>) -> Packet {
    if trigger_active {
        Packet::Shoot
    } else {
        match samples {
            Option::Some((x, y)) => match classify(x, y) {
                Option::Some(d) => Packet::Move(d),
                Option::None => Packet::NoOp,
            },
            Option::None => Packet::NoOp,
        }
    }
}

impl Packet {
    pub fn to_u8(&self) -> (r: u8)
        ensures
            r == encode(*self),
    {
        match self {
            Packet::Shoot => BYTE_SHOOT,
            Packet::NoOp => BYTE_NONE,
            Packet::Move(d) => match d {
                Direction::Up => BYTE_UP,
                Direction::Down => BYTE_DOWN,
                Direction::Left => BYTE_LEFT,
                Direction::Right => BYTE_RIGHT,
                Direction::UpLeft => BYTE_UP_LEFT,
                Direction::UpRight => BYTE_UP_RIGHT,
                Direction::DownLeft => BYTE_DOWN_LEFT,
                Direction::DownRight => BYTE_DOWN_RIGHT,
            },
        }
    }

    /// Reads a byte of the shared table; `None` for a byte outside it.
    pub fn from_u8(byte: u8) -> (r: Option<Packet>)
        ensures
            r == decode(byte),
    {
        if byte == BYTE_SHOOT {
            Some(Packet::Shoot)
        } else if byte == BYTE_NONE {
            Some(Packet::NoOp)
        } else if byte == BYTE_UP {
            Some(Packet::Move(Direction::Up))
        } else if byte == BYTE_DOWN {
            Some(Packet::Move(Direction::Down))
        } else if byte == BYTE_LEFT {
            Some(Packet::Move(Direction::Left))
        } else if byte == BYTE_RIGHT {
            Some(Packet::Move(Direction::Right))
        } else if byte == BYTE_UP_LEFT {
            Some(Packet::Move(Direction::UpLeft))
        } else if byte == BYTE_UP_RIGHT {
            Some(Packet::Move(Direction::UpRight))
        } else if byte == BYTE_DOWN_LEFT {
            Some(Packet::Move(Direction::DownLeft))
        } else if byte == BYTE_DOWN_RIGHT {
            Some(Packet::Move(Direction::DownRight))
        } else {
            None
        }
    }

    /// Chooses the command for one tick from the trigger level and the samples
    /// (`None` when sampling failed).
    pub fn from_input(trigger_active: bool, samples: Option<(u16, u16)>) -> (r: Packet)
        ensures
            r == command_for(trigger_active, samples),
    {
        if trigger_active {
            Packet::Shoot
        } else {
            match samples {
                Some((x, y)) => match Direction::from_samples(x, y) {
                    Some(d) => Packet::Move(d),
                    None => Packet::NoOp,
                },
                None => Packet::NoOp,
            }
        }
    }
}

/// The horizontal thresholds: below 250 the direction is left-ish, above 2500
/// it is right-ish, and from 250 to 2500 inclusive X adds no horizontal part.
pub proof fn lemma_horizontal_thresholds(x: u16, y: u16)
    ensures
        x < 250 ==> (classify(x, y) matches Option::Some(d) && d.horizontal() == AxisReading::Low),
        x > 2500 ==> (classify(x, y) matches Option::Some(d) && d.horizontal() == AxisReading::High),
        250 <= x <= 2500 ==> (classify(x, y) matches Option::Some(d) ==> d.horizontal()
            == AxisReading::Centered),
{
}

/// A diagonal comes out exactly when both axes leave the dead zone, and its two
/// components are then the two single-axis readings.
pub proof fn lemma_diagonal_iff_both_axes(x: u16, y: u16)
    ensures
        (classify(x, y) matches Option::Some(d) && d.is_diagonal()) <==> (axis_of(x)
            != AxisReading::Centered && axis_of(y) != AxisReading::Centered),
        classify(x, y) matches Option::Some(d) ==> d.horizontal() == axis_of(x) && d.vertical()
            == axis_of(y),
        classify(x, y) is None <==> (axis_of(x) == AxisReading::Centered && axis_of(y)
            == AxisReading::Centered),
{
}

/// Decoding what the operator encodes gives back the same command.
pub proof fn lemma_round_trip(p: Packet)
    ensures
        decode(encode(p)) == Option::Some(p),
{
}

/// Two distinct commands never share a byte.
pub proof fn lemma_encode_injective(p: Packet, q: Packet)
    ensures
        encode(p) == encode(q) ==> p == q,
{
    lemma_round_trip(p);
    lemma_round_trip(q);
}

} // verus!
