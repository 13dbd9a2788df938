//! The turret unit's control loop as a state machine: accept one connection,
//! follow move commands until a shoot command or the peer closes, run the fire
//! script once, and stop for good.
//!
//! The caller performs each returned action and reports its outcome as the
//! next event. A read error is the one fatal outcome.
use vstd::prelude::*;
use crate::rotation::{RotationPosition, moved};
use crate::turret::{Packet, decode};

verus! {

#[derive(Clone, Copy, Debug, PartialEq, Eq, Structural)]
pub enum TurretState {
    /// Waiting for the operator to connect.
    Listening,
    /// Reading one command byte.
    ReceivingCommands,
    /// Writing a new set-point to the rotation actuator.
    Rotating,
    /// Running the fire script.
    Firing,
    /// The session is over; nothing more is read.
    Terminal,
    /// A read failed on the open connection.
    Faulted,
}

#[derive(Clone, Copy, Debug, PartialEq, Eq, Structural)]
pub enum TurretEvent {
    AcceptFailed,
    Accepted,
    /// One byte arrived.
    Received(u8),
    /// The peer closed the connection: a read returned no byte.
    Closed,
    /// A read failed with an error.
    ReadFailed,
    /// The requested output was applied.
    Done,
}

#[derive(Clone, Copy, Debug, PartialEq, Eq, Structural)]
pub enum TurretAction {
    /// Try to accept a connection.
    Accept,
    /// Read one byte.
    Read,
    /// Set the rotation actuator to this set-point.
    SetRotation(u16),
    /// Run the fire script, then stop the motors.
    Fire,
    /// End the control program.
    Halt,
    /// Fault the device: the connection failed in a way nothing can recover.
    Fault,
}

/// The action a state waits on, given the rotation set-point.
pub open spec fn turret_awaited(s: TurretState, pos: int) -> TurretAction {
    match s {
        TurretState::Listening => TurretAction::Accept,
        TurretState::ReceivingCommands => TurretAction::Read,
        TurretState::Rotating => TurretAction::SetRotation(pos as u16),
        TurretState::Firing => TurretAction::Fire,
        TurretState::Terminal => TurretAction::Halt,
        TurretState::Faulted => TurretAction::Fault,
    }
}

/// The state and set-point after an event. An unrecognised byte and the no-op
/// command change nothing; a move that the rotation range drops changes nothing
/// either; shoot and a closed connection both start the fire script.
pub open spec fn turret_next(s: TurretState, pos: int, e: TurretEvent) -> (TurretState, int) {
    match (s, e) {
        (TurretState::Listening, TurretEvent::AcceptFailed) => (TurretState::Listening, pos),
        (TurretState::Listening, TurretEvent::Accepted) => (TurretState::ReceivingCommands, pos),
        (TurretState::ReceivingCommands, TurretEvent::Received(b)) => match decode(b) {
            Option::Some(Packet::Shoot) => (TurretState::Firing, pos),
            Option::Some(Packet::Move(d)) => if moved(pos, d) != pos {
                (TurretState::Rotating, moved(pos, d))
            } else {
                (TurretState::ReceivingCommands, pos)
            },
            _ => (TurretState::ReceivingCommands, pos),
        },
        (TurretState::ReceivingCommands, TurretEvent::Closed) => (TurretState::Firing, pos),
        (TurretState::ReceivingCommands, TurretEvent::ReadFailed) => (TurretState::Faulted, pos),
        (TurretState::Rotating, TurretEvent::Done) => (TurretState::ReceivingCommands, pos),
        (TurretState::Firing, TurretEvent::Done) => (TurretState::Terminal, pos),
        _ => (s, pos),
    }
}

pub struct TurretSession {
    pub state: TurretState,
    pub position: RotationPosition,
}

impl TurretSession {
    /// A session that starts listening, with the rotation at its centre.
    pub fn new() -> (r: TurretSession)
        ensures
            r.state == TurretState::Listening,
            r.position@ == crate::rotation::CENTER_POS,
    {
        TurretSession { state: TurretState::Listening, position: RotationPosition::new() }
    }

    /// The action the session waits on.
    pub fn pending(&self) -> (r: TurretAction)
        ensures
            r == turret_awaited(self.state, self.position@),
    {
        match self.state {
            TurretState::Listening => TurretAction::Accept,
            TurretState::ReceivingCommands => TurretAction::Read,
            TurretState::Rotating => TurretAction::SetRotation(self.position.value()),
            TurretState::Firing => TurretAction::Fire,
            TurretState::Terminal => TurretAction::Halt,
            TurretState::Faulted => TurretAction::Fault,
        }
    }

    /// Takes the outcome of the pending action and returns the next action.
    pub fn step(&mut self, e: TurretEvent) -> (r: TurretAction)
        ensures
            (final(self).state, final(self).position@) == turret_next(
                old(self).state,
                old(self).position@,
                e,
            ),
            r == turret_awaited(final(self).state, final(self).position@),
    {
        match (self.state, e) {
            (TurretState::Listening, TurretEvent::Accepted) => {
                self.state = TurretState::ReceivingCommands;
            },
            (TurretState::ReceivingCommands, TurretEvent::Received(b)) => {
                match Packet::from_u8(b) {
                    Some(Packet::Shoot) => {
                        self.state = TurretState::Firing;
                    },
                    Some(Packet::Move(d)) => {
                        if self.position.apply(d) {
                            self.state = TurretState::Rotating;
                        }
                    },
                    _ => {},
                }
            },
            (TurretState::ReceivingCommands, TurretEvent::Closed) => {
                self.state = TurretState::Firing;
            },
            (TurretState::ReceivingCommands, TurretEvent::ReadFailed) => {
                self.state = TurretState::Faulted;
            },
            (TurretState::Rotating, TurretEvent::Done) => {
                self.state = TurretState::ReceivingCommands;
            },
            (TurretState::Firing, TurretEvent::Done) => {
                self.state = TurretState::Terminal;
            },
            _ => {},
        }
        self.pending()
    }
}

/// A shoot byte ends the reception at once and starts the fire script; once
/// the script is done the session is over, and no later event makes it read
/// again.
pub proof fn lemma_shoot_fires_once(pos: int, e: TurretEvent)
    ensures
        turret_next(TurretState::ReceivingCommands, pos, TurretEvent::Received(
            crate::wire::BYTE_SHOOT,
        )) == (TurretState::Firing, pos),
        turret_next(TurretState::Firing, pos, TurretEvent::Done) == (TurretState::Terminal, pos),
        turret_next(TurretState::Terminal, pos, e) == (TurretState::Terminal, pos),
        turret_awaited(TurretState::Terminal, pos) == TurretAction::Halt,
{
}

/// A closed connection during reception starts the fire script, like a shoot byte.
pub proof fn lemma_close_fires(pos: int)
    ensures
        turret_next(TurretState::ReceivingCommands, pos, TurretEvent::Closed) == (
            TurretState::Firing,
            pos,
        ),
{
}

} // verus!
