//! The operator unit's control loop as a state machine: connect, sample,
//! transmit, wait, and start over from connecting after a failed write.
//!
//! The caller performs each returned action and reports its outcome as the
//! next event.
use vstd::prelude::*;
use crate::operator::{Packet, command_for, encode};

verus! {

/// Delay between two ticks, applied whether the write succeeded or not.
pub const TICK_MILLIS: u32 = 500;

#[derive(Clone, Copy, Debug, PartialEq, Eq, Structural)]
pub enum OperatorState {
    /// Opening the connection to the turret.
    Connecting,
    /// Connected, waiting for the next sample.
    Sampling,
    /// Writing the command byte.
    Transmitting(u8),
    /// The pause between ticks; `reconnect` when the write failed.
    Waiting { reconnect: bool },
}

#[derive(Clone, Copy, Debug)]
pub enum OperatorEvent {
    ConnectFailed,
    ConnectSucceeded,
    /// The trigger level and the two samples; `samples` is `None` when sampling failed.
    Sampled { trigger_active: bool, samples: Option<(u16, u16)> },
    WriteSucceeded,
    WriteFailed,
    WaitElapsed,
}

#[derive(Clone, Copy, Debug, PartialEq, Eq, Structural)]
pub enum OperatorAction {
    /// Try to open the connection.
    Connect,
    /// Read the trigger and the two axes.
    Sample,
    /// Write this byte to the connection.
    Transmit(u8),
    /// Wait this many milliseconds.
    Wait(u32),
}

/// The action a state waits on.
pub open spec fn operator_awaited(s: OperatorState) -> OperatorAction {
    match s {
        OperatorState::Connecting => OperatorAction::Connect,
        OperatorState::Sampling => OperatorAction::Sample,
        OperatorState::Transmitting(b) => OperatorAction::Transmit(b),
        OperatorState::Waiting { .. } => OperatorAction::Wait(TICK_MILLIS),
    }
}

/// The next state after an event. Connecting is retried at once and without
/// limit; a failed write discards the connection; an event that does not answer
/// the pending action changes nothing.
pub open spec fn operator_next(s: OperatorState, e: OperatorEvent) -> OperatorState {
    match (s, e) {
        (OperatorState::Connecting, OperatorEvent::ConnectFailed) => OperatorState::Connecting,
        (OperatorState::Connecting, OperatorEvent::ConnectSucceeded) => OperatorState::Sampling,
        (OperatorState::Sampling, OperatorEvent::Sampled { trigger_active, samples }) => {
            OperatorState::Transmitting(encode(command_for(trigger_active, samples)))
        },
        (OperatorState::Transmitting(_), OperatorEvent::WriteSucceeded) => OperatorState::Waiting {
            reconnect: false,
        },
        (OperatorState::Transmitting(_), OperatorEvent::WriteFailed) => OperatorState::Waiting {
            reconnect: true,
        },
        (OperatorState::Waiting { reconnect }, OperatorEvent::WaitElapsed) => if reconnect {
            OperatorState::Connecting
        } else {
            OperatorState::Sampling
        },
        _ => s,
    }
}

pub struct OperatorSession {
    pub state: OperatorState,
}

impl OperatorSession {
    /// A session that starts by connecting.
    pub fn new() -> (r: OperatorSession)
        ensures
            r.state == OperatorState::Connecting,
    {
        OperatorSession { state: OperatorState::Connecting }
    }

    /// The action the session waits on.
    pub fn pending(&self) -> (r: OperatorAction)
        ensures
            r == operator_awaited(self.state),
    {
        match self.state {
            OperatorState::Connecting => OperatorAction::Connect,
            OperatorState::Sampling => OperatorAction::Sample,
            OperatorState::Transmitting(b) => OperatorAction::Transmit(b),
            OperatorState::Waiting { .. } => OperatorAction::Wait(TICK_MILLIS),
        }
    }

    /// Takes the outcome of the pending action and returns the next action.
    pub fn step(&mut self, e: OperatorEvent) -> (r: OperatorAction)
        ensures
            final(self).state == operator_next(old(self).state, e),
            r == operator_awaited(final(self).state),
    {
        let next = match (self.state, e) {
            (OperatorState::Connecting, OperatorEvent::ConnectFailed) => OperatorState::Connecting,
            (OperatorState::Connecting, OperatorEvent::ConnectSucceeded) => OperatorState::Sampling,
            (OperatorState::Sampling, OperatorEvent::Sampled { trigger_active, samples }) => {
                let p = Packet::from_input(trigger_active, samples);
                OperatorState::Transmitting(p.to_u8())
            },
            (OperatorState::Transmitting(_), OperatorEvent::WriteSucceeded) => {
                OperatorState::Waiting { reconnect: false }
            },
            (OperatorState::Transmitting(_), OperatorEvent::WriteFailed) => {
                OperatorState::Waiting { reconnect: true }
            },
            (OperatorState::Waiting { reconnect }, OperatorEvent::WaitElapsed) => {
                if reconnect {
                    OperatorState::Connecting
                } else {
                    OperatorState::Sampling
                }
            },
            _ => self.state,
        };
        self.state = next;
        self.pending()
    }
}

/// After a failed write the session pauses, then connects again; failed
/// attempts are retried at once and the first success resumes sampling.
pub proof fn lemma_reconnects_after_write_failure(b: u8)
    ensures
        operator_next(OperatorState::Transmitting(b), OperatorEvent::WriteFailed)
            == (OperatorState::Waiting { reconnect: true }),
        operator_next(OperatorState::Waiting { reconnect: true }, OperatorEvent::WaitElapsed)
            == OperatorState::Connecting,
        operator_next(OperatorState::Connecting, OperatorEvent::ConnectFailed)
            == OperatorState::Connecting,
        operator_next(OperatorState::Connecting, OperatorEvent::ConnectSucceeded)
            == OperatorState::Sampling,
{
}

} // verus!
