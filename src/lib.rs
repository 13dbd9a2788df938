//! Command protocol and actuator control for a two-node turret link.
//!
//! The operator unit classifies joystick samples into a direction, turns the
//! result into a one-byte command and streams it to the turret unit. The turret
//! unit decodes each byte, steers a clamped rotation actuator and, on a shoot
//! command or when the peer closes the link, runs a fixed fire and stop script.
//!
//! Everything that touches hardware or the network is outside this crate: the
//! session types return the next action to perform and take back what happened.
pub mod axis;
pub mod wire;
pub mod operator;
pub mod operator_session;
pub mod turret;
pub mod rotation;
pub mod fire;
pub mod turret_session;
