//! The one byte table shared by both ends of the link.
//!
//! Each command has a single canonical byte, whichever unit sends or reads it.
//! The turret understands the subset it can act on (shoot, no-op, rotate left,
//! rotate right); the operator's vertical and diagonal moves use bytes that the
//! turret does not recognise, which it treats as a no-op.
use vstd::prelude::*;

verus! {

/// TCP port the turret listens on.
pub const PORT: u16 = 3000;

/// `s`: fire.
pub const BYTE_SHOOT: u8 = 115;

/// `n`: nothing to do this tick.
pub const BYTE_NONE: u8 = 110;

/// `l`: rotate left.
pub const BYTE_LEFT: u8 = 108;

/// `r`: rotate right.
pub const BYTE_RIGHT: u8 = 114;

pub const BYTE_UP: u8 = 100;

pub const BYTE_DOWN: u8 = 101;

pub const BYTE_UP_LEFT: u8 = 104;

pub const BYTE_UP_RIGHT: u8 = 105;

pub const BYTE_DOWN_LEFT: u8 = 106;

pub const BYTE_DOWN_RIGHT: u8 = 107;

} // verus!
