//! Single-axis classification of a raw analog sample.
use vstd::prelude::*;

verus! {

/// Samples strictly below this value are at the low end of the axis.
pub const LOW_THRESH: u16 = 250;

/// Samples strictly above this value are at the high end of the axis.
pub const HIGH_THRESH: u16 = 2500;

/// Largest value the sampling hardware produces.
pub const SAMPLE_MAX: u16 = 4095;

/// Where one axis of the joystick stands.
#[derive(Clone, Copy, Debug, PartialEq, Eq, Structural)]
pub enum AxisReading {
    Low,
    Centered,
    High,
}

/// The reading of one axis: strict inequalities, so both thresholds are centered.
pub open spec fn axis_of(v: u16) -> AxisReading {
    if v < LOW_THRESH {
        AxisReading::Low
    } else if v > HIGH_THRESH {
        AxisReading::High
    } else {
        AxisReading::Centered
    }
}

/// Classifies one axis sample against the dead zone.
pub fn read_axis(v: u16) -> (r: AxisReading)
    ensures
        r == axis_of(v),
{
    if v < LOW_THRESH {
        AxisReading::Low
    } else if v > HIGH_THRESH {
        AxisReading::High
    } else {
        AxisReading::Centered
    }
}

} // verus!
