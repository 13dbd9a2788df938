//! The fire and stop script the turret runs once per session.
use vstd::prelude::*;

verus! {

/// Drive-motor duty while firing.
pub const ENGAGED: u8 = 80;

/// Drive-motor duty when the motors stand still.
pub const STOPPED: u8 = 0;

/// Trigger set-point that pulls the trigger.
pub const TRIGGER_PULL: u16 = 3125;

/// Trigger set-point at rest.
pub const TRIGGER_REST: u16 = 1875;

/// Number of trigger pulses in one fire sequence.
pub const PULSE_COUNT: usize = 20;

/// Delay after each trigger write.
pub const PULSE_MILLIS: u32 = 200;

/// Delay after each step of the motor ramp-down.
pub const RAMP_MILLIS: u32 = 200;

/// One output of the fire script.
#[derive(Clone, Copy, Debug, PartialEq, Eq, Structural)]
pub enum FireStep {
    /// Set both drive motors to this duty (0 to 100).
    Throttle(u8),
    /// Set the trigger actuator to this set-point.
    Trigger(u16),
    /// Wait this many milliseconds.
    Pause(u32),
}

/// One trigger pulse: pull, wait, rest, wait.
pub open spec fn pulse() -> Seq<FireStep> {
    seq![
        FireStep::Trigger(TRIGGER_PULL),
        FireStep::Pause(PULSE_MILLIS),
        FireStep::Trigger(TRIGGER_REST),
        FireStep::Pause(PULSE_MILLIS),
    ]
}

/// `n` trigger pulses, one after the other.
pub open spec fn pulses(n: nat) -> Seq<FireStep>
    decreases n,
{
    if n == 0 {
        seq![]
    } else {
        pulses((n - 1) as nat) + pulse()
    }
}

/// The gradual stop: the motors step down from 60 to 0 with a pause after each step.
pub open spec fn ramp_down() -> Seq<FireStep> {
    seq![
        FireStep::Throttle(60),
        FireStep::Pause(RAMP_MILLIS),
        FireStep::Throttle(40),
        FireStep::Pause(RAMP_MILLIS),
        FireStep::Throttle(20),
        FireStep::Pause(RAMP_MILLIS),
        FireStep::Throttle(STOPPED),
        FireStep::Pause(RAMP_MILLIS),
    ]
}

/// The whole script: engage the motors, pulse the trigger, leave it at rest,
/// then ramp the motors down.
pub open spec fn fire_script() -> Seq<FireStep> {
    seq![FireStep::Throttle(ENGAGED)] + pulses(PULSE_COUNT as nat) + seq![
        FireStep::Trigger(TRIGGER_REST),
    ] + ramp_down()
}

/// The outputs of one fire sequence followed by the stop, in order.
pub fn fire_sequence() -> (r: Vec<FireStep>)
    ensures
        r@ == fire_script(),
{
    let mut v: Vec<FireStep> = Vec::new();
    v.push(FireStep::Throttle(ENGAGED));
    let mut i: usize = 0;
    while i < PULSE_COUNT
        invariant
            i <= PULSE_COUNT,
            v@ == seq![FireStep::Throttle(ENGAGED)] + pulses(i as nat),
        decreases PULSE_COUNT - i,
    {
        v.push(FireStep::Trigger(TRIGGER_PULL));
        v.push(FireStep::Pause(PULSE_MILLIS));
        v.push(FireStep::Trigger(TRIGGER_REST));
        v.push(FireStep::Pause(PULSE_MILLIS));
        i = i + 1;
        assert(v@ =~= seq![FireStep::Throttle(ENGAGED)] + pulses(i as nat));
    }
    v.push(FireStep::Trigger(TRIGGER_REST));
    v.push(FireStep::Throttle(60));
    v.push(FireStep::Pause(RAMP_MILLIS));
    v.push(FireStep::Throttle(40));
    v.push(FireStep::Pause(RAMP_MILLIS));
    v.push(FireStep::Throttle(20));
    v.push(FireStep::Pause(RAMP_MILLIS));
    v.push(FireStep::Throttle(STOPPED));
    v.push(FireStep::Pause(RAMP_MILLIS));
    assert(v@ =~= fire_script());
    v
}

proof fn lemma_pulses_index(n: nat)
    ensures
        pulses(n).len() == 4 * n,
        forall|j: int| 0 <= j < 4 * n ==> #[trigger] pulses(n)[j] == pulse()[j % 4],
    decreases n,
{
    if n > 0 {
        lemma_pulses_index((n - 1) as nat);
        assert forall|j: int| 0 <= j < 4 * n implies #[trigger] pulses(n)[j] == pulse()[j % 4] by {
            if j >= 4 * (n - 1) {
                assert(j % 4 == j - 4 * (n - 1));
            }
        }
    }
}

/// The shape of the fire script: the motors are engaged first; then come
/// exactly `PULSE_COUNT` pull/rest pulses, and a pull appears nowhere else;
/// then exactly one rest write; then the ramp-down, during which the throttle
/// never rises and which ends with the motors stopped.
pub proof fn lemma_fire_script_shape()
    ensures
        fire_script().len() == 4 * PULSE_COUNT + 10,
        fire_script()[0] == FireStep::Throttle(ENGAGED),
        forall|k: int|
            1 <= k <= 4 * PULSE_COUNT ==> #[trigger] fire_script()[k] == pulse()[(k - 1) % 4],
        forall|k: int|
            0 <= k < fire_script().len() ==> (#[trigger] fire_script()[k] == FireStep::Trigger(
                TRIGGER_PULL,
            ) <==> 1 <= k <= 4 * PULSE_COUNT && (k - 1) % 4 == 0),
        fire_script()[4 * PULSE_COUNT + 1] == FireStep::Trigger(TRIGGER_REST),
        forall|k: int|
            4 * PULSE_COUNT + 2 <= k < fire_script().len() ==> #[trigger] fire_script()[k]
                == ramp_down()[k - (4 * PULSE_COUNT + 2)],
        forall|k: int| 0 <= k < ramp_down().len() ==> !(#[trigger] ramp_down()[k] is Trigger),
        forall|k1: int, k2: int|
            0 <= k1 < k2 < ramp_down().len() && #[trigger] ramp_down()[k1] is Throttle
                && #[trigger] ramp_down()[k2] is Throttle ==> ramp_down()[k1]->Throttle_0
                >= ramp_down()[k2]->Throttle_0,
        ramp_down()[6] == FireStep::Throttle(STOPPED),
        forall|k: int| 6 < k < ramp_down().len() ==> !(#[trigger] ramp_down()[k] is Throttle),
{
    lemma_pulses_index(PULSE_COUNT as nat);
    let s = fire_script();
    let p = pulses(PULSE_COUNT as nat);
    let r = ramp_down();
    assert(s.len() == 4 * PULSE_COUNT + 10);
    assert forall|k: int| 1 <= k <= 4 * PULSE_COUNT implies #[trigger] s[k] == pulse()[(k - 1)
        % 4] by {
        assert(s[k] == p[k - 1]);
    }
    assert forall|k: int| 0 <= k < s.len() implies (#[trigger] s[k] == FireStep::Trigger(
        TRIGGER_PULL,
    ) <==> 1 <= k <= 4 * PULSE_COUNT && (k - 1) % 4 == 0) by {
        if 1 <= k <= 4 * PULSE_COUNT {
            assert(s[k] == p[k - 1]);
        } else if k >= 4 * PULSE_COUNT + 2 {
            assert(s[k] == r[k - (4 * PULSE_COUNT + 2)]);
        }
    }
    assert(s[4 * PULSE_COUNT + 1] == FireStep::Trigger(TRIGGER_REST));
    assert forall|k: int| 4 * PULSE_COUNT + 2 <= k < s.len() implies #[trigger] s[k] == r[k - (4
        * PULSE_COUNT + 2)] by {}
}

} // verus!
