//! The test routine of the hobby servo on the PWM pin: full swing one way,
//! then the other, then a slow sweep back to centre.
use vstd::prelude::*;

verus! {

/// BCM number of the PWM pin the servo listens on.
pub const GPIO_PWM: u8 = 23;
/// 50 Hz servo timing.
pub const PERIOD_MS: u64 = 20;
pub const PULSE_MIN_US: u64 = 1200;
pub const PULSE_NEUTRAL_US: u64 = 1500;
pub const PULSE_MAX_US: u64 = 1800;
/// Pulse width increment of the sweep back to centre.
pub const SWEEP_STEP_US: u64 = 10;
/// How long the servo holds each end of its swing.
pub const SWING_HOLD_MS: u64 = 500;
/// How long the servo holds each width of the sweep.
pub const SWEEP_HOLD_MS: u64 = 20;
/// How long the servo holds the centre before the PWM is cleared.
pub const CENTER_HOLD_MS: u64 = 250;

/// A pulse width to set, and how long to hold it.
#[derive(Debug, Clone, Copy, PartialEq, Eq, Structural)]
pub struct ServoStep {
    pub pulse_us: u64,
    pub hold_ms: u64,
}

/// The steps of the routine: maximum, minimum, then every width from the
/// minimum up to the neutral one in increments of `SWEEP_STEP_US`.
pub open spec fn servo_routine() -> Seq<ServoStep> {
    seq![
        ServoStep { pulse_us: PULSE_MAX_US, hold_ms: SWING_HOLD_MS },
        ServoStep { pulse_us: PULSE_MIN_US, hold_ms: SWING_HOLD_MS },
    ] + Seq::new(
        31,
        |k: int| ServoStep { pulse_us: (PULSE_MIN_US + SWEEP_STEP_US * k) as u64, hold_ms: SWEEP_HOLD_MS },
    )
}

/// Plans the servo routine; the caller sets each pulse width, waits its
/// hold time, holds the centre for `CENTER_HOLD_MS` and clears the PWM.
pub fn servo_move_plan() -> (plan: Vec<ServoStep>)
    ensures
        plan@ == servo_routine(),
{
    let mut plan: Vec<ServoStep> = Vec::new();
    plan.push(ServoStep { pulse_us: PULSE_MAX_US, hold_ms: SWING_HOLD_MS });
    plan.push(ServoStep { pulse_us: PULSE_MIN_US, hold_ms: SWING_HOLD_MS });
    let mut pulse: u64 = PULSE_MIN_US;
    let mut k: usize = 0;
    while pulse <= PULSE_NEUTRAL_US
        invariant
            k <= 31,
            pulse == PULSE_MIN_US + SWEEP_STEP_US * k,
            plan@.len() == 2 + k,
            plan@.subrange(0, 2 + k as int) =~= servo_routine().subrange(0, 2 + k as int),
        decreases PULSE_NEUTRAL_US + SWEEP_STEP_US - pulse,
    {
        plan.push(ServoStep { pulse_us: pulse, hold_ms: SWEEP_HOLD_MS });
        pulse = pulse + SWEEP_STEP_US;
        k = k + 1;
    }
    assert(plan@ =~= plan@.subrange(0, 33));
    plan
}

/// The sweep ends exactly at the neutral width and never leaves the range
/// between the minimum and the maximum.
pub proof fn servo_routine_stays_in_range()
    ensures
        servo_routine().len() == 33,
        servo_routine().last().pulse_us == PULSE_NEUTRAL_US,
        forall|i: int|
            0 <= i < servo_routine().len() ==> PULSE_MIN_US <= #[trigger] servo_routine()[i].pulse_us
                <= PULSE_MAX_US,
{
    assert(servo_routine().last() == servo_routine()[32]);
}

} // verus!
