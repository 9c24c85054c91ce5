//! The decisions taken while a stepper motor runs: which sensor guards the
//! move, when a reading stops it, and how many pulses have been issued.
//!
//! The caller drives a [`StepperRun`]: while it is running, read the sensor
//! that [`stop_sensor_for`] names, hand the reading to
//! [`StepperRun::next_action`], and pulse the motor once whenever the answer
//! is [`StepAction::Pulse`].
use vstd::prelude::*;
use crate::hardware_layout::GPIO_STEPPER_VERTICAL_END_STOP_ASSEMBLY;

verus! {

/// A reading of the assembly's analog sensor below this value stops a move.
pub const ADC_STOP_THRESHOLD: i16 = 16000;

/// The sensor that guards a move.
#[derive(Debug, Clone, Copy, PartialEq, Eq, Structural)]
pub enum StopSensor {
    /// A GPIO end stop, which reads low when reached.
    EndStopPin,
    /// The analog distance sensor of the vertical assembly.
    AssemblyAdc,
}

/// A reading of the sensor that guards a move.
#[derive(Debug, Clone, Copy, PartialEq, Eq, Structural)]
pub enum SensorReading {
    EndStop { is_low: bool },
    Adc { value: i16 },
}

/// Why a move ended before all its steps were taken.
#[derive(Debug, Clone, Copy, PartialEq, Eq, Structural)]
pub enum StopReason {
    HardStop,
    SensorStop,
}

/// What to do next during a move.
#[derive(Debug, Clone, Copy, PartialEq, Eq, Structural)]
pub enum StepAction {
    Pulse,
    Stop(StopReason),
}

/// The sensor that guards a move whose end stop is `pin`.
pub open spec fn sensor_for_pin(pin: u8) -> StopSensor {
    if pin == GPIO_STEPPER_VERTICAL_END_STOP_ASSEMBLY {
        StopSensor::AssemblyAdc
    } else {
        StopSensor::EndStopPin
    }
}

/// Whether a reading ends the move, and why.
pub open spec fn reading_stop(reading: SensorReading) -> Option<StopReason> {
    match reading {
        SensorReading::EndStop { is_low } => if is_low {
            Some(StopReason::HardStop)
        } else {
            None
        },
        SensorReading::Adc { value } => if value < ADC_STOP_THRESHOLD {
            Some(StopReason::SensorStop)
        } else {
            None
        },
    }
}

pub fn stop_sensor_for(hard_stop_pin: u8) -> (sensor: StopSensor)
    ensures
        sensor == sensor_for_pin(hard_stop_pin),
        (sensor == StopSensor::AssemblyAdc) == (hard_stop_pin == GPIO_STEPPER_VERTICAL_END_STOP_ASSEMBLY),
{
    if hard_stop_pin != GPIO_STEPPER_VERTICAL_END_STOP_ASSEMBLY {
        StopSensor::EndStopPin
    } else {
        StopSensor::AssemblyAdc
    }
}

pub fn stop_reason(reading: SensorReading) -> (reason: Option<StopReason>)
    ensures
        reason == reading_stop(reading),
{
    match reading {
        SensorReading::EndStop { is_low } => if is_low {
            Some(StopReason::HardStop)
        } else {
            None
        },
        SensorReading::Adc { value } => if value < ADC_STOP_THRESHOLD {
            Some(StopReason::SensorStop)
        } else {
            None
        },
    }
}

/// What one reading does to a move that is running, from `moved` pulses
/// issued: a stopping reading records its reason, any other adds a pulse.
pub open spec fn after_reading(moved: int, reading: SensorReading) -> (int, Option<StopReason>) {
    match reading_stop(reading) {
        Some(reason) => (moved, Some(reason)),
        None => (moved + 1, None),
    }
}

/// The pulses issued by a move of `requested` steps that has issued
/// `moved` so far and is then handed `readings` in order while it runs.
pub open spec fn pulses_after(requested: int, moved: int, readings: Seq<SensorReading>) -> int
    decreases readings.len(),
{
    if readings.len() == 0 || moved >= requested {
        moved
    } else {
        match after_reading(moved, readings[0]) {
            (next, None) => pulses_after(requested, next, readings.drop_first()),
            (next, Some(_)) => next,
        }
    }
}

/// The index of the first reading that stops a move, or the number of
/// readings when none does.
pub open spec fn first_stop(readings: Seq<SensorReading>) -> int
    decreases readings.len(),
{
    if readings.len() == 0 {
        0
    } else if reading_stop(readings[0]) is Some {
        0
    } else {
        1 + first_stop(readings.drop_first())
    }
}

pub open spec fn min(a: int, b: int) -> int {
    if a <= b {
        a
    } else {
        b
    }
}

/// The readings a move sees: the levels of its end stop, or the values of
/// the assembly's analog sensor, whichever `stop_pin` selects; the other
/// sensor is never read.
pub open spec fn readings_seen(stop_pin: u8, levels_low: Seq<bool>, adc_values: Seq<i16>) -> Seq<
    SensorReading,
> {
    match sensor_for_pin(stop_pin) {
        StopSensor::EndStopPin => levels_low.map_values(|l: bool| SensorReading::EndStop { is_low: l }),
        StopSensor::AssemblyAdc => adc_values.map_values(|v: i16| SensorReading::Adc { value: v }),
    }
}

/// An end stop stops a move exactly when it reads low; the analog sensor
/// exactly when it reads below 16000.
pub proof fn readings_that_stop_a_move(is_low: bool, value: i16)
    ensures
        reading_stop(SensorReading::EndStop { is_low }) == if is_low {
            Some(StopReason::HardStop)
        } else {
            None
        },
        reading_stop(SensorReading::Adc { value }) == if value < 16000 {
            Some(StopReason::SensorStop)
        } else {
            None
        },
{
}

/// The assembly's analog sensor guards a move exactly when its stop pin is
/// the assembly pin (BCM 27); every other stop pin, the bottom and top end
/// stops among them, is read as a GPIO end stop.
pub proof fn only_the_assembly_pin_reads_the_adc(pin: u8)
    ensures
        sensor_for_pin(pin) == StopSensor::AssemblyAdc <==> pin == 27,
        sensor_for_pin(pin) == StopSensor::EndStopPin <==> pin != 27,
{
}

/// One move of a stepper motor: how many steps were asked for, how many
/// pulses have been issued, and whether a sensor ended it.
pub struct StepperRun {
    steps_to_take: i32,
    steps_moved: i32,
    stop: Option<StopReason>,
}

impl StepperRun {
    /// The number of steps asked for.
    pub closed spec fn requested(&self) -> int {
        self.steps_to_take as int
    }

    /// The number of pulses issued so far.
    pub closed spec fn moved(&self) -> int {
        self.steps_moved as int
    }

    /// The reason the move ended early, if a sensor ended it.
    pub closed spec fn stopped(&self) -> Option<StopReason> {
        self.stop
    }

    /// No pulse is issued beyond the steps asked for, and none is counted
    /// that was not issued.
    #[verifier::type_invariant]
    spec fn within_request(&self) -> bool {
        &&& 0 <= self.steps_moved
        &&& (self.steps_to_take <= 0 ==> self.steps_moved == 0)
        &&& (self.steps_to_take > 0 ==> self.steps_moved <= self.steps_to_take)
    }

    /// The move goes on: no sensor has ended it and steps remain.
    pub open spec fn running(&self) -> bool {
        self.stopped() is None && self.moved() < self.requested()
    }

    /// Starts a move of `steps_to_take` steps; a count of zero or less
    /// takes no step.
    pub fn new(steps_to_take: i32) -> (run: StepperRun)
        ensures
            run.requested() == steps_to_take,
            run.moved() == 0,
            run.stopped() is None,
    {
        StepperRun { steps_to_take, steps_moved: 0, stop: None }
    }

    /// Whether the move goes on; a move that has ended either took every
    /// step asked for (none, for a count of zero or less) or was stopped.
    pub fn is_running(&self) -> (b: bool)
        ensures
            b == self.running(),
            !b ==> self.stopped() is Some || self.moved() == if self.requested() > 0 {
                self.requested()
            } else {
                0
            },
    {
        proof {
            use_type_invariant(self);
        }
        self.stop.is_none() && self.steps_moved < self.steps_to_take
    }

    /// Decides, from a fresh reading of the guarding sensor, whether to
    /// pulse the motor once more or to end the move.
    pub fn next_action(&mut self, reading: SensorReading) -> (action: StepAction)
        requires
            old(self).running(),
        ensures
            final(self).requested() == old(self).requested(),
            (final(self).moved(), final(self).stopped()) == after_reading(old(self).moved(), reading),
            reading_stop(reading) is None ==> final(self).moved() == old(self).moved() + 1
                && final(self).stopped() is None,
            reading_stop(reading) is Some ==> final(self).moved() == old(self).moved()
                && final(self).stopped() == reading_stop(reading),
            match reading_stop(reading) {
                Some(reason) => action == StepAction::Stop(reason),
                None => action == StepAction::Pulse,
            },
    {
        proof {
            use_type_invariant(&*self);
        }
        match stop_reason(reading) {
            Some(reason) => {
                self.stop = Some(reason);
                StepAction::Stop(reason)
            },
            None => {
                self.steps_moved = self.steps_moved + 1;
                StepAction::Pulse
            },
        }
    }

    /// The number of pulses issued so far: never fewer than none, never
    /// more than were asked for.
    pub fn steps_moved(&self) -> (n: i32)
        ensures
            n == self.moved(),
            0 <= n,
            self.requested() <= 0 ==> n == 0,
            self.requested() > 0 ==> n <= self.requested(),
    {
        proof {
            use_type_invariant(self);
        }
        self.steps_moved
    }

    pub fn stop_reason(&self) -> (reason: Option<StopReason>)
        ensures
            reason == self.stopped(),
    {
        self.stop
    }
}

/// A move hands its readings one at a time to `next_action` while it runs:
/// from `moved` pulses, the pulses it ends with are those before the first
/// stopping reading, capped by the steps that remain.
pub proof fn pulses_before_first_stop(requested: int, moved: int, readings: Seq<SensorReading>)
    requires
        0 <= moved,
    ensures
        first_stop(readings) >= 0,
        pulses_after(requested, moved, readings) == moved + min(
            if requested - moved > 0 {
                requested - moved
            } else {
                0
            },
            first_stop(readings),
        ),
    decreases readings.len(),
{
    if readings.len() > 0 {
        if moved < requested && reading_stop(readings[0]) is None {
            pulses_before_first_stop(requested, moved + 1, readings.drop_first());
        } else {
            pulses_before_first_stop(requested, moved, readings.drop_first());
        }
    }
}

/// A whole move takes the smaller of the steps asked for (none, for a
/// count of zero or less) and the number of readings before the first
/// stopping one; two moves with the same request and the same readings of
/// their guarding sensor take the same steps, whatever the sensor that is
/// not read shows.
pub proof fn whole_move_steps(
    requested: int,
    stop_pin: u8,
    levels_low: Seq<bool>,
    adc_values: Seq<i16>,
    other_levels_low: Seq<bool>,
    other_adc_values: Seq<i16>,
)
    ensures
        pulses_after(requested, 0, readings_seen(stop_pin, levels_low, adc_values)) == min(
            if requested > 0 {
                requested
            } else {
                0
            },
            first_stop(readings_seen(stop_pin, levels_low, adc_values)),
        ),
        sensor_for_pin(stop_pin) == StopSensor::EndStopPin && levels_low == other_levels_low
            ==> readings_seen(stop_pin, levels_low, adc_values) == readings_seen(
            stop_pin,
            other_levels_low,
            other_adc_values,
        ),
        sensor_for_pin(stop_pin) == StopSensor::AssemblyAdc && adc_values == other_adc_values
            ==> readings_seen(stop_pin, levels_low, adc_values) == readings_seen(
            stop_pin,
            other_levels_low,
            other_adc_values,
        ),
{
    pulses_before_first_stop(requested, 0, readings_seen(stop_pin, levels_low, adc_values));
}

} // verus!
