use mkautoripper::hardware_layout::{
    GPIO_STEPPER_HORIZONTAL_END_STOP_LEFT, GPIO_STEPPER_VERTICAL_END_STOP_ASSEMBLY,
    GPIO_STEPPER_VERTICAL_END_STOP_TOP,
};
use mkautoripper::stepper::{
    stop_reason, stop_sensor_for, SensorReading, StepAction, StepperRun, StopReason, StopSensor,
};

#[test]
fn sensor_choice() {
    assert_eq!(stop_sensor_for(GPIO_STEPPER_VERTICAL_END_STOP_ASSEMBLY), StopSensor::AssemblyAdc);
    assert_eq!(stop_sensor_for(GPIO_STEPPER_VERTICAL_END_STOP_TOP), StopSensor::EndStopPin);
    assert_eq!(stop_sensor_for(GPIO_STEPPER_HORIZONTAL_END_STOP_LEFT), StopSensor::EndStopPin);
}

#[test]
fn readings_that_stop() {
    assert_eq!(stop_reason(SensorReading::EndStop { is_low: true }), Some(StopReason::HardStop));
    assert_eq!(stop_reason(SensorReading::EndStop { is_low: false }), None);
    assert_eq!(stop_reason(SensorReading::Adc { value: 15999 }), Some(StopReason::SensorStop));
    assert_eq!(stop_reason(SensorReading::Adc { value: 16000 }), None);
    assert_eq!(stop_reason(SensorReading::Adc { value: i16::MIN }), Some(StopReason::SensorStop));
    assert_eq!(stop_reason(SensorReading::Adc { value: i16::MAX }), None);
}

#[test]
fn run_to_completion() {
    let mut run = StepperRun::new(3);
    let mut pulses = 0;
    while run.is_running() {
        assert_eq!(run.next_action(SensorReading::EndStop { is_low: false }), StepAction::Pulse);
        pulses += 1;
    }
    assert_eq!(pulses, 3);
    assert_eq!(run.steps_moved(), 3);
    assert_eq!(run.stop_reason(), None);
}

#[test]
fn run_stopped_by_end_stop() {
    let mut run = StepperRun::new(10);
    assert_eq!(run.next_action(SensorReading::EndStop { is_low: false }), StepAction::Pulse);
    assert_eq!(run.next_action(SensorReading::EndStop { is_low: false }), StepAction::Pulse);
    assert_eq!(
        run.next_action(SensorReading::EndStop { is_low: true }),
        StepAction::Stop(StopReason::HardStop)
    );
    assert!(!run.is_running());
    assert_eq!(run.steps_moved(), 2);
    assert_eq!(run.stop_reason(), Some(StopReason::HardStop));
}

#[test]
fn run_stopped_by_sensor_at_once() {
    let mut run = StepperRun::new(i32::MAX);
    assert_eq!(
        run.next_action(SensorReading::Adc { value: 100 }),
        StepAction::Stop(StopReason::SensorStop)
    );
    assert_eq!(run.steps_moved(), 0);
    assert!(!run.is_running());
}

#[test]
fn runs_of_no_steps() {
    assert!(!StepperRun::new(0).is_running());
    assert_eq!(StepperRun::new(0).steps_moved(), 0);
    assert!(!StepperRun::new(-5).is_running());
    assert_eq!(StepperRun::new(-5).steps_moved(), 0);
}
