use mkautoripper::hardware_layout::{
    DRIVE_COLUMN_LOCATIONS, GPIO_STEPPER_HORIZONTAL_DIRECTION,
    GPIO_STEPPER_HORIZONTAL_END_STOP_LEFT, GPIO_STEPPER_HORIZONTAL_END_STOP_RIGHT,
    GPIO_STEPPER_HORIZONTAL_MOTOR_SPEED, GPIO_STEPPER_HORIZONTAL_PULSE,
    GPIO_STEPPER_TRAY_DIRECTION, GPIO_STEPPER_TRAY_END_STOP_BACK,
    GPIO_STEPPER_TRAY_END_STOP_FRONT, GPIO_STEPPER_TRAY_MOTOR_SPEED, GPIO_STEPPER_TRAY_PULSE,
    GPIO_STEPPER_VERTICAL_DIRECTION, GPIO_STEPPER_VERTICAL_END_STOP_BOTTOM,
    GPIO_STEPPER_VERTICAL_END_STOP_TOP, GPIO_STEPPER_VERTICAL_MOTOR_SPEED,
    GPIO_STEPPER_VERTICAL_PULSE, INPUT_SPINDLE_LOCATIONS, OUTPUT_SPINDLE_LOCATIONS,
};
use mkautoripper::machine::{
    action_for_label, axis_move, find_steps_to_take, homing_move, homing_order,
    horizontal_move_to, Axis, ChoiceAction, MachineState, Position, StepperMove,
};

#[test]
fn jog_step_counts() {
    let expected = [1, 10, 100, 500, 1_000, 5_000, 10_000, 25_000, 50_000, 100_000];
    for (i, steps) in expected.iter().enumerate() {
        assert_eq!(find_steps_to_take(i as i32), *steps);
    }
    assert_eq!(find_steps_to_take(10), 1);
    assert_eq!(find_steps_to_take(-1), 1);
    assert_eq!(find_steps_to_take(i32::MIN), 1);
}

#[test]
fn jog_moves_per_axis() {
    assert_eq!(
        axis_move(Axis::Horizontal, 10, true),
        StepperMove {
            steps_to_take: 10,
            pulse_pin: GPIO_STEPPER_HORIZONTAL_PULSE,
            direction_pin: GPIO_STEPPER_HORIZONTAL_DIRECTION,
            hard_stop_pin: GPIO_STEPPER_HORIZONTAL_END_STOP_LEFT,
            move_clockwise: true,
            motor_speed: GPIO_STEPPER_HORIZONTAL_MOTOR_SPEED,
        }
    );
    assert_eq!(
        axis_move(Axis::Horizontal, 10, false).hard_stop_pin,
        GPIO_STEPPER_HORIZONTAL_END_STOP_RIGHT
    );
    assert_eq!(
        axis_move(Axis::Vertical, 500, true),
        StepperMove {
            steps_to_take: 500,
            pulse_pin: GPIO_STEPPER_VERTICAL_PULSE,
            direction_pin: GPIO_STEPPER_VERTICAL_DIRECTION,
            hard_stop_pin: GPIO_STEPPER_VERTICAL_END_STOP_TOP,
            move_clockwise: true,
            motor_speed: GPIO_STEPPER_VERTICAL_MOTOR_SPEED,
        }
    );
    assert_eq!(
        axis_move(Axis::Vertical, 500, false).hard_stop_pin,
        GPIO_STEPPER_VERTICAL_END_STOP_BOTTOM
    );
    assert_eq!(
        axis_move(Axis::Tray, 1, true),
        StepperMove {
            steps_to_take: 1,
            pulse_pin: GPIO_STEPPER_TRAY_PULSE,
            direction_pin: GPIO_STEPPER_TRAY_DIRECTION,
            hard_stop_pin: GPIO_STEPPER_TRAY_END_STOP_BACK,
            move_clockwise: true,
            motor_speed: GPIO_STEPPER_TRAY_MOTOR_SPEED,
        }
    );
    assert_eq!(axis_move(Axis::Tray, 1, false).hard_stop_pin, GPIO_STEPPER_TRAY_END_STOP_FRONT);
}

#[test]
fn jog_takes_steps_by_magnitude() {
    assert_eq!(axis_move(Axis::Horizontal, -25, true).steps_to_take, 25);
    assert_eq!(axis_move(Axis::Tray, i32::MAX, false).steps_to_take, i32::MAX);
    assert_eq!(axis_move(Axis::Tray, -i32::MAX, false).steps_to_take, i32::MAX);
}

#[test]
fn homing_moves() {
    let order = homing_order();
    assert_eq!(order, vec![Axis::Tray, Axis::Vertical, Axis::Horizontal]);
    let tray = homing_move(Axis::Tray);
    assert_eq!(tray.steps_to_take, i32::MAX);
    assert_eq!(tray.hard_stop_pin, GPIO_STEPPER_TRAY_END_STOP_BACK);
    assert!(!tray.move_clockwise);
    assert_eq!(tray.pulse_pin, GPIO_STEPPER_TRAY_PULSE);
    let vertical = homing_move(Axis::Vertical);
    assert_eq!(vertical.hard_stop_pin, GPIO_STEPPER_VERTICAL_END_STOP_TOP);
    assert!(vertical.move_clockwise);
    assert_eq!(vertical.motor_speed, GPIO_STEPPER_VERTICAL_MOTOR_SPEED);
    let horizontal = homing_move(Axis::Horizontal);
    assert_eq!(horizontal.hard_stop_pin, GPIO_STEPPER_HORIZONTAL_END_STOP_LEFT);
    assert!(horizontal.move_clockwise);
    assert_eq!(horizontal.direction_pin, GPIO_STEPPER_HORIZONTAL_DIRECTION);
}

#[test]
fn homing_zeroes_every_axis() {
    let mut state = MachineState::new();
    state.record_move(Axis::Horizontal, true, 1234);
    state.record_move(Axis::Vertical, false, 77);
    state.record_move(Axis::Tray, true, 9);
    for axis in homing_order() {
        state.zero_axis(axis);
    }
    assert_eq!(state.position, Position { horizontal: 0, vertical: 0, tray: 0 });
}

#[test]
fn homing_interrupted_keeps_later_axes() {
    let mut state = MachineState::new();
    state.record_move(Axis::Horizontal, true, 1234);
    state.record_move(Axis::Vertical, false, 77);
    state.record_move(Axis::Tray, true, 9);
    // the tray homed, then the picker's homing move failed
    state.zero_axis(homing_order()[0]);
    assert_eq!(state.position, Position { horizontal: 1234, vertical: -77, tray: 0 });
}

#[test]
fn new_machine_state() {
    let state = MachineState::new();
    assert_eq!(state.position, Position::default());
    assert_eq!(Position::default(), Position { horizontal: 0, vertical: 0, tray: 0 });
    assert!(!state.vacuum_on);
    assert!(!state.hard_stop);
    assert_eq!(state.drives.len(), 25);
}

#[test]
fn record_moves() {
    let mut state = MachineState::new();
    state.record_move(Axis::Horizontal, true, 100);
    assert_eq!(state.position, Position { horizontal: 100, vertical: 0, tray: 0 });
    state.record_move(Axis::Horizontal, false, 250);
    assert_eq!(state.position, Position { horizontal: -150, vertical: 0, tray: 0 });
    state.record_move(Axis::Vertical, true, 3);
    state.record_move(Axis::Tray, false, 4);
    assert_eq!(state.position, Position { horizontal: -150, vertical: 3, tray: -4 });
    state.zero_axis(Axis::Vertical);
    assert_eq!(state.position, Position { horizontal: -150, vertical: 0, tray: -4 });
}

#[test]
fn reverse_move_restores_position() {
    let mut state = MachineState::new();
    state.record_move(Axis::Tray, true, 42);
    let before = state.position;
    state.record_move(Axis::Tray, true, 500);
    state.record_move(Axis::Tray, false, 500);
    assert_eq!(state.position, before);
}

#[test]
fn move_to_same_place_is_no_move() {
    assert_eq!(horizontal_move_to(160000, 160000), None);
}

#[test]
fn move_to_target_lands_on_it() {
    let plan = horizontal_move_to(INPUT_SPINDLE_LOCATIONS[1], 0).unwrap();
    assert_eq!(plan.steps_to_take, 160000);
    assert!(plan.move_clockwise);
    assert_eq!(plan.hard_stop_pin, GPIO_STEPPER_HORIZONTAL_END_STOP_LEFT);
    let mut state = MachineState::new();
    state.record_move(Axis::Horizontal, plan.move_clockwise, plan.steps_to_take);
    assert_eq!(state.position.horizontal, INPUT_SPINDLE_LOCATIONS[1]);

    let back = horizontal_move_to(0, 315000).unwrap();
    assert_eq!(back.steps_to_take, 315000);
    assert!(!back.move_clockwise);
    assert_eq!(back.hard_stop_pin, GPIO_STEPPER_HORIZONTAL_END_STOP_RIGHT);
}

#[test]
fn move_to_cut_short_stays_between() {
    let plan = horizontal_move_to(1000, 400).unwrap();
    let mut state = MachineState::new();
    state.record_move(Axis::Horizontal, true, 400);
    state.record_move(Axis::Horizontal, plan.move_clockwise, 250);
    assert!(state.position.horizontal > 400 && state.position.horizontal < 1000);
}

#[test]
fn action_labels() {
    assert_eq!(action_for_label("Horizontal to 0"), ChoiceAction::ZeroAxis(Axis::Horizontal));
    assert_eq!(action_for_label("Vertical to 0"), ChoiceAction::ZeroAxis(Axis::Vertical));
    assert_eq!(action_for_label("Camera to 0"), ChoiceAction::ZeroAxis(Axis::Tray));
    assert_eq!(action_for_label("Input One"), ChoiceAction::HorizontalTo(INPUT_SPINDLE_LOCATIONS[0]));
    assert_eq!(action_for_label("Input Two"), ChoiceAction::HorizontalTo(160000));
    assert_eq!(action_for_label("Input Three"), ChoiceAction::HorizontalTo(315000));
    assert_eq!(action_for_label("Output One"), ChoiceAction::HorizontalTo(OUTPUT_SPINDLE_LOCATIONS[0]));
    assert_eq!(action_for_label("Output Two"), ChoiceAction::HorizontalTo(1440000));
    assert_eq!(action_for_label("Output Three"), ChoiceAction::HorizontalTo(1600000));
    assert_eq!(action_for_label("Output Four"), ChoiceAction::HorizontalTo(1756000));
    assert_eq!(action_for_label("Drive Column One"), ChoiceAction::HorizontalTo(DRIVE_COLUMN_LOCATIONS[0]));
    assert_eq!(action_for_label("Drive Column Two"), ChoiceAction::HorizontalTo(709500));
    assert_eq!(action_for_label("Drive Column Three"), ChoiceAction::HorizontalTo(892500));
    assert_eq!(action_for_label("Drive Column Four"), ChoiceAction::HorizontalTo(1083500));
}

#[test]
fn action_labels_without_action() {
    assert_eq!(action_for_label(""), ChoiceAction::NoAction);
    assert_eq!(action_for_label("1 Step"), ChoiceAction::NoAction);
    assert_eq!(action_for_label("Column Camera"), ChoiceAction::NoAction);
    assert_eq!(action_for_label("Drive Row One"), ChoiceAction::NoAction);
    assert_eq!(action_for_label("input one"), ChoiceAction::NoAction);
    assert_eq!(action_for_label("Input One "), ChoiceAction::NoAction);
}
