//! The state of the machine and the planning of its moves: jogging an axis,
//! sending the arm to a named location, and homing every axis.
//!
//! A move is planned as a [`StepperMove`], run on the hardware, and its
//! outcome (the number of steps the motor took) is recorded back into the
//! [`MachineState`].
use vstd::prelude::*;
use crate::drive_layout::{build_drive_layout, slot_matches, DriveSlot, DRIVE_COUNT};
use crate::hardware_layout::{
    DRIVE_COLUMN_LOCATIONS, GPIO_STEPPER_HORIZONTAL_DIRECTION,
    GPIO_STEPPER_HORIZONTAL_END_STOP_LEFT, GPIO_STEPPER_HORIZONTAL_END_STOP_RIGHT,
    GPIO_STEPPER_HORIZONTAL_MOTOR_SPEED, GPIO_STEPPER_HORIZONTAL_PULSE,
    GPIO_STEPPER_TRAY_DIRECTION, GPIO_STEPPER_TRAY_END_STOP_BACK,
    GPIO_STEPPER_TRAY_END_STOP_FRONT, GPIO_STEPPER_TRAY_MOTOR_SPEED, GPIO_STEPPER_TRAY_PULSE,
    GPIO_STEPPER_VERTICAL_DIRECTION, GPIO_STEPPER_VERTICAL_END_STOP_BOTTOM,
    GPIO_STEPPER_VERTICAL_END_STOP_TOP, GPIO_STEPPER_VERTICAL_MOTOR_SPEED,
    GPIO_STEPPER_VERTICAL_PULSE, INPUT_SPINDLE_LOCATIONS, OUTPUT_SPINDLE_LOCATIONS,
};
use crate::byte_size::{decimal_text, digit_char};
use crate::text::{join_texts, joined, same_text, texts};

verus! {

/// The three motorised axes.
#[derive(Debug, Clone, Copy, PartialEq, Eq, Structural)]
pub enum Axis {
    /// The arm assembly, moving left and right along its track.
    Horizontal,
    /// The picker, moving up and down.
    Vertical,
    /// The photo tray, moving back and forth.
    Tray,
}

/// One run of a stepper motor: the arguments of a stepper move.
#[derive(Debug, Clone, Copy, PartialEq, Eq, Structural)]
pub struct StepperMove {
    pub steps_to_take: i32,
    pub pulse_pin: u8,
    pub direction_pin: u8,
    pub hard_stop_pin: u8,
    pub move_clockwise: bool,
    pub motor_speed: u64,
}

/// The position of each axis, in steps from its zero.
#[derive(Debug, Clone, Copy, PartialEq, Eq, Structural)]
pub struct Position {
    pub horizontal: i32,
    pub vertical: i32,
    pub tray: i32,
}

impl Default for Position {
    fn default() -> (p: Position)
        ensures
            p == (Position { horizontal: 0, vertical: 0, tray: 0 }),
    {
        Position { horizontal: 0, vertical: 0, tray: 0 }
    }
}

#[derive(Debug)]
pub struct MachineState {
    pub position: Position,
    pub vacuum_on: bool,
    pub hard_stop: bool,
    pub drives: Vec<DriveSlot>,
}

pub open spec fn fits_i32(v: int) -> bool {
    i32::MIN <= v <= i32::MAX
}

pub open spec fn abs(v: int) -> int {
    if v < 0 {
        -v
    } else {
        v
    }
}

/// The position of `axis` in `p`.
pub open spec fn axis_value(p: Position, axis: Axis) -> int {
    match axis {
        Axis::Horizontal => p.horizontal as int,
        Axis::Vertical => p.vertical as int,
        Axis::Tray => p.tray as int,
    }
}

/// `p` with the position of `axis` set to `v`.
pub open spec fn with_axis(p: Position, axis: Axis, v: i32) -> Position {
    match axis {
        Axis::Horizontal => Position { horizontal: v, ..p },
        Axis::Vertical => Position { vertical: v, ..p },
        Axis::Tray => Position { tray: v, ..p },
    }
}

/// The position reached from `value` after `taken` steps, counted up when
/// `forward` and down otherwise.
pub open spec fn moved_value(value: int, forward: bool, taken: int) -> int {
    if forward {
        value + taken
    } else {
        value - taken
    }
}

/// The step counts offered by the jog selector, by selector index.
pub open spec fn jog_steps(choice_index: int) -> i32 {
    if choice_index == 0 {
        1
    } else if choice_index == 1 {
        10
    } else if choice_index == 2 {
        100
    } else if choice_index == 3 {
        500
    } else if choice_index == 4 {
        1_000
    } else if choice_index == 5 {
        5_000
    } else if choice_index == 6 {
        10_000
    } else if choice_index == 7 {
        25_000
    } else if choice_index == 8 {
        50_000
    } else if choice_index == 9 {
        100_000
    } else {
        1
    }
}

pub open spec fn axis_pulse_pin(axis: Axis) -> u8 {
    match axis {
        Axis::Horizontal => GPIO_STEPPER_HORIZONTAL_PULSE,
        Axis::Vertical => GPIO_STEPPER_VERTICAL_PULSE,
        Axis::Tray => GPIO_STEPPER_TRAY_PULSE,
    }
}

pub open spec fn axis_direction_pin(axis: Axis) -> u8 {
    match axis {
        Axis::Horizontal => GPIO_STEPPER_HORIZONTAL_DIRECTION,
        Axis::Vertical => GPIO_STEPPER_VERTICAL_DIRECTION,
        Axis::Tray => GPIO_STEPPER_TRAY_DIRECTION,
    }
}

pub open spec fn axis_motor_speed(axis: Axis) -> u64 {
    match axis {
        Axis::Horizontal => GPIO_STEPPER_HORIZONTAL_MOTOR_SPEED,
        Axis::Vertical => GPIO_STEPPER_VERTICAL_MOTOR_SPEED,
        Axis::Tray => GPIO_STEPPER_TRAY_MOTOR_SPEED,
    }
}

/// The end stop that guards a jog of `axis`: clockwise (horizontal),
/// upward (vertical) and backward (tray) moves count as `forward`.
pub open spec fn jog_end_stop(axis: Axis, forward: bool) -> u8 {
    match axis {
        Axis::Horizontal => if forward {
            GPIO_STEPPER_HORIZONTAL_END_STOP_LEFT
        } else {
            GPIO_STEPPER_HORIZONTAL_END_STOP_RIGHT
        },
        Axis::Vertical => if forward {
            GPIO_STEPPER_VERTICAL_END_STOP_TOP
        } else {
            GPIO_STEPPER_VERTICAL_END_STOP_BOTTOM
        },
        Axis::Tray => if forward {
            GPIO_STEPPER_TRAY_END_STOP_BACK
        } else {
            GPIO_STEPPER_TRAY_END_STOP_FRONT
        },
    }
}

/// The stepper move that jogs `axis` by `steps` (taken by magnitude) in the
/// direction `forward`.
pub open spec fn jog_plan(axis: Axis, steps: int, forward: bool) -> StepperMove {
    StepperMove {
        steps_to_take: abs(steps) as i32,
        pulse_pin: axis_pulse_pin(axis),
        direction_pin: axis_direction_pin(axis),
        hard_stop_pin: jog_end_stop(axis, forward),
        move_clockwise: forward,
        motor_speed: axis_motor_speed(axis),
    }
}

/// The move that sends `axis` towards its end stop to find its zero.
pub open spec fn homing_plan(axis: Axis) -> StepperMove {
    StepperMove {
        steps_to_take: i32::MAX,
        pulse_pin: axis_pulse_pin(axis),
        direction_pin: axis_direction_pin(axis),
        hard_stop_pin: match axis {
            Axis::Horizontal => GPIO_STEPPER_HORIZONTAL_END_STOP_LEFT,
            Axis::Vertical => GPIO_STEPPER_VERTICAL_END_STOP_TOP,
            Axis::Tray => GPIO_STEPPER_TRAY_END_STOP_BACK,
        },
        move_clockwise: match axis {
            Axis::Horizontal => true,
            Axis::Vertical => true,
            Axis::Tray => false,
        },
        motor_speed: axis_motor_speed(axis),
    }
}

/// The order in which the axes are homed: tray, then picker, then arm.
pub open spec fn homing_sequence() -> Seq<Axis> {
    seq![Axis::Tray, Axis::Vertical, Axis::Horizontal]
}

/// The position after the first `k` axes of the homing order were homed.
pub open spec fn after_homing(p: Position, k: nat) -> Position
    decreases k,
{
    if k == 0 {
        p
    } else {
        with_axis(after_homing(p, (k - 1) as nat), homing_sequence()[k - 1], 0)
    }
}

/// The horizontal move from `current` to `target`, if any is needed.
pub open spec fn move_to_plan(target: int, current: int) -> Option<StepperMove> {
    if target == current {
        None
    } else {
        Some(jog_plan(Axis::Horizontal, target - current, target > current))
    }
}

/// The jog buttons of the terminal.
#[derive(Debug, Clone, Copy, PartialEq, Eq, Structural)]
pub enum JogButton {
    Left,
    Right,
    Up,
    Down,
    Back,
    Forward,
}

/// The axis a jog button moves, and whether it moves it forward
/// (clockwise, upward, backward).
pub open spec fn button_jog(button: JogButton) -> (Axis, bool) {
    match button {
        JogButton::Right => (Axis::Horizontal, true),
        JogButton::Left => (Axis::Horizontal, false),
        JogButton::Up => (Axis::Vertical, true),
        JogButton::Down => (Axis::Vertical, false),
        JogButton::Back => (Axis::Tray, true),
        JogButton::Forward => (Axis::Tray, false),
    }
}

/// What an entry of the action selector does.
#[derive(Debug, Clone, Copy, PartialEq, Eq, Structural)]
pub enum ChoiceAction {
    /// Declare the axis's current place to be its zero, without moving.
    ZeroAxis(Axis),
    /// Move the arm to the given horizontal location.
    HorizontalTo(i32),
    /// Nothing to do.
    NoAction,
}

/// The action that the selector entry labelled `label` stands for.
pub open spec fn action_for(label: Seq<char>) -> ChoiceAction {
    if label == "Horizontal to 0"@ {
        ChoiceAction::ZeroAxis(Axis::Horizontal)
    } else if label == "Vertical to 0"@ {
        ChoiceAction::ZeroAxis(Axis::Vertical)
    } else if label == "Camera to 0"@ {
        ChoiceAction::ZeroAxis(Axis::Tray)
    } else if label == "Input One"@ {
        ChoiceAction::HorizontalTo(INPUT_SPINDLE_LOCATIONS@[0])
    } else if label == "Input Two"@ {
        ChoiceAction::HorizontalTo(INPUT_SPINDLE_LOCATIONS@[1])
    } else if label == "Input Three"@ {
        ChoiceAction::HorizontalTo(INPUT_SPINDLE_LOCATIONS@[2])
    } else if label == "Output One"@ {
        ChoiceAction::HorizontalTo(OUTPUT_SPINDLE_LOCATIONS@[0])
    } else if label == "Output Two"@ {
        ChoiceAction::HorizontalTo(OUTPUT_SPINDLE_LOCATIONS@[1])
    } else if label == "Output Three"@ {
        ChoiceAction::HorizontalTo(OUTPUT_SPINDLE_LOCATIONS@[2])
    } else if label == "Output Four"@ {
        ChoiceAction::HorizontalTo(OUTPUT_SPINDLE_LOCATIONS@[3])
    } else if label == "Drive Column One"@ {
        ChoiceAction::HorizontalTo(DRIVE_COLUMN_LOCATIONS@[0])
    } else if label == "Drive Column Two"@ {
        ChoiceAction::HorizontalTo(DRIVE_COLUMN_LOCATIONS@[1])
    } else if label == "Drive Column Three"@ {
        ChoiceAction::HorizontalTo(DRIVE_COLUMN_LOCATIONS@[2])
    } else if label == "Drive Column Four"@ {
        ChoiceAction::HorizontalTo(DRIVE_COLUMN_LOCATIONS@[3])
    } else {
        ChoiceAction::NoAction
    }
}

/// The number of steps that a jog takes, from the index of the step
/// selector.
pub fn find_steps_to_take(choice_index: i32) -> (steps: i32)
    ensures
        steps == jog_steps(choice_index as int),
        steps >= 1,
{
    match choice_index {
        0 => 1,
        1 => 10,
        2 => 100,
        3 => 500,
        4 => 1_000,
        5 => 5_000,
        6 => 10_000,
        7 => 25_000,
        8 => 50_000,
        9 => 100_000,
        _ => 1,
    }
}

fn pulse_pin(axis: Axis) -> (pin: u8)
    ensures
        pin == axis_pulse_pin(axis),
{
    match axis {
        Axis::Horizontal => GPIO_STEPPER_HORIZONTAL_PULSE,
        Axis::Vertical => GPIO_STEPPER_VERTICAL_PULSE,
        Axis::Tray => GPIO_STEPPER_TRAY_PULSE,
    }
}

fn direction_pin(axis: Axis) -> (pin: u8)
    ensures
        pin == axis_direction_pin(axis),
{
    match axis {
        Axis::Horizontal => GPIO_STEPPER_HORIZONTAL_DIRECTION,
        Axis::Vertical => GPIO_STEPPER_VERTICAL_DIRECTION,
        Axis::Tray => GPIO_STEPPER_TRAY_DIRECTION,
    }
}

fn motor_speed(axis: Axis) -> (speed: u64)
    ensures
        speed == axis_motor_speed(axis),
{
    match axis {
        Axis::Horizontal => GPIO_STEPPER_HORIZONTAL_MOTOR_SPEED,
        Axis::Vertical => GPIO_STEPPER_VERTICAL_MOTOR_SPEED,
        Axis::Tray => GPIO_STEPPER_TRAY_MOTOR_SPEED,
    }
}

/// The axis a jog button moves, and in which direction.
pub fn jog_for_button(button: JogButton) -> (jog: (Axis, bool))
    ensures
        jog == button_jog(button),
{
    match button {
        JogButton::Right => (Axis::Horizontal, true),
        JogButton::Left => (Axis::Horizontal, false),
        JogButton::Up => (Axis::Vertical, true),
        JogButton::Down => (Axis::Vertical, false),
        JogButton::Back => (Axis::Tray, true),
        JogButton::Forward => (Axis::Tray, false),
    }
}

/// Plans a jog of `axis` by `steps` steps (their sign is ignored) in the
/// direction `forward`: clockwise for the arm, upward for the picker and
/// backward for the tray.
pub fn axis_move(axis: Axis, steps: i32, forward: bool) -> (mv: StepperMove)
    requires
        steps != i32::MIN,
    ensures
        mv == jog_plan(axis, steps as int, forward),
        mv.move_clockwise == forward,
        mv.steps_to_take == abs(steps as int),
{
    let hard_stop_pin = match axis {
        Axis::Horizontal => if forward {
            GPIO_STEPPER_HORIZONTAL_END_STOP_LEFT
        } else {
            GPIO_STEPPER_HORIZONTAL_END_STOP_RIGHT
        },
        Axis::Vertical => if forward {
            GPIO_STEPPER_VERTICAL_END_STOP_TOP
        } else {
            GPIO_STEPPER_VERTICAL_END_STOP_BOTTOM
        },
        Axis::Tray => if forward {
            GPIO_STEPPER_TRAY_END_STOP_BACK
        } else {
            GPIO_STEPPER_TRAY_END_STOP_FRONT
        },
    };
    let magnitude: i32 = if steps < 0 {
        -steps
    } else {
        steps
    };
    StepperMove {
        steps_to_take: magnitude,
        pulse_pin: pulse_pin(axis),
        direction_pin: direction_pin(axis),
        hard_stop_pin,
        move_clockwise: forward,
        motor_speed: motor_speed(axis),
    }
}

/// Plans the move that homes `axis` against its end stop.
pub fn homing_move(axis: Axis) -> (mv: StepperMove)
    ensures
        mv == homing_plan(axis),
        mv.steps_to_take == i32::MAX,
{
    let (hard_stop_pin, move_clockwise) = match axis {
        Axis::Horizontal => (GPIO_STEPPER_HORIZONTAL_END_STOP_LEFT, true),
        Axis::Vertical => (GPIO_STEPPER_VERTICAL_END_STOP_TOP, true),
        Axis::Tray => (GPIO_STEPPER_TRAY_END_STOP_BACK, false),
    };
    StepperMove {
        steps_to_take: i32::MAX,
        pulse_pin: pulse_pin(axis),
        direction_pin: direction_pin(axis),
        hard_stop_pin,
        move_clockwise,
        motor_speed: motor_speed(axis),
    }
}

/// The axes in the order in which they are homed.
pub fn homing_order() -> (order: Vec<Axis>)
    ensures
        order@ == homing_sequence(),
{
    let mut order = Vec::new();
    order.push(Axis::Tray);
    order.push(Axis::Vertical);
    order.push(Axis::Horizontal);
    assert(order@ =~= homing_sequence());
    order
}

/// Plans the horizontal move from `current` to `target`: none when the arm
/// is already there, else a move of the distance towards the target.
pub fn horizontal_move_to(target: i32, current: i32) -> (plan: Option<StepperMove>)
    requires
        fits_i32(target - current),
        target - current != i32::MIN,
    ensures
        plan == move_to_plan(target as int, current as int),
        plan is None <==> target == current,
        plan matches Some(mv) ==> mv.steps_to_take == abs(target - current) && mv.move_clockwise
            == (target > current) && moved_value(current as int, mv.move_clockwise, mv.steps_to_take as int)
            == target,
{
    if target == current {
        return None;
    }
    let delta: i32 = target - current;
    let distance: i32 = if delta < 0 {
        -delta
    } else {
        delta
    };
    let clockwise = target > current;
    Some(axis_move(Axis::Horizontal, distance, clockwise))
}

/// The action that the selector entry labelled `label` stands for.
pub fn action_for_label(label: &str) -> (action: ChoiceAction)
    ensures
        action == action_for(label@),
{
    if same_text(label, "Horizontal to 0") {
        ChoiceAction::ZeroAxis(Axis::Horizontal)
    } else if same_text(label, "Vertical to 0") {
        ChoiceAction::ZeroAxis(Axis::Vertical)
    } else if same_text(label, "Camera to 0") {
        ChoiceAction::ZeroAxis(Axis::Tray)
    } else if same_text(label, "Input One") {
        ChoiceAction::HorizontalTo(INPUT_SPINDLE_LOCATIONS[0])
    } else if same_text(label, "Input Two") {
        ChoiceAction::HorizontalTo(INPUT_SPINDLE_LOCATIONS[1])
    } else if same_text(label, "Input Three") {
        ChoiceAction::HorizontalTo(INPUT_SPINDLE_LOCATIONS[2])
    } else if same_text(label, "Output One") {
        ChoiceAction::HorizontalTo(OUTPUT_SPINDLE_LOCATIONS[0])
    } else if same_text(label, "Output Two") {
        ChoiceAction::HorizontalTo(OUTPUT_SPINDLE_LOCATIONS[1])
    } else if same_text(label, "Output Three") {
        ChoiceAction::HorizontalTo(OUTPUT_SPINDLE_LOCATIONS[2])
    } else if same_text(label, "Output Four") {
        ChoiceAction::HorizontalTo(OUTPUT_SPINDLE_LOCATIONS[3])
    } else if same_text(label, "Drive Column One") {
        ChoiceAction::HorizontalTo(DRIVE_COLUMN_LOCATIONS[0])
    } else if same_text(label, "Drive Column Two") {
        ChoiceAction::HorizontalTo(DRIVE_COLUMN_LOCATIONS[1])
    } else if same_text(label, "Drive Column Three") {
        ChoiceAction::HorizontalTo(DRIVE_COLUMN_LOCATIONS[2])
    } else if same_text(label, "Drive Column Four") {
        ChoiceAction::HorizontalTo(DRIVE_COLUMN_LOCATIONS[3])
    } else {
        ChoiceAction::NoAction
    }
}

impl MachineState {
    /// A machine at the zero of every axis, vacuum off, with the full drive
    /// rack and none of its drives in use.
    pub fn new() -> (state: MachineState)
        ensures
            state.position == (Position { horizontal: 0, vertical: 0, tray: 0 }),
            !state.vacuum_on,
            !state.hard_stop,
            state.drives.len() == DRIVE_COUNT,
            forall|i: int| 0 <= i < DRIVE_COUNT ==> #[trigger] slot_matches(state.drives@[i], i),
    {
        MachineState {
            position: Position::default(),
            vacuum_on: false,
            hard_stop: false,
            drives: build_drive_layout(),
        }
    }

    /// Records that `axis` took `taken` steps in the direction `forward`.
    pub fn record_move(&mut self, axis: Axis, forward: bool, taken: i32)
        requires
            fits_i32(moved_value(axis_value(old(self).position, axis), forward, taken as int)),
        ensures
            final(self).position == with_axis(
                old(self).position,
                axis,
                moved_value(axis_value(old(self).position, axis), forward, taken as int) as i32,
            ),
            axis == Axis::Horizontal ==> final(self).position == (Position {
                horizontal: (old(self).position.horizontal + if forward {
                    taken as int
                } else {
                    -taken
                }) as i32,
                ..old(self).position
            }),
            axis == Axis::Vertical ==> final(self).position == (Position {
                vertical: (old(self).position.vertical + if forward {
                    taken as int
                } else {
                    -taken
                }) as i32,
                ..old(self).position
            }),
            axis == Axis::Tray ==> final(self).position == (Position {
                tray: (old(self).position.tray + if forward {
                    taken as int
                } else {
                    -taken
                }) as i32,
                ..old(self).position
            }),
            final(self).vacuum_on == old(self).vacuum_on,
            final(self).hard_stop == old(self).hard_stop,
            final(self).drives == old(self).drives,
    {
        match axis {
            Axis::Horizontal => {
                if forward {
                    self.position.horizontal = self.position.horizontal + taken;
                } else {
                    self.position.horizontal = self.position.horizontal - taken;
                }
            },
            Axis::Vertical => {
                if forward {
                    self.position.vertical = self.position.vertical + taken;
                } else {
                    self.position.vertical = self.position.vertical - taken;
                }
            },
            Axis::Tray => {
                if forward {
                    self.position.tray = self.position.tray + taken;
                } else {
                    self.position.tray = self.position.tray - taken;
                }
            },
        }
    }

    /// The vacuum state that a press of the vacuum button asks for.
    pub fn vacuum_toggle_target(&self) -> (on: bool)
        ensures
            on == !self.vacuum_on,
    {
        !self.vacuum_on
    }

    /// Records the outcome of switching the vacuum relay to `target`: the
    /// recorded state follows the relay only when the switch succeeded.
    pub fn record_vacuum_switch(&mut self, target: bool, switched: bool)
        ensures
            final(self).vacuum_on == if switched {
                target
            } else {
                old(self).vacuum_on
            },
            final(self).position == old(self).position,
            final(self).hard_stop == old(self).hard_stop,
            final(self).drives == old(self).drives,
    {
        if switched {
            self.vacuum_on = target;
        }
    }

    /// Makes the current place of `axis` its zero.
    pub fn zero_axis(&mut self, axis: Axis)
        ensures
            final(self).position == with_axis(old(self).position, axis, 0),
            axis == Axis::Horizontal ==> final(self).position == (Position {
                horizontal: 0,
                ..old(self).position
            }),
            axis == Axis::Vertical ==> final(self).position == (Position {
                vertical: 0,
                ..old(self).position
            }),
            axis == Axis::Tray ==> final(self).position == (Position { tray: 0, ..old(self).position }),
            final(self).vacuum_on == old(self).vacuum_on,
            final(self).hard_stop == old(self).hard_stop,
            final(self).drives == old(self).drives,
    {
        match axis {
            Axis::Horizontal => self.position.horizontal = 0,
            Axis::Vertical => self.position.vertical = 0,
            Axis::Tray => self.position.tray = 0,
        }
    }
}

/// The entries of the action selector, in order: ten jog step counts,
/// then the named locations, then the zeroing entries.
pub open spec fn action_labels() -> Seq<Seq<char>> {
    seq![
        "1 Step"@,
        "10 Steps"@,
        "100 Steps"@,
        "500 Steps"@,
        "1,000 Steps"@,
        "5,000 Steps"@,
        "10,000 Steps"@,
        "25,000 Steps"@,
        "50,000 Steps"@,
        "100,000 Steps"@,
        "Input One"@,
        "Input Two"@,
        "Input Three"@,
        "Output One"@,
        "Output Two"@,
        "Output Three"@,
        "Output Four"@,
        "Drive Column One"@,
        "Drive Column Two"@,
        "Drive Column Three"@,
        "Drive Column Four"@,
        "Column Camera"@,
        "Column HDDVD"@,
        "Drive Row One"@,
        "Drive Row Two"@,
        "Drive Row Three"@,
        "Drive Row Four"@,
        "Row Camera"@,
        "Row HDDVD"@,
        "Horizontal to 0"@,
        "Vertical to 0"@,
        "Camera to 0"@,
    ]
}

/// What the entry at index `i` of the action selector does.
pub open spec fn entry_action(i: int) -> ChoiceAction {
    if i == 10 {
        ChoiceAction::HorizontalTo(INPUT_SPINDLE_LOCATIONS@[0])
    } else if i == 11 {
        ChoiceAction::HorizontalTo(INPUT_SPINDLE_LOCATIONS@[1])
    } else if i == 12 {
        ChoiceAction::HorizontalTo(INPUT_SPINDLE_LOCATIONS@[2])
    } else if i == 13 {
        ChoiceAction::HorizontalTo(OUTPUT_SPINDLE_LOCATIONS@[0])
    } else if i == 14 {
        ChoiceAction::HorizontalTo(OUTPUT_SPINDLE_LOCATIONS@[1])
    } else if i == 15 {
        ChoiceAction::HorizontalTo(OUTPUT_SPINDLE_LOCATIONS@[2])
    } else if i == 16 {
        ChoiceAction::HorizontalTo(OUTPUT_SPINDLE_LOCATIONS@[3])
    } else if i == 17 {
        ChoiceAction::HorizontalTo(DRIVE_COLUMN_LOCATIONS@[0])
    } else if i == 18 {
        ChoiceAction::HorizontalTo(DRIVE_COLUMN_LOCATIONS@[1])
    } else if i == 19 {
        ChoiceAction::HorizontalTo(DRIVE_COLUMN_LOCATIONS@[2])
    } else if i == 20 {
        ChoiceAction::HorizontalTo(DRIVE_COLUMN_LOCATIONS@[3])
    } else if i == 29 {
        ChoiceAction::ZeroAxis(Axis::Horizontal)
    } else if i == 30 {
        ChoiceAction::ZeroAxis(Axis::Vertical)
    } else if i == 31 {
        ChoiceAction::ZeroAxis(Axis::Tray)
    } else {
        ChoiceAction::NoAction
    }
}

/// The entries of the action selector, separated by `|`.
pub fn action_choice_list() -> (list: String)
    ensures
        list@ == joined(action_labels(), "|"@),
{
    let mut labels: Vec<String> = Vec::new();
    labels.push(String::from_str("1 Step"));
    labels.push(String::from_str("10 Steps"));
    labels.push(String::from_str("100 Steps"));
    labels.push(String::from_str("500 Steps"));
    labels.push(String::from_str("1,000 Steps"));
    labels.push(String::from_str("5,000 Steps"));
    labels.push(String::from_str("10,000 Steps"));
    labels.push(String::from_str("25,000 Steps"));
    labels.push(String::from_str("50,000 Steps"));
    labels.push(String::from_str("100,000 Steps"));
    labels.push(String::from_str("Input One"));
    labels.push(String::from_str("Input Two"));
    labels.push(String::from_str("Input Three"));
    labels.push(String::from_str("Output One"));
    labels.push(String::from_str("Output Two"));
    labels.push(String::from_str("Output Three"));
    labels.push(String::from_str("Output Four"));
    labels.push(String::from_str("Drive Column One"));
    labels.push(String::from_str("Drive Column Two"));
    labels.push(String::from_str("Drive Column Three"));
    labels.push(String::from_str("Drive Column Four"));
    labels.push(String::from_str("Column Camera"));
    labels.push(String::from_str("Column HDDVD"));
    labels.push(String::from_str("Drive Row One"));
    labels.push(String::from_str("Drive Row Two"));
    labels.push(String::from_str("Drive Row Three"));
    labels.push(String::from_str("Drive Row Four"));
    labels.push(String::from_str("Row Camera"));
    labels.push(String::from_str("Row HDDVD"));
    labels.push(String::from_str("Horizontal to 0"));
    labels.push(String::from_str("Vertical to 0"));
    labels.push(String::from_str("Camera to 0"));
    assert(texts(labels@) =~= action_labels());
    join_texts(&labels, "|")
}

/// Each entry of the action selector does what its index says: its label
/// maps, through `action_for`, to the action of that entry.
pub proof fn action_entries_map_through_labels(i: int)
    requires
        0 <= i < 32,
    ensures
        action_for(action_labels()[i]) == entry_action(i),
{
    reveal_strlit("1 Step");
    reveal_strlit("10 Steps");
    reveal_strlit("100 Steps");
    reveal_strlit("500 Steps");
    reveal_strlit("1,000 Steps");
    reveal_strlit("5,000 Steps");
    reveal_strlit("10,000 Steps");
    reveal_strlit("25,000 Steps");
    reveal_strlit("50,000 Steps");
    reveal_strlit("100,000 Steps");
    reveal_strlit("Input One");
    reveal_strlit("Input Two");
    reveal_strlit("Input Three");
    reveal_strlit("Output One");
    reveal_strlit("Output Two");
    reveal_strlit("Output Three");
    reveal_strlit("Output Four");
    reveal_strlit("Drive Column One");
    reveal_strlit("Drive Column Two");
    reveal_strlit("Drive Column Three");
    reveal_strlit("Drive Column Four");
    reveal_strlit("Column Camera");
    reveal_strlit("Column HDDVD");
    reveal_strlit("Drive Row One");
    reveal_strlit("Drive Row Two");
    reveal_strlit("Drive Row Three");
    reveal_strlit("Drive Row Four");
    reveal_strlit("Row Camera");
    reveal_strlit("Row HDDVD");
    reveal_strlit("Horizontal to 0");
    reveal_strlit("Vertical to 0");
    reveal_strlit("Camera to 0");
    assert("1 Step"@.len() == 6);
    assert("10 Steps"@.len() == 8);
    assert("100 Steps"@.len() == 9);
    assert("500 Steps"@.len() == 9);
    assert("1,000 Steps"@.len() == 11);
    assert("5,000 Steps"@.len() == 11);
    assert("10,000 Steps"@.len() == 12);
    assert("25,000 Steps"@.len() == 12);
    assert("50,000 Steps"@.len() == 12);
    assert("100,000 Steps"@.len() == 13);
    assert("Input One"@.len() == 9);
    assert("Input Two"@.len() == 9);
    assert("Input Three"@.len() == 11);
    assert("Output One"@.len() == 10);
    assert("Output Two"@.len() == 10);
    assert("Output Three"@.len() == 12);
    assert("Output Four"@.len() == 11);
    assert("Drive Column One"@.len() == 16);
    assert("Drive Column Two"@.len() == 16);
    assert("Drive Column Three"@.len() == 18);
    assert("Drive Column Four"@.len() == 17);
    assert("Column Camera"@.len() == 13);
    assert("Column HDDVD"@.len() == 12);
    assert("Drive Row One"@.len() == 13);
    assert("Drive Row Two"@.len() == 13);
    assert("Drive Row Three"@.len() == 15);
    assert("Drive Row Four"@.len() == 14);
    assert("Row Camera"@.len() == 10);
    assert("Row HDDVD"@.len() == 9);
    assert("Horizontal to 0"@.len() == 15);
    assert("Vertical to 0"@.len() == 13);
    assert("Camera to 0"@.len() == 11);
    if i == 0 {
    } else if i == 1 {
    } else if i == 2 {
        assert("100 Steps"@[0] != "Input One"@[0]);
        assert("100 Steps"@[0] != "Input Two"@[0]);
    } else if i == 3 {
        assert("500 Steps"@[0] != "Input One"@[0]);
        assert("500 Steps"@[0] != "Input Two"@[0]);
    } else if i == 4 {
        assert("1,000 Steps"@[0] != "Camera to 0"@[0]);
        assert("1,000 Steps"@[0] != "Input Three"@[0]);
        assert("1,000 Steps"@[0] != "Output Four"@[0]);
    } else if i == 5 {
        assert("5,000 Steps"@[0] != "Camera to 0"@[0]);
        assert("5,000 Steps"@[0] != "Input Three"@[0]);
        assert("5,000 Steps"@[0] != "Output Four"@[0]);
    } else if i == 6 {
        assert("10,000 Steps"@[0] != "Output Three"@[0]);
    } else if i == 7 {
        assert("25,000 Steps"@[0] != "Output Three"@[0]);
    } else if i == 8 {
        assert("50,000 Steps"@[0] != "Output Three"@[0]);
    } else if i == 9 {
        assert("100,000 Steps"@[0] != "Vertical to 0"@[0]);
    } else if i == 10 {
    } else if i == 11 {
        assert("Input Two"@[6] != "Input One"@[6]);
    } else if i == 12 {
        assert("Input Three"@[0] != "Camera to 0"@[0]);
    } else if i == 13 {
    } else if i == 14 {
        assert("Output Two"@[7] != "Output One"@[7]);
    } else if i == 15 {
    } else if i == 16 {
        assert("Output Four"@[0] != "Camera to 0"@[0]);
        assert("Output Four"@[0] != "Input Three"@[0]);
    } else if i == 17 {
    } else if i == 18 {
        assert("Drive Column Two"@[13] != "Drive Column One"@[13]);
    } else if i == 19 {
    } else if i == 20 {
    } else if i == 21 {
        assert("Column Camera"@[0] != "Vertical to 0"@[0]);
    } else if i == 22 {
        assert("Column HDDVD"@[0] != "Output Three"@[0]);
    } else if i == 23 {
        assert("Drive Row One"@[0] != "Vertical to 0"@[0]);
    } else if i == 24 {
        assert("Drive Row Two"@[0] != "Vertical to 0"@[0]);
    } else if i == 25 {
        assert("Drive Row Three"@[0] != "Horizontal to 0"@[0]);
    } else if i == 26 {
    } else if i == 27 {
        assert("Row Camera"@[0] != "Output One"@[0]);
        assert("Row Camera"@[0] != "Output Two"@[0]);
    } else if i == 28 {
        assert("Row HDDVD"@[0] != "Input One"@[0]);
        assert("Row HDDVD"@[0] != "Input Two"@[0]);
    } else if i == 29 {
    } else if i == 30 {
    } else if i == 31 {
    }
}

/// Three decimal digits of `r`, with leading zeros.
pub open spec fn three_digits(r: nat) -> Seq<char> {
    seq![
        digit_char((r / 100) as int),
        digit_char(((r / 10) % 10) as int),
        digit_char((r % 10) as int),
    ]
}

/// The decimal notation of `n` with a comma between groups of thousands.
pub open spec fn grouped_decimal(n: nat) -> Seq<char>
    decreases n,
{
    if n < 1000 {
        decimal_text(n)
    } else {
        grouped_decimal(n / 1000) + ","@ + three_digits(n % 1000)
    }
}

/// The label of a jog of `steps` steps.
pub open spec fn jog_label(steps: nat) -> Seq<char> {
    grouped_decimal(steps) + if steps == 1 {
        " Step"@
    } else {
        " Steps"@
    }
}

/// The first ten entries of the action selector name the step counts that
/// a jog takes when the selector stands on them.
pub proof fn jog_entries_name_their_steps(i: int)
    requires
        0 <= i < 10,
    ensures
        action_labels()[i] == jog_label(jog_steps(i) as nat),
{
    reveal_with_fuel(decimal_text, 4);
    reveal_with_fuel(grouped_decimal, 3);
    reveal_strlit(" Step");
    reveal_strlit(" Steps");
    reveal_strlit(",");
    reveal_strlit("1 Step");
    reveal_strlit("10 Steps");
    reveal_strlit("100 Steps");
    reveal_strlit("500 Steps");
    reveal_strlit("1,000 Steps");
    reveal_strlit("5,000 Steps");
    reveal_strlit("10,000 Steps");
    reveal_strlit("25,000 Steps");
    reveal_strlit("50,000 Steps");
    reveal_strlit("100,000 Steps");
    if i == 0 {
        assert(jog_label(1) =~= "1 Step"@);
    } else if i == 1 {
        assert(jog_label(10) =~= "10 Steps"@);
    } else if i == 2 {
        assert(jog_label(100) =~= "100 Steps"@);
    } else if i == 3 {
        assert(jog_label(500) =~= "500 Steps"@);
    } else if i == 4 {
        assert(jog_label(1000) =~= "1,000 Steps"@);
    } else if i == 5 {
        assert(jog_label(5000) =~= "5,000 Steps"@);
    } else if i == 6 {
        assert(jog_label(10000) =~= "10,000 Steps"@);
    } else if i == 7 {
        assert(jog_label(25000) =~= "25,000 Steps"@);
    } else if i == 8 {
        assert(jog_label(50000) =~= "50,000 Steps"@);
    } else if i == 9 {
        assert(jog_label(100000) =~= "100,000 Steps"@);
    }
}

/// The sign of a jog's step count is ignored, the direction coming from
/// `forward` alone; and however few of its steps the motor takes, a jog
/// moves its axis by no more than the steps asked for.
pub proof fn jog_ignores_sign(axis: Axis, steps: int, forward: bool, value: int, taken: int)
    requires
        0 <= taken <= abs(steps),
    ensures
        jog_plan(axis, steps, forward) == jog_plan(axis, -steps, forward),
        abs(moved_value(value, forward, taken) - value) <= abs(steps),
{
}

/// A jog turns its motor the way it was asked (clockwise exactly when
/// `forward`), by as many steps as asked whatever their sign, on the axis's
/// own pulse and direction pins and speed, guarded by the end stop that
/// lies in its direction of travel.
pub proof fn jog_moves_the_requested_way(axis: Axis, steps: int, forward: bool)
    requires
        fits_i32(steps),
        steps != i32::MIN,
    ensures
        jog_plan(axis, steps, forward).move_clockwise == forward,
        jog_plan(axis, steps, forward).steps_to_take == if steps < 0 {
            -steps
        } else {
            steps
        },
        jog_plan(axis, steps, forward).steps_to_take >= 0,
        axis == Axis::Horizontal ==> {
            &&& jog_plan(axis, steps, forward).pulse_pin == 19
            &&& jog_plan(axis, steps, forward).direction_pin == 26
            &&& jog_plan(axis, steps, forward).motor_speed == 75
            &&& jog_plan(axis, steps, forward).hard_stop_pin == if forward {
                13u8
            } else {
                25u8
            }
        },
        axis == Axis::Vertical ==> {
            &&& jog_plan(axis, steps, forward).pulse_pin == 9
            &&& jog_plan(axis, steps, forward).direction_pin == 11
            &&& jog_plan(axis, steps, forward).motor_speed == 50
            &&& jog_plan(axis, steps, forward).hard_stop_pin == if forward {
                10u8
            } else {
                22u8
            }
        },
        axis == Axis::Tray ==> {
            &&& jog_plan(axis, steps, forward).pulse_pin == 23
            &&& jog_plan(axis, steps, forward).direction_pin == 24
            &&& jog_plan(axis, steps, forward).motor_speed == 50
            &&& jog_plan(axis, steps, forward).hard_stop_pin == if forward {
                17u8
            } else {
                18u8
            }
        },
{
}

/// Every homing move may take as many steps as a move can, so it runs
/// until its end stop: the tray backward against its back stop with the
/// motor turning counter-clockwise, the picker up against its top stop and
/// the arm clockwise against its left stop.
pub proof fn homing_runs_to_end_stop(axis: Axis)
    ensures
        homing_plan(axis).steps_to_take == i32::MAX,
        homing_plan(axis).pulse_pin == jog_plan(axis, 1, true).pulse_pin,
        homing_plan(axis).direction_pin == jog_plan(axis, 1, true).direction_pin,
        homing_plan(axis).motor_speed == jog_plan(axis, 1, true).motor_speed,
        axis == Axis::Tray ==> homing_plan(axis).hard_stop_pin == 17 && !homing_plan(
            axis,
        ).move_clockwise,
        axis == Axis::Vertical ==> homing_plan(axis).hard_stop_pin == 10 && homing_plan(
            axis,
        ).move_clockwise,
        axis == Axis::Horizontal ==> homing_plan(axis).hard_stop_pin == 13 && homing_plan(
            axis,
        ).move_clockwise,
{
}

/// The arm is moved whenever it is not already at the target, and only
/// then: by the exact distance, clockwise exactly when the target lies
/// ahead, so that taking every step lands on the target.
pub proof fn move_to_plans_unless_there(target: i32, current: i32)
    requires
        fits_i32(target - current),
        target - current != i32::MIN,
    ensures
        move_to_plan(target as int, current as int) is None <==> target == current,
        target != current ==> ({
            let mv = move_to_plan(target as int, current as int)->0;
            &&& mv.steps_to_take == if target > current {
                target - current
            } else {
                current - target
            }
            &&& mv.move_clockwise == (target > current)
            &&& mv.hard_stop_pin == if target > current {
                13u8
            } else {
                25u8
            }
            &&& moved_value(current as int, mv.move_clockwise, mv.steps_to_take as int) == target
        }),
{
}

/// The location entries of the action selector send the arm to the input
/// spindles, the output spindles and the drive columns of the layout, in
/// order; the last three entries zero the arm, the picker and the tray;
/// the jog entries and the remaining ones do nothing.
pub proof fn selector_entries_reach_layout_locations(k: int)
    ensures
        0 <= k < 3 ==> action_for(action_labels()[10 + k]) == ChoiceAction::HorizontalTo(
            INPUT_SPINDLE_LOCATIONS@[k],
        ),
        0 <= k < 4 ==> action_for(action_labels()[13 + k]) == ChoiceAction::HorizontalTo(
            OUTPUT_SPINDLE_LOCATIONS@[k],
        ),
        0 <= k < 4 ==> action_for(action_labels()[17 + k]) == ChoiceAction::HorizontalTo(
            DRIVE_COLUMN_LOCATIONS@[k],
        ),
        (0 <= k < 10 || 21 <= k < 29) ==> action_for(action_labels()[k]) == ChoiceAction::NoAction,
        action_for(action_labels()[29]) == ChoiceAction::ZeroAxis(Axis::Horizontal),
        action_for(action_labels()[30]) == ChoiceAction::ZeroAxis(Axis::Vertical),
        action_for(action_labels()[31]) == ChoiceAction::ZeroAxis(Axis::Tray),
{
    action_entries_map_through_labels(29);
    action_entries_map_through_labels(30);
    action_entries_map_through_labels(31);
    if 0 <= k < 3 {
        action_entries_map_through_labels(10 + k);
    }
    if 0 <= k < 4 {
        action_entries_map_through_labels(13 + k);
        action_entries_map_through_labels(17 + k);
    }
    if 0 <= k < 10 || 21 <= k < 29 {
        action_entries_map_through_labels(k);
    }
}

/// A move recorded on one axis leaves the other axes where they were.
pub proof fn move_leaves_other_axes(p: Position, axis: Axis, other: Axis, v: i32)
    requires
        axis != other,
    ensures
        axis_value(with_axis(p, axis, v), other) == axis_value(p, other),
        axis_value(with_axis(p, axis, v), axis) == v,
{
}

/// A jog recorded in one direction is undone by the same number of steps
/// recorded in the other.
pub proof fn reverse_move_restores_position(p: Position, axis: Axis, forward: bool, taken: int)
    requires
        fits_i32(moved_value(axis_value(p, axis), forward, taken)),
    ensures
        ({
            let there = with_axis(p, axis, moved_value(axis_value(p, axis), forward, taken) as i32);
            with_axis(there, axis, moved_value(axis_value(there, axis), !forward, taken) as i32)
                == p
        }),
{
}

/// Moving the arm to a target lands on the target when the motor takes
/// every planned step, and never passes it when a stop cuts the move short.
pub proof fn move_to_reaches_target(target: i32, current: i32, taken: int)
    requires
        fits_i32(target - current),
        target - current != i32::MIN,
        move_to_plan(target as int, current as int) is Some,
        0 <= taken <= move_to_plan(target as int, current as int)->0.steps_to_take,
    ensures
        ({
            let mv = move_to_plan(target as int, current as int)->0;
            let reached = moved_value(current as int, mv.move_clockwise, taken);
            &&& taken == mv.steps_to_take ==> reached == target
            &&& current < target ==> current <= reached <= target
            &&& target < current ==> target <= reached <= current
            &&& fits_i32(reached)
        }),
{
}

/// Homing every axis in order brings the whole machine to its zero; if a
/// homing move fails part way, the axes already homed are at zero and the
/// others have not moved.
pub proof fn homing_zeroes_every_axis(p: Position, k: nat)
    requires
        k <= 3,
    ensures
        forall|j: int| 0 <= j < k ==> axis_value(after_homing(p, k), #[trigger] homing_sequence()[j])
            == 0,
        forall|j: int|
            k <= j < 3 ==> axis_value(after_homing(p, k), #[trigger] homing_sequence()[j])
                == axis_value(p, homing_sequence()[j]),
        k == 3 ==> after_homing(p, k) == (Position { horizontal: 0, vertical: 0, tray: 0 }),
    decreases k,
{
    if k > 0 {
        homing_zeroes_every_axis(p, (k - 1) as nat);
    }
    reveal_with_fuel(after_homing, 4);
}

} // verus!
