//! Physical layout of the machine: positions in motor ticks, drive labels
//! and the BCM numbers of the pins that drive it.
use vstd::prelude::*;

verus! {

pub const DRIVETYPE_NONE: &'static str = "None";
pub const DRIVETYPE_CD: &'static str = "CD";
pub const DRIVETYPE_DVD: &'static str = "DVD";
pub const DRIVETYPE_BRAY: &'static str = "BRAY";
pub const DRIVETYPE_UHD: &'static str = "UHD";
pub const DRIVETYPE_HDDVD: &'static str = "HDDVD";

// Locations are ticks from 0 for the movement arm.
pub const INPUT_SPINDLE_LOCATIONS: [i32; 3] = [0, 160000, 315000];
pub const OUTPUT_SPINDLE_LOCATIONS: [i32; 4] = [1283000, 1440000, 1600000, 1756000];
pub const CAMERA_LOCATION: (i32, i32) = (0, 0);
pub const SPINDLE_HEIGHT: i32 = 0;
pub const CAMERA_PLATE_STEPS: i32 = 0;

pub const DRIVE_COLUMN_LOCATIONS: [i32; 5] = [516500, 709500, 892500, 1083500, 1066000];
pub const DRIVE_ROW_LOCATIONS: [i32; 7] = [0, 0, 0, 0, 0, 0, 0];

// BCM pin numbering, not physical pin numbers.
// Main movement arm.
pub const GPIO_STEPPER_HORIZONTAL_END_STOP_LEFT: u8 = 13;
pub const GPIO_STEPPER_HORIZONTAL_END_STOP_RIGHT: u8 = 25;
pub const GPIO_STEPPER_HORIZONTAL_DIRECTION: u8 = 26;
pub const GPIO_STEPPER_HORIZONTAL_PULSE: u8 = 19;
pub const GPIO_STEPPER_HORIZONTAL_MOTOR_SPEED: u64 = 75;

// Disc picker and loader.
pub const GPIO_STEPPER_VERTICAL_END_STOP_ASSEMBLY: u8 = 27;
pub const GPIO_STEPPER_VERTICAL_END_STOP_BOTTOM: u8 = 22;
pub const GPIO_STEPPER_VERTICAL_END_STOP_TOP: u8 = 10;
pub const GPIO_STEPPER_VERTICAL_DIRECTION: u8 = 11;
pub const GPIO_STEPPER_VERTICAL_PULSE: u8 = 9;
pub const GPIO_STEPPER_VERTICAL_MOTOR_SPEED: u64 = 50;

// Image tray.
pub const GPIO_STEPPER_TRAY_END_STOP_BACK: u8 = 17;
pub const GPIO_STEPPER_TRAY_END_STOP_FRONT: u8 = 18;
pub const GPIO_STEPPER_TRAY_DIRECTION: u8 = 24;
pub const GPIO_STEPPER_TRAY_PULSE: u8 = 23;
pub const GPIO_STEPPER_TRAY_MOTOR_SPEED: u64 = 50;

pub const GPIO_RELAY_VACUUM: u8 = 20;
pub const GPIO_RELAY_LIGHT: u8 = 16;
pub const GPIO_KILL_SWITCH: u8 = 255;

} // verus!
