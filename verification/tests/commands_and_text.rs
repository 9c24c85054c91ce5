use mkautoripper::byte_size::mk_lib_common_bytesize;
use mkautoripper::command::{
    camera_outcome, camera_still_command, drive_close_command, drive_eject_command,
    drive_umount_command, CameraOutcome,
};
use mkautoripper::info::{info_rows, ModelReading};
use mkautoripper::ripper::{
    abcde_rip_command, decode_ripper_message, exits_after, is_json_text, makemkv_rip_command,
    ripper_command_for_type, stop_process_names, RipperCommand, RIPPER_EXIT_CODE,
};
use mkautoripper::servo::{servo_move_plan, ServoStep, PULSE_MAX_US, PULSE_MIN_US, PULSE_NEUTRAL_US};
use mkautoripper::text::same_text;

#[test]
fn bytesize_small_counts() {
    assert_eq!(mk_lib_common_bytesize(0).unwrap(), "0 B");
    assert_eq!(mk_lib_common_bytesize(1000).unwrap(), "1000 B");
    assert_eq!(mk_lib_common_bytesize(1023).unwrap(), "1023 B");
}

#[test]
fn bytesize_scaled_counts() {
    assert_eq!(mk_lib_common_bytesize(1024).unwrap(), "1.0 KiB");
    assert_eq!(mk_lib_common_bytesize(1536).unwrap(), "1.5 KiB");
    assert_eq!(mk_lib_common_bytesize(1024 * 1024).unwrap(), "1.0 MiB");
}

#[test]
fn camera_command() {
    let c = camera_still_command("demo.png");
    assert_eq!(c.program, "libcamera-still");
    assert_eq!(c.args, vec!["-e", "png", "-o", "demo.png", "-n"]);
}

#[test]
fn camera_outcomes() {
    assert_eq!(camera_outcome(false, false), CameraOutcome::CommandFailed);
    assert_eq!(camera_outcome(false, true), CameraOutcome::CommandFailed);
    assert_eq!(camera_outcome(true, false), CameraOutcome::FileMissing);
    assert_eq!(camera_outcome(true, true), CameraOutcome::Captured);
}

#[test]
fn drive_commands() {
    let eject = drive_eject_command("/dev/sr0");
    assert_eq!(eject.program, "eject");
    assert_eq!(eject.args, vec!["/dev/sr0"]);
    let close = drive_close_command("/dev/sr0");
    assert_eq!(close.program, "eject");
    assert_eq!(close.args, vec!["-t", "/dev/sr0"]);
    let umount = drive_umount_command("/dev/sr1");
    assert_eq!(umount.program, "umount");
    assert_eq!(umount.args, vec!["/dev/sr1"]);
}

#[test]
fn ripper_messages() {
    assert_eq!(decode_ripper_message(br#"{"Type":"makemkv"}"#), Some(RipperCommand::MakeMkv));
    assert_eq!(decode_ripper_message(br#"{"Type": "abcde", "x": 1}"#), Some(RipperCommand::Abcde));
    assert_eq!(decode_ripper_message(br#"{"Type":"stop"}"#), Some(RipperCommand::Stop));
    assert_eq!(decode_ripper_message(br#" {"Type":"eject"} "#), Some(RipperCommand::Eject));
}

#[test]
fn ripper_messages_without_command() {
    assert_eq!(decode_ripper_message(br#"{"Type":"reboot"}"#), Some(RipperCommand::Ignore));
    assert_eq!(decode_ripper_message(br#"{"Type":"Stop"}"#), Some(RipperCommand::Ignore));
    assert_eq!(decode_ripper_message(br#"{"type":"stop"}"#), Some(RipperCommand::Ignore));
    assert_eq!(decode_ripper_message(br#"{"Type":7}"#), Some(RipperCommand::Ignore));
    assert_eq!(decode_ripper_message(br#"["stop"]"#), Some(RipperCommand::Ignore));
    assert_eq!(decode_ripper_message(b"null"), Some(RipperCommand::Ignore));
    assert_eq!(decode_ripper_message(b"{\"Type\":\"st\xffop\"}"), Some(RipperCommand::Ignore));
}

#[test]
fn ripper_messages_not_json() {
    assert_eq!(decode_ripper_message(b""), None);
    assert_eq!(decode_ripper_message(b"stop"), None);
    assert_eq!(decode_ripper_message(br#"{"Type":"stop""#), None);
    assert!(!is_json_text("Finished."));
    assert!(is_json_text("{}"));
    assert!(is_json_text("[1, 2]"));
}

#[test]
fn ripper_type_field() {
    assert_eq!(ripper_command_for_type(Some("makemkv")), RipperCommand::MakeMkv);
    assert_eq!(ripper_command_for_type(Some("abcde")), RipperCommand::Abcde);
    assert_eq!(ripper_command_for_type(Some("stop")), RipperCommand::Stop);
    assert_eq!(ripper_command_for_type(Some("eject")), RipperCommand::Eject);
    assert_eq!(ripper_command_for_type(Some("makemkv ")), RipperCommand::Ignore);
    assert_eq!(ripper_command_for_type(None), RipperCommand::Ignore);
}

#[test]
fn ripper_exit_and_programs() {
    assert!(exits_after(RipperCommand::Stop));
    assert!(!exits_after(RipperCommand::Eject));
    assert!(!exits_after(RipperCommand::Ignore));
    assert_eq!(RIPPER_EXIT_CODE, 256);
    let mkv = makemkv_rip_command();
    assert_eq!(mkv.program, "makemkvcon");
    assert_eq!(mkv.args, vec!["--progress=-same", "--cache=128", "-r", "mkv", "disc:0", "/ripoutput/."]);
    let cd = abcde_rip_command();
    assert_eq!(cd.program, "abcde");
    assert_eq!(cd.args, vec!["-d", "/dev/cdrom", "/ripoutput/."]);
    assert_eq!(stop_process_names(), vec![mkv.program, cd.program]);
}

#[test]
fn servo_plan() {
    let plan = servo_move_plan();
    assert_eq!(plan.len(), 33);
    assert_eq!(plan[0], ServoStep { pulse_us: 1800, hold_ms: 500 });
    assert_eq!(plan[1], ServoStep { pulse_us: 1200, hold_ms: 500 });
    assert_eq!(plan[2], ServoStep { pulse_us: 1200, hold_ms: 20 });
    assert_eq!(plan[3], ServoStep { pulse_us: 1210, hold_ms: 20 });
    assert_eq!(plan[32], ServoStep { pulse_us: PULSE_NEUTRAL_US, hold_ms: 20 });
    assert!(plan.iter().all(|s| PULSE_MIN_US <= s.pulse_us && s.pulse_us <= PULSE_MAX_US));
}

#[test]
fn info_panel_rows() {
    let rows = info_rows(
        ModelReading::Missing,
        Some(1),
        Some(2),
        Some((Some("Debian GNU/Linux".to_string()), Some("12".to_string()))),
    );
    let labels: Vec<&str> = rows.iter().map(|r| r.label.as_str()).collect();
    assert_eq!(labels, vec!["Model", "Memory", "Disk", "Camera", "OS"]);
    assert_eq!(rows[0].value.as_deref(), Some("Desktop"));
    assert_eq!(rows[1].value.as_deref(), Some("1000 B"));
    assert_eq!(rows[2].value.as_deref(), Some("2.0 KiB"));
    assert_eq!(rows[3].value.as_deref(), Some("N/A"));
    assert_eq!(rows[4].value.as_deref(), Some("Some(\"Debian GNU/Linux\") Some(\"12\")"));
}

#[test]
fn info_panel_missing_values() {
    let rows = info_rows(ModelReading::Unreadable, None, None, None);
    assert_eq!(rows[0].value.as_deref(), Some("Unknown"));
    assert_eq!(rows[1].value, None);
    assert_eq!(rows[2].value, None);
    assert_eq!(rows[4].value, None);
    let rows = info_rows(ModelReading::Text("Raspberry Pi 4".to_string()), None, None, Some((None, None)));
    assert_eq!(rows[0].value.as_deref(), Some("Raspberry Pi 4"));
    assert_eq!(rows[4].value.as_deref(), Some("None None"));
}

#[test]
fn text_comparison() {
    assert!(same_text("", ""));
    assert!(same_text("Input One", "Input One"));
    assert!(!same_text("Input One", "Input Two"));
    assert!(!same_text("abc", "abcd"));
    assert!(same_text("é✓", "é✓"));
}
