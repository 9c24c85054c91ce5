//! The external programs the machine runs, and their arguments.
use vstd::prelude::*;
use crate::text::{texts, text_from_bytes, trimmed, trim_white_space, utf8_lossy_text};

verus! {

/// A program and the arguments it is started with.
pub struct CommandLine {
    pub program: String,
    pub args: Vec<String>,
}

/// Whether `c` starts `program` with the arguments `args`.
pub open spec fn runs(c: CommandLine, program: Seq<char>, args: Seq<Seq<char>>) -> bool {
    c.program@ == program && texts(c.args@) == args
}

/// The program that drives optical drive trays.
pub const EJECT_PROGRAM: &'static str = "eject";
/// The program that unmounts a file system.
pub const UMOUNT_PROGRAM: &'static str = "umount";
/// The program that takes a still picture with the camera.
pub const CAMERA_PROGRAM: &'static str = "libcamera-still";

fn text_list(items: &[&str]) -> (list: Vec<String>)
    ensures
        list@.len() == items@.len(),
        forall|i: int| 0 <= i < items@.len() ==> #[trigger] list@[i]@ == items@[i]@,
{
    let mut list: Vec<String> = Vec::new();
    for i in 0..items.len()
        invariant
            list@.len() == i,
            forall|j: int| 0 <= j < i ==> #[trigger] list@[j]@ == items@[j]@,
    {
        list.push(String::from_str(items[i]));
    }
    list
}

/// Builds a command line from a program and its arguments.
pub fn command_line(program: &str, args: &[&str]) -> (c: CommandLine)
    ensures
        c.program@ == program@,
        texts(c.args@) == args@.map_values(|a: &str| a@),
{
    let list = text_list(args);
    assert(texts(list@) =~= args@.map_values(|a: &str| a@));
    CommandLine { program: String::from_str(program), args: list }
}

/// The camera command that writes a PNG still to `media_file` without a
/// preview window.
pub fn camera_still_command(media_file: &str) -> (c: CommandLine)
    ensures
        runs(c, CAMERA_PROGRAM@, seq!["-e"@, "png"@, "-o"@, media_file@, "-n"@]),
{
    let args = [ "-e", "png", "-o", media_file, "-n" ];
    let c = command_line(CAMERA_PROGRAM, &args);
    assert(args@.map_values(|a: &str| a@) =~= seq!["-e"@, "png"@, "-o"@, media_file@, "-n"@]);
    c
}

/// How taking a still picture ended.
#[derive(Debug, Clone, Copy, PartialEq, Eq, Structural)]
pub enum CameraOutcome {
    /// The picture was written.
    Captured,
    /// The camera program reported failure.
    CommandFailed,
    /// The camera program succeeded but wrote no file.
    FileMissing,
}

/// Judges a camera run from the program's exit status and from whether the
/// output file exists afterwards; the program's own failure comes first.
pub fn camera_outcome(command_succeeded: bool, file_exists: bool) -> (outcome: CameraOutcome)
    ensures
        !command_succeeded ==> outcome == CameraOutcome::CommandFailed,
        command_succeeded && !file_exists ==> outcome == CameraOutcome::FileMissing,
        command_succeeded && file_exists ==> outcome == CameraOutcome::Captured,
{
    if !command_succeeded {
        CameraOutcome::CommandFailed
    } else if !file_exists {
        CameraOutcome::FileMissing
    } else {
        CameraOutcome::Captured
    }
}

/// The error text of a camera run: none when the picture was taken, else
/// what went wrong, with the camera program's error output (decoded as
/// UTF-8, trimmed) when it failed.
pub open spec fn camera_failure_text(
    outcome: CameraOutcome,
    stderr: Seq<u8>,
    media_file: Seq<char>,
) -> Option<Seq<char>> {
    match outcome {
        CameraOutcome::Captured => None,
        CameraOutcome::CommandFailed => Some(
            "libcamera-still failed: "@ + trim_white_space(utf8_lossy_text(stderr)),
        ),
        CameraOutcome::FileMissing => Some("output file was not created: "@ + media_file),
    }
}

/// Builds the error text of a camera run from its outcome, the program's
/// error output and the file it was to write.
pub fn camera_failure_message(outcome: CameraOutcome, stderr: &[u8], media_file: &str) -> (message:
    Option<String>)
    ensures
        match message {
            Some(m) => camera_failure_text(outcome, stderr@, media_file@) == Some(m@),
            None => camera_failure_text(outcome, stderr@, media_file@) is None,
        },
{
    match outcome {
        CameraOutcome::Captured => None,
        CameraOutcome::CommandFailed => {
            let decoded = text_from_bytes(stderr);
            let detail = trimmed(decoded.as_str());
            let mut message = String::from_str("libcamera-still failed: ");
            message.append(detail.as_str());
            Some(message)
        },
        CameraOutcome::FileMissing => {
            let mut message = String::from_str("output file was not created: ");
            message.append(media_file);
            Some(message)
        },
    }
}

/// The command that opens the tray of the drive at `drive_path`.
pub fn drive_eject_command(drive_path: &str) -> (c: CommandLine)
    ensures
        runs(c, EJECT_PROGRAM@, seq![drive_path@]),
{
    let args = [drive_path];
    let c = command_line(EJECT_PROGRAM, &args);
    assert(args@.map_values(|a: &str| a@) =~= seq![drive_path@]);
    c
}

/// The command that closes the tray of the drive at `drive_path`.
pub fn drive_close_command(drive_path: &str) -> (c: CommandLine)
    ensures
        runs(c, EJECT_PROGRAM@, seq!["-t"@, drive_path@]),
{
    let args = ["-t", drive_path];
    let c = command_line(EJECT_PROGRAM, &args);
    assert(args@.map_values(|a: &str| a@) =~= seq!["-t"@, drive_path@]);
    c
}

/// The command that unmounts the drive at `drive_path`.
pub fn drive_umount_command(drive_path: &str) -> (c: CommandLine)
    ensures
        runs(c, UMOUNT_PROGRAM@, seq![drive_path@]),
{
    let args = [drive_path];
    let c = command_line(UMOUNT_PROGRAM, &args);
    assert(args@.map_values(|a: &str| a@) =~= seq![drive_path@]);
    c
}

} // verus!
