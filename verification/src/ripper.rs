//! The ripping container: the commands it accepts in its queue messages,
//! and the programs each of them runs.
//!
//! A message is a JSON object whose `"Type"` member names the command.
use vstd::prelude::*;
use serde_json::Value;
use crate::command::{command_line, runs, CommandLine};
use crate::text::{same_text, text_from_bytes, utf8_lossy_text};

verus! {

/// The drive the container rips from.
pub const RIPPER_DRIVE_PATH: &'static str = "/dev/cdrom";
/// The program that rips video discs.
pub const MAKEMKV_PROGRAM: &'static str = "makemkvcon";
/// The program that rips audio CDs.
pub const ABCDE_PROGRAM: &'static str = "abcde";
/// The status with which the container exits after a stop command.
pub const RIPPER_EXIT_CODE: i32 = 0x0100;

/// A command sent to the ripping container.
#[derive(Debug, Clone, Copy, PartialEq, Eq, Structural)]
pub enum RipperCommand {
    /// Rip the video disc in the drive.
    MakeMkv,
    /// Rip the audio CD in the drive.
    Abcde,
    /// Kill any rip in progress and shut the container down.
    Stop,
    /// Open the drive's tray.
    Eject,
    /// A message of no known type: acknowledge it and do nothing.
    Ignore,
}

/// The command named by a message's `"Type"` member, when that member is
/// a string.
pub open spec fn command_for_type(type_field: Option<Seq<char>>) -> RipperCommand {
    match type_field {
        Some(t) => if t == "makemkv"@ {
            RipperCommand::MakeMkv
        } else if t == "abcde"@ {
            RipperCommand::Abcde
        } else if t == "stop"@ {
            RipperCommand::Stop
        } else if t == "eject"@ {
            RipperCommand::Eject
        } else {
            RipperCommand::Ignore
        },
        None => RipperCommand::Ignore,
    }
}

/// The member of a queue message that names the command.
pub const RIPPER_TYPE_KEY: &'static str = "Type";

/// What a JSON document holds under a key.
#[derive(Debug)]
pub enum JsonMember {
    /// The document is not an object, or has no such member.
    Absent,
    Null,
    Boolean,
    Number,
    Text(String),
    Array,
    Object,
}

/// The plain value of a [`JsonMember`].
pub enum JsonMemberView {
    Absent,
    Null,
    Boolean,
    Number,
    Text(Seq<char>),
    Array,
    Object,
}

impl View for JsonMember {
    type V = JsonMemberView;

    open spec fn view(&self) -> JsonMemberView {
        match self {
            JsonMember::Absent => JsonMemberView::Absent,
            JsonMember::Null => JsonMemberView::Null,
            JsonMember::Boolean => JsonMemberView::Boolean,
            JsonMember::Number => JsonMemberView::Number,
            JsonMember::Text(s) => JsonMemberView::Text(s@),
            JsonMember::Array => JsonMemberView::Array,
            JsonMember::Object => JsonMemberView::Object,
        }
    }
}

/// What `serde_json` parses from `text` and finds under `key`: `None` when
/// `text` is not JSON.
pub uninterp spec fn json_member(text: Seq<char>, key: Seq<char>) -> Option<JsonMemberView>;

/// Calls `serde_json::from_str::<serde_json::Value>` on `text` and, when it
/// parses, `Value::get(key)`, and tells the kind of the member apart. The
/// result is named `json_member`; how JSON is parsed is not stated.
#[verifier::external_body]
fn parse_member(text: &str, key: &str) -> (member: Option<JsonMember>)
    ensures
        match member {
            None => json_member(text@, key@) is None,
            Some(m) => json_member(text@, key@) == Some(m@),
        },
{
    match serde_json::from_str::<Value>(text) {
        Err(_) => None,
        Ok(value) => Some(match value.get(key) {
            None => JsonMember::Absent,
            Some(Value::Null) => JsonMember::Null,
            Some(Value::Bool(_)) => JsonMember::Boolean,
            Some(Value::Number(_)) => JsonMember::Number,
            Some(Value::String(s)) => JsonMember::Text(s.clone()),
            Some(Value::Array(_)) => JsonMember::Array,
            Some(Value::Object(_)) => JsonMember::Object,
        }),
    }
}

/// The text held by a member, when it holds a string.
pub open spec fn member_text(m: JsonMemberView) -> Option<Seq<char>> {
    match m {
        JsonMemberView::Text(s) => Some(s),
        _ => None,
    }
}

/// The command named by the `"Type"` member of a message, if it holds a
/// string.
pub fn ripper_command_for_type(type_field: Option<&str>) -> (command: RipperCommand)
    ensures
        command == command_for_type(
            match type_field {
                Some(t) => Some(t@),
                None => None,
            },
        ),
{
    match type_field {
        Some(t) => if same_text(t, "makemkv") {
            RipperCommand::MakeMkv
        } else if same_text(t, "abcde") {
            RipperCommand::Abcde
        } else if same_text(t, "stop") {
            RipperCommand::Stop
        } else if same_text(t, "eject") {
            RipperCommand::Eject
        } else {
            RipperCommand::Ignore
        },
        None => RipperCommand::Ignore,
    }
}

/// Decodes a queue message: the payload is read as UTF-8 (invalid
/// sequences replaced) and parsed as JSON; the member `"Type"` names the
/// command when it holds a string. `None` when the payload is not JSON.
pub fn decode_ripper_message(payload: &[u8]) -> (command: Option<RipperCommand>)
    ensures
        command is None <==> json_member(utf8_lossy_text(payload@), RIPPER_TYPE_KEY@) is None,
        command matches Some(c) ==> c == command_for_type(
            member_text(json_member(utf8_lossy_text(payload@), RIPPER_TYPE_KEY@)->0),
        ),
{
    let text = text_from_bytes(payload);
    match parse_member(text.as_str(), RIPPER_TYPE_KEY) {
        None => None,
        Some(JsonMember::Text(t)) => Some(ripper_command_for_type(Some(t.as_str()))),
        Some(_) => Some(ripper_command_for_type(None)),
    }
}

/// Whether `text` parses as JSON (the rippers report in JSON).
pub fn is_json_text(text: &str) -> (parses: bool)
    ensures
        parses == json_member(text@, RIPPER_TYPE_KEY@) is Some,
{
    parse_member(text, RIPPER_TYPE_KEY).is_some()
}

/// Each of the four command words names its own command, and any other
/// member (or none) is ignored; only the stop command shuts the container
/// down.
pub proof fn each_command_word_names_its_command(t: Seq<char>)
    ensures
        command_for_type(Some("makemkv"@)) == RipperCommand::MakeMkv,
        command_for_type(Some("abcde"@)) == RipperCommand::Abcde,
        command_for_type(Some("stop"@)) == RipperCommand::Stop,
        command_for_type(Some("eject"@)) == RipperCommand::Eject,
        command_for_type(None) == RipperCommand::Ignore,
        t != "makemkv"@ && t != "abcde"@ && t != "stop"@ && t != "eject"@ ==> command_for_type(
            Some(t),
        ) == RipperCommand::Ignore,
{
    reveal_strlit("makemkv");
    reveal_strlit("abcde");
    reveal_strlit("stop");
    reveal_strlit("eject");
    assert("makemkv"@.len() == 7);
    assert("abcde"@.len() == 5);
    assert("stop"@.len() == 4);
    assert("eject"@.len() == 5);
    assert("eject"@[0] != "abcde"@[0]);
}

/// Whether the container shuts down after handling `command`.
pub fn exits_after(command: RipperCommand) -> (exits: bool)
    ensures
        exits == (command == RipperCommand::Stop),
{
    match command {
        RipperCommand::Stop => true,
        _ => false,
    }
}

/// The command that rips every title of the disc in the first drive into
/// the output directory, reporting progress on the same stream.
pub fn makemkv_rip_command() -> (c: CommandLine)
    ensures
        runs(
            c,
            MAKEMKV_PROGRAM@,
            seq![
                "--progress=-same"@,
                "--cache=128"@,
                "-r"@,
                "mkv"@,
                "disc:0"@,
                "/ripoutput/."@,
            ],
        ),
{
    let args = ["--progress=-same", "--cache=128", "-r", "mkv", "disc:0", "/ripoutput/."];
    let c = command_line(MAKEMKV_PROGRAM, &args);
    assert(args@.map_values(|a: &str| a@) =~= seq![
        "--progress=-same"@,
        "--cache=128"@,
        "-r"@,
        "mkv"@,
        "disc:0"@,
        "/ripoutput/."@,
    ]);
    c
}

/// The command that rips the audio CD in the container's drive into the
/// output directory.
pub fn abcde_rip_command() -> (c: CommandLine)
    ensures
        runs(c, ABCDE_PROGRAM@, seq!["-d"@, RIPPER_DRIVE_PATH@, "/ripoutput/."@]),
{
    let args = ["-d", RIPPER_DRIVE_PATH, "/ripoutput/."];
    let c = command_line(ABCDE_PROGRAM, &args);
    assert(args@.map_values(|a: &str| a@) =~= seq!["-d"@, RIPPER_DRIVE_PATH@, "/ripoutput/."@]);
    c
}

/// The names of the processes killed by a stop command: the programs that
/// rip.
pub fn stop_process_names() -> (names: Vec<String>)
    ensures
        names@.len() == 2,
        names@[0]@ == MAKEMKV_PROGRAM@,
        names@[1]@ == ABCDE_PROGRAM@,
{
    let mut names = Vec::new();
    names.push(String::from_str(MAKEMKV_PROGRAM));
    names.push(String::from_str(ABCDE_PROGRAM));
    names
}

/// A stop command kills exactly the programs that the rip commands start,
/// so no rip survives it.
pub proof fn stop_targets_every_rip(mkv: CommandLine, cd: CommandLine, names: Seq<String>)
    requires
        runs(
            mkv,
            MAKEMKV_PROGRAM@,
            seq![
                "--progress=-same"@,
                "--cache=128"@,
                "-r"@,
                "mkv"@,
                "disc:0"@,
                "/ripoutput/."@,
            ],
        ),
        runs(cd, ABCDE_PROGRAM@, seq!["-d"@, RIPPER_DRIVE_PATH@, "/ripoutput/."@]),
        names.len() == 2,
        names[0]@ == MAKEMKV_PROGRAM@,
        names[1]@ == ABCDE_PROGRAM@,
    ensures
        names.map_values(|s: String| s@) =~= seq![mkv.program@, cd.program@],
{
}

} // verus!
