//! The information panel of the terminal: board model, memory, disk,
//! camera and operating system.
use vstd::prelude::*;
use crate::byte_size::{bytesize_text, mk_lib_common_bytesize};

verus! {

/// What reading the board's model file gave.
pub enum ModelReading {
    /// No model file: the terminal runs on a desktop machine.
    Missing,
    /// The file exists but could not be read.
    Unreadable,
    /// The text of the file.
    Text(String),
}

/// A row of the panel; a row whose value could not be found is left blank.
pub struct InfoRow {
    pub label: String,
    pub value: Option<String>,
}

pub open spec fn opt_text(v: Option<String>) -> Option<Seq<char>> {
    match v {
        Some(s) => Some(s@),
        None => None,
    }
}

/// The text that `{:?}` renders for an optional string.
pub uninterp spec fn debug_option_text(v: Option<Seq<char>>) -> Seq<char>;

/// Calls `format!("{:?}", v)`, whose result is named `debug_option_text`.
/// For `None` it writes `None`, which is stated; the quoting and escaping
/// of a present string are not.
#[verifier::external_body]
fn debug_text(v: &Option<String>) -> (text: String)
    ensures
        text@ == debug_option_text(opt_text(*v)),
        v is None ==> text@ == "None"@,
{
    format!("{:?}", v)
}

pub open spec fn model_value(model: ModelReading) -> Seq<char> {
    match model {
        ModelReading::Missing => "Desktop"@,
        ModelReading::Unreadable => "Unknown"@,
        ModelReading::Text(s) => s@,
    }
}

/// The size of a total reported in kilobytes, rendered from its bytes.
pub open spec fn size_value(total_kb: Option<u64>) -> Option<Seq<char>> {
    match total_kb {
        Some(kb) => Some(bytesize_text((kb * 1000) as u64)),
        None => None,
    }
}

pub open spec fn os_value(os_release: Option<(Option<String>, Option<String>)>) -> Option<Seq<char>> {
    match os_release {
        Some((name, version)) => Some(
            debug_option_text(opt_text(name)) + " "@ + debug_option_text(opt_text(version)),
        ),
        None => None,
    }
}

/// Whether `row` is labelled `label` and holds `value`.
pub open spec fn row_is(row: InfoRow, label: Seq<char>, value: Option<Seq<char>>) -> bool {
    row.label@ == label && opt_text(row.value) == value
}

pub open spec fn fits_in_bytes(total_kb: Option<u64>) -> bool {
    total_kb matches Some(kb) ==> kb * 1000 <= u64::MAX
}

fn size_row(label: &str, total_kb: Option<u64>) -> (row: InfoRow)
    requires
        fits_in_bytes(total_kb),
    ensures
        row_is(row, label@, size_value(total_kb)),
{
    let value = match total_kb {
        Some(kb) => match mk_lib_common_bytesize(kb * 1000) {
            Ok(text) => Some(text),
            Err(_) => None,
        },
        None => None,
    };
    InfoRow { label: String::from_str(label), value }
}

/// The rows of the panel, from what the system reported: the model file,
/// the total memory and disk in kilobytes, and the name and version of the
/// operating system release.
pub fn info_rows(
    model: ModelReading,
    memory_total_kb: Option<u64>,
    disk_total_kb: Option<u64>,
    os_release: Option<(Option<String>, Option<String>)>,
) -> (rows: Vec<InfoRow>)
    requires
        fits_in_bytes(memory_total_kb),
        fits_in_bytes(disk_total_kb),
    ensures
        rows.len() == 5,
        row_is(rows[0], "Model"@, Some(model_value(model))),
        row_is(rows[1], "Memory"@, size_value(memory_total_kb)),
        row_is(rows[2], "Disk"@, size_value(disk_total_kb)),
        row_is(rows[3], "Camera"@, Some("N/A"@)),
        row_is(rows[4], "OS"@, os_value(os_release)),
{
    let model_text_exec = match model {
        ModelReading::Missing => String::from_str("Desktop"),
        ModelReading::Unreadable => String::from_str("Unknown"),
        ModelReading::Text(s) => s,
    };
    let mut rows: Vec<InfoRow> = Vec::new();
    rows.push(InfoRow { label: String::from_str("Model"), value: Some(model_text_exec) });
    rows.push(size_row("Memory", memory_total_kb));
    rows.push(size_row("Disk", disk_total_kb));
    rows.push(InfoRow { label: String::from_str("Camera"), value: Some(String::from_str("N/A")) });
    let os = match os_release {
        Some((name, version)) => {
            let mut text = debug_text(&name);
            text.append(" ");
            let version_text = debug_text(&version);
            text.append(version_text.as_str());
            Some(text)
        },
        None => None,
    };
    rows.push(InfoRow { label: String::from_str("OS"), value: os });
    rows
}

} // verus!
