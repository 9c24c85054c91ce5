//! The rack of optical drives: which media each drive takes and where the
//! arm finds it.
use vstd::prelude::*;
use crate::hardware_layout::{DRIVE_COLUMN_LOCATIONS, DRIVE_ROW_LOCATIONS};
use crate::media::MediaType;

verus! {

/// Number of drives in the rack.
pub const DRIVE_COUNT: usize = 25;

#[derive(Debug, Clone)]
pub struct DriveSlot {
    pub id: u16,
    pub supported_media: Vec<MediaType>,
    pub x: i32,
    pub y: i32,
    pub in_use: bool,
}

/// The media accepted by the drive with id `id`: three rows of CD/DVD
/// drives, two rows of Blu-ray drives, one row of UHD drives and one HD DVD
/// drive.
pub open spec fn slot_media(id: int) -> Seq<MediaType> {
    if id < 12 {
        seq![MediaType::Cd, MediaType::Dvd]
    } else if id < 20 {
        seq![MediaType::Bluray]
    } else if id < 24 {
        seq![MediaType::Uhd]
    } else {
        seq![MediaType::Hddvd]
    }
}

/// The column of the drive with id `id`: four per row, the HD DVD drive in
/// a fifth column of its own.
pub open spec fn slot_column(id: int) -> int {
    if id == 24 {
        4
    } else {
        id % 4
    }
}

/// The row of the drive with id `id`.
pub open spec fn slot_row(id: int) -> int {
    id / 4
}

/// What the layout holds for the drive with id `id`.
pub open spec fn slot_matches(slot: DriveSlot, id: int) -> bool {
    &&& slot.id == id
    &&& slot.supported_media@ == slot_media(id)
    &&& slot.x == DRIVE_COLUMN_LOCATIONS@[slot_column(id)]
    &&& slot.y == DRIVE_ROW_LOCATIONS@[slot_row(id)]
    &&& !slot.in_use
}

fn media_for_slot(id: usize) -> (media: Vec<MediaType>)
    requires
        id < DRIVE_COUNT,
    ensures
        media@ == slot_media(id as int),
{
    let mut media = Vec::new();
    if id < 12 {
        media.push(MediaType::Cd);
        media.push(MediaType::Dvd);
    } else if id < 20 {
        media.push(MediaType::Bluray);
    } else if id < 24 {
        media.push(MediaType::Uhd);
    } else {
        media.push(MediaType::Hddvd);
    }
    proof {
        assert(media@ =~= slot_media(id as int));
    }
    media
}

fn drive_slot(id: usize) -> (slot: DriveSlot)
    requires
        id < DRIVE_COUNT,
    ensures
        slot_matches(slot, id as int),
{
    let column: usize = if id == 24 {
        4
    } else {
        id % 4
    };
    DriveSlot {
        id: id as u16,
        supported_media: media_for_slot(id),
        x: DRIVE_COLUMN_LOCATIONS[column],
        y: DRIVE_ROW_LOCATIONS[id / 4],
        in_use: false,
    }
}

/// The drives of the rack, in order of their ids, none of them in use.
pub fn build_drive_layout() -> (layout: Vec<DriveSlot>)
    ensures
        layout.len() == DRIVE_COUNT,
        forall|i: int| 0 <= i < DRIVE_COUNT ==> #[trigger] slot_matches(layout@[i], i),
{
    let mut layout: Vec<DriveSlot> = Vec::new();
    for id in 0..DRIVE_COUNT
        invariant
            layout.len() == id,
            forall|i: int| 0 <= i < id ==> #[trigger] slot_matches(layout@[i], i),
    {
        layout.push(drive_slot(id));
    }
    layout
}

/// Every kind of disc that the machine rips has at least one drive that
/// accepts it.
pub proof fn every_media_type_has_a_drive(m: MediaType)
    requires
        m != MediaType::NoMedia,
    ensures
        exists|id: int| 0 <= id < DRIVE_COUNT && #[trigger] slot_media(id).contains(m),
{
    let id: int = match m {
        MediaType::Cd => 0,
        MediaType::Dvd => 0,
        MediaType::Bluray => 12,
        MediaType::Uhd => 20,
        _ => 24,
    };
    if m == MediaType::Dvd {
        assert(slot_media(id)[1] == m);
    } else {
        assert(slot_media(id)[0] == m);
    }
    assert(slot_media(id).contains(m));
}

} // verus!
