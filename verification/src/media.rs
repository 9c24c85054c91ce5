//! Kinds of optical media, their labels, and the order in which the
//! spindle selectors offer them.
use vstd::prelude::*;
use crate::text::joined;
use crate::hardware_layout::{
    DRIVETYPE_BRAY, DRIVETYPE_CD, DRIVETYPE_DVD, DRIVETYPE_HDDVD, DRIVETYPE_NONE, DRIVETYPE_UHD,
};

verus! {

#[derive(Debug, Clone, Copy, PartialEq, Eq, Structural)]
pub enum MediaType {
    NoMedia,
    Cd,
    Dvd,
    Bluray,
    Uhd,
    Hddvd,
}

/// The label shown for a media type.
pub open spec fn media_label(m: MediaType) -> Seq<char> {
    match m {
        MediaType::NoMedia => DRIVETYPE_NONE@,
        MediaType::Cd => DRIVETYPE_CD@,
        MediaType::Dvd => DRIVETYPE_DVD@,
        MediaType::Bluray => DRIVETYPE_BRAY@,
        MediaType::Uhd => DRIVETYPE_UHD@,
        MediaType::Hddvd => DRIVETYPE_HDDVD@,
    }
}

/// The media type that a selector index stands for.
pub open spec fn media_for_choice(idx: int) -> MediaType {
    if idx == 1 {
        MediaType::Cd
    } else if idx == 2 {
        MediaType::Dvd
    } else if idx == 3 {
        MediaType::Bluray
    } else if idx == 4 {
        MediaType::Uhd
    } else if idx == 5 {
        MediaType::Hddvd
    } else {
        MediaType::NoMedia
    }
}

/// The media types in the order in which a spindle selector lists them.
pub open spec fn media_choice_order() -> Seq<MediaType> {
    seq![
        MediaType::NoMedia,
        MediaType::Cd,
        MediaType::Dvd,
        MediaType::Bluray,
        MediaType::Uhd,
        MediaType::Hddvd,
    ]
}

impl MediaType {
    pub fn as_str(self) -> (s: &'static str)
        ensures
            s@ == media_label(self),
    {
        match self {
            MediaType::NoMedia => DRIVETYPE_NONE,
            MediaType::Cd => DRIVETYPE_CD,
            MediaType::Dvd => DRIVETYPE_DVD,
            MediaType::Bluray => DRIVETYPE_BRAY,
            MediaType::Uhd => DRIVETYPE_UHD,
            MediaType::Hddvd => DRIVETYPE_HDDVD,
        }
    }

    pub fn from_choice_index(idx: i32) -> (m: MediaType)
        ensures
            m == media_for_choice(idx as int),
    {
        match idx {
            1 => MediaType::Cd,
            2 => MediaType::Dvd,
            3 => MediaType::Bluray,
            4 => MediaType::Uhd,
            5 => MediaType::Hddvd,
            _ => MediaType::NoMedia,
        }
    }
}

/// The entries of a spindle selector, separated by `|`.
pub fn media_choice_list() -> (list: String)
    ensures
        list@ == joined(media_choice_order().map_values(|m: MediaType| media_label(m)), "|"@),
{
    let mut list = String::from_str(MediaType::NoMedia.as_str());
    list.append("|");
    list.append(MediaType::Cd.as_str());
    list.append("|");
    list.append(MediaType::Dvd.as_str());
    list.append("|");
    list.append(MediaType::Bluray.as_str());
    list.append("|");
    list.append(MediaType::Uhd.as_str());
    list.append("|");
    list.append(MediaType::Hddvd.as_str());
    proof {
        let labels = media_choice_order().map_values(|m: MediaType| media_label(m));
        reveal_with_fuel(joined, 7);
        assert(labels.drop_last().drop_last().drop_last().drop_last().drop_last() =~= seq![
            DRIVETYPE_NONE@,
        ]);
        assert(labels.drop_last().drop_last().drop_last().drop_last() =~= seq![
            DRIVETYPE_NONE@,
            DRIVETYPE_CD@,
        ]);
        assert(labels.drop_last().drop_last().drop_last() =~= seq![
            DRIVETYPE_NONE@,
            DRIVETYPE_CD@,
            DRIVETYPE_DVD@,
        ]);
        assert(labels.drop_last().drop_last() =~= seq![
            DRIVETYPE_NONE@,
            DRIVETYPE_CD@,
            DRIVETYPE_DVD@,
            DRIVETYPE_BRAY@,
        ]);
        assert(labels.drop_last() =~= seq![
            DRIVETYPE_NONE@,
            DRIVETYPE_CD@,
            DRIVETYPE_DVD@,
            DRIVETYPE_BRAY@,
            DRIVETYPE_UHD@,
        ]);
    }
    list
}

/// The indices one to five pick the five kinds of disc, each by exactly
/// one index; every other index picks no media.
pub proof fn each_disc_kind_has_one_choice_index(i: int, j: int)
    ensures
        media_for_choice(i) != MediaType::NoMedia <==> 1 <= i <= 5,
        1 <= i <= 5 && 1 <= j <= 5 && i != j ==> media_for_choice(i) != media_for_choice(j),
        media_for_choice(1) == MediaType::Cd,
        media_for_choice(3) == MediaType::Bluray,
        media_for_choice(5) == MediaType::Hddvd,
{
}

/// The selector entry at index `idx` stands for the media type that
/// `from_choice_index(idx)` gives, so what a user picks is what is
/// recorded.
pub proof fn choice_index_matches_choice_list(idx: i32)
    requires
        0 <= idx < 6,
    ensures
        media_for_choice(idx as int) == media_choice_order()[idx as int],
        media_label(media_for_choice(idx as int)) == media_choice_order().map_values(
            |m: MediaType| media_label(m),
        )[idx as int],
{
}

} // verus!
