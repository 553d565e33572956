//! Short messages to the user.
use crate::path::FilePath;
use crate::player::navigation::RepeatMode;
use crate::text;
use vstd::prelude::*;

verus! {

/// Messages that are kept for display.
pub const NOTIFICATIONS_CAP: usize = 50;

/// A message to the user.
#[derive(Debug, PartialEq, Eq)]
pub enum Notice {
    QueueEmpty,
    NoNextTrack,
    NoSupportedFiles,
    TracksAdded { count: usize, directory: FilePath },
    MetadataUnavailable(usize),
    Repeat(RepeatMode),
    Shuffle(bool),
    Artwork(bool),
    Other(String),
}

/// `track` or `tracks`.
pub open spec fn tracks_text(count: usize) -> Seq<char> {
    if count == 1 {
        text::decimal_text(count as nat) + " track"@
    } else {
        text::decimal_text(count as nat) + " tracks"@
    }
}

/// Name of a repeat mode.
pub open spec fn repeat_text(mode: RepeatMode) -> Seq<char> {
    match mode {
        RepeatMode::Off => "Off"@,
        RepeatMode::Track => "Track"@,
        RepeatMode::All => "All"@,
    }
}

/// Text of a message.
pub open spec fn notice_text(notice: Notice) -> Seq<char> {
    match notice {
        Notice::QueueEmpty => "Queue is empty"@,
        Notice::NoNextTrack => "No next track"@,
        Notice::NoSupportedFiles => "No supported audio files found"@,
        Notice::TracksAdded { count, directory } => "Added "@ + tracks_text(count) + " from "@
            + text::displayed(directory@),
        Notice::MetadataUnavailable(count) => "Metadata unavailable for "@ + tracks_text(count),
        Notice::Repeat(mode) => "Repeat mode: "@ + repeat_text(mode),
        Notice::Shuffle(on) => if on {
            "Shuffle on"@
        } else {
            "Shuffle off"@
        },
        Notice::Artwork(visible) => if visible {
            "Artwork visible"@
        } else {
            "Artwork hidden"@
        },
        Notice::Other(line) => line@,
    }
}

fn append_tracks(line: &mut String, count: usize)
    ensures
        final(line)@ == old(line)@ + tracks_text(count),
{
    let ghost before = line@;
    text::append_decimal(line, count as u64);
    if count == 1 {
        line.append(" track");
    } else {
        line.append(" tracks");
    }
    assert(line@ =~= before + tracks_text(count));
}

impl Notice {
    /// Text of the message.
    pub fn text(&self) -> (line: String)
        ensures
            line@ == notice_text(*self),
    {
        match self {
            Notice::QueueEmpty => "Queue is empty".to_string(),
            Notice::NoNextTrack => "No next track".to_string(),
            Notice::NoSupportedFiles => "No supported audio files found".to_string(),
            Notice::TracksAdded { count, directory } => {
                let mut line = "Added ".to_string();
                append_tracks(&mut line, *count);
                line.append(" from ");
                line.append(directory.to_text_lossy().as_str());
                line
            },
            Notice::MetadataUnavailable(count) => {
                let mut line = "Metadata unavailable for ".to_string();
                append_tracks(&mut line, *count);
                line
            },
            Notice::Repeat(mode) => {
                let mut line = "Repeat mode: ".to_string();
                line.append(
                    match mode {
                        RepeatMode::Off => "Off",
                        RepeatMode::Track => "Track",
                        RepeatMode::All => "All",
                    },
                );
                line
            },
            Notice::Shuffle(on) => if *on {
                "Shuffle on".to_string()
            } else {
                "Shuffle off".to_string()
            },
            Notice::Artwork(visible) => if *visible {
                "Artwork visible".to_string()
            } else {
                "Artwork hidden".to_string()
            },
            Notice::Other(line) => line.clone(),
        }
    }
}

/// Messages after one more came: the oldest one leaves when there are too many.
pub open spec fn with_notice(notes: Seq<Notice>, notice: Notice) -> Seq<Notice> {
    let all = notes.push(notice);
    if all.len() > NOTIFICATIONS_CAP {
        all.skip(all.len() - NOTIFICATIONS_CAP)
    } else {
        all
    }
}

/// Add a message; the oldest ones leave when there are too many.
pub fn push_notice(notes: &mut Vec<Notice>, notice: Notice)
    ensures
        final(notes)@ == with_notice(old(notes)@, notice),
{
    notes.push(notice);
    let ghost all = notes@;
    assert(all.skip(0) =~= all);
    let ghost mut gone: int = 0;
    while notes.len() > NOTIFICATIONS_CAP
        invariant
            0 <= gone,
            notes@ == all.skip(gone),
            gone <= all.len(),
            gone > 0 ==> all.len() - gone >= NOTIFICATIONS_CAP,
        decreases notes.len(),
    {
        notes.remove(0);
        proof {
            assert(notes@ =~= all.skip(gone + 1));
            gone = gone + 1;
        }
    }
    assert(notes@ =~= with_notice(old(notes)@, notice));
}

/// At most fifty messages are kept, and the newest is always among them.
pub proof fn law_notices_are_capped(notes: Seq<Notice>, notice: Notice)
    requires
        notes.len() <= NOTIFICATIONS_CAP,
    ensures
        with_notice(notes, notice).len() <= NOTIFICATIONS_CAP,
        with_notice(notes, notice).last() == notice,
{
}

} // verus!
