//! Track tags.
use crate::time::Duration;
use vstd::prelude::*;

verus! {

/// Artist of a track whose tags name none.
pub const UNKNOWN_ARTIST: &'static str = "Unknown Artist";

/// Album of a track whose tags name none.
pub const UNKNOWN_ALBUM: &'static str = "Unknown Album";

/// Tags of one track.
#[derive(Debug, PartialEq, Eq)]
pub struct TrackMetadata {
    pub title: String,
    pub title_tagged: bool,
    pub artist: String,
    pub album: String,
    pub track_number: Option<u32>,
    pub duration: Duration,
    pub bitrate: Option<u32>,
    pub sample_rate: Option<u32>,
    pub codec: String,
    pub format: String,
    pub album_artist: Option<String>,
    pub disc_number: Option<u32>,
    pub genre: Option<String>,
    pub year: Option<u32>,
    pub composer: Option<String>,
    pub comment: Option<String>,
}

/// Characters of an optional text.
pub open spec fn optional_text(t: Option<String>) -> Option<Seq<char>> {
    match t {
        Some(s) => Some(s@),
        None => None,
    }
}

/// What tags say.
pub ghost struct Tags {
    pub title: Seq<char>,
    pub title_tagged: bool,
    pub artist: Seq<char>,
    pub album: Seq<char>,
    pub track_number: Option<u32>,
    pub duration: Duration,
    pub bitrate: Option<u32>,
    pub sample_rate: Option<u32>,
    pub codec: Seq<char>,
    pub format: Seq<char>,
    pub album_artist: Option<Seq<char>>,
    pub disc_number: Option<u32>,
    pub genre: Option<Seq<char>>,
    pub year: Option<u32>,
    pub composer: Option<Seq<char>>,
    pub comment: Option<Seq<char>>,
}

impl View for TrackMetadata {
    type V = Tags;

    open spec fn view(&self) -> Tags {
        Tags {
            title: self.title@,
            title_tagged: self.title_tagged,
            artist: self.artist@,
            album: self.album@,
            track_number: self.track_number,
            duration: self.duration,
            bitrate: self.bitrate,
            sample_rate: self.sample_rate,
            codec: self.codec@,
            format: self.format@,
            album_artist: optional_text(self.album_artist),
            disc_number: self.disc_number,
            genre: optional_text(self.genre),
            year: self.year,
            composer: optional_text(self.composer),
            comment: optional_text(self.comment),
        }
    }
}

/// What optional tags say.
pub open spec fn optional_tags(tags: Option<TrackMetadata>) -> Option<Tags> {
    match tags {
        Some(t) => Some(t@),
        None => None,
    }
}

/// Copy an optional text.
pub fn copy_optional(t: &Option<String>) -> (copy: Option<String>)
    ensures
        optional_text(copy) == optional_text(*t),
{
    match t {
        Some(s) => Some(s.clone()),
        None => None,
    }
}

impl Clone for TrackMetadata {
    fn clone(&self) -> (copy: Self)
        ensures
            copy@ == self@,
    {
        TrackMetadata {
            title: self.title.clone(),
            title_tagged: self.title_tagged,
            artist: self.artist.clone(),
            album: self.album.clone(),
            track_number: self.track_number,
            duration: self.duration,
            bitrate: self.bitrate,
            sample_rate: self.sample_rate,
            codec: self.codec.clone(),
            format: self.format.clone(),
            album_artist: copy_optional(&self.album_artist),
            disc_number: self.disc_number,
            genre: copy_optional(&self.genre),
            year: self.year,
            composer: copy_optional(&self.composer),
            comment: copy_optional(&self.comment),
        }
    }
}

impl Default for TrackMetadata {
    /// Tags that say nothing.
    fn default() -> (tags: Self)
        ensures
            tags.title@.len() == 0,
            !tags.title_tagged,
            tags.artist@.len() == 0,
            tags.album@.len() == 0,
            tags.track_number is None,
            tags.duration.nanos == 0,
            tags.bitrate is None,
            tags.sample_rate is None,
            tags.codec@.len() == 0,
            tags.format@.len() == 0,
            tags.album_artist is None,
            tags.disc_number is None,
            tags.genre is None,
            tags.year is None,
            tags.composer is None,
            tags.comment is None,
    {
        TrackMetadata {
            title: String::new(),
            title_tagged: false,
            artist: String::new(),
            album: String::new(),
            track_number: None,
            duration: Duration { nanos: 0 },
            bitrate: None,
            sample_rate: None,
            codec: String::new(),
            format: String::new(),
            album_artist: None,
            disc_number: None,
            genre: None,
            year: None,
            composer: None,
            comment: None,
        }
    }
}

} // verus!
