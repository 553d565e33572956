//! Finding and decoding covers.
//!
//! A cover comes from the pictures in a track's tags, from a well-known file
//! beside the track, or from the network, in this order and as far as the
//! settings allow. Looking there is up to the caller: [`resolve_source`] and
//! [`decode_source`] turn each answer from outside into the next question.
use crate::artwork::images;
use crate::artwork::remote;
use crate::artwork::remote::CoverFetch;
use crate::artwork::tags;
use crate::config::ArtworkSource as SourceConfig;
use crate::metadata::TrackMetadata;
use crate::path;
use crate::path::FilePath;
use crate::text;
use image::DynamicImage;
use vstd::prelude::*;
use vstd::utf8::*;

verus! {

/// Largest side of a decoded cover that is kept, in pixels.
pub const MAX_RETAINED_SOURCE_SIZE: u32 = 1024;

/// Largest cover file that is read, in bytes.
pub const MAX_ART_FILE_BYTES: u64 = 20_971_520;

/// Largest side that a cover file may declare, in pixels.
pub const MAX_DECODE_DIMENSION: u32 = 16_000;

/// Bytes that decoding one cover may allocate.
pub const MAX_DECODE_ALLOCATION: u64 = 536_870_912;

/// Number of well-known cover files.
pub const COVER_CANDIDATE_COUNT: usize = 7;

/// Where a cover came from, with its bytes or its path.
#[derive(Debug, PartialEq, Eq)]
pub enum ArtworkSource {
    /// Picture from the track's tags.
    Embedded(Vec<u8>),
    /// Cover file beside the track.
    File(FilePath),
    /// Cover from the network.
    Remote(Vec<u8>),
}

/// Why a source did not become an image.
#[derive(Debug, PartialEq, Eq)]
pub enum ArtworkError {
    /// The cover file could not be read.
    Io {
        /// Cover file that failed.
        path: FilePath,
        /// Diagnostic of the file system.
        source: String,
    },
    /// The bytes could not be decoded.
    Decode {
        /// Track that the artwork belongs to.
        track: FilePath,
        /// Diagnostic of the decoder.
        message: String,
    },
}

/// Line about an error.
pub open spec fn error_text(error: ArtworkError) -> Seq<char> {
    match error {
        ArtworkError::Io { path, source } => "reading artwork "@ + text::displayed(path@)
            + " failed: "@ + source@,
        ArtworkError::Decode { track, message } => "decoding artwork for "@ + text::displayed(
            track@,
        ) + " failed: "@ + message@,
    }
}

impl ArtworkError {
    /// Line about the error for the log.
    pub fn describe(&self) -> (line: String)
        ensures
            line@ == error_text(*self),
    {
        match self {
            ArtworkError::Io { path, source } => {
                let mut line = "reading artwork ".to_string();
                line.append(path.to_text_lossy().as_str());
                line.append(" failed: ");
                line.append(source.as_str());
                line
            },
            ArtworkError::Decode { track, message } => {
                let mut line = "decoding artwork for ".to_string();
                line.append(track.to_text_lossy().as_str());
                line.append(" failed: ");
                line.append(message.as_str());
                line
            },
        }
    }
}

/// What the last look outside brought.
pub enum SourceAnswer {
    /// Nobody looked yet.
    Nothing,
    /// Picture in the track's tags, if any.
    Embedded(Option<Vec<u8>>),
    /// Cover file beside the track, if any.
    Directory(Option<FilePath>),
    /// Cover from the network, if any.
    Remote(Option<Vec<u8>>),
}

/// Where to look next, or what was found.
pub enum SourceStep {
    /// Look for a picture in the track's tags.
    ReadTags(FilePath),
    /// Look for a cover file beside the track.
    ProbeDirectory(FilePath),
    /// Fetch a cover from the network.
    FetchCover(CoverFetch),
    /// The search is over.
    Resolved(Option<ArtworkSource>),
}

/// Places where a cover can be.
#[derive(Debug, Clone, Copy, PartialEq, Eq, Structural)]
pub enum Place {
    Tags,
    Directory,
    Network,
    Nowhere,
}

/// Whether the settings allow a place.
pub open spec fn allows(config: SourceConfig, place: Place) -> bool {
    match place {
        Place::Tags => config is Metadata || config is All,
        Place::Directory => config is Local || config is All,
        Place::Network => config is Remote || config is All,
        Place::Nowhere => false,
    }
}

/// Next place to look at, after `looked` places were tried in vain. Tags and
/// directories need a local track, the network needs usable names.
pub open spec fn next_place(
    looked: int,
    local: bool,
    config: SourceConfig,
    searchable: bool,
) -> Place {
    if looked < 1 && local && allows(config, Place::Tags) {
        Place::Tags
    } else if looked < 2 && local && allows(config, Place::Directory) {
        Place::Directory
    } else if looked < 3 && searchable && allows(config, Place::Network) {
        Place::Network
    } else {
        Place::Nowhere
    }
}

/// Number of places that an answer rules out.
pub open spec fn places_tried(answer: SourceAnswer) -> int {
    match answer {
        SourceAnswer::Nothing => 0,
        SourceAnswer::Embedded(_) => 1,
        SourceAnswer::Directory(_) => 2,
        SourceAnswer::Remote(_) => 3,
    }
}

/// Cover that an answer brought, if any.
pub open spec fn found_source(answer: SourceAnswer) -> Option<ArtworkSource> {
    match answer {
        SourceAnswer::Embedded(Some(bytes)) => Some(ArtworkSource::Embedded(bytes)),
        SourceAnswer::Directory(Some(file)) => Some(ArtworkSource::File(file)),
        SourceAnswer::Remote(Some(bytes)) => Some(ArtworkSource::Remote(bytes)),
        _ => None,
    }
}

/// Artist to search for.
pub open spec fn artist_of(metadata: Option<&TrackMetadata>) -> Seq<char> {
    match metadata {
        Some(tags) => tags.artist@,
        None => Seq::empty(),
    }
}

/// Album to search for.
pub open spec fn album_of(metadata: Option<&TrackMetadata>) -> Seq<char> {
    match metadata {
        Some(tags) => tags.album@,
        None => Seq::empty(),
    }
}

/// Find the best source of artwork for an optional local track.
///
/// Starting with no answer, the caller looks where each step says and comes
/// back with what it found, until the step is final. The first hit wins.
pub fn resolve_source(
    track_path: Option<&FilePath>,
    source_config: SourceConfig,
    metadata: Option<&TrackMetadata>,
    cache_dir: &FilePath,
    answer: SourceAnswer,
) -> (step: SourceStep)
    ensures
        found_source(answer) is Some ==> step == SourceStep::Resolved(found_source(answer)),
        found_source(answer) is None ==> match next_place(
            places_tried(answer),
            track_path is Some,
            source_config,
            remote::usable_identity(artist_of(metadata), album_of(metadata)),
        ) {
            Place::Tags => step matches SourceStep::ReadTags(track) && track@ == track_path->0@,
            Place::Directory => step matches SourceStep::ProbeDirectory(track) && track@
                == track_path->0@,
            Place::Network => {
                &&& step matches SourceStep::FetchCover(fetch)
                &&& remote::fetches(fetch, artist_of(metadata), album_of(metadata), cache_dir@)
                &&& fetch.stage == remote::FetchStage::Cache(0)
            },
            Place::Nowhere => step == SourceStep::Resolved(None),
        },
{
    let looked: u8 = match &answer {
        SourceAnswer::Nothing => 0,
        SourceAnswer::Embedded(_) => 1,
        SourceAnswer::Directory(_) => 2,
        SourceAnswer::Remote(_) => 3,
    };
    match answer {
        SourceAnswer::Embedded(Some(bytes)) => {
            return SourceStep::Resolved(Some(ArtworkSource::Embedded(bytes)));
        },
        SourceAnswer::Directory(Some(file)) => {
            return SourceStep::Resolved(Some(ArtworkSource::File(file)));
        },
        SourceAnswer::Remote(Some(bytes)) => {
            return SourceStep::Resolved(Some(ArtworkSource::Remote(bytes)));
        },
        _ => {},
    }
    let (tags, directory, network) = match source_config {
        SourceConfig::Metadata => (true, false, false),
        SourceConfig::Local => (false, true, false),
        SourceConfig::Remote => (false, false, true),
        SourceConfig::All => (true, true, true),
    };
    match track_path {
        Some(track) => {
            if looked < 1 && tags {
                return SourceStep::ReadTags(track.clone());
            }
            if looked < 2 && directory {
                return SourceStep::ProbeDirectory(track.clone());
            }
        },
        None => {},
    }
    if looked < 3 && network {
        let no_name = String::new();
        let fetch = match metadata {
            Some(tags) => remote::fetch_cover(tags.artist.as_str(), tags.album.as_str(), cache_dir),
            None => {
                assert(no_name@ =~= Seq::<char>::empty());
                remote::fetch_cover(no_name.as_str(), no_name.as_str(), cache_dir)
            },
        };
        match fetch {
            Some(f) => {
                return SourceStep::FetchCover(f);
            },
            None => {},
        }
    }
    SourceStep::Resolved(None)
}

/// Tags come before directories and directories before the network.
pub proof fn law_places_are_tried_in_order(
    looked: int,
    local: bool,
    config: SourceConfig,
    searchable: bool,
)
    ensures
        looked >= 1 ==> !(next_place(looked, local, config, searchable) is Tags),
        looked >= 2 ==> !(next_place(looked, local, config, searchable) is Directory),
        looked >= 3 ==> next_place(looked, local, config, searchable) is Nowhere,
{
}

/// Places that the settings exclude are never looked at.
pub proof fn law_excluded_places_are_never_tried(
    looked: int,
    local: bool,
    config: SourceConfig,
    searchable: bool,
)
    ensures
        ({
            let place = next_place(looked, local, config, searchable);
            place is Nowhere || allows(config, place)
        }),
{
}

/// Every allowed place is looked at, in turn, unless it cannot have a cover.
pub proof fn law_every_allowed_place_is_tried(local: bool, searchable: bool)
    ensures
        next_place(0, local, SourceConfig::All, searchable) == if local {
            Place::Tags
        } else if searchable {
            Place::Network
        } else {
            Place::Nowhere
        },
        local ==> next_place(1, local, SourceConfig::All, searchable) is Directory,
        searchable ==> next_place(2, local, SourceConfig::All, searchable) is Network,
{
}

/// Without a local track neither tags nor directories are looked at.
pub proof fn law_streams_skip_local_places(looked: int, config: SourceConfig, searchable: bool)
    ensures
        !(next_place(looked, false, config, searchable) is Tags),
        !(next_place(looked, false, config, searchable) is Directory),
{
}

/// Picture that the tags of a track file hold for it: the first one of the
/// primary tag, or, without a primary tag, of the first tag.
pub open spec fn cover_in_tags(bytes: Seq<u8>) -> Option<Seq<u8>> {
    match tags::tagged(bytes) {
        Some(found) => {
            let tag = if found.primary is Some {
                found.primary
            } else {
                found.first
            };
            match tag {
                Some(pictures) if pictures.len() > 0 => Some(pictures[0]),
                _ => None,
            }
        },
        None => None,
    }
}

/// Picture in the tags of a track file, if any. A file that cannot be parsed has
/// none.
pub fn picture_in(bytes: &Vec<u8>) -> (picture: Option<Vec<u8>>)
    ensures
        picture is Some == cover_in_tags(bytes@) is Some,
        picture matches Some(p) ==> cover_in_tags(bytes@) == Some(p@),
{
    match tags::read_tags(bytes.as_slice()) {
        Some((primary, first)) => embedded_picture(primary, first),
        None => None,
    }
}

/// First picture of the tag that counts: the primary tag, else the first one.
pub fn embedded_picture(primary: Option<Vec<Vec<u8>>>, first: Option<Vec<Vec<u8>>>) -> (picture:
    Option<Vec<u8>>)
    ensures
        ({
            let tag = if primary is Some {
                primary
            } else {
                first
            };
            match tag {
                Some(pictures) if pictures@.len() > 0 => picture is Some && picture->0@
                    == pictures@[0]@,
                _ => picture is None,
            }
        }),
{
    let tag = match primary {
        Some(pictures) => Some(pictures),
        None => first,
    };
    match tag {
        Some(pictures) => if pictures.len() > 0 {
            Some(path::copy_bytes(&pictures[0]))
        } else {
            None
        },
        None => None,
    }
}

/// Names of the well-known cover files, the best first.
pub open spec fn candidate_name(index: int) -> Seq<char> {
    if index == 0 {
        "cover.jpg"@
    } else if index == 1 {
        "cover.jpeg"@
    } else if index == 2 {
        "cover.png"@
    } else if index == 3 {
        "folder.jpg"@
    } else if index == 4 {
        "folder.jpeg"@
    } else if index == 5 {
        "front.jpg"@
    } else {
        "front.png"@
    }
}

/// Path of a well-known cover file in a directory.
pub open spec fn candidate_path(directory: Seq<u8>, index: int) -> Seq<u8> {
    path::joined(directory, encode_utf8(candidate_name(index)))
}

fn candidate_text(index: usize) -> (name: &'static str)
    ensures
        name@ == candidate_name(index as int),
{
    match index {
        0 => "cover.jpg",
        1 => "cover.jpeg",
        2 => "cover.png",
        3 => "folder.jpg",
        4 => "folder.jpeg",
        5 => "front.jpg",
        _ => "front.png",
    }
}

/// Paths of the well-known cover files in a directory, the best first.
pub fn cover_candidates(directory: &FilePath) -> (paths: Vec<FilePath>)
    ensures
        paths@.len() == COVER_CANDIDATE_COUNT,
        forall|i: int|
            0 <= i < COVER_CANDIDATE_COUNT ==> (#[trigger] paths@[i])@ == candidate_path(
                directory@,
                i,
            ),
{
    let mut paths: Vec<FilePath> = Vec::new();
    let mut i: usize = 0;
    while i < COVER_CANDIDATE_COUNT
        invariant
            i <= COVER_CANDIDATE_COUNT,
            paths@.len() == i,
            forall|k: int| 0 <= k < i ==> (#[trigger] paths@[k])@ == candidate_path(directory@, k),
        decreases COVER_CANDIDATE_COUNT - i,
    {
        paths.push(directory.join(candidate_text(i)));
        i += 1;
    }
    paths
}

/// Cover file in a directory: the best of the well-known files that is there.
/// `present` tells of each candidate whether it is a regular file.
pub fn directory_cover(directory: &FilePath, present: &Vec<bool>) -> (cover: Option<FilePath>)
    requires
        present@.len() == COVER_CANDIDATE_COUNT,
    ensures
        cover is Some == (exists|i: int| 0 <= i < COVER_CANDIDATE_COUNT && #[trigger] present@[i]),
        cover is Some == present@.contains(true),
        cover matches Some(file) ==> exists|i: int|
            0 <= i < COVER_CANDIDATE_COUNT && #[trigger] present@[i] && file@ == candidate_path(
                directory@,
                i,
            ) && forall|k: int| 0 <= k < i ==> !#[trigger] present@[k],
{
    let mut i: usize = 0;
    while i < COVER_CANDIDATE_COUNT
        invariant
            i <= COVER_CANDIDATE_COUNT,
            present@.len() == COVER_CANDIDATE_COUNT,
            forall|k: int| 0 <= k < i ==> !#[trigger] present@[k],
        decreases COVER_CANDIDATE_COUNT - i,
    {
        if present[i] {
            return Some(directory.join(candidate_text(i)));
        }
        i += 1;
    }
    None
}

/// Diagnostic for a cover file that is too large.
pub open spec fn file_size_message(file: Seq<u8>, size: u64) -> Seq<char> {
    "cover file "@ + text::displayed(file) + " is "@ + text::decimal_text(size as nat)
        + " bytes, above the "@ + text::decimal_text(MAX_ART_FILE_BYTES as nat) + " byte ceiling"@
}

/// Diagnostic for a cover that declares too many pixels.
pub open spec fn dimensions_message(width: u32, height: u32) -> Seq<char> {
    "cover dimensions "@ + text::decimal_text(width as nat) + "x"@ + text::decimal_text(
        height as nat,
    ) + " exceed the "@ + text::decimal_text(MAX_DECODE_DIMENSION as nat) + "px ceiling"@
}

/// Extent of the bitmap that the bytes of a cover decode to under the limits.
pub open spec fn cover_decoded(bytes: Seq<u8>) -> Result<images::Extent, Seq<char>> {
    images::decoded(bytes, MAX_DECODE_DIMENSION, MAX_DECODE_ALLOCATION)
}

/// Extent of the bitmap that the bytes of a cover become, or a diagnostic.
pub open spec fn cover_extent(bytes: Seq<u8>) -> Result<images::Extent, Seq<char>> {
    match images::header_extent(bytes) {
        Some((width, height)) if width > MAX_DECODE_DIMENSION || height > MAX_DECODE_DIMENSION => {
            Err(dimensions_message(width, height))
        },
        _ => match cover_decoded(bytes) {
            Ok(bitmap) => Ok(retained(bitmap)),
            Err(message) => Err(message),
        },
    }
}

/// Extent of the bitmap that is kept of a decoded one.
pub open spec fn retained(bitmap: images::Extent) -> images::Extent {
    if bitmap.width > MAX_RETAINED_SOURCE_SIZE || bitmap.height > MAX_RETAINED_SOURCE_SIZE {
        images::fitted(bitmap, MAX_RETAINED_SOURCE_SIZE)
    } else {
        bitmap
    }
}

/// Longer side of an extent.
pub open spec fn longer_side(extent: images::Extent) -> u32 {
    if extent.width >= extent.height {
        extent.width
    } else {
        extent.height
    }
}

/// Whether an extent is what is kept of a decoded one: the same, or, where it is
/// too large, one whose longer side is the largest that is kept and whose
/// proportions are the same to the nearest pixel.
pub open spec fn is_kept(source: images::Extent, kept: images::Extent) -> bool {
    &&& longer_side(kept) <= MAX_RETAINED_SOURCE_SIZE
    &&& if longer_side(source) <= MAX_RETAINED_SOURCE_SIZE {
        kept == source
    } else {
        &&& longer_side(kept) == MAX_RETAINED_SOURCE_SIZE
        &&& images::scaled_to(source, MAX_RETAINED_SOURCE_SIZE, kept)
    }
}

/// A cover whose width is a whole multiple of the largest side that is kept, and
/// whose height is the same multiple of a smaller side, comes out at just these
/// sides: 2048 by 1024 pixels become 1024 by 512.
pub proof fn law_whole_multiples_scale_exactly(
    source: images::Extent,
    kept: images::Extent,
    factor: u32,
    side: u32,
)
    requires
        is_kept(source, kept),
        factor >= 2,
        1 <= side <= MAX_RETAINED_SOURCE_SIZE,
        source.width == factor * MAX_RETAINED_SOURCE_SIZE,
        source.height == factor * side,
    ensures
        kept.width == MAX_RETAINED_SOURCE_SIZE,
        kept.height == side,
{
    let bound = MAX_RETAINED_SOURCE_SIZE as int;
    let f = factor as int;
    let s = side as int;
    let k = kept.height as int;
    assert(f * s <= f * bound && f * bound > bound) by (nonlinear_arith)
        requires
            f >= 2,
            1 <= s <= bound,
            bound == 1024,
    ;
    if k == 1 && 2 * ((f * s) * bound) <= f * bound {
        assert(false) by (nonlinear_arith)
            requires
                2 * ((f * s) * bound) <= f * bound,
                f >= 2,
                s >= 1,
                bound == 1024,
        ;
    }
    assert(k == s) by (nonlinear_arith)
        requires
            -(f * bound) <= 2 * (k * (f * bound) - (f * s) * bound) <= f * bound,
            f >= 2,
            bound == 1024,
    {
        assert(k * (f * bound) - (f * s) * bound == (k - s) * (f * bound)) by (nonlinear_arith);
        if k - s >= 1 {
            assert((k - s) * (f * bound) >= f * bound) by (nonlinear_arith)
                requires
                    k - s >= 1,
                    f * bound >= 0,
            ;
        }
        if k - s <= -1 {
            assert((k - s) * (f * bound) <= -(f * bound)) by (nonlinear_arith)
                requires
                    k - s <= -1,
                    f * bound >= 0,
            ;
        }
    }
}

/// Whether a bitmap is one that the decoder gives for the bytes of a cover under
/// the limits.
pub closed spec fn comes_from(bytes: Seq<u8>, bitmap: DynamicImage) -> bool {
    exists|source: &[u8]|
        source@ == bytes && #[trigger] call_ensures(
            images::decode,
            (source, MAX_DECODE_DIMENSION, MAX_DECODE_ALLOCATION),
            Ok::<DynamicImage, String>(bitmap),
        )
}

/// Whether a bitmap is one that scaling another one down to the largest side that
/// is kept gives.
pub closed spec fn scaled_from(decoded: DynamicImage, kept: DynamicImage) -> bool {
    call_ensures(images::fit_into_square, (&decoded, MAX_RETAINED_SOURCE_SIZE), kept)
}

/// Whether a bitmap is kept of a decoded one: the decoded one itself, or, where it
/// is too large, the decoded one scaled down once.
pub open spec fn is_kept_of(decoded: DynamicImage, kept: DynamicImage) -> bool {
    if longer_side(images::extent_of(decoded)) <= MAX_RETAINED_SOURCE_SIZE {
        kept == decoded
    } else {
        scaled_from(decoded, kept)
    }
}

/// Whether a bitmap is the cover that bytes hold: what the decoder gives for them,
/// scaled down once where that is too large.
pub open spec fn is_cover_of(bytes: Seq<u8>, image: DynamicImage) -> bool {
    exists|decoded: DynamicImage|
        #[trigger] comes_from(bytes, decoded) && is_kept_of(decoded, image)
}

/// The extent of a cover follows from its bytes.
pub proof fn law_covers_have_the_extent_of_their_bytes(bytes: Seq<u8>, image: DynamicImage)
    requires
        is_cover_of(bytes, image),
    ensures
        cover_decoded(bytes) is Ok,
        images::extent_of(image) == retained(cover_decoded(bytes)->Ok_0),
        is_kept(cover_decoded(bytes)->Ok_0, images::extent_of(image)),
{
}

/// Keep a decoded cover as it is, or scale it down to the largest side that is
/// kept.
pub fn retain(decoded: DynamicImage) -> (kept: DynamicImage)
    ensures
        images::extent_of(kept) == retained(images::extent_of(decoded)),
        is_kept(images::extent_of(decoded), images::extent_of(kept)),
        is_kept_of(decoded, kept),
{
    let (width, height) = images::extent(&decoded);
    if width > MAX_RETAINED_SOURCE_SIZE || height > MAX_RETAINED_SOURCE_SIZE {
        images::fit_into_square(&decoded, MAX_RETAINED_SOURCE_SIZE)
    } else {
        decoded
    }
}

/// Whether a header is one that decoding is not even tried on.
pub fn refuses_header(extent: Option<(u32, u32)>) -> (refused: bool)
    ensures
        refused == (extent matches Some((width, height)) && (width > MAX_DECODE_DIMENSION || height
            > MAX_DECODE_DIMENSION)),
{
    match extent {
        Some((width, height)) => width > MAX_DECODE_DIMENSION || height > MAX_DECODE_DIMENSION,
        None => false,
    }
}

/// Decode the bytes of a cover under the limits and keep a bounded bitmap.
///
/// The declared size is checked first, so that a small file that would inflate
/// to an enormous bitmap is never decoded.
pub fn decode_bytes(track_path: &FilePath, bytes: &Vec<u8>) -> (bitmap: Result<
    DynamicImage,
    ArtworkError,
>)
    ensures
        bitmap is Ok == cover_extent(bytes@) is Ok,
        bitmap matches Ok(image) ==> cover_extent(bytes@)->Ok_0 == images::extent_of(image),
        bitmap is Ok == cover_decoded(bytes@) is Ok,
        bitmap matches Ok(image) ==> is_kept(cover_decoded(bytes@)->Ok_0, images::extent_of(image)),
        bitmap matches Ok(image) ==> is_cover_of(bytes@, image),
        bitmap matches Err(error) ==> {
            &&& error matches ArtworkError::Decode { track, message }
            &&& track@ == track_path@
            &&& cover_extent(bytes@)->Err_0 == message@
        },
{
    let extent = images::read_header_extent(bytes.as_slice());
    if refuses_header(extent) {
        match extent {
            Some((width, height)) => {
                let mut message = "cover dimensions ".to_string();
                text::append_decimal(&mut message, width as u64);
                message.append("x");
                text::append_decimal(&mut message, height as u64);
                message.append(" exceed the ");
                text::append_decimal(&mut message, MAX_DECODE_DIMENSION as u64);
                message.append("px ceiling");
                return Err(ArtworkError::Decode { track: track_path.clone(), message });
            },
            None => {},
        }
    }
    let source = bytes.as_slice();
    match images::decode(source, MAX_DECODE_DIMENSION, MAX_DECODE_ALLOCATION) {
        Err(message) => Err(ArtworkError::Decode { track: track_path.clone(), message }),
        Ok(decoded) => {
            assert(comes_from(bytes@, decoded));
            Ok(retain(decoded))
        },
    }
}

/// What the last look at a cover file brought.
pub enum FileAnswer {
    /// Nobody looked yet.
    Nothing,
    /// Size of the file in bytes, or a diagnostic.
    Size(Result<u64, String>),
    /// Contents of the file, or a diagnostic.
    Contents(Result<Vec<u8>, String>),
}

/// What to do next to decode a source.
pub enum DecodeStep {
    /// Find out the size of a file.
    Measure(FilePath),
    /// Read a file.
    Read(FilePath),
    /// The decoding is over.
    Done(Result<DynamicImage, ArtworkError>),
}

/// Whether a step ends the decoding with what the bytes of a cover become.
pub open spec fn decodes(step: DecodeStep, track: Seq<u8>, bytes: Seq<u8>) -> bool {
    &&& step matches DecodeStep::Done(result)
    &&& result is Ok == cover_extent(bytes) is Ok
    &&& result is Ok == cover_decoded(bytes) is Ok
    &&& (result matches Ok(image) ==> cover_extent(bytes)->Ok_0 == images::extent_of(image)
        && is_kept(cover_decoded(bytes)->Ok_0, images::extent_of(image)) && is_cover_of(
        bytes,
        image,
    ))
    &&& (result matches Err(error) ==> {
        &&& error matches ArtworkError::Decode { track: t, message }
        &&& t@ == track
        &&& cover_extent(bytes)->Err_0 == message@
    })
}

/// Whether a step ends the decoding because a file could not be read.
pub open spec fn fails_to_read(step: DecodeStep, file: Seq<u8>, diagnostic: Seq<char>) -> bool {
    &&& step matches DecodeStep::Done(Err(ArtworkError::Io { path, source }))
    &&& path@ == file
    &&& source@ == diagnostic
}

/// Decode a resolved source into an image.
///
/// Bytes are decoded at once. A file is measured before it is read, and one
/// that is too large is not read at all.
pub fn decode_source(track_path: &FilePath, source: &ArtworkSource, answer: FileAnswer) -> (step:
    DecodeStep)
    ensures
        source matches ArtworkSource::Embedded(bytes) ==> decodes(step, track_path@, bytes@),
        source matches ArtworkSource::Remote(bytes) ==> decodes(step, track_path@, bytes@),
        source matches ArtworkSource::File(file) ==> match answer {
            FileAnswer::Nothing => step matches DecodeStep::Measure(f) && f@ == file@,
            FileAnswer::Size(Err(diagnostic)) => fails_to_read(step, file@, diagnostic@),
            FileAnswer::Size(Ok(size)) => if size > MAX_ART_FILE_BYTES {
                &&& step matches DecodeStep::Done(Err(ArtworkError::Decode { track, message }))
                &&& track@ == track_path@
                &&& message@ == file_size_message(file@, size)
            } else {
                step matches DecodeStep::Read(f) && f@ == file@
            },
            FileAnswer::Contents(Err(diagnostic)) => fails_to_read(step, file@, diagnostic@),
            FileAnswer::Contents(Ok(bytes)) => decodes(step, track_path@, bytes@),
        },
{
    match source {
        ArtworkSource::Embedded(bytes) => DecodeStep::Done(decode_bytes(track_path, bytes)),
        ArtworkSource::Remote(bytes) => DecodeStep::Done(decode_bytes(track_path, bytes)),
        ArtworkSource::File(file) => match answer {
            FileAnswer::Nothing => DecodeStep::Measure(file.clone()),
            FileAnswer::Size(Err(diagnostic)) => DecodeStep::Done(
                Err(ArtworkError::Io { path: file.clone(), source: diagnostic }),
            ),
            FileAnswer::Size(Ok(size)) => {
                if size > MAX_ART_FILE_BYTES {
                    let mut message = "cover file ".to_string();
                    message.append(file.to_text_lossy().as_str());
                    message.append(" is ");
                    text::append_decimal(&mut message, size);
                    message.append(" bytes, above the ");
                    text::append_decimal(&mut message, MAX_ART_FILE_BYTES);
                    message.append(" byte ceiling");
                    DecodeStep::Done(
                        Err(ArtworkError::Decode { track: track_path.clone(), message }),
                    )
                } else {
                    DecodeStep::Read(file.clone())
                }
            },
            FileAnswer::Contents(Err(diagnostic)) => DecodeStep::Done(
                Err(ArtworkError::Io { path: file.clone(), source: diagnostic }),
            ),
            FileAnswer::Contents(Ok(bytes)) => DecodeStep::Done(decode_bytes(track_path, &bytes)),
        },
    }
}

/// What the bytes of a cover become is what the decoder makes of them, as it is up to
/// 1024 pixels, and scaled down once above that.
pub(crate) proof fn law_covers_are_what_the_decoder_makes(
    track: &FilePath,
    bytes: &Vec<u8>,
    image: DynamicImage,
)
    requires
        call_ensures(decode_bytes, (track, bytes), Ok::<DynamicImage, ArtworkError>(image)),
    ensures
        exists|source: &[u8], decoded: DynamicImage|
            {
                &&& source@ == bytes@
                &&& #[trigger] call_ensures(
                    images::decode,
                    (source, 16_000, 536_870_912),
                    Ok::<DynamicImage, String>(decoded),
                )
                &&& images::extent_of(decoded).width <= 1024 && images::extent_of(decoded).height
                    <= 1024 ==> image == decoded
                &&& images::extent_of(decoded).width > 1024 || images::extent_of(decoded).height
                    > 1024 ==> call_ensures(images::fit_into_square, (&decoded, 1024), image)
            },
{
    let decoded = choose|decoded: DynamicImage|
        #[trigger] comes_from(bytes@, decoded) && is_kept_of(decoded, image);
    let source = choose|source: &[u8]|
        source@ == bytes@ && #[trigger] call_ensures(
            images::decode,
            (source, MAX_DECODE_DIMENSION, MAX_DECODE_ALLOCATION),
            Ok::<DynamicImage, String>(decoded),
        );
    assert(call_ensures(
        images::decode,
        (source, 16_000, 536_870_912),
        Ok::<DynamicImage, String>(decoded),
    ));
}

} // verus!
