//! Promises about where covers are looked for and what becomes of them.
//!
//! Each law is about the calls themselves: what a call may return for what it
//! was given.
use crate::artwork::backend_kind::ArtworkBackendKind;
use crate::artwork::images;
use crate::artwork::load;
use crate::artwork::load::{
    ArtworkLoader, EntryKind, LoadEvent, LoadRequest, LoadStage, LoadStep, LoadedArtwork,
    MaterializeAnswer, MaterializeStep,
};
use crate::artwork::loader;
use crate::artwork::loader::{
    ArtworkError, ArtworkSource, DecodeStep, FileAnswer, SourceAnswer, SourceStep,
};
use crate::artwork::protocol;
use crate::artwork::remote;
use crate::artwork::state::{ArtworkProtocol, MaterializedArtwork};
use crate::artwork::tags;
use crate::artwork::terminal;
use crate::config::ArtworkSource as SourceConfig;
use crate::digest;
use crate::geometry::{FontSize, Size};
use crate::metadata::TrackMetadata;
use crate::path;
use crate::path::FilePath;
use image::DynamicImage;
use ratatui_image::picker::Picker;
use vstd::prelude::*;
use vstd::utf8::*;

verus! {

/// Whether a step asks for the tags of a track.
pub open spec fn asks_tags(step: SourceStep, track: FilePath) -> bool {
    step matches SourceStep::ReadTags(file) && file@ == track@
}

/// Whether a step asks for the directory of a track.
pub open spec fn asks_directory(step: SourceStep, track: FilePath) -> bool {
    step matches SourceStep::ProbeDirectory(file) && file@ == track@
}

/// Whether a step asks the network for a release.
pub open spec fn asks_network(step: SourceStep, artist: Seq<char>, album: Seq<char>) -> bool {
    step matches SourceStep::FetchCover(fetch) && fetch.artist@ == artist && fetch.album@ == album
}

/// Whether a step ends a search without a cover.
pub open spec fn gives_up(step: SourceStep) -> bool {
    step matches SourceStep::Resolved(found) && found is None
}

/// The setting for embedded pictures asks for the tags of a local track, once,
/// and for nothing else.
pub proof fn law_metadata_setting_reads_the_tags(
    track: Option<&FilePath>,
    metadata: Option<&TrackMetadata>,
    cache: &FilePath,
    first: SourceStep,
    answer: SourceAnswer,
    second: SourceStep,
)
    requires
        call_ensures(
            loader::resolve_source,
            (track, SourceConfig::Metadata, metadata, cache, SourceAnswer::Nothing),
            first,
        ),
        call_ensures(
            loader::resolve_source,
            (track, SourceConfig::Metadata, metadata, cache, answer),
            second,
        ),
        answer matches SourceAnswer::Embedded(None),
    ensures
        track matches Some(file) ==> asks_tags(first, *file),
        track is None ==> gives_up(first),
        gives_up(second),
{
}

/// The setting for cover files asks for the directory of a local track, once, and
/// for nothing else.
pub proof fn law_local_setting_probes_the_directory(
    track: Option<&FilePath>,
    metadata: Option<&TrackMetadata>,
    cache: &FilePath,
    first: SourceStep,
    answer: SourceAnswer,
    second: SourceStep,
)
    requires
        call_ensures(
            loader::resolve_source,
            (track, SourceConfig::Local, metadata, cache, SourceAnswer::Nothing),
            first,
        ),
        call_ensures(
            loader::resolve_source,
            (track, SourceConfig::Local, metadata, cache, answer),
            second,
        ),
        answer matches SourceAnswer::Directory(None),
    ensures
        track matches Some(file) ==> asks_directory(first, *file),
        track is None ==> gives_up(first),
        gives_up(second),
{
}

/// The setting for the network asks for the release that the tags name, once, and
/// for nothing else. Names that are not enough to search with ask for nothing.
pub proof fn law_remote_setting_asks_the_network(
    track: Option<&FilePath>,
    metadata: Option<&TrackMetadata>,
    cache: &FilePath,
    artist: &str,
    album: &str,
    usable: bool,
    first: SourceStep,
    answer: SourceAnswer,
    second: SourceStep,
)
    requires
        metadata is Some,
        metadata->0.artist@ == artist@,
        metadata->0.album@ == album@,
        call_ensures(remote::usable_remote_identity, (artist, album), usable),
        call_ensures(
            loader::resolve_source,
            (track, SourceConfig::Remote, metadata, cache, SourceAnswer::Nothing),
            first,
        ),
        call_ensures(
            loader::resolve_source,
            (track, SourceConfig::Remote, metadata, cache, answer),
            second,
        ),
        answer matches SourceAnswer::Remote(None),
    ensures
        usable ==> asks_network(first, artist@, album@),
        !usable ==> gives_up(first),
        gives_up(second),
{
}

/// The setting for everything asks for the tags, the directory and the network in
/// turn, the first two only for a local track, the last only with usable names.
pub proof fn law_all_places_are_tried_in_turn(
    track: Option<&FilePath>,
    metadata: Option<&TrackMetadata>,
    cache: &FilePath,
    artist: &str,
    album: &str,
    usable: bool,
    first: SourceStep,
    no_picture: SourceAnswer,
    second: SourceStep,
    no_file: SourceAnswer,
    third: SourceStep,
    no_release: SourceAnswer,
    last: SourceStep,
)
    requires
        metadata is Some,
        metadata->0.artist@ == artist@,
        metadata->0.album@ == album@,
        call_ensures(remote::usable_remote_identity, (artist, album), usable),
        no_picture matches SourceAnswer::Embedded(None),
        no_file matches SourceAnswer::Directory(None),
        no_release matches SourceAnswer::Remote(None),
        call_ensures(
            loader::resolve_source,
            (track, SourceConfig::All, metadata, cache, SourceAnswer::Nothing),
            first,
        ),
        call_ensures(
            loader::resolve_source,
            (track, SourceConfig::All, metadata, cache, no_picture),
            second,
        ),
        call_ensures(
            loader::resolve_source,
            (track, SourceConfig::All, metadata, cache, no_file),
            third,
        ),
        call_ensures(
            loader::resolve_source,
            (track, SourceConfig::All, metadata, cache, no_release),
            last,
        ),
    ensures
        track matches Some(file) ==> asks_tags(first, *file) && asks_directory(second, *file),
        track is None && usable ==> asks_network(first, artist@, album@),
        track is None && !usable ==> gives_up(first),
        usable ==> asks_network(third, artist@, album@),
        !usable ==> gives_up(third),
        gives_up(last),
{
}

/// Without tags there is nothing to ask the network for.
pub proof fn law_nameless_tracks_are_not_searched(
    track: Option<&FilePath>,
    cache: &FilePath,
    config: SourceConfig,
    answer: SourceAnswer,
    step: SourceStep,
)
    requires
        call_ensures(
            loader::resolve_source,
            (track, config, None::<&TrackMetadata>, cache, answer),
            step,
        ),
    ensures
        !(step is FetchCover),
{
}

/// The first hit wins, whatever the settings say: it is handed on as it is.
pub proof fn law_the_first_hit_wins(
    track: Option<&FilePath>,
    config: SourceConfig,
    metadata: Option<&TrackMetadata>,
    cache: &FilePath,
    answer: SourceAnswer,
    step: SourceStep,
)
    requires
        call_ensures(loader::resolve_source, (track, config, metadata, cache, answer), step),
    ensures
        answer matches SourceAnswer::Embedded(Some(bytes)) ==> step == SourceStep::Resolved(
            Some(ArtworkSource::Embedded(bytes)),
        ),
        answer matches SourceAnswer::Directory(Some(file)) ==> step == SourceStep::Resolved(
            Some(ArtworkSource::File(file)),
        ),
        answer matches SourceAnswer::Remote(Some(bytes)) ==> step == SourceStep::Resolved(
            Some(ArtworkSource::Remote(bytes)),
        ),
        step matches SourceStep::Resolved(Some(_)) ==> answer matches SourceAnswer::Embedded(Some(_))
            || answer matches SourceAnswer::Directory(Some(_)) || answer matches SourceAnswer::Remote(
            Some(_),
        ),
{
}

/// The first picture of the primary tag wins; the first tag counts only where
/// there is no primary one.
pub proof fn law_the_primary_tag_wins(
    primary: Option<Vec<Vec<u8>>>,
    first: Option<Vec<Vec<u8>>>,
    picture: Option<Vec<u8>>,
)
    requires
        call_ensures(loader::embedded_picture, (primary, first), picture),
    ensures
        primary is Some && primary->0@.len() > 0 ==> picture is Some && picture->0@
            == primary->0@[0]@,
        primary is Some && primary->0@.len() == 0 ==> picture is None,
        primary is None && first is Some && first->0@.len() > 0 ==> picture is Some && picture->0@
            == first->0@[0]@,
        primary is None && (first is None || first->0@.len() == 0) ==> picture is None,
{
}

/// The best cover file of a directory is the first candidate that is there, and
/// lies in that directory.
pub proof fn law_the_best_cover_file_wins(
    directory: &FilePath,
    paths: Vec<FilePath>,
    present: &Vec<bool>,
    cover: Option<FilePath>,
)
    requires
        call_ensures(loader::cover_candidates, (directory,), paths),
        call_ensures(loader::directory_cover, (directory, present), cover),
        present@.len() == paths@.len(),
    ensures
        paths@.len() == 7,
        paths@[0]@ == path::joined(directory@, encode_utf8("cover.jpg"@)),
        paths@[1]@ == path::joined(directory@, encode_utf8("cover.jpeg"@)),
        paths@[2]@ == path::joined(directory@, encode_utf8("cover.png"@)),
        paths@[3]@ == path::joined(directory@, encode_utf8("folder.jpg"@)),
        paths@[4]@ == path::joined(directory@, encode_utf8("folder.jpeg"@)),
        paths@[5]@ == path::joined(directory@, encode_utf8("front.jpg"@)),
        paths@[6]@ == path::joined(directory@, encode_utf8("front.png"@)),
        cover is Some == present@.contains(true),
        cover matches Some(file) ==> exists|i: int|
            0 <= i < paths@.len() && #[trigger] present@[i] && file@ == paths@[i]@ && forall|k: int|
                0 <= k < i ==> !#[trigger] present@[k],
{
    if cover is Some {
        let i = choose|i: int|
            0 <= i < loader::COVER_CANDIDATE_COUNT && #[trigger] present@[i] && cover->0@
                == loader::candidate_path(directory@, i) && forall|k: int|
                0 <= k < i ==> !#[trigger] present@[k];
        assert(paths@[i]@ == cover->0@);
    }
}

/// A cover that fits is kept as it is. A larger one is scaled so that its longer
/// side has 1024 pixels, and its shorter side is off the exact proportion by half
/// a pixel at most, unless it would vanish.
pub proof fn law_kept_covers_have_their_proportions(decoded: DynamicImage, kept: DynamicImage)
    requires
        call_ensures(loader::retain, (decoded,), kept),
    ensures
        ({
            let before = images::extent_of(decoded);
            let after = images::extent_of(kept);
            &&& before.width <= 1024 && before.height <= 1024 ==> kept == decoded
            &&& before.width > 1024 && before.width >= before.height ==> {
                &&& after.width == 1024
                &&& 1 <= after.height <= 1024
                &&& 2 * after.height * before.width - 2 * before.height * 1024 <= before.width
                    || after.height == 1
                &&& 2 * before.height * 1024 - 2 * after.height * before.width <= before.width
            }
            &&& before.height > 1024 && before.height >= before.width ==> {
                &&& after.height == 1024
                &&& 1 <= after.width <= 1024
                &&& 2 * after.width * before.height - 2 * before.width * 1024 <= before.height
                    || after.width == 1
                &&& 2 * before.width * 1024 - 2 * after.width * before.height <= before.height
            }
        }),
{
    let before = images::extent_of(decoded);
    let after = images::extent_of(kept);
    assert(2 * after.height * before.width == 2 * (after.height * before.width)) by (nonlinear_arith);
    assert(2 * after.width * before.height == 2 * (after.width * before.height)) by (nonlinear_arith);
    assert(after.height == 1 ==> after.height * before.width == before.width) by (nonlinear_arith);
    assert(after.width == 1 ==> after.width * before.height == before.height) by (nonlinear_arith);
}

/// Cover files are measured, then read if they are not larger than 20 MiB, and
/// then decoded; a step that fails ends with an error about the file.
pub proof fn law_cover_files_are_measured_before_they_are_read(
    track: &FilePath,
    file: FilePath,
    answer: FileAnswer,
    step: DecodeStep,
)
    requires
        call_ensures(loader::decode_source, (track, &ArtworkSource::File(file), answer), step),
    ensures
        answer is Nothing ==> (step matches DecodeStep::Measure(f) && f@ == file@),
        answer matches FileAnswer::Size(Ok(size)) ==> if size <= 20 * 1024 * 1024 {
            step matches DecodeStep::Read(f) && f@ == file@
        } else {
            step matches DecodeStep::Done(Err(ArtworkError::Decode { track: t, .. })) && t@ == track@
        },
        answer matches FileAnswer::Size(Err(reason)) ==> (step matches DecodeStep::Done(
            Err(ArtworkError::Io { path: p, source }),
        ) && p@ == file@ && source@ == reason@),
        answer matches FileAnswer::Contents(Err(reason)) ==> (step matches DecodeStep::Done(
            Err(ArtworkError::Io { path: p, source }),
        ) && p@ == file@ && source@ == reason@),
        answer matches FileAnswer::Contents(Ok(_)) ==> step is Done,
{
}

/// Whichever way the bytes of a cover came, they become the same thing: a bitmap
/// whose sides are those of the decoded one where it fits, and an error about the
/// track where they do not decode or declare a side over 16000 pixels.
pub proof fn law_bytes_decode_alike_wherever_they_are_from(
    track: &FilePath,
    bytes: Vec<u8>,
    answer: FileAnswer,
    embedded: DecodeStep,
    remote: DecodeStep,
    file: FilePath,
    read: DecodeStep,
)
    requires
        call_ensures(loader::decode_source, (track, &ArtworkSource::Embedded(bytes), answer), embedded),
        call_ensures(loader::decode_source, (track, &ArtworkSource::Remote(bytes), answer), remote),
        call_ensures(
            loader::decode_source,
            (track, &ArtworkSource::File(file), FileAnswer::Contents(Ok(bytes))),
            read,
        ),
    ensures
        embedded is Done && remote is Done && read is Done,
        embedded->Done_0 is Ok == remote->Done_0 is Ok,
        embedded->Done_0 is Ok == read->Done_0 is Ok,
        embedded->Done_0 is Ok == images::decoded(bytes@, 16_000, 536_870_912) is Ok,
        embedded->Done_0 matches Ok(image) ==> {
            let sides = images::decoded(bytes@, 16_000, 536_870_912)->Ok_0;
            &&& images::extent_of(image) == images::extent_of(remote->Done_0->Ok_0)
            &&& images::extent_of(image) == images::extent_of(read->Done_0->Ok_0)
            &&& sides.width <= 1024 && sides.height <= 1024 ==> images::extent_of(image) == sides
            &&& images::extent_of(image).width <= 1024 && images::extent_of(image).height <= 1024
        },
        embedded->Done_0 matches Err(error) ==> (error matches ArtworkError::Decode { track: t, .. }
            && t@ == track@),
        images::header_extent(bytes@) matches Some((width, height)) ==> width > 16_000 || height
            > 16_000 ==> embedded->Done_0 is Err,
{
}

/// Whether a loader also prepares for an external renderer.
pub open spec fn prepares_a_path(l: ArtworkLoader) -> bool {
    ||| l.backend is Ueberzugpp
    ||| l.backend is Ueberzug
    ||| l.backend is RatatuiImage && l.external_fallback
}

/// A prepared cover draws the bitmap that it was given: with what the picker
/// selected where the terminal draws, and with half blocks of 10 by 20 pixels
/// elsewhere. A fallback in half blocks is there exactly if an external renderer
/// may have to be replaced, and no target exceeds 1024 pixels by more than a cell.
pub proof fn law_prepared_covers_draw_their_bitmap(
    l: &ArtworkLoader,
    image: DynamicImage,
    source: Option<MaterializedArtwork>,
    loaded: LoadedArtwork,
)
    requires
        call_ensures(ArtworkLoader::prepare, (l, image, source), loaded),
    ensures
        ({
            let primary = terminal::protocol_contents(loaded.protocol);
            let picker = terminal::picker_contents(l.picker);
            let native = l.backend is RatatuiImage || l.backend is Disabled;
            &&& loaded.external_source == source
            &&& primary.area == (Size { width: 0, height: 0 })
            &&& primary.outcome is None
            &&& images::extent_of(primary.picture) == images::extent_of(image)
            &&& !native || !picker.backdrop ==> primary.picture == image
            &&& native ==> primary.font == picker.font && primary.halfblocks == picker.halfblocks
            &&& !native ==> primary.font == (FontSize { width: 10, height: 20 })
                && primary.halfblocks
            &&& loaded.fallback_protocol is Some == prepares_a_path(*l)
            &&& loaded.fallback_resize_target is Some == prepares_a_path(*l)
            &&& loaded.fallback_protocol matches Some(p) ==> {
                let fallback = terminal::protocol_contents(p);
                &&& fallback.picture == image
                &&& fallback.halfblocks
                &&& fallback.font == (FontSize { width: 10, height: 20 })
                &&& fallback.area == (Size { width: 0, height: 0 })
                &&& fallback.outcome is None
                &&& loaded.fallback_resize_target == Some(Size { width: 102, height: 51 })
            }
            &&& loaded.resize_target.width >= 1 && loaded.resize_target.height >= 1
        }),
{
    let named = match source {
        Some(artwork) => Some((artwork.path@, artwork.policy)),
        None => None,
    };
    assert(load::same_source(source, named));
    assert(load::presents(loaded, *l, image, named));
}

/// Whether a loaded cover draws a bitmap, and its fallback too: the very bitmap, but
/// for a background colour that the terminal's own picker may lay under it.
pub open spec fn draws(l: ArtworkLoader, loaded: LoadedArtwork, bitmap: DynamicImage) -> bool {
    let native = l.backend is RatatuiImage || l.backend is Disabled;
    let primary = terminal::protocol_contents(loaded.protocol).picture;
    &&& images::extent_of(primary) == images::extent_of(bitmap)
    &&& !native || !terminal::picker_contents(l.picker).backdrop ==> primary == bitmap
    &&& loaded.fallback_protocol matches Some(p) ==> terminal::protocol_contents(p).picture == bitmap
}

/// What a load ends with draws the cover that the bytes at hand hold.
pub proof fn law_loaded_covers_draw_what_was_read(
    l: &ArtworkLoader,
    request: &LoadRequest,
    bytes: Vec<u8>,
    file: FilePath,
    read: (LoadStage, LoadStep),
    found: SourceAnswer,
    next: (LoadStage, LoadStep),
)
    requires
        call_ensures(
            ArtworkLoader::load,
            (
                l,
                request,
                LoadStage::Decoding(ArtworkSource::File(file)),
                LoadEvent::File(FileAnswer::Contents(Ok(bytes))),
            ),
            read,
        ),
        found == SourceAnswer::Embedded(Some(bytes)) || found == SourceAnswer::Remote(Some(bytes)),
        call_ensures(
            ArtworkLoader::load,
            (l, request, LoadStage::Resolving, LoadEvent::Source(found)),
            next,
        ),
    ensures
        read.1 matches LoadStep::Loaded(loaded) ==> exists|bitmap: DynamicImage|
            #[trigger] loader::is_cover_of(bytes@, bitmap) && draws(*l, loaded, bitmap),
        next.1 matches LoadStep::Loaded(loaded) ==> exists|bitmap: DynamicImage|
            #[trigger] loader::is_cover_of(bytes@, bitmap) && draws(*l, loaded, bitmap),
{
    if read.1 is Loaded {
        lemma_loads_draw(*l, *request, ArtworkSource::File(file), bytes@, read);
    }
    if next.1 is Loaded {
        lemma_loads_draw(*l, *request, loader::found_source(found)->0, bytes@, next);
    }
}

proof fn lemma_loads_draw(
    l: ArtworkLoader,
    request: LoadRequest,
    source: ArtworkSource,
    bytes: Seq<u8>,
    next: (LoadStage, LoadStep),
)
    requires
        load::continues_with_bytes(l, request, source, bytes, next),
        next.1 is Loaded,
    ensures
        exists|bitmap: DynamicImage|
            #[trigger] loader::is_cover_of(bytes, bitmap) && draws(l, next.1->Loaded_0, bitmap),
{
    let bitmap = choose|bitmap: DynamicImage|
        {
            &&& #[trigger] loader::is_cover_of(bytes, bitmap)
            &&& images::extent_of(bitmap) == loader::cover_extent(bytes)->Ok_0
            &&& load::continues_with_bitmap(l, request, source, bitmap, next)
        };
    assert(draws(l, next.1->Loaded_0, bitmap));
}

/// A cover file is lent to external renderers, and to nobody else.
pub proof fn law_cover_files_are_borrowed(
    l: &ArtworkLoader,
    request: &LoadRequest,
    file: FilePath,
    bytes: Vec<u8>,
    next: (LoadStage, LoadStep),
)
    requires
        call_ensures(
            ArtworkLoader::load,
            (
                l,
                request,
                LoadStage::Decoding(ArtworkSource::File(file)),
                LoadEvent::File(FileAnswer::Contents(Ok(bytes))),
            ),
            next,
        ),
    ensures
        next.0 is Finished,
        next.1 is Loaded == images::decoded(bytes@, 16_000, 536_870_912) is Ok,
        !(next.1 is Loaded) ==> (next.1 matches LoadStep::NoArtwork(reason) && reason is Some),
        next.1 matches LoadStep::Loaded(loaded) ==> {
            &&& loaded.external_source is Some == prepares_a_path(*l)
            &&& loaded.external_source matches Some(lent) ==> lent.path@ == file@
                && lent.policy is Borrowed
            &&& loaded.fallback_protocol is Some == prepares_a_path(*l)
        },
{
}

/// A picture from the tags or from the network is loaded as soon as it decodes,
/// unless an external renderer needs a file of it; then a directory for that file
/// is asked for first. A picture that does not decode ends the load.
pub proof fn law_pictures_are_loaded_at_once_or_materialized(
    l: &ArtworkLoader,
    request: &LoadRequest,
    answer: SourceAnswer,
    bytes: Vec<u8>,
    next: (LoadStage, LoadStep),
)
    requires
        answer == SourceAnswer::Embedded(Some(bytes)) || answer == SourceAnswer::Remote(Some(bytes)),
        call_ensures(
            ArtworkLoader::load,
            (l, request, LoadStage::Resolving, LoadEvent::Source(answer)),
            next,
        ),
    ensures
        ({
            let fits = images::decoded(bytes@, 16_000, 536_870_912) is Ok;
            let filed = prepares_a_path(*l) && images::announced_format(bytes@) is Some;
            &&& !fits ==> next.0 is Finished && (next.1 matches LoadStep::NoArtwork(reason)
                && reason is Some)
            &&& fits && !filed ==> next.0 is Finished && (next.1 matches LoadStep::Loaded(loaded)
                && loaded.external_source is None)
            &&& fits && filed ==> next.1 is CreateDirectory && (
            next.0 matches LoadStage::Materializing(kept, image) && kept@ == bytes@
                && loader::is_cover_of(bytes@, image))
        }),
{
}

/// A picture is materialized in a directory that is created first, in a file that
/// is looked at before it is written, and only where nothing is there yet. A link,
/// or a step that fails, leaves external renderers without a path, and the cover
/// is loaded all the same.
pub proof fn law_materialization_never_loses_the_cover(
    l: &ArtworkLoader,
    request: &LoadRequest,
    bytes: Vec<u8>,
    image: DynamicImage,
    answer: MaterializeAnswer,
    next: (LoadStage, LoadStep),
)
    requires
        images::announced_format(bytes@) is Some,
        call_ensures(
            ArtworkLoader::load,
            (l, request, LoadStage::Materializing(bytes, image), LoadEvent::Materialize(answer)),
            next,
        ),
    ensures
        answer matches MaterializeAnswer::DirectoryCreated(made) ==> if made {
            next.1 is Inspect
        } else {
            next.1 is Loaded
        },
        answer matches MaterializeAnswer::Entry(kind) ==> if kind is Missing {
            next.1 is Write
        } else {
            next.1 is Loaded
        },
        answer is Written ==> next.1 is Loaded,
        next.1 is Loaded || (next.0 matches LoadStage::Materializing(kept, same) && kept@ == bytes@
            && same == image),
        next.1 matches LoadStep::Loaded(loaded) ==> {
            &&& next.0 is Finished
            &&& loaded.external_source is Some == (answer == MaterializeAnswer::Entry(
                EntryKind::Present,
            ) || answer == MaterializeAnswer::Written(true))
            &&& loaded.external_source matches Some(shared) ==>
                shared.policy is SharedContentAddressedCache
            &&& draws(*l, loaded, image)
        },
{
}

/// The file of a picture is the same at every step and in every load: the one that
/// is looked at is the one that is written and the one that is drawn from. It
/// depends on the bytes and the directories alone.
pub proof fn law_materialized_files_are_the_same_throughout(
    bytes: &Vec<u8>,
    cache: &FilePath,
    temp: &FilePath,
    inspecting: MaterializeStep,
    writing: MaterializeStep,
    found: MaterializeStep,
    written: MaterializeStep,
)
    requires
        images::announced_format(bytes@) is Some,
        call_ensures(
            load::materialize_for_ueberzug,
            (bytes, cache, temp, MaterializeAnswer::DirectoryCreated(true)),
            inspecting,
        ),
        call_ensures(
            load::materialize_for_ueberzug,
            (bytes, cache, temp, MaterializeAnswer::Entry(EntryKind::Missing)),
            writing,
        ),
        call_ensures(
            load::materialize_for_ueberzug,
            (bytes, cache, temp, MaterializeAnswer::Entry(EntryKind::Present)),
            found,
        ),
        call_ensures(
            load::materialize_for_ueberzug,
            (bytes, cache, temp, MaterializeAnswer::Written(true)),
            written,
        ),
    ensures
        inspecting is Inspect && writing is Write,
        writing->Write_0@ == inspecting->Inspect_0@,
        found matches MaterializeStep::Done(Some(artwork)) && artwork.path@ == inspecting->Inspect_0@
            && artwork.policy is SharedContentAddressedCache,
        written matches MaterializeStep::Done(Some(artwork)) && artwork.path@
            == inspecting->Inspect_0@ && artwork.policy is SharedContentAddressedCache,
{
}

/// A load that finds nothing ends without a cover and without an error.
pub proof fn law_missing_covers_are_no_errors(
    l: &ArtworkLoader,
    request: &LoadRequest,
    answer: SourceAnswer,
    next: (LoadStage, LoadStep),
)
    requires
        answer matches SourceAnswer::Remote(None),
        call_ensures(
            ArtworkLoader::load,
            (l, request, LoadStage::Resolving, LoadEvent::Source(answer)),
            next,
        ),
    ensures
        next.0 is Finished,
        next.1 == LoadStep::NoArtwork(None),
{
}

/// A loaded cover reaches the interface whole: nothing is pending or encoded, and
/// what it was prepared with is kept.
pub proof fn law_loaded_covers_arrive_whole(loaded: LoadedArtwork, cover: ArtworkProtocol)
    requires
        call_ensures(ArtworkProtocol::from_loaded, (loaded,), cover),
    ensures
        cover.protocol.inner == Some(loaded.protocol),
        cover.protocol.resize_target == loaded.resize_target,
        cover.protocol.pending is None,
        cover.protocol.last_encoded_target is None,
        !cover.protocol.worker_failed,
        cover.fallback_protocol == loaded.fallback_protocol,
        cover.fallback_resize_target == loaded.fallback_resize_target,
        cover.external_source == loaded.external_source,
{
}

/// A picture is materialized below the cache directory, or below the one for
/// temporary files where there is no cache, under a digest of its bytes and with the
/// extension of its format.
pub proof fn law_materialized_files_are_named_by_a_digest(
    bytes: &Vec<u8>,
    cache: &FilePath,
    temp: &FilePath,
    making: MaterializeStep,
    writing: MaterializeStep,
)
    requires
        images::announced_format(bytes@) is Some,
        call_ensures(
            load::materialize_for_ueberzug,
            (bytes, cache, temp, MaterializeAnswer::Nothing),
            making,
        ),
        call_ensures(
            load::materialize_for_ueberzug,
            (bytes, cache, temp, MaterializeAnswer::Entry(EntryKind::Missing)),
            writing,
        ),
    ensures
        ({
            let name = digest::hex_text(digest::sha256(bytes@)) + "."@ + if images::announced_format(
                bytes@,
            )->0 is Png {
                "png"@
            } else {
                "jpg"@
            };
            &&& making is CreateDirectory
            &&& cache@.len() > 0 ==> making->CreateDirectory_0@ == path::joined(
                cache@,
                encode_utf8("ueberzugpp-artwork"@),
            )
            &&& cache@.len() == 0 ==> making->CreateDirectory_0@ == path::joined(
                path::joined(temp@, encode_utf8("harmonium"@)),
                encode_utf8("ueberzugpp-artwork"@),
            )
            &&& writing is Write
            &&& writing->Write_0@ == path::joined(making->CreateDirectory_0@, encode_utf8(name))
        }),
{
}

/// A cover that is neither a JPEG nor a PNG is not materialized.
pub proof fn law_other_formats_are_not_materialized(
    bytes: &Vec<u8>,
    cache: &FilePath,
    temp: &FilePath,
    answer: MaterializeAnswer,
    step: MaterializeStep,
)
    requires
        images::announced_format(bytes@) is None,
        call_ensures(load::materialize_for_ueberzug, (bytes, cache, temp, answer), step),
    ensures
        step == MaterializeStep::Done(None),
{
}

/// The picture of a track file is the first one of its primary tag, or of its first
/// tag if it has no primary one; a file that cannot be parsed has none.
pub proof fn law_pictures_come_from_the_tags(bytes: &Vec<u8>, picture: Option<Vec<u8>>)
    requires
        call_ensures(loader::picture_in, (bytes,), picture),
    ensures
        tags::tagged(bytes@) is None ==> picture is None,
        tags::tagged(bytes@) matches Some(found) ==> {
            &&& found.primary is Some && found.primary->0.len() > 0 ==> picture is Some
                && picture->0@ == found.primary->0[0]
            &&& found.primary is Some && found.primary->0.len() == 0 ==> picture is None
            &&& found.primary is None && found.first is Some && found.first->0.len() > 0
                ==> picture is Some && picture->0@ == found.first->0[0]
            &&& found.primary is None && (found.first is None || found.first->0.len() == 0)
                ==> picture is None
        },
{
}

/// A loader tells what it was made for.
pub proof fn law_loaders_tell_what_they_are_for(
    l: &ArtworkLoader,
    external: bool,
    same: bool,
    native: bool,
    able: bool,
    target: Size,
)
    requires
        call_ensures(ArtworkLoader::uses_external_fallback, (l,), external),
        call_ensures(ArtworkLoader::uses_ueberzug_fallback, (l,), same),
        call_ensures(ArtworkLoader::supports_native_fallback, (l,), native),
        call_ensures(ArtworkLoader::can_encode, (l,), able),
        call_ensures(ArtworkLoader::playlist_target, (l,), target),
    ensures
        external == (l.backend is Ueberzugpp || l.backend is Ueberzug),
        same == external,
        native == l.external_fallback,
        ({
            let font = terminal::picker_contents(l.picker).font;
            &&& able == (external || l.backend is Halfblocks || (font.width > 0 && font.height > 0))
            &&& target.width * font.width <= 144 && target.height * font.height <= 144
            &&& font.width > 0 ==> (target.width + 1) * font.width > 144
            &&& font.height > 0 ==> (target.height + 1) * font.height > 144
        }),
{
    protocol::law_whole_area_is_the_largest_within_the_bound(
        144,
        terminal::picker_contents(l.picker).font,
    );
}

/// A load looks where a search for sources does, in the same order; a cover file
/// that it finds is measured next.
pub proof fn law_loads_look_where_searches_do(
    l: &ArtworkLoader,
    request: &LoadRequest,
    answer: SourceAnswer,
    next: (LoadStage, LoadStep),
    track: Option<&FilePath>,
    metadata: Option<&TrackMetadata>,
    step: SourceStep,
)
    requires
        call_ensures(
            ArtworkLoader::load,
            (l, request, LoadStage::Resolving, LoadEvent::Source(answer)),
            next,
        ),
        track is Some == request.track_path is Some,
        track matches Some(file) ==> file@ == request.track_path->0@,
        metadata is Some == request.metadata is Some,
        metadata matches Some(tags) ==> tags.artist@ == request.metadata->0.artist@ && tags.album@
            == request.metadata->0.album@,
        call_ensures(
            loader::resolve_source,
            (track, request.source_config, metadata, &request.cache_dir, answer),
            step,
        ),
    ensures
        step matches SourceStep::ReadTags(file) ==> next.0 is Resolving && (
        next.1 matches LoadStep::ReadTags(same) && same@ == file@),
        step matches SourceStep::ProbeDirectory(file) ==> next.0 is Resolving && (
        next.1 matches LoadStep::ProbeDirectory(same) && same@ == file@),
        step matches SourceStep::FetchCover(fetch) ==> next.0 is Resolving && (
        next.1 matches LoadStep::FetchCover(same) && same.artist@ == fetch.artist@ && same.album@
            == fetch.album@ && same.directory@ == fetch.directory@ && same.key@ == fetch.key@
            && same.stage == fetch.stage),
        step == SourceStep::Resolved(None) ==> next.0 is Finished && next.1
            == LoadStep::NoArtwork(None),
        answer matches SourceAnswer::Directory(Some(file)) ==> next.0 == LoadStage::Decoding(
            ArtworkSource::File(file),
        ) && (next.1 matches LoadStep::Measure(same) && same@ == file@),
{
}

/// A load handles a cover file as decoding it does: measure, read, decode, and an
/// error ends the load with it.
pub proof fn law_loads_decode_as_sources_do(
    l: &ArtworkLoader,
    request: &LoadRequest,
    file: FilePath,
    answer: FileAnswer,
    next: (LoadStage, LoadStep),
    track: &FilePath,
    step: DecodeStep,
)
    requires
        request.track_path is Some,
        track@ == request.track_path->0@,
        call_ensures(
            ArtworkLoader::load,
            (l, request, LoadStage::Decoding(ArtworkSource::File(file)), LoadEvent::File(answer)),
            next,
        ),
        call_ensures(loader::decode_source, (track, &ArtworkSource::File(file), answer), step),
    ensures
        step matches DecodeStep::Measure(_) ==> next.0 == LoadStage::Decoding(
            ArtworkSource::File(file),
        ) && (next.1 matches LoadStep::Measure(same) && same@ == file@),
        step matches DecodeStep::Read(_) ==> next.0 == LoadStage::Decoding(
            ArtworkSource::File(file),
        ) && (next.1 matches LoadStep::Read(same) && same@ == file@),
        step matches DecodeStep::Done(Err(error)) ==> next.0 is Finished && (
        next.1 matches LoadStep::NoArtwork(Some(reason)) && match (error, reason) {
            (
                ArtworkError::Io { path: a, source: b },
                ArtworkError::Io { path: c, source: d },
            ) => a@ == c@ && b@ == d@,
            (
                ArtworkError::Decode { track: a, message: b },
                ArtworkError::Decode { track: c, message: d },
            ) => a@ == c@ && b@ == d@,
            _ => false,
        }),
        step matches DecodeStep::Done(Ok(_)) ==> next.1 is Loaded,
{
}

/// Something that a load did not ask for ends it without a cover.
pub proof fn law_unexpected_events_end_a_load(
    l: &ArtworkLoader,
    request: &LoadRequest,
    event: LoadEvent,
    next: (LoadStage, LoadStep),
)
    requires
        call_ensures(ArtworkLoader::load, (l, request, LoadStage::Finished, event), next),
    ensures
        next.0 is Finished,
        next.1 == LoadStep::NoArtwork(None),
{
}

/// Loaders draw with what they were made for: a picker that found no graphics makes
/// room for an external renderer, and only a loader for graphics can keep one in
/// reserve.
pub proof fn law_loaders_draw_with_what_they_were_made_for(
    picker: Picker,
    plain: ArtworkLoader,
    chosen: ArtworkLoader,
    blocks: ArtworkLoader,
    reserved: ArtworkLoader,
    kind: ArtworkBackendKind,
    given: ArtworkLoader,
)
    requires
        call_ensures(ArtworkLoader::new, (picker,), plain),
        call_ensures(ArtworkLoader::auto, (picker,), chosen),
        call_ensures(ArtworkLoader::halfblocks, (), blocks),
        call_ensures(ArtworkLoader::with_native_fallback, (picker,), reserved),
        call_ensures(ArtworkLoader::with_backend, (picker, kind), given),
    ensures
        plain.backend is RatatuiImage && plain.picker == picker && !plain.external_fallback,
        chosen.picker == picker && !chosen.external_fallback,
        terminal::picker_contents(picker).halfblocks ==> chosen.backend is Ueberzugpp,
        !terminal::picker_contents(picker).halfblocks ==> chosen.backend is RatatuiImage,
        blocks.backend is Halfblocks && !blocks.external_fallback,
        terminal::picker_contents(blocks.picker).halfblocks,
        reserved.backend is RatatuiImage && reserved.picker == picker && reserved.external_fallback,
        given.backend == kind && given.picker == picker && !given.external_fallback,
{
}

/// The line about an error names the file or the track, and the reason.
pub proof fn law_errors_name_their_file_and_reason(
    file: FilePath,
    reason: String,
    unread: String,
    undecoded: String,
)
    requires
        valid_utf8(file@),
        call_ensures(
            ArtworkError::describe,
            (&ArtworkError::Io { path: file, source: reason },),
            unread,
        ),
        call_ensures(
            ArtworkError::describe,
            (&ArtworkError::Decode { track: file, message: reason },),
            undecoded,
        ),
    ensures
        unread@ == "reading artwork "@ + decode_utf8(file@) + " failed: "@ + reason@,
        undecoded@ == "decoding artwork for "@ + decode_utf8(file@) + " failed: "@ + reason@,
{
}

} // verus!
