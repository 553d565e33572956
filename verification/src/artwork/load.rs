//! Preparing a track's cover for the selected renderer.
//!
//! [`ArtworkLoader::load`] runs a load from the search for a source to the
//! finished protocols. Everything that touches the disk or the network is left
//! to the caller, one question at a time.
use crate::artwork::backend_kind::ArtworkBackendKind;
use crate::artwork::images;
use crate::artwork::images::CoverFormat;
use crate::artwork::loader;
use crate::artwork::loader::{
    ArtworkError, ArtworkSource, DecodeStep, FileAnswer, Place, SourceAnswer, SourceStep,
};
use crate::artwork::protocol;
use crate::artwork::remote;
use crate::artwork::remote::CoverFetch;
use crate::artwork::state;
use crate::artwork::state::{ArtworkPathPolicy, ArtworkProtocol, MaterializedArtwork};
use crate::artwork::terminal;
use crate::config::ArtworkSource as SourceConfig;
use crate::digest;
use crate::geometry::{FontSize, Size};
use crate::metadata::TrackMetadata;
use crate::path;
use crate::path::FilePath;
use image::DynamicImage;
use ratatui_image::picker::Picker;
use ratatui_image::protocol::StatefulProtocol;
use vstd::prelude::*;
use vstd::utf8::*;

verus! {

/// What is at a path.
#[derive(Debug, Clone, Copy, PartialEq, Eq, Structural)]
pub enum EntryKind {
    /// A symbolic link.
    Symlink,
    /// Something else.
    Present,
    /// Nothing.
    Missing,
    /// It cannot be found out.
    Unreadable,
}

/// What the last step of a materialization brought.
#[derive(Debug, Clone, Copy, PartialEq, Eq, Structural)]
pub enum MaterializeAnswer {
    /// Nothing was done yet.
    Nothing,
    /// Whether the directory is there now.
    DirectoryCreated(bool),
    /// What is at the path.
    Entry(EntryKind),
    /// Whether the file was written.
    Written(bool),
}

/// What to do next to materialize a cover.
pub enum MaterializeStep {
    /// Create a directory, with its parents.
    CreateDirectory(FilePath),
    /// Find out what is at a path, without following a link.
    Inspect(FilePath),
    /// Write the bytes to a path, all or nothing.
    Write(FilePath),
    /// The materialization is over.
    Done(Option<MaterializedArtwork>),
}

/// Directory of materialized covers: below the cache root, else below the
/// directory for temporary files.
pub open spec fn materialized_root(cache_dir: Seq<u8>, temp_dir: Seq<u8>) -> Seq<u8> {
    if cache_dir.len() == 0 {
        path::joined(
            path::joined(temp_dir, encode_utf8("harmonium"@)),
            encode_utf8("ueberzugpp-artwork"@),
        )
    } else {
        path::joined(cache_dir, encode_utf8("ueberzugpp-artwork"@))
    }
}

/// File name extension of a cover format.
pub open spec fn format_extension(format: CoverFormat) -> Seq<char> {
    match format {
        CoverFormat::Jpeg => "jpg"@,
        CoverFormat::Png => "png"@,
    }
}

/// Path of a materialized cover: its digest names it.
pub open spec fn materialized_path(
    bytes: Seq<u8>,
    format: CoverFormat,
    cache_dir: Seq<u8>,
    temp_dir: Seq<u8>,
) -> Seq<u8> {
    path::joined(
        materialized_root(cache_dir, temp_dir),
        encode_utf8(digest::hex_text(digest::sha256(bytes)) + "."@ + format_extension(format)),
    )
}

/// Whether a materialization ends with a shared file at the cover's path.
pub open spec fn shares(
    artwork: Option<MaterializedArtwork>,
    bytes: Seq<u8>,
    cache_dir: Seq<u8>,
    temp_dir: Seq<u8>,
) -> bool {
    &&& artwork matches Some(file)
    &&& file.policy is SharedContentAddressedCache
    &&& images::announced_format(bytes) matches Some(format)
    &&& file.path@ == materialized_path(bytes, format, cache_dir, temp_dir)
}

fn materialized_directory(cache_dir: &FilePath, temp_dir: &FilePath) -> (root: FilePath)
    ensures
        root@ == materialized_root(cache_dir@, temp_dir@),
{
    if cache_dir.is_empty() {
        temp_dir.join("harmonium").join("ueberzugpp-artwork")
    } else {
        cache_dir.join("ueberzugpp-artwork")
    }
}

fn materialized_file(
    bytes: &Vec<u8>,
    format: CoverFormat,
    cache_dir: &FilePath,
    temp_dir: &FilePath,
) -> (file: FilePath)
    ensures
        file@ == materialized_path(bytes@, format, cache_dir@, temp_dir@),
{
    let hash = digest::digest(bytes.as_slice());
    let mut name = digest::hex_bytes(hash.as_slice());
    name.append(".");
    match format {
        CoverFormat::Jpeg => {
            name.append("jpg");
        },
        CoverFormat::Png => {
            name.append("png");
        },
    }
    materialized_directory(cache_dir, temp_dir).join(name.as_str())
}

/// Put the bytes of a cover at a stable path for an external renderer.
///
/// The path depends on the bytes alone, so concurrent loads share one file. A
/// cover that is neither a JPEG nor a PNG has no path, and a link in place of
/// the file is not followed.
pub fn materialize_for_ueberzug(
    bytes: &Vec<u8>,
    cache_dir: &FilePath,
    temp_dir: &FilePath,
    answer: MaterializeAnswer,
) -> (step: MaterializeStep)
    ensures
        match images::announced_format(bytes@) {
            None => step == MaterializeStep::Done(None),
            Some(format) => match answer {
                MaterializeAnswer::Nothing => step matches MaterializeStep::CreateDirectory(root)
                    && root@ == materialized_root(cache_dir@, temp_dir@),
                MaterializeAnswer::DirectoryCreated(true) => step matches MaterializeStep::Inspect(
                    file,
                ) && file@ == materialized_path(bytes@, format, cache_dir@, temp_dir@),
                MaterializeAnswer::Entry(EntryKind::Missing) => {
                    step matches MaterializeStep::Write(file) && file@ == materialized_path(
                        bytes@,
                        format,
                        cache_dir@,
                        temp_dir@,
                    )
                },
                MaterializeAnswer::Entry(EntryKind::Present) | MaterializeAnswer::Written(true) => {
                    step matches MaterializeStep::Done(artwork) && shares(
                        artwork,
                        bytes@,
                        cache_dir@,
                        temp_dir@,
                    )
                },
                _ => step == MaterializeStep::Done(None),
            },
        },
{
    match images::guess_format(bytes.as_slice()) {
        None => MaterializeStep::Done(None),
        Some(format) => match answer {
            MaterializeAnswer::Nothing => MaterializeStep::CreateDirectory(
                materialized_directory(cache_dir, temp_dir),
            ),
            MaterializeAnswer::DirectoryCreated(true) => MaterializeStep::Inspect(
                materialized_file(bytes, format, cache_dir, temp_dir),
            ),
            MaterializeAnswer::Entry(EntryKind::Missing) => MaterializeStep::Write(
                materialized_file(bytes, format, cache_dir, temp_dir),
            ),
            MaterializeAnswer::Entry(EntryKind::Present) | MaterializeAnswer::Written(true) => {
                MaterializeStep::Done(
                    Some(
                        MaterializedArtwork {
                            path: materialized_file(bytes, format, cache_dir, temp_dir),
                            policy: ArtworkPathPolicy::SharedContentAddressedCache,
                        },
                    ),
                )
            },
            _ => MaterializeStep::Done(None),
        },
    }
}

/// Materialized covers are shared cache entries: letting go of one removes
/// nothing.
pub proof fn law_materialized_covers_are_kept(
    artwork: Option<MaterializedArtwork>,
    bytes: Seq<u8>,
    cache_dir: Seq<u8>,
    temp_dir: Seq<u8>,
)
    requires
        shares(artwork, bytes, cache_dir, temp_dir),
    ensures
        state::file_to_remove(artwork) is None,
{
}

/// The same bytes are always materialized at the same path.
pub proof fn law_materialized_paths_are_stable(
    first: Option<MaterializedArtwork>,
    second: Option<MaterializedArtwork>,
    bytes: Seq<u8>,
    cache_dir: Seq<u8>,
    temp_dir: Seq<u8>,
)
    requires
        shares(first, bytes, cache_dir, temp_dir),
        shares(second, bytes, cache_dir, temp_dir),
    ensures
        first->0.path@ == second->0.path@,
{
}

/// Prepares covers for the renderer that was selected at the start.
pub struct ArtworkLoader {
    pub picker: Picker,
    pub backend: ArtworkBackendKind,
    pub external_fallback: bool,
}

/// A prepared cover.
pub struct LoadedArtwork {
    pub protocol: StatefulProtocol,
    pub fallback_protocol: Option<StatefulProtocol>,
    pub external_source: Option<MaterializedArtwork>,
    pub resize_target: Size,
    pub fallback_resize_target: Option<Size>,
}

/// What to load.
pub struct LoadRequest {
    /// The track, unless it is a stream.
    pub track_path: Option<FilePath>,
    pub source_config: SourceConfig,
    pub metadata: Option<TrackMetadata>,
    pub cache_dir: FilePath,
    pub temp_dir: FilePath,
}

/// Progress of a load.
pub enum LoadStage {
    /// A source is being looked for.
    Resolving,
    /// The file of a source is being read.
    Decoding(ArtworkSource),
    /// The bytes of a decoded source are being materialized.
    Materializing(Vec<u8>, DynamicImage),
    /// The load is over.
    Finished,
}

/// Something that happened outside.
pub enum LoadEvent {
    Source(SourceAnswer),
    File(FileAnswer),
    Materialize(MaterializeAnswer),
}

/// What to do outside next.
pub enum LoadStep {
    ReadTags(FilePath),
    ProbeDirectory(FilePath),
    FetchCover(CoverFetch),
    Measure(FilePath),
    Read(FilePath),
    CreateDirectory(FilePath),
    Inspect(FilePath),
    /// Write the bytes of the stage to a path, all or nothing.
    Write(FilePath),
    /// The load is over: here is the cover.
    Loaded(LoadedArtwork),
    /// The load is over without a cover, perhaps for a reason worth logging.
    NoArtwork(Option<ArtworkError>),
}

/// Path that names a track in diagnostics.
pub open spec fn diagnostic_path(request: LoadRequest) -> Seq<u8> {
    match request.track_path {
        Some(track) => track@,
        None => encode_utf8("<stream>"@),
    }
}

/// Artist to search for.
pub open spec fn wanted_artist(request: LoadRequest) -> Seq<char> {
    match request.metadata {
        Some(tags) => tags.artist@,
        None => Seq::empty(),
    }
}

/// Album to search for.
pub open spec fn wanted_album(request: LoadRequest) -> Seq<char> {
    match request.metadata {
        Some(tags) => tags.album@,
        None => Seq::empty(),
    }
}

/// Whether a protocol is one that a picker makes of a bitmap.
pub closed spec fn is_made(p: StatefulProtocol, picker: Picker, bitmap: DynamicImage) -> bool {
    call_ensures(terminal::new_protocol, (&picker, bitmap), p)
}

/// Whether a protocol is fresh: a picker made it of a bitmap, and it was not
/// encoded yet.
///
/// It draws that very bitmap, unless the picker lays a background colour under
/// it.
pub open spec fn is_fresh(p: StatefulProtocol, picker: Picker, bitmap: DynamicImage) -> bool {
    let contents = terminal::protocol_contents(p);
    let maker = terminal::picker_contents(picker);
    &&& is_made(p, picker, bitmap)
    &&& images::extent_of(contents.picture) == images::extent_of(bitmap)
    &&& (!maker.backdrop ==> contents.picture == bitmap)
    &&& contents.font == maker.font
    &&& contents.halfblocks == maker.halfblocks
    &&& contents.area == (Size { width: 0, height: 0 })
    &&& contents.outcome is None
}

/// Whether a protocol is fresh and draws a bitmap with half blocks.
pub open spec fn is_fresh_halfblocks(p: StatefulProtocol, bitmap: DynamicImage) -> bool {
    exists|picker: Picker|
        #[trigger] is_fresh(p, picker, bitmap) && terminal::picker_contents(picker)
            == halfblocks_contents()
}

/// What a picker of half blocks holds.
pub open spec fn halfblocks_contents() -> terminal::PickerContents {
    terminal::PickerContents { font: halfblocks_font(), halfblocks: true, backdrop: false }
}

/// Cell that half blocks are drawn with.
pub open spec fn halfblocks_font() -> FontSize {
    FontSize { width: 10, height: 20 }
}

/// Whether two optional sources name the same path under the same policy.
pub open spec fn same_source(
    a: Option<MaterializedArtwork>,
    path: Option<(Seq<u8>, ArtworkPathPolicy)>,
) -> bool {
    match path {
        Some((bytes, policy)) => a is Some && a->0.path@ == bytes && a->0.policy == policy,
        None => a is None,
    }
}

/// Whether a cover shows a bitmap as the loader presents it.
pub open spec fn shows(loaded: LoadedArtwork, l: ArtworkLoader, bitmap: DynamicImage) -> bool {
    &&& if l.uses_halfblocks() {
        is_fresh_halfblocks(loaded.protocol, bitmap)
    } else {
        is_fresh(loaded.protocol, l.picker, bitmap)
    }
    &&& loaded.resize_target == protocol::area_within(protocol::MAX_RESIZE_PIXELS, l.primary_font())
    &&& loaded.fallback_protocol is Some == l.keeps_external()
    &&& (loaded.fallback_protocol matches Some(p) ==> is_fresh_halfblocks(p, bitmap))
    &&& loaded.fallback_resize_target == if l.keeps_external() {
        Some(state::halfblocks_limit())
    } else {
        None
    }
}

/// Whether a cover is prepared as the loader prepares it.
pub open spec fn presents(
    loaded: LoadedArtwork,
    l: ArtworkLoader,
    bitmap: DynamicImage,
    source: Option<(Seq<u8>, ArtworkPathPolicy)>,
) -> bool {
    &&& shows(loaded, l, bitmap)
    &&& same_source(loaded.external_source, source)
}

/// Whether a load goes on with the bytes of a source as it should.
pub open spec fn continues_with_bytes(
    l: ArtworkLoader,
    request: LoadRequest,
    source: ArtworkSource,
    bytes: Seq<u8>,
    next: (LoadStage, LoadStep),
) -> bool {
    match loader::cover_extent(bytes) {
        Err(diagnostic) => {
            &&& loader::cover_decoded(bytes) is Err
            &&& next.0 is Finished
            &&& next.1 matches LoadStep::NoArtwork(Some(ArtworkError::Decode { track, message }))
            &&& track@ == diagnostic_path(request)
            &&& message@ == diagnostic
        },
        Ok(extent) => {
            &&& loader::is_kept(loader::cover_decoded(bytes)->Ok_0, extent)
            &&& exists|bitmap: DynamicImage|
                {
                    &&& #[trigger] loader::is_cover_of(bytes, bitmap)
                    &&& images::extent_of(bitmap) == extent
                    &&& continues_with_bitmap(l, request, source, bitmap, next)
                }
        },
    }
}

/// Whether a load goes on with the bitmap of a source as it should.
pub open spec fn continues_with_bitmap(
    l: ArtworkLoader,
    request: LoadRequest,
    source: ArtworkSource,
    bitmap: DynamicImage,
    next: (LoadStage, LoadStep),
) -> bool {
    match source {
        ArtworkSource::File(file) => {
            &&& next.0 is Finished
            &&& next.1 matches LoadStep::Loaded(loaded)
            &&& presents(
                loaded,
                l,
                bitmap,
                if l.keeps_external() {
                    Some((file@, ArtworkPathPolicy::Borrowed))
                } else {
                    None
                },
            )
        },
        ArtworkSource::Embedded(bytes) | ArtworkSource::Remote(bytes) => {
            if l.keeps_external() && images::announced_format(bytes@) is Some {
                &&& next.0 matches LoadStage::Materializing(kept, image)
                &&& kept@ == bytes@
                &&& image == bitmap
                &&& next.1 matches LoadStep::CreateDirectory(root)
                &&& root@ == materialized_root(request.cache_dir@, request.temp_dir@)
            } else {
                &&& next.0 is Finished
                &&& next.1 matches LoadStep::Loaded(loaded)
                &&& presents(loaded, l, bitmap, None)
            }
        },
    }
}

/// Whether a load goes on with an answer about sources as it should.
pub open spec fn continues_with_answer(
    l: ArtworkLoader,
    request: LoadRequest,
    answer: SourceAnswer,
    next: (LoadStage, LoadStep),
) -> bool {
    match loader::found_source(answer) {
        Some(source) => match source {
            ArtworkSource::File(file) => {
                &&& next.0 == LoadStage::Decoding(source)
                &&& next.1 matches LoadStep::Measure(f)
                &&& f@ == file@
            },
            ArtworkSource::Embedded(bytes) | ArtworkSource::Remote(bytes) => continues_with_bytes(
                l,
                request,
                source,
                bytes@,
                next,
            ),
        },
        None => {
            match loader::next_place(
                loader::places_tried(answer),
                request.track_path is Some,
                request.source_config,
                remote::usable_identity(wanted_artist(request), wanted_album(request)),
            ) {
                Place::Tags => {
                    &&& next.0 is Resolving
                    &&& next.1 matches LoadStep::ReadTags(track)
                    &&& track@ == request.track_path->0@
                },
                Place::Directory => {
                    &&& next.0 is Resolving
                    &&& next.1 matches LoadStep::ProbeDirectory(track)
                    &&& track@ == request.track_path->0@
                },
                Place::Network => {
                    &&& next.0 is Resolving
                    &&& next.1 matches LoadStep::FetchCover(fetch)
                    &&& remote::fetches(
                        fetch,
                        wanted_artist(request),
                        wanted_album(request),
                        request.cache_dir@,
                    )
                    &&& fetch.stage == remote::FetchStage::Cache(0)
                },
                Place::Nowhere => next.0 is Finished && next.1 == LoadStep::NoArtwork(None),
            }
        },
    }
}

/// Whether a load ends because a file could not be read.
pub open spec fn ends_unread(
    file: Seq<u8>,
    diagnostic: Seq<char>,
    next: (LoadStage, LoadStep),
) -> bool {
    &&& next.0 is Finished
    &&& next.1 matches LoadStep::NoArtwork(Some(ArtworkError::Io { path, source }))
    &&& path@ == file
    &&& source@ == diagnostic
}

/// Whether a load goes on with an answer about the file of a source as it
/// should.
pub open spec fn continues_with_file(
    l: ArtworkLoader,
    request: LoadRequest,
    source: ArtworkSource,
    answer: FileAnswer,
    next: (LoadStage, LoadStep),
) -> bool {
    match source {
        ArtworkSource::File(file) => match answer {
            FileAnswer::Nothing => {
                &&& next.0 == LoadStage::Decoding(source)
                &&& next.1 matches LoadStep::Measure(f)
                &&& f@ == file@
            },
            FileAnswer::Size(Err(diagnostic)) => ends_unread(file@, diagnostic@, next),
            FileAnswer::Size(Ok(size)) => if size > loader::MAX_ART_FILE_BYTES {
                &&& next.0 is Finished
                &&& next.1 matches LoadStep::NoArtwork(
                    Some(ArtworkError::Decode { track, message }),
                )
                &&& track@ == diagnostic_path(request)
                &&& message@ == loader::file_size_message(file@, size)
            } else {
                &&& next.0 == LoadStage::Decoding(source)
                &&& next.1 matches LoadStep::Read(f)
                &&& f@ == file@
            },
            FileAnswer::Contents(Err(diagnostic)) => ends_unread(file@, diagnostic@, next),
            FileAnswer::Contents(Ok(bytes)) => continues_with_bytes(
                l,
                request,
                source,
                bytes@,
                next,
            ),
        },
        ArtworkSource::Embedded(bytes) | ArtworkSource::Remote(bytes) => continues_with_bytes(
            l,
            request,
            source,
            bytes@,
            next,
        ),
    }
}

/// Whether a load goes on with an answer about a materialization as it should.
pub open spec fn continues_with_materialization(
    l: ArtworkLoader,
    request: LoadRequest,
    bytes: Seq<u8>,
    bitmap: DynamicImage,
    answer: MaterializeAnswer,
    next: (LoadStage, LoadStep),
) -> bool {
    match images::announced_format(bytes) {
        None => {
            &&& next.0 is Finished
            &&& next.1 matches LoadStep::Loaded(loaded)
            &&& presents(loaded, l, bitmap, None)
        },
        Some(format) => {
            let file = materialized_path(bytes, format, request.cache_dir@, request.temp_dir@);
            let waits = next.0 matches LoadStage::Materializing(kept, image) && kept@ == bytes
                && image == bitmap;
            match answer {
                MaterializeAnswer::Nothing => {
                    &&& waits
                    &&& next.1 matches LoadStep::CreateDirectory(root)
                    &&& root@ == materialized_root(request.cache_dir@, request.temp_dir@)
                },
                MaterializeAnswer::DirectoryCreated(true) => {
                    &&& waits
                    &&& next.1 matches LoadStep::Inspect(f)
                    &&& f@ == file
                },
                MaterializeAnswer::Entry(EntryKind::Missing) => {
                    &&& waits
                    &&& next.1 matches LoadStep::Write(f)
                    &&& f@ == file
                },
                MaterializeAnswer::Entry(EntryKind::Present) | MaterializeAnswer::Written(true) => {
                    &&& next.0 is Finished
                    &&& next.1 matches LoadStep::Loaded(loaded)
                    &&& presents(
                        loaded,
                        l,
                        bitmap,
                        Some((file, ArtworkPathPolicy::SharedContentAddressedCache)),
                    )
                },
                _ => {
                    &&& next.0 is Finished
                    &&& next.1 matches LoadStep::Loaded(loaded)
                    &&& presents(loaded, l, bitmap, None)
                },
            }
        },
    }
}

/// Whether a load goes on with what happened outside as it should.
pub open spec fn continues(
    l: ArtworkLoader,
    request: LoadRequest,
    stage: LoadStage,
    event: LoadEvent,
    next: (LoadStage, LoadStep),
) -> bool {
    match (stage, event) {
        (LoadStage::Resolving, LoadEvent::Source(answer)) => continues_with_answer(
            l,
            request,
            answer,
            next,
        ),
        (LoadStage::Decoding(source), LoadEvent::File(answer)) => continues_with_file(
            l,
            request,
            source,
            answer,
            next,
        ),
        (LoadStage::Materializing(bytes, image), LoadEvent::Materialize(answer)) => {
            continues_with_materialization(l, request, bytes@, image, answer, next)
        },
        _ => next.0 is Finished && next.1 == LoadStep::NoArtwork(None),
    }
}

impl ArtworkLoader {
    /// Whether covers also need a path, for an external renderer that draws now
    /// or may have to take over.
    pub open spec fn keeps_external(self) -> bool {
        self.backend.is_external() || (self.backend is RatatuiImage && self.external_fallback)
    }

    /// Whether the interface's own half blocks are the primary protocol.
    pub open spec fn uses_halfblocks(self) -> bool {
        self.backend is Halfblocks || self.backend.is_external()
    }

    /// Pixel extent of a cell for the primary protocol.
    pub open spec fn primary_font(self) -> FontSize {
        if self.uses_halfblocks() {
            halfblocks_font()
        } else {
            terminal::picker_contents(self.picker).font
        }
    }

    /// Draw with what the picker selected.
    pub fn new(picker: Picker) -> (made: Self)
        ensures
            made == (ArtworkLoader {
                picker,
                backend: ArtworkBackendKind::RatatuiImage,
                external_fallback: false,
            }),
    {
        Self::with_backend(picker, ArtworkBackendKind::RatatuiImage)
    }

    /// Draw with what the picker selected, but prefer an external renderer over
    /// half blocks.
    pub fn auto(picker: Picker) -> (made: Self)
        ensures
            made == (ArtworkLoader {
                picker,
                backend: if terminal::picker_contents(picker).halfblocks {
                    ArtworkBackendKind::Ueberzugpp
                } else {
                    ArtworkBackendKind::RatatuiImage
                },
                external_fallback: false,
            }),
    {
        let backend = if terminal::draws_halfblocks(&picker) {
            ArtworkBackendKind::Ueberzugpp
        } else {
            ArtworkBackendKind::RatatuiImage
        };
        Self::with_backend(picker, backend)
    }

    /// Draw with half blocks, without asking the terminal.
    pub fn halfblocks() -> (made: Self)
        ensures
            made.backend is Halfblocks,
            !made.external_fallback,
            terminal::picker_contents(made.picker) == halfblocks_contents(),
    {
        Self::with_backend(terminal::halfblocks_picker(), ArtworkBackendKind::Halfblocks)
    }

    /// Draw with a given renderer.
    pub fn with_backend(picker: Picker, backend: ArtworkBackendKind) -> (made: Self)
        ensures
            made == (ArtworkLoader { picker, backend, external_fallback: false }),
    {
        ArtworkLoader { picker, backend, external_fallback: false }
    }

    /// Draw with what the picker selected, and keep enough to cross over to an
    /// external renderer when that fails.
    pub fn with_native_fallback(picker: Picker) -> (made: Self)
        ensures
            made == (ArtworkLoader {
                picker,
                backend: ArtworkBackendKind::RatatuiImage,
                external_fallback: true,
            }),
    {
        ArtworkLoader { picker, backend: ArtworkBackendKind::RatatuiImage, external_fallback: true }
    }

    /// Whether an external renderer draws.
    pub fn uses_external_fallback(&self) -> (external: bool)
        ensures
            external == self.backend.is_external(),
    {
        self.backend.uses_external_layer()
    }

    /// Another name of [`ArtworkLoader::uses_external_fallback`].
    pub fn uses_ueberzug_fallback(&self) -> (external: bool)
        ensures
            external == self.backend.is_external(),
    {
        self.uses_external_fallback()
    }

    /// Whether an external renderer may take over from the terminal.
    pub fn supports_native_fallback(&self) -> (supported: bool)
        ensures
            supported == self.external_fallback,
    {
        self.external_fallback
    }

    /// Target of playlist artwork for the terminal's cells.
    pub fn playlist_target(&self) -> (target: Size)
        ensures
            target == protocol::whole_area(
                protocol::PLAYLIST_ARTWORK_MAX_PIXELS,
                terminal::picker_contents(self.picker).font,
            ),
    {
        protocol::playlist_target_for_font(terminal::font_size(&self.picker))
    }

    /// Whether the cells of the primary protocol have both sides, so that covers
    /// can be encoded for it.
    pub fn can_encode(&self) -> (able: bool)
        ensures
            able == (self.primary_font().width >= 1 && self.primary_font().height >= 1),
    {
        let native = match self.backend {
            ArtworkBackendKind::Halfblocks => false,
            _ => !self.backend.uses_external_layer(),
        };
        if native {
            let font = terminal::font_size(&self.picker);
            font.width >= 1 && font.height >= 1
        } else {
            true
        }
    }

    fn keeps_external_source(&self) -> (kept: bool)
        ensures
            kept == self.keeps_external(),
    {
        let native = match self.backend {
            ArtworkBackendKind::RatatuiImage => true,
            _ => false,
        };
        self.backend.uses_external_layer() || (native && self.external_fallback)
    }

    /// Prepare the protocols of a decoded cover.
    pub fn prepare(
        &self,
        image: DynamicImage,
        external_source: Option<MaterializedArtwork>,
    ) -> (loaded: LoadedArtwork)
        ensures
            loaded.external_source == external_source,
            forall|source: Option<(Seq<u8>, ArtworkPathPolicy)>|
                same_source(external_source, source) ==> presents(loaded, *self, image, source),
    {
        let native = match self.backend {
            ArtworkBackendKind::Halfblocks => false,
            _ => !self.backend.uses_external_layer(),
        };
        let blocks = terminal::halfblocks_picker();
        let font = if native {
            terminal::font_size(&self.picker)
        } else {
            terminal::font_size(&blocks)
        };
        let (fallback_resize_target, fallback_protocol) = if self.keeps_external_source() {
            (
                Some(state::halfblocks_target()),
                Some(terminal::new_protocol(&blocks, images::copy_bitmap(&image))),
            )
        } else {
            (None, None)
        };
        let primary = if native {
            terminal::new_protocol(&self.picker, image)
        } else {
            terminal::new_protocol(&blocks, image)
        };
        proof {
            if fallback_protocol is Some {
                assert(is_fresh(fallback_protocol->0, blocks, image));
            }
            if native {
                assert(is_fresh(primary, self.picker, image));
            } else {
                assert(is_fresh(primary, blocks, image));
            }
        }
        LoadedArtwork {
            protocol: primary,
            fallback_protocol,
            external_source,
            resize_target: protocol::resize_target_for_font(font),
            fallback_resize_target,
        }
    }

    fn finish(&self, image: DynamicImage, external_source: Option<MaterializedArtwork>) -> (next: (
        LoadStage,
        LoadStep,
    ))
        ensures
            next.0 is Finished,
            next.1 matches LoadStep::Loaded(loaded) && forall|
                source: Option<(Seq<u8>, ArtworkPathPolicy)>,
            |
                same_source(external_source, source) ==> presents(loaded, *self, image, source),
    {
        (LoadStage::Finished, LoadStep::Loaded(self.prepare(image, external_source)))
    }

    fn materialize(
        &self,
        request: &LoadRequest,
        bytes: Vec<u8>,
        image: DynamicImage,
        answer: MaterializeAnswer,
    ) -> (next: (LoadStage, LoadStep))
        ensures
            continues_with_materialization(*self, *request, bytes@, image, answer, next),
    {
        match materialize_for_ueberzug(&bytes, &request.cache_dir, &request.temp_dir, answer) {
            MaterializeStep::CreateDirectory(root) => (
                LoadStage::Materializing(bytes, image),
                LoadStep::CreateDirectory(root),
            ),
            MaterializeStep::Inspect(file) => (
                LoadStage::Materializing(bytes, image),
                LoadStep::Inspect(file),
            ),
            MaterializeStep::Write(file) => (
                LoadStage::Materializing(bytes, image),
                LoadStep::Write(file),
            ),
            MaterializeStep::Done(artwork) => {
                proof {
                    if artwork is Some {
                        assert(same_source(
                            artwork,
                            Some((artwork->0.path@, artwork->0.policy)),
                        ));
                    } else {
                        assert(same_source(artwork, None));
                    }
                }
                self.finish(image, artwork)
            },
        }
    }

    fn with_image(&self, request: &LoadRequest, source: ArtworkSource, image: DynamicImage) -> (next:
        (LoadStage, LoadStep))
        ensures
            continues_with_bitmap(*self, *request, source, image, next),
    {
        if !self.keeps_external_source() {
            assert(same_source(None, None));
            return self.finish(image, None);
        }
        match source {
            ArtworkSource::File(file) => {
                let borrowed = MaterializedArtwork {
                    path: file,
                    policy: ArtworkPathPolicy::Borrowed,
                };
                assert(same_source(Some(borrowed), Some((file@, ArtworkPathPolicy::Borrowed))));
                self.finish(image, Some(borrowed))
            },
            ArtworkSource::Embedded(bytes) => self.materialize(
                request,
                bytes,
                image,
                MaterializeAnswer::Nothing,
            ),
            ArtworkSource::Remote(bytes) => self.materialize(
                request,
                bytes,
                image,
                MaterializeAnswer::Nothing,
            ),
        }
    }

    fn decode(&self, request: &LoadRequest, source: ArtworkSource, answer: FileAnswer) -> (next: (
        LoadStage,
        LoadStep,
    ))
        ensures
            continues_with_file(*self, *request, source, answer, next),
    {
        let track = match &request.track_path {
            Some(track) => track.clone(),
            None => FilePath::from_text("<stream>"),
        };
        match loader::decode_source(&track, &source, answer) {
            DecodeStep::Measure(file) => (LoadStage::Decoding(source), LoadStep::Measure(file)),
            DecodeStep::Read(file) => (LoadStage::Decoding(source), LoadStep::Read(file)),
            DecodeStep::Done(Err(error)) => (LoadStage::Finished, LoadStep::NoArtwork(Some(error))),
            DecodeStep::Done(Ok(image)) => self.with_image(request, source, image),
        }
    }

    /// Find, decode and prepare the cover of a track, one step at a time.
    ///
    /// A load starts while it is resolving, with no answer. Nothing that goes
    /// wrong is an error for the caller: a missing or broken cover ends the
    /// load without artwork.
    pub fn load(&self, request: &LoadRequest, stage: LoadStage, event: LoadEvent) -> (next: (
        LoadStage,
        LoadStep,
    ))
        ensures
            continues(*self, *request, stage, event, next),
    {
        match (stage, event) {
            (LoadStage::Resolving, LoadEvent::Source(answer)) => {
                let track = match &request.track_path {
                    Some(track) => Some(track),
                    None => None,
                };
                let tags = match &request.metadata {
                    Some(tags) => Some(tags),
                    None => None,
                };
                match loader::resolve_source(
                    track,
                    request.source_config,
                    tags,
                    &request.cache_dir,
                    answer,
                ) {
                    SourceStep::ReadTags(file) => (
                        LoadStage::Resolving,
                        LoadStep::ReadTags(file),
                    ),
                    SourceStep::ProbeDirectory(file) => (
                        LoadStage::Resolving,
                        LoadStep::ProbeDirectory(file),
                    ),
                    SourceStep::FetchCover(fetch) => (
                        LoadStage::Resolving,
                        LoadStep::FetchCover(fetch),
                    ),
                    SourceStep::Resolved(None) => (LoadStage::Finished, LoadStep::NoArtwork(None)),
                    SourceStep::Resolved(Some(source)) => self.decode(
                        request,
                        source,
                        FileAnswer::Nothing,
                    ),
                }
            },
            (LoadStage::Decoding(source), LoadEvent::File(answer)) => self.decode(
                request,
                source,
                answer,
            ),
            (LoadStage::Materializing(bytes, image), LoadEvent::Materialize(answer)) => {
                self.materialize(request, bytes, image, answer)
            },
            _ => (LoadStage::Finished, LoadStep::NoArtwork(None)),
        }
    }
}

/// The cover of a load, on its way to the interface.
pub open spec fn wrapped(loaded: LoadedArtwork) -> ArtworkProtocol {
    ArtworkProtocol {
        protocol: protocol::ArtworkThreadProtocol {
            inner: Some(loaded.protocol),
            generation: 0,
            pending: None,
            last_encoded_target: None,
            resize_target: loaded.resize_target,
            worker_failed: false,
        },
        fallback_protocol: loaded.fallback_protocol,
        external_source: loaded.external_source,
        fallback_resize_target: loaded.fallback_resize_target,
    }
}

impl ArtworkProtocol {
    /// Wrap a prepared cover for its way to the interface.
    pub fn from_loaded(loaded: LoadedArtwork) -> (cover: Self)
        ensures
            cover == wrapped(loaded),
    {
        let mut cover = ArtworkProtocol::with_target(loaded.protocol, loaded.resize_target);
        cover.fallback_protocol = loaded.fallback_protocol;
        cover.external_source = loaded.external_source;
        cover.fallback_resize_target = loaded.fallback_resize_target;
        cover
    }
}

/// A prepared cover can be encoded for every bounded target, as long as the
/// terminal's cells have both sides.
pub proof fn law_loaded_covers_are_well_formed(
    loaded: LoadedArtwork,
    l: ArtworkLoader,
    bitmap: DynamicImage,
    source: Option<(Seq<u8>, ArtworkPathPolicy)>,
)
    requires
        presents(loaded, l, bitmap, source),
        l.primary_font().width >= 1,
        l.primary_font().height >= 1,
    ensures
        wrapped(loaded).wf(),
{
    protocol::law_resize_target_fits_its_font(l.primary_font());
    protocol::law_resize_target_fits_its_font(halfblocks_font());
}

/// Whether a cover shows the picture that bytes hold.
pub open spec fn shows_cover_of(loaded: LoadedArtwork, l: ArtworkLoader, bytes: Seq<u8>) -> bool {
    exists|bitmap: DynamicImage|
        #[trigger] loader::is_cover_of(bytes, bitmap) && shows(loaded, l, bitmap)
}

/// Bytes of the cover that a load has at hand, once it has them.
pub open spec fn cover_bytes(stage: LoadStage, event: LoadEvent) -> Option<Seq<u8>> {
    match (stage, event) {
        (LoadStage::Resolving, LoadEvent::Source(answer)) => match loader::found_source(answer) {
            Some(ArtworkSource::Embedded(bytes)) | Some(ArtworkSource::Remote(bytes)) => Some(
                bytes@,
            ),
            _ => None,
        },
        (LoadStage::Decoding(ArtworkSource::File(_)), LoadEvent::File(answer)) => match answer {
            FileAnswer::Contents(Ok(bytes)) => Some(bytes@),
            _ => None,
        },
        (LoadStage::Decoding(ArtworkSource::Embedded(bytes)), LoadEvent::File(_)) => Some(bytes@),
        (LoadStage::Decoding(ArtworkSource::Remote(bytes)), LoadEvent::File(_)) => Some(bytes@),
        (LoadStage::Materializing(bytes, _), _) => Some(bytes@),
        _ => None,
    }
}

/// Whether the bitmap of a stage is the cover that its bytes hold.
pub open spec fn is_faithful(stage: LoadStage) -> bool {
    stage matches LoadStage::Materializing(bytes, image) ==> loader::is_cover_of(bytes@, image)
}

proof fn lemma_bytes_are_shown(
    l: ArtworkLoader,
    request: LoadRequest,
    source: ArtworkSource,
    bytes: Seq<u8>,
    next: (LoadStage, LoadStep),
)
    requires
        continues_with_bytes(l, request, source, bytes, next),
        next.1 is Loaded,
    ensures
        shows_cover_of(next.1->Loaded_0, l, bytes),
{
    let extent = loader::cover_extent(bytes)->Ok_0;
    let bitmap = choose|bitmap: DynamicImage|
        {
            &&& #[trigger] loader::is_cover_of(bytes, bitmap)
            &&& images::extent_of(bitmap) == extent
            &&& continues_with_bitmap(l, request, source, bitmap, next)
        };
    assert(shows(next.1->Loaded_0, l, bitmap));
}

/// A load shows the cover that its bytes hold, and no other picture.
///
/// A load starts faithful, and every step keeps it so. The bytes at hand stay the
/// same until the load is over.
pub proof fn law_loads_show_the_cover_of_their_bytes(
    l: ArtworkLoader,
    request: LoadRequest,
    stage: LoadStage,
    event: LoadEvent,
    next: (LoadStage, LoadStep),
)
    requires
        is_faithful(stage),
        continues(l, request, stage, event, next),
    ensures
        is_faithful(next.0),
        next.0 matches LoadStage::Materializing(bytes, _) ==> cover_bytes(stage, event) == Some(
            bytes@,
        ),
        next.1 matches LoadStep::Loaded(loaded) ==> {
            &&& cover_bytes(stage, event) is Some
            &&& shows_cover_of(loaded, l, cover_bytes(stage, event)->0)
        },
{
    if next.1 is Loaded {
        match stage {
            LoadStage::Materializing(bytes, image) => {
                assert(loader::is_cover_of(bytes@, image));
                assert(shows(next.1->Loaded_0, l, image));
            },
            LoadStage::Resolving => {
                let source = loader::found_source(event->Source_0)->0;
                lemma_bytes_are_shown(l, request, source, cover_bytes(stage, event)->0, next);
            },
            LoadStage::Decoding(source) => {
                lemma_bytes_are_shown(l, request, source, cover_bytes(stage, event)->0, next);
            },
            _ => {},
        }
    }
}

/// Explicit half blocks never ask for a path, so nothing is materialized for
/// them.
pub proof fn law_halfblocks_have_no_external_source(
    l: ArtworkLoader,
    request: LoadRequest,
    source: ArtworkSource,
    bitmap: DynamicImage,
    next: (LoadStage, LoadStep),
)
    requires
        l.backend is Halfblocks,
        continues_with_bitmap(l, request, source, bitmap, next),
    ensures
        next.0 is Finished,
        next.1 matches LoadStep::Loaded(cover) && cover.external_source is None
            && cover.fallback_protocol is None,
{
}

} // verus!
