use harmonium::artwork::backend_kind::ArtworkBackendKind;
use harmonium::artwork::load::{
    materialize_for_ueberzug, ArtworkLoader, EntryKind, LoadEvent, LoadRequest, LoadStage,
    LoadStep, LoadedArtwork, MaterializeAnswer, MaterializeStep,
};
use harmonium::artwork::loader::{FileAnswer, SourceAnswer};
use harmonium::artwork::protocol::{
    delivery_step, encode_request, playlist_target_for_font, resize_target_for_font, respond,
    worker_step,
    ArtworkThreadProtocol, Received, ResizeOutcome, ResizeRequest, ResizeResponse, Submission,
    WorkerStep, MAX_RESIZE_PIXELS, PLAYLIST_ARTWORK_MAX_PIXELS,
};
use harmonium::artwork::state::{
    ArtworkPathPolicy, ArtworkProtocol, ArtworkState, MaterializedArtwork, ResizeLifecycle,
};
use harmonium::config::ArtworkSource as SourceConfig;
use harmonium::geometry::{FontSize, Size};
use harmonium::path::FilePath;
use ratatui_image::picker::Picker;
use ratatui_image::protocol::StatefulProtocol;
use ratatui_image::{Resize, ResizeEncodeRender};

fn png(width: u32, height: u32) -> Vec<u8> {
    let image = image::DynamicImage::new_rgba8(width, height);
    let mut buffer = std::io::Cursor::new(Vec::new());
    image
        .write_to(&mut buffer, image::ImageFormat::Png)
        .expect("png encoding");
    buffer.into_inner()
}

fn test_protocol() -> StatefulProtocol {
    Picker::halfblocks().new_resize_protocol(image::DynamicImage::new_rgba8(2, 2))
}

fn halfblocks_target() -> Size {
    resize_target_for_font(FontSize::new(10, 20))
}

fn source(path: &str, policy: ArtworkPathPolicy) -> MaterializedArtwork {
    MaterializedArtwork { path: FilePath::from_text(path), policy }
}

fn protocol_with_source(path: &str, policy: ArtworkPathPolicy) -> ArtworkProtocol {
    let mut protocol = ArtworkProtocol::new(test_protocol());
    protocol.external_source = Some(source(path, policy));
    protocol
}

fn protocol_with_fallback_source(path: &str) -> ArtworkProtocol {
    let mut protocol = protocol_with_source(path, ArtworkPathPolicy::Borrowed);
    protocol.fallback_protocol = Some(test_protocol());
    protocol
}

/// Materialize bytes in a directory where an entry is what `entry` says.
fn materialize(bytes: &Vec<u8>, entry: EntryKind) -> Option<MaterializedArtwork> {
    let cache = FilePath::from_text("/cache");
    let temp = FilePath::from_text("/tmp");
    let mut answer = MaterializeAnswer::Nothing;
    loop {
        answer = match materialize_for_ueberzug(bytes, &cache, &temp, answer) {
            MaterializeStep::CreateDirectory(_) => MaterializeAnswer::DirectoryCreated(true),
            MaterializeStep::Inspect(_) => MaterializeAnswer::Entry(entry),
            MaterializeStep::Write(_) => MaterializeAnswer::Written(true),
            MaterializeStep::Done(artwork) => return artwork,
        };
    }
}

/// Load a cover file with the given contents that lies beside a track.
fn load_file(loader: &ArtworkLoader, contents: Vec<u8>) -> Option<LoadedArtwork> {
    let request = LoadRequest {
        track_path: Some(FilePath::from_text("/music/song.mp3")),
        source_config: SourceConfig::All,
        metadata: None,
        cache_dir: FilePath::from_text("/cache"),
        temp_dir: FilePath::from_text("/tmp"),
    };
    let mut stage = LoadStage::Resolving;
    let mut event = LoadEvent::Source(SourceAnswer::Nothing);
    loop {
        let (next, step) = loader.load(&request, stage, event);
        stage = next;
        event = match step {
            LoadStep::ReadTags(_) => LoadEvent::Source(SourceAnswer::Embedded(None)),
            LoadStep::ProbeDirectory(_) => LoadEvent::Source(SourceAnswer::Directory(Some(
                FilePath::from_text("/music/cover.png"),
            ))),
            LoadStep::Measure(_) => LoadEvent::File(FileAnswer::Size(Ok(contents.len() as u64))),
            LoadStep::Read(_) => LoadEvent::File(FileAnswer::Contents(Ok(contents.clone()))),
            LoadStep::Loaded(loaded) => return Some(loaded),
            LoadStep::NoArtwork(_) => return None,
            _ => panic!("unexpected step"),
        };
    }
}

#[test]
fn default_state_is_disabled_with_no_cover() {
    let state = ArtworkState::default();

    assert!(!state.is_enabled());
    assert_eq!(state.track_index(), None);
    assert!(!state.has_artwork());
    assert_eq!(state.image_size(Size::new(14, 7)), None);
}

#[test]
fn set_artwork_records_the_track_and_clearing_removes_the_cover() {
    let mut state = ArtworkState::default();

    state.set_artwork(3, Some(ArtworkProtocol::new(test_protocol())));

    assert_eq!(state.track_index(), Some(3));
    assert!(state.has_artwork());
    assert!(state.image_size(Size::new(14, 7)).is_some());

    state.set_artwork(4, None);

    assert_eq!(state.track_index(), Some(4));
    assert!(!state.has_artwork(), "a track without art clears the cell");
    assert_eq!(state.image_size(Size::new(14, 7)), None);
}

#[test]
fn image_size_uses_the_native_protocol_when_available() {
    let mut state = ArtworkState::default();
    let target = Size::new(14, 7);
    state.set_artwork(0, Some(ArtworkProtocol::new(test_protocol())));

    let size = state
        .image_size(target)
        .expect("native artwork should provide a size");

    assert!(size.width > 0 && size.height > 0);
    assert_eq!(state.has_artwork(), state.image_size(target).is_some());
}

#[test]
fn image_size_uses_the_native_fallback_when_the_primary_is_absent() {
    let mut state = ArtworkState::default();
    let target = Size::new(14, 7);
    state.fallback_protocol = Some(test_protocol());

    let size = state
        .image_size(target)
        .expect("fallback artwork should provide a size");

    assert!(size.width > 0 && size.height > 0);
    assert_eq!(state.has_artwork(), state.image_size(target).is_some());
}

#[test]
fn image_size_uses_the_cached_external_source_when_native_protocols_are_absent() {
    let mut state = ArtworkState::default();
    let target = Size::new(14, 7);
    state.external_source = Some(source("/cache/cover.png", ArtworkPathPolicy::Borrowed));

    assert_eq!(state.image_size(target), Some(target));
    assert_eq!(state.has_artwork(), state.image_size(target).is_some());
}

#[test]
fn image_size_preserves_fallback_precedence_over_the_external_source() {
    let mut state = ArtworkState::default();
    let target = Size::new(14, 7);
    state.fallback_protocol = Some(test_protocol());
    state.external_source = Some(source("/cache/cover.png", ArtworkPathPolicy::Borrowed));

    let fallback_size = state
        .fallback_protocol
        .as_ref()
        .expect("fallback protocol")
        .size_for(
            Resize::Scale(None),
            ratatui::layout::Size::new(target.width, target.height),
        );

    assert_eq!(
        state.image_size(target),
        Some(Size::new(fallback_size.width, fallback_size.height))
    );
    assert_eq!(state.has_artwork(), state.image_size(target).is_some());
}

#[test]
fn invalid_artwork_does_not_create_a_protocol_or_panic() {
    let loader = ArtworkLoader::halfblocks();
    assert!(load_file(&loader, b"not an image".to_vec()).is_none());

    let state = ArtworkState::default();
    assert!(!state.has_artwork());
    assert_eq!(state.image_size(Size::new(14, 7)), None);
}

#[test]
fn state_reports_cover_presence_in_debug_output() {
    let mut state = ArtworkState::default();

    let rendered = state.debug_text();

    assert!(rendered.contains("has_protocol: false"));
    assert_eq!(
        rendered,
        "ArtworkState { has_protocol: false, track_index: None, backend: Disabled, \
         enabled: false, visible: true }"
    );

    state.set_artwork(102, Some(ArtworkProtocol::new(test_protocol())));
    state.set_backend(ArtworkBackendKind::Ueberzug);
    assert_eq!(
        state.debug_text(),
        "ArtworkState { has_protocol: true, track_index: Some(102), backend: Ueberzug, \
         enabled: false, visible: true }"
    );
}

#[test]
fn toggle_visible_flips_the_visibility_state() {
    let mut state = ArtworkState::default();
    assert!(state.is_visible());

    state.toggle_visible();
    assert!(!state.is_visible());

    state.toggle_visible();
    assert!(state.is_visible());
}

#[test]
fn set_visible_overwrites_the_visibility_state() {
    let mut state = ArtworkState::default();
    assert!(state.is_visible());

    state.set_visible(false);
    assert!(!state.is_visible());

    state.set_visible(true);
    assert!(state.is_visible());
}

#[test]
fn switching_to_halfblocks_clears_external_source_and_keeps_artwork() {
    let mut state = ArtworkState::default();
    state.set_artwork(0, Some(protocol_with_fallback_source("/cache/cover.png")));

    assert!(state.external_source().is_some());
    let removed = state.switch_to_halfblocks();

    assert!(removed.is_none(), "a borrowed file stays");
    assert!(state.external_source().is_none());
    assert!(state.has_artwork());
}

#[test]
fn render_suppresses_native_protocol_for_external_backends() {
    let mut state = ArtworkState::default();
    state.set_artwork(0, Some(ArtworkProtocol::new(test_protocol())));
    for backend in [ArtworkBackendKind::Ueberzugpp, ArtworkBackendKind::Ueberzug] {
        state.set_backend(backend);
        assert!(!state.renders_natively());
    }

    state.set_backend(ArtworkBackendKind::Halfblocks);
    assert_eq!(state.backend, ArtworkBackendKind::Halfblocks);
    assert!(state.renders_natively());
}

#[test]
fn playlist_target_stays_within_the_144_pixel_bound() {
    let target = playlist_target_for_font(FontSize::new(10, 20));

    assert_eq!(target, Size::new(14, 7));
    assert!(u32::from(target.width) * 10 <= PLAYLIST_ARTWORK_MAX_PIXELS);
    assert!(u32::from(target.height) * 20 <= PLAYLIST_ARTWORK_MAX_PIXELS);
}

#[test]
fn targets_of_fonts_without_extent_or_beyond_the_bound() {
    assert_eq!(playlist_target_for_font(FontSize::new(0, 0)), Size::new(144, 144));
    assert_eq!(playlist_target_for_font(FontSize::new(145, 144)), Size::new(0, 1));
    for side in [1u16, 7, 10, 72, 73, 144, 145, u16::MAX] {
        let target = playlist_target_for_font(FontSize::new(side, side));
        assert!(u32::from(target.width) * u32::from(side) <= PLAYLIST_ARTWORK_MAX_PIXELS);
        assert!((u32::from(target.width) + 1) * u32::from(side) > PLAYLIST_ARTWORK_MAX_PIXELS);
    }
    assert_eq!(resize_target_for_font(FontSize::new(10, 20)), Size::new(102, 51));
    assert_eq!(resize_target_for_font(FontSize::new(u16::MAX, 1)), Size::new(1, 1024));
}

#[test]
fn automatic_halfblocks_enable_external_fallback_but_explicit_unicode_does_not() {
    assert!(ArtworkLoader::auto(Picker::halfblocks()).uses_ueberzug_fallback());
    assert!(!ArtworkLoader::halfblocks().uses_ueberzug_fallback());
}

#[test]
fn halfblock_transition_stops_external_materialization_for_later_loads() {
    let loader = ArtworkLoader::with_backend(Picker::halfblocks(), ArtworkBackendKind::Halfblocks);

    let loaded = load_file(&loader, png(2, 2)).expect("cover should load");

    assert!(loaded.external_source.is_none());
    assert!(loaded.fallback_protocol.is_none());
}

#[test]
fn external_backends_borrow_cover_files() {
    let loader = ArtworkLoader::auto(Picker::halfblocks());

    let loaded = load_file(&loader, png(2, 2)).expect("cover should load");

    let source = loaded.external_source.expect("borrowed file");
    assert_eq!(source.path, FilePath::from_text("/music/cover.png"));
    assert_eq!(source.policy, ArtworkPathPolicy::Borrowed);
    assert_eq!(loaded.resize_target, halfblocks_target());
    assert_eq!(loaded.fallback_resize_target, Some(halfblocks_target()));
    assert!(loaded.fallback_protocol.is_some());
}

#[test]
fn embedded_covers_are_materialized_for_external_backends() {
    let loader = ArtworkLoader::with_native_fallback(Picker::halfblocks());
    let request = LoadRequest {
        track_path: Some(FilePath::from_text("/music/song.mp3")),
        source_config: SourceConfig::Metadata,
        metadata: None,
        cache_dir: FilePath::from_text(""),
        temp_dir: FilePath::from_text("/tmp"),
    };
    let bytes = png(3, 2);
    let (stage, step) = loader.load(
        &request,
        LoadStage::Resolving,
        LoadEvent::Source(SourceAnswer::Embedded(Some(bytes.clone()))),
    );
    let root = match step {
        LoadStep::CreateDirectory(root) => root,
        _ => panic!("expected a directory"),
    };
    assert_eq!(root, FilePath::from_text("/tmp/harmonium/ueberzugpp-artwork"));
    let (stage, step) = loader.load(
        &request,
        stage,
        LoadEvent::Materialize(MaterializeAnswer::DirectoryCreated(true)),
    );
    assert!(matches!(step, LoadStep::Inspect(_)));
    let (stage, step) = loader.load(
        &request,
        stage,
        LoadEvent::Materialize(MaterializeAnswer::Entry(EntryKind::Missing)),
    );
    match (&stage, step) {
        (LoadStage::Materializing(kept, _), LoadStep::Write(_)) => assert_eq!(*kept, bytes),
        _ => panic!("expected a write"),
    }
    let (stage, step) = loader.load(
        &request,
        stage,
        LoadEvent::Materialize(MaterializeAnswer::Written(true)),
    );
    assert!(matches!(stage, LoadStage::Finished));
    match step {
        LoadStep::Loaded(loaded) => {
            let source = loaded.external_source.expect("materialized file");
            assert_eq!(source.policy, ArtworkPathPolicy::SharedContentAddressedCache);
        }
        _ => panic!("expected a cover"),
    }
}

#[test]
fn loads_that_fail_to_materialize_keep_the_cover() {
    let loader = ArtworkLoader::auto(Picker::halfblocks());
    let request = LoadRequest {
        track_path: None,
        source_config: SourceConfig::Remote,
        metadata: None,
        cache_dir: FilePath::from_text("/cache"),
        temp_dir: FilePath::from_text("/tmp"),
    };
    let (stage, _) = loader.load(
        &request,
        LoadStage::Resolving,
        LoadEvent::Source(SourceAnswer::Remote(Some(png(2, 2)))),
    );
    let (_, step) = loader.load(
        &request,
        stage,
        LoadEvent::Materialize(MaterializeAnswer::DirectoryCreated(false)),
    );
    match step {
        LoadStep::Loaded(loaded) => assert!(loaded.external_source.is_none()),
        _ => panic!("expected a cover"),
    }
}

#[test]
fn loaders_report_their_policy() {
    let native = ArtworkLoader::new(Picker::halfblocks());
    assert_eq!(native.backend, ArtworkBackendKind::RatatuiImage);
    assert!(!native.supports_native_fallback());
    assert!(ArtworkLoader::with_native_fallback(Picker::halfblocks()).supports_native_fallback());
    assert_eq!(native.playlist_target(), Size::new(14, 7));
}

#[test]
fn materialized_external_source_uses_a_stable_feature_cache_path() {
    let bytes = png(2, 2);
    let first = materialize(&bytes, EntryKind::Missing).expect("materialized cover");
    let second = materialize(&bytes, EntryKind::Present).expect("cached cover");

    assert_eq!(first.path, second.path);
    assert_eq!(first.policy, ArtworkPathPolicy::SharedContentAddressedCache);
    assert_eq!(second.policy, ArtworkPathPolicy::SharedContentAddressedCache);
    let text = first.path.to_text().expect("UTF-8 path");
    assert!(text.starts_with("/cache/ueberzugpp-artwork/"));
    assert!(text.ends_with(".png"));
    assert_eq!(text.len(), "/cache/ueberzugpp-artwork/".len() + 64 + ".png".len());
}

#[test]
fn links_unreadable_entries_and_other_formats_are_not_materialized() {
    let bytes = png(2, 2);
    assert!(materialize(&bytes, EntryKind::Symlink).is_none());
    assert!(materialize(&bytes, EntryKind::Unreadable).is_none());
    assert!(materialize(&b"GIF89a".to_vec(), EntryKind::Missing).is_none());
    let jpeg = vec![0xff, 0xd8, 0xff, 0xe0];
    let file = materialize(&jpeg, EntryKind::Missing).expect("materialized cover");
    assert!(file.path.to_text().expect("UTF-8 path").ends_with(".jpg"));
}

#[test]
fn shared_cache_path_survives_state_replacement_clear_and_drop_order() {
    let first_bytes = png(2, 2);
    let second_bytes = png(3, 2);
    let first = materialize(&first_bytes, EntryKind::Missing).expect("first materialized cover");
    let cache_hit = materialize(&first_bytes, EntryKind::Present).expect("shared cache hit");
    assert_eq!(cache_hit.path, first.path);
    let second = materialize(&second_bytes, EntryKind::Missing).expect("second materialized cover");
    assert_ne!(first.path, second.path);
    let first_path = first.path.to_text().expect("UTF-8 path");
    let second_path = second.path.to_text().expect("UTF-8 path");
    let shared = ArtworkPathPolicy::SharedContentAddressedCache;

    let mut first_state = ArtworkState::default();
    let mut second_state = ArtworkState::default();
    assert!(first_state
        .set_artwork(1, Some(protocol_with_source(&first_path, shared)))
        .is_none());
    assert!(second_state
        .set_artwork(2, Some(protocol_with_source(&first_path, shared)))
        .is_none());

    let removed = first_state.set_artwork(3, Some(protocol_with_source(&second_path, shared)));
    assert!(removed.is_none(), "replacement must retain shared cache");
    assert!(
        first_state.dispose().is_none(),
        "dropping one state must not remove a shared cache hit"
    );

    assert!(
        second_state.set_artwork(4, None).is_none(),
        "clearing the last state must not remove shared cache data"
    );
    assert!(second_state.dispose().is_none());

    let retained_hit = materialize(&first_bytes, EntryKind::Present)
        .expect("retained cache entry must remain a hit");
    assert_eq!(retained_hit.path, first.path);
}

#[test]
fn private_session_owned_path_is_removed_on_clear() {
    let private = ArtworkPathPolicy::PrivateSessionOwned;
    let mut state = ArtworkState::default();
    state.set_artwork(0, Some(protocol_with_source("/private/private.png", private)));
    let removed = state.set_artwork(1, None);

    assert_eq!(
        removed,
        Some(FilePath::from_text("/private/private.png")),
        "private session files remain state-owned"
    );
}

#[test]
fn private_files_go_with_the_state_but_survive_an_update_of_the_same_path() {
    let private = ArtworkPathPolicy::PrivateSessionOwned;
    let mut state = ArtworkState::default();
    state.set_artwork(0, Some(protocol_with_source("/private/cover.png", private)));
    assert!(state
        .set_artwork(1, Some(protocol_with_source("/private//./cover.png", private)))
        .is_none());
    assert_eq!(
        state.set_artwork(2, Some(protocol_with_source("/private/other.png", private))),
        Some(FilePath::from_text("/private//./cover.png"))
    );
    assert_eq!(state.dispose(), Some(FilePath::from_text("/private/other.png")));
}

#[test]
fn resize_worker_completes_pending_target_without_render_thread_work() {
    let mut state = ArtworkState::default();
    state.set_artwork(0, Some(ArtworkProtocol::new(test_protocol())));

    let request = state
        .submit_resize(Size::new(14, 7))
        .expect("a new target needs encoding");
    state.resize_submitted(
        Submission::Accepted {
            generation: request.generation,
            target: request.target,
        },
        &mut false,
    );

    assert!(!state.has_artwork(), "pending protocol must not render stale data");
    assert_eq!(
        state.resize_state,
        ResizeLifecycle::Submitted {
            generation: 1,
            target: request.target,
        }
    );
    let response = encode_request(request).expect("an encoding result");
    state.apply_pending_resizes(vec![response], false, &mut false);
    assert!(state.has_artwork(), "worker response should restore renderable art");
    assert_eq!(state.resize_state, ResizeLifecycle::Ready);
    assert!(
        state.submit_resize(Size::new(14, 7)).is_none(),
        "an encoded target is not requested again"
    );
}

#[test]
fn shared_worker_routes_concurrent_protocol_requests_to_their_owners() {
    let target = halfblocks_target();
    let mut first = ArtworkState::default();
    let mut second = ArtworkState::default();
    first.set_artwork(1, Some(ArtworkProtocol::with_target(test_protocol(), target)));
    second.set_artwork(2, Some(ArtworkProtocol::with_target(test_protocol(), target)));

    let mut responses = Vec::new();
    for state in [&mut first, &mut second] {
        let request = state.submit_resize(Size::new(30, 20)).expect("request");
        state.resize_submitted(
            Submission::Accepted {
                generation: request.generation,
                target: request.target,
            },
            &mut false,
        );
        responses.push(encode_request(request).expect("response"));
    }

    second.apply_pending_resizes(responses.pop().into_iter().collect(), false, &mut false);
    first.apply_pending_resizes(responses.pop().into_iter().collect(), false, &mut false);
    assert!(first.has_artwork(), "first protocol lost its response");
    assert!(second.has_artwork(), "second protocol lost its response");
}

#[test]
fn stale_generation_is_rejected_after_protocol_replacement() {
    let target = halfblocks_target();
    let mut protocol = ArtworkProtocol::with_target(test_protocol(), target);
    let request = protocol
        .protocol
        .resize_encode(Size::new(20, 10))
        .expect("request");
    protocol.protocol.submitted(Submission::Accepted {
        generation: request.generation,
        target: request.target,
    });
    let (generation, request_target) = protocol.protocol.pending.expect("pending request");

    protocol.protocol.replace_protocol(test_protocol(), target);
    let outcome = protocol.protocol.update_resized_protocol(ResizeResponse {
        generation,
        target: request_target,
        result: Ok(test_protocol()),
    });

    assert!(matches!(outcome, ResizeOutcome::Stale));
    assert!(protocol.protocol.inner.is_some());
}

#[test]
fn completions_are_applied_once() {
    let mut protocol = ArtworkThreadProtocol::new(test_protocol(), halfblocks_target());
    let request = protocol.resize_encode(Size::new(20, 10)).expect("request");
    protocol.submitted(Submission::Accepted {
        generation: request.generation,
        target: request.target,
    });
    let generation = request.generation;
    let target = request.target;
    let response = encode_request(request).expect("response");
    assert_eq!(protocol.update_resized_protocol(response), ResizeOutcome::Applied);
    assert_eq!(protocol.last_encoded_target, Some(target));
    let again = ResizeResponse {
        generation,
        target,
        result: Err("late".to_string()),
    };
    assert_eq!(protocol.update_resized_protocol(again), ResizeOutcome::Stale);
    assert!(protocol.inner.is_some());
}

#[test]
fn resize_requests_are_pixel_bounded_and_keep_output_renderable() {
    let target = halfblocks_target();
    let mut protocol = ArtworkProtocol::with_target(test_protocol(), target);
    let request = protocol
        .protocol
        .resize_encode(Size::new(u16::MAX, u16::MAX))
        .expect("bounded request");
    let bounded = request.target;
    protocol.protocol.submitted(Submission::Accepted {
        generation: request.generation,
        target: bounded,
    });

    assert!(u32::from(bounded.width) * 10 <= MAX_RESIZE_PIXELS);
    assert!(u32::from(bounded.height) * 20 <= MAX_RESIZE_PIXELS);

    let mut state = ArtworkState::default();
    state.set_artwork(0, Some(protocol));
    let response = encode_request(request).expect("response");
    state.apply_pending_resizes(vec![response], false, &mut false);
    assert!(state.has_artwork(), "bounded output was not applied");
}

#[test]
fn unavailable_worker_marks_native_artwork_failed_without_blocking() {
    let mut state = ArtworkState::default();
    state.set_artwork(
        0,
        Some(ArtworkProtocol::with_target(test_protocol(), halfblocks_target())),
    );
    {
        let protocol = state.protocol.as_mut().expect("protocol is present");
        let request = protocol.resize_encode(Size::new(20, 10)).expect("request");
        protocol.submitted(Submission::Unavailable(request));
    }
    state.apply_pending_resizes(Vec::new(), false, &mut false);

    assert_eq!(state.resize_state, ResizeLifecycle::Failed);
    assert!(state.take_native_render_failure());
    assert!(!state.take_native_render_failure());
    assert!(!state.has_artwork());
}

#[test]
fn full_resize_queue_keeps_ready_state_and_preserves_generation_progress() {
    let mut state = ArtworkState::default();
    state.set_artwork(
        0,
        Some(ArtworkProtocol::with_target(test_protocol(), halfblocks_target())),
    );

    let request = state.submit_resize(Size::new(20, 10)).expect("request");
    state.resize_submitted(Submission::Full(request), &mut false);

    assert_eq!(state.resize_state, ResizeLifecycle::Ready);
    assert!(!state.take_native_render_failure());
    assert_eq!(
        state
            .protocol
            .as_ref()
            .expect("protocol remains available")
            .generation,
        1
    );
    assert!(state.has_artwork());
}

#[test]
fn missing_encoding_result_marks_request_failed_and_keeps_worker_running() {
    let silent = Received::Request(ResizeRequest {
        generation: 1,
        target: Size::new(0, 0),
        protocol: test_protocol(),
    });
    assert!(matches!(worker_step(silent, false), WorkerStep::MarkFailed));

    let next = Received::Request(ResizeRequest {
        generation: 2,
        target: Size::new(1, 1),
        protocol: test_protocol(),
    });
    match worker_step(next, false) {
        WorkerStep::Answer(response) => {
            assert_eq!(response.generation, 2);
            assert!(response.result.is_ok());
        }
        _ => panic!("expected an answer"),
    }
}

#[test]
fn targets_without_cells_hand_on_the_unread_outcome() {
    let mut protocol = test_protocol();
    protocol.resize_encode(
        &Resize::Scale(None),
        ratatui::layout::Size::new(2, 1),
    );
    let request = ResizeRequest {
        generation: 3,
        target: Size::new(0, 5),
        protocol,
    };
    let response = encode_request(request).expect("the outcome was not asked for yet");
    assert_eq!((response.generation, response.target), (3, Size::new(0, 5)));
    assert!(response.result.is_ok());
}

#[test]
fn answers_hand_on_what_the_encoder_reported() {
    let target = Size::new(3, 2);
    assert!(respond(1, target, test_protocol(), None).is_none());
    let fine = respond(2, target, test_protocol(), Some(Ok(()))).expect("answer");
    assert_eq!((fine.generation, fine.target), (2, target));
    assert!(fine.result.is_ok());
    let failed = respond(3, target, test_protocol(), Some(Err("sixel".to_string())));
    let failed = failed.expect("answer");
    assert_eq!((failed.generation, failed.target), (3, target));
    assert_eq!(failed.result.err().as_deref(), Some("sixel"));
}

#[test]
fn worker_waits_and_stops_as_told() {
    assert!(matches!(worker_step(Received::Timeout, false), WorkerStep::Wait));
    assert!(matches!(worker_step(Received::Disconnected, false), WorkerStep::Stop));
    assert!(matches!(worker_step(Received::Shutdown, false), WorkerStep::Stop));
    let late = Received::Request(ResizeRequest {
        generation: 1,
        target: Size::new(1, 1),
        protocol: test_protocol(),
    });
    assert!(matches!(worker_step(late, true), WorkerStep::Stop));
}

#[test]
fn every_request_of_a_run_is_answered_or_marked() {
    let targets = [
        Size::new(1, 1),
        Size::new(0, 3),
        Size::new(4, 2),
        Size::new(2, 2),
    ];
    let (mut answered, mut marked) = (Vec::new(), Vec::new());
    for (index, target) in targets.into_iter().enumerate() {
        let generation = index as u64 + 1;
        let request = Received::Request(ResizeRequest {
            generation,
            target,
            protocol: test_protocol(),
        });
        let step = match worker_step(request, false) {
            WorkerStep::Answer(response) => {
                assert_eq!((response.generation, response.target), (generation, target));
                // Nobody waits for the third answer any more
                let step = delivery_step(generation != 3);
                if matches!(step, WorkerStep::Wait) {
                    answered.push(response.generation);
                }
                step
            }
            step => step,
        };
        match step {
            WorkerStep::MarkFailed => marked.push(generation),
            WorkerStep::Wait => {}
            _ => panic!("requests do not stop the worker"),
        }
    }
    assert_eq!(answered, [1, 4]);
    assert_eq!(marked, [2, 3]);
}

#[test]
fn covers_of_half_blocks_can_always_be_encoded() {
    assert!(ArtworkLoader::halfblocks().can_encode());
    assert!(ArtworkLoader::new(Picker::halfblocks()).can_encode());
    let flat = || {
        #[allow(deprecated)]
        Picker::from_fontsize(ratatui_image::FontSize::new(10, 0))
    };
    assert!(!ArtworkLoader::new(flat()).can_encode());
    assert!(ArtworkLoader::with_backend(flat(), ArtworkBackendKind::Halfblocks).can_encode());
}

#[test]
fn failed_completions_and_lost_workers_drop_the_cover() {
    for lost in [false, true] {
        let mut state = ArtworkState::default();
        state.set_artwork(0, Some(ArtworkProtocol::new(test_protocol())));
        let request = state.submit_resize(Size::new(14, 7)).expect("request");
        let (generation, target) = (request.generation, request.target);
        state.resize_submitted(Submission::Accepted { generation, target }, &mut false);
        let responses = if lost {
            Vec::new()
        } else {
            vec![ResizeResponse {
                generation,
                target,
                result: Err("sixel".to_string()),
            }]
        };
        let diagnostic = state.apply_pending_resizes(responses, lost, &mut false);
        assert_eq!(diagnostic.as_deref(), if lost { None } else { Some("sixel") });
        assert_eq!(state.resize_state, ResizeLifecycle::Failed);
        assert!(state.take_native_render_failure());
        assert!(!state.has_artwork());
    }
}

#[test]
fn unanswered_requests_are_failures() {
    let mut state = ArtworkState::default();
    state.set_artwork(0, Some(ArtworkProtocol::new(test_protocol())));
    let request = state.submit_resize(Size::new(14, 7)).expect("request");
    state.resize_submitted(
        Submission::Accepted {
            generation: request.generation,
            target: request.target,
        },
        &mut false,
    );
    state.apply_pending_resizes(Vec::new(), false, &mut true);
    assert!(state.take_native_render_failure());
}

#[test]
fn emptied_protocols_become_stale() {
    let mut protocol = ArtworkThreadProtocol::new(test_protocol(), halfblocks_target());
    protocol.empty_protocol();
    assert!(protocol.inner.is_none());
    assert_eq!(protocol.generation, 1);
    assert!(protocol.resize_encode(Size::new(3, 3)).is_none());
}

#[test]
fn browser_target_can_use_more_source_than_playlist_target() {
    let protocol =
        Picker::halfblocks().new_resize_protocol(image::DynamicImage::new_rgba8(512, 512));
    let protocol = ArtworkThreadProtocol::new(protocol, halfblocks_target());
    let playlist = protocol
        .size_for(
            harmonium::artwork::terminal::Fitting::Scale,
            playlist_target_for_font(FontSize::new(10, 20)),
        )
        .expect("playlist size");
    let browser = protocol
        .size_for(harmonium::artwork::terminal::Fitting::Scale, Size::new(40, 20))
        .expect("browser size");

    assert!(browser.width > playlist.width);
    assert!(browser.height > playlist.height);
}

#[test]
fn loaded_covers_reach_the_interface_whole() {
    let loader = ArtworkLoader::auto(Picker::halfblocks());
    let loaded = load_file(&loader, png(2, 2)).expect("cover should load");
    let mut state = ArtworkState::default();
    state.set_enabled(true);
    state.set_playlist_target(loader.playlist_target());
    state.set_artwork(9, Some(ArtworkProtocol::from_loaded(loaded)));
    assert!(state.is_enabled());
    assert_eq!(state.playlist_target(), Size::new(14, 7));
    assert_eq!(state.external_source(), Some(FilePath::from_text("/music/cover.png")));
    assert!(state.fallback_protocol.is_some());
}

#[test]
fn unanswered_requests_wait_until_nothing_else_failed() {
    let mut state = ArtworkState::default();
    state.set_artwork(0, Some(ArtworkProtocol::new(test_protocol())));
    {
        let protocol = state.protocol.as_mut().expect("protocol is present");
        let request = protocol.resize_encode(Size::new(20, 10)).expect("request");
        protocol.submitted(Submission::Unavailable(request));
    }
    let mut unanswered = true;
    state.apply_pending_resizes(Vec::new(), false, &mut unanswered);
    assert!(unanswered, "one failure is reported at a time");
    assert!(state.take_native_render_failure());
    state.apply_pending_resizes(Vec::new(), false, &mut unanswered);
    assert!(!unanswered);
    assert!(state.take_native_render_failure());
}

#[test]
fn completions_for_an_earlier_cover_never_reach_a_new_one() {
    let mut state = ArtworkState::default();
    state.set_artwork(0, Some(protocol_with_fallback_source("/cache/one.png")));
    let request = state.submit_resize(Size::new(14, 7)).expect("request");
    let target = request.target;
    state.resize_submitted(
        Submission::Accepted {
            generation: request.generation,
            target,
        },
        &mut false,
    );
    let response = encode_request(request).expect("response");
    state.switch_to_halfblocks();
    state.apply_pending_resizes(vec![response], false, &mut false);
    assert_eq!(
        state.protocol.as_ref().map(|protocol| protocol.last_encoded_target),
        Some(None),
        "half blocks took over before the answer came"
    );

    state.set_artwork(1, Some(ArtworkProtocol::new(test_protocol())));
    let late = ResizeResponse {
        generation: 1,
        target,
        result: Err("late".to_string()),
    };
    state.apply_pending_resizes(vec![late], false, &mut false);
    assert!(state.has_artwork());
    assert!(!state.take_native_render_failure());
}
