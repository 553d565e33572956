use harmonium::artwork::backend::{
    ArtworkBackend, ArtworkRenderer, ArtworkTeardown, BackendStage, LayerAction,
};
use harmonium::artwork::backend_kind::ArtworkBackendKind;
use harmonium::artwork::layer::{LayerStep, ProcessStatus, SendOutcome};
use harmonium::artwork::load::ArtworkLoader;
use harmonium::artwork::overlay::ArtworkOverlay;
use harmonium::artwork::state::{
    ArtworkPathPolicy, ArtworkProtocol, ArtworkState, MaterializedArtwork,
};
use harmonium::artwork::ueberzug::{Manager as LegacyManager, RefreshStep, RoundedArea};
use harmonium::artwork::ueberzugpp::Manager as UeberzugppManager;
use harmonium::config::AlbumArtMode;
use harmonium::geometry::Rect;
use harmonium::path::FilePath;
use ratatui_image::picker::{Picker, ProtocolType};
use ratatui_image::protocol::StatefulProtocol;

fn test_protocol() -> StatefulProtocol {
    Picker::halfblocks().new_resize_protocol(image::DynamicImage::new_rgba8(2, 2))
}

fn protocol_with_fallback_source(path: &str) -> ArtworkProtocol {
    let mut protocol = ArtworkProtocol::new(test_protocol());
    protocol.external_source = Some(MaterializedArtwork {
        path: FilePath::from_text(path),
        policy: ArtworkPathPolicy::Borrowed,
    });
    protocol.fallback_protocol = Some(test_protocol());
    protocol
}

fn kitty_picker() -> Picker {
    let mut picker = Picker::halfblocks();
    picker.set_protocol_type(ProtocolType::Kitty);
    picker
}

fn overlay() -> ArtworkOverlay {
    ArtworkOverlay::new(
        1,
        FilePath::from_text("/cache/cover.png"),
        Rect {
            x: 0,
            y: 0,
            width: 2,
            height: 2,
        },
    )
}

/// An area that no correction changes.
fn rounded(area: Rect) -> RoundedArea {
    RoundedArea {
        x: i64::from(area.x),
        y: i64::from(area.y),
        width: i64::from(area.width),
        height: i64::from(area.height),
    }
}

/// Run actions where each process starts or not as told, and tell which
/// processes were tried.
fn run_starts(
    backend: &mut ArtworkBackend,
    artwork: &mut ArtworkState,
    actions: Vec<LayerAction>,
    ueberzugpp: bool,
    ueberzug: bool,
) -> Vec<&'static str> {
    let mut order = Vec::new();
    let mut pending = actions;
    while !pending.is_empty() {
        let action = pending.remove(0);
        match action {
            LayerAction::SpawnUeberzugpp => {
                order.push("ueberzugpp");
                pending.extend(backend.layer_started(ueberzugpp, artwork));
            }
            LayerAction::SpawnUeberzug => {
                order.push("ueberzug");
                pending.extend(backend.layer_started(ueberzug, artwork));
            }
            _ => {}
        }
    }
    order
}

#[test]
fn explicit_modes_select_deterministic_backends() {
    assert_eq!(
        ArtworkBackend::from_detected_picker(AlbumArtMode::Off, None).kind(),
        ArtworkBackendKind::Disabled
    );
    assert_eq!(
        ArtworkBackend::from_detected_picker(AlbumArtMode::Unicode, None).kind(),
        ArtworkBackendKind::Halfblocks
    );
    assert!(
        !ArtworkBackend::from_detected_picker(AlbumArtMode::Unicode, None)
            .loader()
            .is_some_and(ArtworkLoader::uses_external_fallback)
    );
    assert_eq!(
        ArtworkBackend::from_detected_picker(AlbumArtMode::Image, Some(Picker::halfblocks()))
            .kind(),
        ArtworkBackendKind::Disabled
    );
    assert_eq!(
        ArtworkBackend::from_detected_picker(AlbumArtMode::Auto, None).kind(),
        ArtworkBackendKind::Ueberzugpp
    );
}

#[test]
fn graphics_terminals_draw_natively() {
    for mode in [AlbumArtMode::Image, AlbumArtMode::Auto] {
        let backend = ArtworkBackend::from_detected_picker(mode, Some(kitty_picker()));
        assert_eq!(backend.kind(), ArtworkBackendKind::RatatuiImage);
        assert_eq!(
            backend
                .loader()
                .is_some_and(ArtworkLoader::supports_native_fallback),
            mode == AlbumArtMode::Auto
        );
    }
}

#[test]
fn auto_halfblocks_prefers_ueberzug_then_falls_back_to_halfblocks() {
    let mut backend =
        ArtworkBackend::from_detected_picker(AlbumArtMode::Auto, Some(Picker::halfblocks()));
    assert_eq!(backend.kind(), ArtworkBackendKind::Ueberzugpp);

    let mut artwork = ArtworkState::default();
    let actions = backend.start_external();
    run_starts(&mut backend, &mut artwork, actions, false, false);

    assert_eq!(backend.kind(), ArtworkBackendKind::Halfblocks);
    assert!(backend.loader().is_some());
}

#[test]
fn auto_external_start_uses_ueberzugpp_before_original_ueberzug() {
    let mut backend =
        ArtworkBackend::from_detected_picker(AlbumArtMode::Auto, Some(Picker::halfblocks()));
    let mut artwork = ArtworkState::default();

    let actions = backend.start_external();
    run_starts(&mut backend, &mut artwork, actions, true, true);

    assert_eq!(backend.kind(), ArtworkBackendKind::Ueberzugpp);
    assert_eq!(artwork.backend, ArtworkBackendKind::Ueberzugpp);

    let mut fallback_backend =
        ArtworkBackend::from_detected_picker(AlbumArtMode::Auto, Some(Picker::halfblocks()));
    let actions = fallback_backend.start_external();
    run_starts(&mut fallback_backend, &mut artwork, actions, false, true);
    assert_eq!(fallback_backend.kind(), ArtworkBackendKind::Ueberzug);
    assert_eq!(artwork.backend, ArtworkBackendKind::Ueberzug);
}

#[test]
fn external_start_factories_are_lazy_and_ordered() {
    let mut backend =
        ArtworkBackend::from_detected_picker(AlbumArtMode::Auto, Some(Picker::halfblocks()));
    let mut artwork = ArtworkState::default();
    let actions = backend.start_external();
    let order = run_starts(&mut backend, &mut artwork, actions, true, true);

    assert_eq!(backend.kind(), ArtworkBackendKind::Ueberzugpp);
    assert_eq!(artwork.backend, ArtworkBackendKind::Ueberzugpp);
    assert_eq!(order, vec!["ueberzugpp"]);

    let mut fallback_backend =
        ArtworkBackend::from_detected_picker(AlbumArtMode::Auto, Some(Picker::halfblocks()));
    let mut fallback_artwork = ArtworkState::default();
    let actions = fallback_backend.start_external();
    let order = run_starts(
        &mut fallback_backend,
        &mut fallback_artwork,
        actions,
        false,
        true,
    );

    assert_eq!(fallback_backend.kind(), ArtworkBackendKind::Ueberzug);
    assert_eq!(order, vec!["ueberzugpp", "ueberzug"]);
}

#[test]
fn native_failure_crosses_to_external_without_changing_explicit_modes() {
    let mut backend = ArtworkBackend::native_with_fallback(Picker::halfblocks());
    let mut artwork = ArtworkState::default();
    artwork.set_artwork(0, Some(protocol_with_fallback_source("/cache/cover.png")));

    let actions = backend.report_native_failure(&mut artwork);
    let order = run_starts(&mut backend, &mut artwork, actions, true, true);

    assert_eq!(backend.kind(), ArtworkBackendKind::Ueberzugpp);
    assert_eq!(order, vec!["ueberzugpp"]);
    assert_eq!(backend.kind(), artwork.backend);
    assert!(artwork.external_source().is_some());

    let mut explicit = ArtworkBackend::native(kitty_picker());
    assert!(explicit.report_native_failure(&mut artwork).is_empty());
    assert_eq!(explicit.kind(), ArtworkBackendKind::RatatuiImage);
}

#[test]
fn ueberzugpp_ipc_failure_transitions_to_original_ueberzug() {
    let mut backend = ArtworkBackend::ueberzug_candidate();
    let mut artwork = ArtworkState::default();
    artwork.set_artwork(0, Some(protocol_with_fallback_source("/cache/cover.png")));
    let actions = backend.start_external();
    run_starts(&mut backend, &mut artwork, actions, true, false);

    // The first process breaks on its first command
    let actions = backend.reconcile(&mut artwork);
    assert!(matches!(actions.as_slice(), [LayerAction::Reconcile]));
    let mut broken = UeberzugppManager::new();
    broken.reconcile(Some(overlay()), ProcessStatus::Running);
    broken.sent(SendOutcome::Failed);
    let actions = backend.layer_reported(broken.is_enabled(), &mut artwork);
    assert!(matches!(
        actions.as_slice(),
        [LayerAction::CleanUp, LayerAction::SpawnUeberzug]
    ));

    // Its replacement works
    let actions = backend.layer_started(true, &mut artwork);
    assert!(matches!(
        actions.as_slice(),
        [LayerAction::Register, LayerAction::Reconcile]
    ));
    let mut replacement = LegacyManager::new();
    let desired = overlay();
    let rounded = rounded(desired.rect);
    let payload = match replacement.reconcile(
        Some(desired),
        rounded,
        RefreshStep::Ready,
        ProcessStatus::Running,
    ) {
        LayerStep::Send(line) => String::from_utf8(line).expect("JSON payload"),
        _ => panic!("expected a command"),
    };
    replacement.sent(SendOutcome::Sent);
    let actions = backend.layer_reported(replacement.is_enabled(), &mut artwork);
    assert!(actions.is_empty());

    assert_eq!(backend.kind(), ArtworkBackendKind::Ueberzug);
    assert_eq!(artwork.backend, ArtworkBackendKind::Ueberzug);
    assert!(payload.contains("\"scaler\":\"contain\""));
    assert!(artwork.external_source().is_some());
}

#[test]
fn original_ueberzug_ipc_failure_transitions_to_native_halfblocks() {
    let mut backend = ArtworkBackend::ueberzug_candidate();
    let mut artwork = ArtworkState::default();
    artwork.set_artwork(0, Some(protocol_with_fallback_source("/cache/cover.png")));
    let actions = backend.start_external();
    run_starts(&mut backend, &mut artwork, actions, false, true);

    backend.reconcile(&mut artwork);
    let mut broken = LegacyManager::new();
    let rounded = rounded(overlay().rect);
    broken.reconcile(
        Some(overlay()),
        rounded,
        RefreshStep::Ready,
        ProcessStatus::Running,
    );
    broken.sent(SendOutcome::Failed);
    let actions = backend.layer_reported(broken.is_enabled(), &mut artwork);

    assert!(matches!(actions.as_slice(), [LayerAction::CleanUp]));
    assert_eq!(backend.kind(), ArtworkBackendKind::Halfblocks);
    assert_eq!(artwork.backend, ArtworkBackendKind::Halfblocks);
    assert_eq!(backend.kind(), artwork.backend);
    assert!(artwork.external_source().is_none());
    assert!(artwork.has_artwork());
}

#[test]
fn failed_replacements_remove_private_files() {
    let mut backend = ArtworkBackend::ueberzug_candidate();
    let mut artwork = ArtworkState::default();
    let mut cover = protocol_with_fallback_source("/private/cover.png");
    cover.external_source = Some(MaterializedArtwork {
        path: FilePath::from_text("/private/cover.png"),
        policy: ArtworkPathPolicy::PrivateSessionOwned,
    });
    artwork.set_artwork(0, Some(cover));
    // No layer is attached, which counts as a failed one
    backend.reconcile(&mut artwork);
    assert_eq!(backend.stage, BackendStage::Replacing);
    let actions = backend.layer_started(false, &mut artwork);
    match actions.as_slice() {
        [LayerAction::CleanUp, LayerAction::Remove(file)] => {
            assert_eq!(*file, FilePath::from_text("/private/cover.png"))
        }
        _ => panic!("expected a removal"),
    }
}

#[test]
fn unhealthy_replacements_end_in_halfblocks() {
    let mut backend = ArtworkBackend::ueberzug_candidate();
    let mut artwork = ArtworkState::default();
    backend.reconcile(&mut artwork);
    backend.layer_started(true, &mut artwork);
    assert_eq!(backend.kind(), ArtworkBackendKind::Ueberzug);
    backend.layer_reported(false, &mut artwork);
    assert_eq!(backend.kind(), ArtworkBackendKind::Halfblocks);
    assert_eq!(artwork.backend, ArtworkBackendKind::Halfblocks);
    assert!(backend.reconcile(&mut artwork).is_empty());
}

#[test]
fn native_backends_start_and_reconcile_nothing() {
    let mut artwork = ArtworkState::default();
    for mut backend in [ArtworkBackend::halfblocks(), ArtworkBackend::disabled()] {
        assert!(backend.start_external().is_empty());
        assert!(backend.reconcile(&mut artwork).is_empty());
        backend.synchronize_state(&mut artwork);
        assert_eq!(artwork.backend, backend.kind());
    }
}

#[test]
fn disposing_a_backend_detaches_and_cleans_up() {
    let mut backend = ArtworkBackend::ueberzug_candidate();
    let mut artwork = ArtworkState::default();
    let actions = backend.start_external();
    run_starts(&mut backend, &mut artwork, actions, true, false);
    assert!(matches!(
        backend.renderer,
        ArtworkRenderer::External { attached: true, .. }
    ));
    assert!(matches!(backend.dispose().as_slice(), [LayerAction::CleanUp]));
    assert!(matches!(
        backend.renderer,
        ArtworkRenderer::External { attached: false, .. }
    ));
}

#[test]
fn teardown_hands_out_replaced_processes_and_is_idempotent() {
    let mut teardown = ArtworkTeardown::new();
    assert_eq!(teardown.register_process("first"), None);
    assert_eq!(teardown.register_process("second"), Some("first"));
    assert_eq!(teardown.cleanup(), Some("second"));
    assert_eq!(teardown.cleanup(), None);
}
