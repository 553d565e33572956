//! Choice of a renderer and its lifecycle.
//!
//! Three renderers can follow one another: what the terminal offers, an
//! external process, and half blocks. External processes are started, asked and
//! ended by the caller, who does what the actions of a step say, in order, and
//! reports how it went.
use crate::artwork::backend_kind::ArtworkBackendKind;
use crate::artwork::load;
use crate::artwork::load::ArtworkLoader;
use crate::artwork::state;
use crate::artwork::state::ArtworkState;
use crate::artwork::terminal;
use crate::config::AlbumArtMode;
use crate::path::FilePath;
use ratatui_image::picker::Picker;
use vstd::prelude::*;

verus! {

/// The one external process that has to be ended when the application ends,
/// however it ends.
pub struct ArtworkTeardown<P> {
    pub active: Option<P>,
}

impl<P> ArtworkTeardown<P> {
    /// Nothing to end yet.
    pub fn new() -> (teardown: Self)
        ensures
            teardown.active is None,
    {
        ArtworkTeardown { active: None }
    }

    /// Note the process that is to be ended later. The answer is the one that
    /// was noted before and has to be ended now.
    pub fn register_process(&mut self, process: P) -> (previous: Option<P>)
        ensures
            final(self).active == Some(process),
            previous == old(self).active,
    {
        let previous = self.active.take();
        self.active = Some(process);
        previous
    }

    /// Hand out the process that has to be ended, once.
    pub fn cleanup(&mut self) -> (process: Option<P>)
        ensures
            final(self).active is None,
            process == old(self).active,
    {
        self.active.take()
    }
}

/// Renderer of the session.
#[derive(Debug, Clone, Copy, PartialEq, Eq, Structural)]
pub enum ArtworkRenderer {
    Disabled,
    Native(ArtworkBackendKind),
    External {
        kind: ArtworkBackendKind,
        /// Whether the caller holds a layer that it was told to keep.
        attached: bool,
    },
}

/// What the backend waits for.
#[derive(Debug, Clone, Copy, PartialEq, Eq, Structural)]
pub enum BackendStage {
    /// Nothing.
    Idle,
    /// `ueberzugpp` is being started.
    StartingUeberzugpp,
    /// Original `ueberzug` is being started.
    StartingUeberzug,
    /// The layer is being asked to show an image.
    Reconciling,
    /// Original `ueberzug` is being started in place of a failed layer.
    Replacing,
    /// The replacement is being asked to show an image.
    ReconcilingReplacement,
}

/// Something that the caller has to do.
pub enum LayerAction {
    /// Start `ueberzugpp` and report whether it runs.
    SpawnUeberzugpp,
    /// Start original `ueberzug` and report whether it runs.
    SpawnUeberzug,
    /// Note the process of the layer that was started for the teardown.
    Register,
    /// Make the desired image known to the layer and report its health.
    Reconcile,
    /// Clean up the layer, if there is one, and run the teardown.
    CleanUp,
    /// Remove a file.
    Remove(FilePath),
}

/// Renderer selection with its loader.
pub struct ArtworkBackend {
    pub renderer: ArtworkRenderer,
    pub loader: Option<ArtworkLoader>,
    pub stage: BackendStage,
}

/// Kind of a renderer.
pub open spec fn kind_of(renderer: ArtworkRenderer) -> ArtworkBackendKind {
    match renderer {
        ArtworkRenderer::Disabled => ArtworkBackendKind::Disabled,
        ArtworkRenderer::Native(kind) => kind,
        ArtworkRenderer::External { kind, .. } => kind,
    }
}

/// A renderer with another kind.
pub open spec fn with_kind(renderer: ArtworkRenderer, kind: ArtworkBackendKind) -> ArtworkRenderer {
    match renderer {
        ArtworkRenderer::External { attached, .. } => ArtworkRenderer::External { kind, attached },
        _ => if kind is Disabled {
            ArtworkRenderer::Disabled
        } else {
            ArtworkRenderer::Native(kind)
        },
    }
}

/// A renderer without a layer.
pub open spec fn detached(renderer: ArtworkRenderer) -> ArtworkRenderer {
    match renderer {
        ArtworkRenderer::External { kind, .. } => ArtworkRenderer::External {
            kind,
            attached: false,
        },
        other => other,
    }
}

/// Actions that clean up and remove a file, if there is one.
pub open spec fn cleaning_up(removed: Option<FilePath>) -> Seq<LayerAction> {
    match removed {
        Some(file) => seq![LayerAction::CleanUp, LayerAction::Remove(file)],
        None => seq![LayerAction::CleanUp],
    }
}

/// Backend, artwork and actions.
pub ghost struct BackendOutcome {
    pub renderer: ArtworkRenderer,
    pub stage: BackendStage,
    pub artwork: ArtworkState,
    pub actions: Seq<LayerAction>,
}

/// Outcome of giving up external renderers in favour of half blocks.
pub open spec fn fallen_back(renderer: ArtworkRenderer, artwork: ArtworkState) -> BackendOutcome {
    BackendOutcome {
        renderer: with_kind(detached(renderer), ArtworkBackendKind::Halfblocks),
        stage: BackendStage::Idle,
        artwork: state::in_halfblocks(
            ArtworkState { backend: ArtworkBackendKind::Halfblocks, ..artwork },
        ),
        actions: cleaning_up(state::file_to_remove(artwork.external_source)),
    }
}

/// Outcome of a start that was reported.
pub open spec fn after_start(b: ArtworkBackend, started: bool, artwork: ArtworkState) -> BackendOutcome {
    match b.stage {
        BackendStage::StartingUeberzugpp => if started {
            BackendOutcome {
                renderer: ArtworkRenderer::External {
                    kind: ArtworkBackendKind::Ueberzugpp,
                    attached: true,
                },
                stage: BackendStage::Idle,
                artwork: ArtworkState { backend: ArtworkBackendKind::Ueberzugpp, ..artwork },
                actions: seq![LayerAction::Register],
            }
        } else {
            BackendOutcome {
                renderer: b.renderer,
                stage: BackendStage::StartingUeberzug,
                artwork,
                actions: seq![LayerAction::SpawnUeberzug],
            }
        },
        BackendStage::StartingUeberzug => if started {
            BackendOutcome {
                renderer: ArtworkRenderer::External {
                    kind: ArtworkBackendKind::Ueberzug,
                    attached: true,
                },
                stage: BackendStage::Idle,
                artwork: ArtworkState { backend: ArtworkBackendKind::Ueberzug, ..artwork },
                actions: seq![LayerAction::Register],
            }
        } else {
            fallen_back(b.renderer, artwork)
        },
        BackendStage::Replacing => if started {
            BackendOutcome {
                renderer: with_kind(b.renderer, ArtworkBackendKind::Ueberzug),
                stage: BackendStage::ReconcilingReplacement,
                artwork: ArtworkState { backend: ArtworkBackendKind::Ueberzug, ..artwork },
                actions: seq![LayerAction::Register, LayerAction::Reconcile],
            }
        } else {
            fallen_back(b.renderer, artwork)
        },
        _ => BackendOutcome {
            renderer: b.renderer,
            stage: b.stage,
            artwork,
            actions: Seq::empty(),
        },
    }
}

/// Outcome of a layer that failed.
pub open spec fn after_failure(renderer: ArtworkRenderer, artwork: ArtworkState) -> BackendOutcome {
    if kind_of(renderer) is Ueberzugpp {
        BackendOutcome {
            renderer: detached(renderer),
            stage: BackendStage::Replacing,
            artwork,
            actions: seq![LayerAction::CleanUp, LayerAction::SpawnUeberzug],
        }
    } else {
        fallen_back(renderer, artwork)
    }
}

/// Outcome of a health that was reported.
pub open spec fn after_health(b: ArtworkBackend, healthy: bool, artwork: ArtworkState) -> BackendOutcome {
    match b.stage {
        BackendStage::Reconciling => if healthy {
            BackendOutcome {
                renderer: b.renderer,
                stage: BackendStage::Idle,
                artwork,
                actions: Seq::empty(),
            }
        } else {
            after_failure(b.renderer, artwork)
        },
        BackendStage::ReconcilingReplacement => if healthy {
            BackendOutcome {
                renderer: ArtworkRenderer::External {
                    kind: ArtworkBackendKind::Ueberzug,
                    attached: true,
                },
                stage: BackendStage::Idle,
                artwork,
                actions: Seq::empty(),
            }
        } else {
            fallen_back(b.renderer, artwork)
        },
        _ => BackendOutcome {
            renderer: b.renderer,
            stage: b.stage,
            artwork,
            actions: Seq::empty(),
        },
    }
}

/// Outcome of a frame: the layer is asked to show the desired image.
pub open spec fn after_frame(b: ArtworkBackend, artwork: ArtworkState) -> BackendOutcome {
    if !kind_of(b.renderer).is_external() {
        BackendOutcome {
            renderer: b.renderer,
            stage: b.stage,
            artwork,
            actions: Seq::empty(),
        }
    } else if b.renderer == (ArtworkRenderer::External {
        kind: kind_of(b.renderer),
        attached: true,
    }) {
        BackendOutcome {
            renderer: b.renderer,
            stage: BackendStage::Reconciling,
            artwork,
            actions: seq![LayerAction::Reconcile],
        }
    } else {
        after_failure(b.renderer, artwork)
    }
}

/// Whether a backend, its artwork and its actions are an outcome.
pub open spec fn comes_out(
    before: ArtworkBackend,
    after: ArtworkBackend,
    artwork: ArtworkState,
    actions: Seq<LayerAction>,
    outcome: BackendOutcome,
) -> bool {
    &&& after.renderer == outcome.renderer
    &&& after.stage == outcome.stage
    &&& after.loader == before.loader
    &&& artwork == outcome.artwork
    &&& actions == outcome.actions
}

/// Renderer for a configured mode and what was found out about the terminal.
pub open spec fn selected_renderer(mode: AlbumArtMode, picker: Option<Picker>) -> ArtworkRenderer {
    let graphics = picker matches Some(p) && !terminal::picker_contents(p).halfblocks;
    match mode {
        AlbumArtMode::Off => ArtworkRenderer::Disabled,
        AlbumArtMode::Unicode => ArtworkRenderer::Native(ArtworkBackendKind::Halfblocks),
        AlbumArtMode::Image => if graphics {
            ArtworkRenderer::Native(ArtworkBackendKind::RatatuiImage)
        } else {
            ArtworkRenderer::Disabled
        },
        AlbumArtMode::Auto => if graphics {
            ArtworkRenderer::Native(ArtworkBackendKind::RatatuiImage)
        } else {
            ArtworkRenderer::External { kind: ArtworkBackendKind::Ueberzugpp, attached: false }
        },
    }
}

/// Whether a loader belongs to a configured mode and what was found out about
/// the terminal.
pub open spec fn selects_loader(
    mode: AlbumArtMode,
    picker: Option<Picker>,
    loader: Option<ArtworkLoader>,
) -> bool {
    let graphics = picker matches Some(p) && !terminal::picker_contents(p).halfblocks;
    let blocks = load::halfblocks_contents();
    match mode {
        AlbumArtMode::Off => loader is None,
        AlbumArtMode::Unicode => {
            &&& loader matches Some(l)
            &&& l.backend is Halfblocks
            &&& !l.external_fallback
            &&& terminal::picker_contents(l.picker) == blocks
        },
        AlbumArtMode::Image => if graphics {
            loader == Some(
                ArtworkLoader {
                    picker: picker->0,
                    backend: ArtworkBackendKind::RatatuiImage,
                    external_fallback: false,
                },
            )
        } else {
            loader is None
        },
        AlbumArtMode::Auto => if graphics {
            loader == Some(
                ArtworkLoader {
                    picker: picker->0,
                    backend: ArtworkBackendKind::RatatuiImage,
                    external_fallback: true,
                },
            )
        } else {
            &&& loader matches Some(l)
            &&& l.backend is Ueberzugpp
            &&& !l.external_fallback
            &&& terminal::picker_contents(l.picker) == blocks
        },
    }
}

impl ArtworkBackend {
    /// Select a renderer for a configured mode and what was found out about the
    /// terminal.
    ///
    /// `Auto` prefers the terminal's own graphics, then an external process,
    /// and keeps half blocks as the safety net of both.
    pub fn from_detected_picker(mode: AlbumArtMode, picker: Option<Picker>) -> (backend: Self)
        ensures
            backend.renderer == selected_renderer(mode, picker),
            selects_loader(mode, picker, backend.loader),
            backend.stage is Idle,
    {
        match mode {
            AlbumArtMode::Off => Self::disabled(),
            AlbumArtMode::Unicode => Self::halfblocks(),
            AlbumArtMode::Image => match picker {
                Some(found) => if terminal::draws_halfblocks(&found) {
                    Self::disabled()
                } else {
                    Self::native(found)
                },
                None => Self::disabled(),
            },
            AlbumArtMode::Auto => match picker {
                Some(found) => if terminal::draws_halfblocks(&found) {
                    Self::ueberzug_candidate()
                } else {
                    Self::native_with_fallback(found)
                },
                None => Self::ueberzug_candidate(),
            },
        }
    }

    /// Selected renderer.
    pub fn kind(&self) -> (kind: ArtworkBackendKind)
        ensures
            kind == kind_of(self.renderer),
    {
        match self.renderer {
            ArtworkRenderer::Disabled => ArtworkBackendKind::Disabled,
            ArtworkRenderer::Native(kind) => kind,
            ArtworkRenderer::External { kind, .. } => kind,
        }
    }

    /// Loader for background loads, if artwork is shown at all.
    pub fn loader(&self) -> (loader: Option<&ArtworkLoader>)
        ensures
            loader is Some == self.loader is Some,
            loader matches Some(l) ==> *l == self.loader->0,
    {
        match &self.loader {
            Some(l) => Some(l),
            None => None,
        }
    }

    /// Tell the artwork state which renderer is selected.
    pub fn synchronize_state(&self, artwork: &mut ArtworkState)
        ensures
            *final(artwork) == (ArtworkState { backend: kind_of(self.renderer), ..*old(artwork) }),
    {
        artwork.set_backend(self.kind());
    }

    /// Draw with what the picker selected.
    pub fn native(picker: Picker) -> (backend: Self)
        ensures
            backend == (ArtworkBackend {
                renderer: ArtworkRenderer::Native(ArtworkBackendKind::RatatuiImage),
                loader: Some(
                    ArtworkLoader {
                        picker,
                        backend: ArtworkBackendKind::RatatuiImage,
                        external_fallback: false,
                    },
                ),
                stage: BackendStage::Idle,
            }),
    {
        ArtworkBackend {
            renderer: ArtworkRenderer::Native(ArtworkBackendKind::RatatuiImage),
            loader: Some(ArtworkLoader::new(picker)),
            stage: BackendStage::Idle,
        }
    }

    /// Draw with what the picker selected, ready to cross over to an external
    /// process.
    pub fn native_with_fallback(picker: Picker) -> (backend: Self)
        ensures
            backend == (ArtworkBackend {
                renderer: ArtworkRenderer::Native(ArtworkBackendKind::RatatuiImage),
                loader: Some(
                    ArtworkLoader {
                        picker,
                        backend: ArtworkBackendKind::RatatuiImage,
                        external_fallback: true,
                    },
                ),
                stage: BackendStage::Idle,
            }),
    {
        ArtworkBackend {
            renderer: ArtworkRenderer::Native(ArtworkBackendKind::RatatuiImage),
            loader: Some(ArtworkLoader::with_native_fallback(picker)),
            stage: BackendStage::Idle,
        }
    }

    /// Draw with half blocks.
    pub fn halfblocks() -> (backend: Self)
        ensures
            backend.renderer == ArtworkRenderer::Native(ArtworkBackendKind::Halfblocks),
            selects_loader(AlbumArtMode::Unicode, None, backend.loader),
            backend.stage is Idle,
    {
        ArtworkBackend {
            renderer: ArtworkRenderer::Native(ArtworkBackendKind::Halfblocks),
            loader: Some(ArtworkLoader::halfblocks()),
            stage: BackendStage::Idle,
        }
    }

    /// Draw with an external process, once it runs.
    pub fn ueberzug_candidate() -> (backend: Self)
        ensures
            backend.renderer == (ArtworkRenderer::External {
                kind: ArtworkBackendKind::Ueberzugpp,
                attached: false,
            }),
            selects_loader(AlbumArtMode::Auto, None, backend.loader),
            backend.stage is Idle,
    {
        ArtworkBackend {
            renderer: ArtworkRenderer::External {
                kind: ArtworkBackendKind::Ueberzugpp,
                attached: false,
            },
            loader: Some(
                ArtworkLoader::with_backend(
                    terminal::halfblocks_picker(),
                    ArtworkBackendKind::Ueberzugpp,
                ),
            ),
            stage: BackendStage::Idle,
        }
    }

    /// Draw nothing.
    pub fn disabled() -> (backend: Self)
        ensures
            backend == (ArtworkBackend {
                renderer: ArtworkRenderer::Disabled,
                loader: None,
                stage: BackendStage::Idle,
            }),
    {
        ArtworkBackend {
            renderer: ArtworkRenderer::Disabled,
            loader: None,
            stage: BackendStage::Idle,
        }
    }

    fn set_kind(&mut self, kind: ArtworkBackendKind)
        ensures
            *final(self) == (ArtworkBackend {
                renderer: with_kind(old(self).renderer, kind),
                ..*old(self)
            }),
    {
        self.renderer = match self.renderer {
            ArtworkRenderer::External { attached, .. } => ArtworkRenderer::External {
                kind,
                attached,
            },
            _ => match kind {
                ArtworkBackendKind::Disabled => ArtworkRenderer::Disabled,
                _ => ArtworkRenderer::Native(kind),
            },
        };
    }

    fn detach(&mut self)
        ensures
            *final(self) == (ArtworkBackend {
                renderer: detached(old(self).renderer),
                ..*old(self)
            }),
    {
        match self.renderer {
            ArtworkRenderer::External { kind, .. } => {
                self.renderer = ArtworkRenderer::External { kind, attached: false };
            },
            _ => {},
        }
    }

    fn fallback_to_halfblocks(&mut self, artwork: &mut ArtworkState) -> (actions: Vec<LayerAction>)
        ensures
            comes_out(
                *old(self),
                *final(self),
                *final(artwork),
                actions@,
                fallen_back(old(self).renderer, *old(artwork)),
            ),
    {
        self.detach();
        self.set_kind(ArtworkBackendKind::Halfblocks);
        self.stage = BackendStage::Idle;
        artwork.set_backend(ArtworkBackendKind::Halfblocks);
        let removed = artwork.switch_to_halfblocks();
        let mut actions: Vec<LayerAction> = Vec::new();
        actions.push(LayerAction::CleanUp);
        match removed {
            Some(file) => {
                actions.push(LayerAction::Remove(file));
            },
            None => {},
        }
        assert(actions@ =~= cleaning_up(state::file_to_remove(old(artwork).external_source)));
        actions
    }

    /// Start the preferred external process, if one is preferred.
    pub fn start_external(&mut self) -> (actions: Vec<LayerAction>)
        ensures
            kind_of(old(self).renderer) is Ueberzugpp ==> *final(self) == (ArtworkBackend {
                stage: BackendStage::StartingUeberzugpp,
                ..*old(self)
            }) && actions@ == seq![LayerAction::SpawnUeberzugpp],
            !(kind_of(old(self).renderer) is Ueberzugpp) ==> *final(self) == *old(self)
                && actions@.len() == 0,
    {
        let preferred = match self.kind() {
            ArtworkBackendKind::Ueberzugpp => true,
            _ => false,
        };
        let mut actions: Vec<LayerAction> = Vec::new();
        if preferred {
            self.stage = BackendStage::StartingUeberzugpp;
            actions.push(LayerAction::SpawnUeberzugpp);
            assert(actions@ =~= seq![LayerAction::SpawnUeberzugpp]);
        }
        actions
    }

    /// Report that drawing natively failed. A backend that keeps an external
    /// fallback starts it; every other one stays as it is.
    pub fn report_native_failure(&mut self, artwork: &mut ArtworkState) -> (actions: Vec<
        LayerAction,
    >)
        ensures
            ({
                let crosses = kind_of(old(self).renderer) is RatatuiImage && (
                old(self).loader matches Some(l) && l.external_fallback);
                &&& crosses ==> {
                    &&& *final(self) == (ArtworkBackend {
                        renderer: with_kind(old(self).renderer, ArtworkBackendKind::Ueberzugpp),
                        stage: BackendStage::StartingUeberzugpp,
                        ..*old(self)
                    })
                    &&& *final(artwork) == (ArtworkState {
                        backend: ArtworkBackendKind::Ueberzugpp,
                        ..*old(artwork)
                    })
                    &&& actions@ == seq![LayerAction::SpawnUeberzugpp]
                }
                &&& !crosses ==> *final(self) == *old(self) && *final(artwork) == *old(artwork)
                    && actions@.len() == 0
            }),
    {
        let native = match self.kind() {
            ArtworkBackendKind::RatatuiImage => true,
            _ => false,
        };
        let fallback = match &self.loader {
            Some(l) => l.supports_native_fallback(),
            None => false,
        };
        if !native || !fallback {
            return Vec::new();
        }
        self.set_kind(ArtworkBackendKind::Ueberzugpp);
        artwork.set_backend(ArtworkBackendKind::Ueberzugpp);
        self.start_external()
    }

    /// Report whether an external process was started. `ueberzugpp` comes before
    /// original `ueberzug`, and half blocks are the last resort.
    pub fn layer_started(&mut self, started: bool, artwork: &mut ArtworkState) -> (actions: Vec<
        LayerAction,
    >)
        ensures
            comes_out(
                *old(self),
                *final(self),
                *final(artwork),
                actions@,
                after_start(*old(self), started, *old(artwork)),
            ),
    {
        let mut actions: Vec<LayerAction> = Vec::new();
        match self.stage {
            BackendStage::StartingUeberzugpp => {
                if started {
                    self.renderer = ArtworkRenderer::External {
                        kind: ArtworkBackendKind::Ueberzugpp,
                        attached: true,
                    };
                    self.stage = BackendStage::Idle;
                    artwork.set_backend(ArtworkBackendKind::Ueberzugpp);
                    actions.push(LayerAction::Register);
                    assert(actions@ =~= seq![LayerAction::Register]);
                } else {
                    self.stage = BackendStage::StartingUeberzug;
                    actions.push(LayerAction::SpawnUeberzug);
                    assert(actions@ =~= seq![LayerAction::SpawnUeberzug]);
                }
                actions
            },
            BackendStage::StartingUeberzug => {
                if started {
                    self.renderer = ArtworkRenderer::External {
                        kind: ArtworkBackendKind::Ueberzug,
                        attached: true,
                    };
                    self.stage = BackendStage::Idle;
                    artwork.set_backend(ArtworkBackendKind::Ueberzug);
                    actions.push(LayerAction::Register);
                    assert(actions@ =~= seq![LayerAction::Register]);
                    actions
                } else {
                    self.fallback_to_halfblocks(artwork)
                }
            },
            BackendStage::Replacing => {
                if started {
                    self.set_kind(ArtworkBackendKind::Ueberzug);
                    self.stage = BackendStage::ReconcilingReplacement;
                    artwork.set_backend(ArtworkBackendKind::Ueberzug);
                    actions.push(LayerAction::Register);
                    actions.push(LayerAction::Reconcile);
                    assert(actions@ =~= seq![LayerAction::Register, LayerAction::Reconcile]);
                    actions
                } else {
                    self.fallback_to_halfblocks(artwork)
                }
            },
            _ => actions,
        }
    }

    fn layer_failed(&mut self, artwork: &mut ArtworkState) -> (actions: Vec<LayerAction>)
        ensures
            comes_out(
                *old(self),
                *final(self),
                *final(artwork),
                actions@,
                after_failure(old(self).renderer, *old(artwork)),
            ),
    {
        let replaceable = match self.kind() {
            ArtworkBackendKind::Ueberzugpp => true,
            _ => false,
        };
        if replaceable {
            self.detach();
            self.stage = BackendStage::Replacing;
            let mut actions: Vec<LayerAction> = Vec::new();
            actions.push(LayerAction::CleanUp);
            actions.push(LayerAction::SpawnUeberzug);
            assert(actions@ =~= seq![LayerAction::CleanUp, LayerAction::SpawnUeberzug]);
            actions
        } else {
            self.fallback_to_halfblocks(artwork)
        }
    }

    /// Ask the external layer, after a frame was drawn, to show the desired
    /// image. Native renderers ignore this.
    pub fn reconcile(&mut self, artwork: &mut ArtworkState) -> (actions: Vec<LayerAction>)
        ensures
            comes_out(
                *old(self),
                *final(self),
                *final(artwork),
                actions@,
                after_frame(*old(self), *old(artwork)),
            ),
    {
        if !self.kind().uses_external_layer() {
            return Vec::new();
        }
        match self.renderer {
            ArtworkRenderer::External { attached: true, .. } => {
                self.stage = BackendStage::Reconciling;
                let mut actions: Vec<LayerAction> = Vec::new();
                actions.push(LayerAction::Reconcile);
                assert(actions@ =~= seq![LayerAction::Reconcile]);
                actions
            },
            _ => self.layer_failed(artwork),
        }
    }

    /// Report the health of the layer that was asked. A failed `ueberzugpp` is
    /// replaced by original `ueberzug`; any other failure ends in half blocks.
    pub fn layer_reported(&mut self, healthy: bool, artwork: &mut ArtworkState) -> (actions: Vec<
        LayerAction,
    >)
        ensures
            comes_out(
                *old(self),
                *final(self),
                *final(artwork),
                actions@,
                after_health(*old(self), healthy, *old(artwork)),
            ),
    {
        match self.stage {
            BackendStage::Reconciling => {
                if healthy {
                    self.stage = BackendStage::Idle;
                    Vec::new()
                } else {
                    self.layer_failed(artwork)
                }
            },
            BackendStage::ReconcilingReplacement => {
                if healthy {
                    self.renderer = ArtworkRenderer::External {
                        kind: ArtworkBackendKind::Ueberzug,
                        attached: true,
                    };
                    self.stage = BackendStage::Idle;
                    Vec::new()
                } else {
                    self.fallback_to_halfblocks(artwork)
                }
            },
            _ => Vec::new(),
        }
    }

    /// End the session: the layer, if there is one, is cleaned up.
    pub fn dispose(&mut self) -> (actions: Vec<LayerAction>)
        ensures
            *final(self) == (ArtworkBackend {
                renderer: detached(old(self).renderer),
                ..*old(self)
            }),
            actions@ == seq![LayerAction::CleanUp],
    {
        self.detach();
        let mut actions: Vec<LayerAction> = Vec::new();
        actions.push(LayerAction::CleanUp);
        assert(actions@ =~= seq![LayerAction::CleanUp]);
        actions
    }
}

/// The artwork state is always told which renderer an outcome selects.
pub proof fn law_artwork_follows_the_renderer(
    b: ArtworkBackend,
    started: bool,
    healthy: bool,
    artwork: ArtworkState,
)
    requires
        artwork.backend == kind_of(b.renderer),
        b.stage is ReconcilingReplacement ==> kind_of(b.renderer) is Ueberzug,
    ensures
        after_start(b, started, artwork).artwork.backend == kind_of(
            after_start(b, started, artwork).renderer,
        ),
        after_health(b, healthy, artwork).artwork.backend == kind_of(
            after_health(b, healthy, artwork).renderer,
        ),
        after_frame(b, artwork).artwork.backend == kind_of(after_frame(b, artwork).renderer),
{
}

/// When neither external process starts, half blocks draw, nothing external is
/// left, and a cover with a prepared fallback stays.
pub proof fn law_failed_starts_end_in_halfblocks(b: ArtworkBackend, artwork: ArtworkState)
    requires
        b.stage is StartingUeberzug || b.stage is Replacing,
    ensures
        ({
            let outcome = after_start(b, false, artwork);
            &&& kind_of(outcome.renderer) is Halfblocks
            &&& outcome.artwork.backend is Halfblocks
            &&& outcome.artwork.external_source is None
            &&& outcome.stage is Idle
            &&& artwork.protocol is Some && artwork.fallback_protocol is Some
                ==> state::shows_artwork(outcome.artwork)
        }),
{
}

/// A replacement is noted for the teardown before it is asked for anything.
pub proof fn law_replacement_is_registered_first(b: ArtworkBackend, artwork: ArtworkState)
    requires
        b.stage is Replacing,
    ensures
        after_start(b, true, artwork).actions == seq![LayerAction::Register, LayerAction::Reconcile],
{
}

/// A failed `ueberzugpp` is replaced by original `ueberzug` without touching
/// the artwork; a failed replacement ends in half blocks.
pub proof fn law_failures_move_down_the_chain(b: ArtworkBackend, artwork: ArtworkState)
    requires
        b.stage is Reconciling,
        kind_of(b.renderer).is_external(),
    ensures
        kind_of(b.renderer) is Ueberzugpp ==> {
            let replaced = after_health(b, false, artwork);
            &&& replaced.stage is Replacing
            &&& replaced.artwork == artwork
            &&& replaced.actions == seq![LayerAction::CleanUp, LayerAction::SpawnUeberzug]
        },
        kind_of(b.renderer) is Ueberzug ==> kind_of(
            after_health(b, false, artwork).renderer,
        ) is Halfblocks,
        after_health(b, true, artwork).artwork == artwork,
{
}

/// Half blocks are final: no later frame asks for an external process.
pub proof fn law_halfblocks_are_final(b: ArtworkBackend, artwork: ArtworkState)
    requires
        kind_of(b.renderer) is Halfblocks,
    ensures
        after_frame(b, artwork) == (BackendOutcome {
            renderer: b.renderer,
            stage: b.stage,
            artwork,
            actions: Seq::empty(),
        }),
{
}

} // verus!
