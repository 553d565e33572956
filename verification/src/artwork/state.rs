//! Artwork state of the interface: the cover of one track and how it is shown.
use crate::artwork::backend_kind::ArtworkBackendKind;
use crate::artwork::images;
use crate::artwork::protocol;
use crate::artwork::protocol::{
    ArtworkThreadProtocol, ResizeOutcome, ResizeRequest, ResizeResponse, Submission,
};
use crate::artwork::terminal;
use crate::artwork::terminal::Fitting;
use crate::geometry::{FontSize, Size};
use crate::path;
use crate::path::FilePath;
use crate::text;
use ratatui_image::protocol::StatefulProtocol;
use vstd::prelude::*;

verus! {

/// Lifecycle policy of a path that an external renderer draws from.
///
/// A content-addressed file is a shared cache entry and no private property of
/// one [`ArtworkState`], so replacing or dropping a state leaves it alone.
#[derive(Debug, Clone, Copy, PartialEq, Eq, Structural)]
pub enum ArtworkPathPolicy {
    /// An existing cover that belongs to the user or to somebody else.
    Borrowed,
    /// A content-addressed file shared by concurrent states.
    SharedContentAddressedCache,
    /// A file made for one session, to be removed with it.
    PrivateSessionOwned,
}

impl ArtworkPathPolicy {
    /// File to remove when a state lets go of a path.
    pub fn cleanup(self, path: FilePath) -> (removed: Option<FilePath>)
        ensures
            removed == if self is PrivateSessionOwned {
                Some(path)
            } else {
                None
            },
    {
        match self {
            ArtworkPathPolicy::PrivateSessionOwned => Some(path),
            _ => None,
        }
    }
}

/// A path with the policy that governs its lifecycle.
#[derive(Debug)]
pub struct MaterializedArtwork {
    pub path: FilePath,
    pub policy: ArtworkPathPolicy,
}

/// File to remove when a state lets go of a source.
pub open spec fn file_to_remove(source: Option<MaterializedArtwork>) -> Option<FilePath> {
    match source {
        Some(artwork) if artwork.policy is PrivateSessionOwned => Some(artwork.path),
        _ => None,
    }
}

/// A cover on its way to the interface.
pub struct ArtworkProtocol {
    pub protocol: ArtworkThreadProtocol,
    pub fallback_protocol: Option<StatefulProtocol>,
    pub external_source: Option<MaterializedArtwork>,
    pub fallback_resize_target: Option<Size>,
}

impl ArtworkProtocol {
    /// Wrap a fresh protocol that is never requested beyond `resize_target`.
    pub fn with_target(protocol: StatefulProtocol, resize_target: Size) -> (wrapped: Self)
        ensures
            wrapped == (ArtworkProtocol {
                protocol: ArtworkThreadProtocol {
                    inner: Some(protocol),
                    generation: 0,
                    pending: None,
                    last_encoded_target: None,
                    resize_target,
                    worker_failed: false,
                },
                fallback_protocol: None,
                external_source: None,
                fallback_resize_target: None,
            }),
    {
        ArtworkProtocol {
            protocol: ArtworkThreadProtocol::new(protocol, resize_target),
            fallback_protocol: None,
            external_source: None,
            fallback_resize_target: None,
        }
    }

    /// Wrap a fresh half-block protocol.
    pub fn new(protocol: StatefulProtocol) -> (wrapped: Self)
        ensures
            wrapped == (ArtworkProtocol {
                protocol: ArtworkThreadProtocol {
                    inner: Some(protocol),
                    generation: 0,
                    pending: None,
                    last_encoded_target: None,
                    resize_target: protocol::area_within(
                        protocol::MAX_RESIZE_PIXELS,
                        FontSize { width: 10, height: 20 },
                    ),
                    worker_failed: false,
                },
                fallback_protocol: None,
                external_source: None,
                fallback_resize_target: None,
            }),
    {
        Self::with_target(protocol, halfblocks_target())
    }

    /// Whether both protocols can be encoded for every bounded target.
    pub open spec fn wf(self) -> bool {
        &&& self.protocol.wf()
        &&& fallback_fits(self.fallback_protocol, self.fallback_resize_target)
    }
}

/// Largest target of a half-block protocol.
pub open spec fn halfblocks_limit() -> Size {
    protocol::area_within(protocol::MAX_RESIZE_PIXELS, FontSize { width: 10, height: 20 })
}

/// Largest target of a half-block protocol.
pub fn halfblocks_target() -> (target: Size)
    ensures
        target == halfblocks_limit(),
{
    protocol::resize_target_for_font(terminal::font_size(&terminal::halfblocks_picker()))
}

/// Whether a prepared fallback can be encoded for every bounded target.
pub open spec fn fallback_fits(fallback: Option<StatefulProtocol>, limit: Option<Size>) -> bool {
    fallback matches Some(p) ==> protocol::fits(
        terminal::protocol_contents(p).font,
        match limit {
            Some(size) => size,
            None => halfblocks_limit(),
        },
    )
}

/// Progress of the last resize.
#[derive(Debug, Clone, Copy, PartialEq, Eq, Structural)]
pub enum ResizeLifecycle {
    Ready,
    Submitted { generation: u64, target: Size },
    Failed,
}

/// Artwork of the track on display.
pub struct ArtworkState {
    pub protocol: Option<ArtworkThreadProtocol>,
    pub track_index: Option<usize>,
    pub backend: ArtworkBackendKind,
    pub enabled: bool,
    pub visible: bool,
    pub playlist_target: Size,
    pub external_source: Option<MaterializedArtwork>,
    pub fallback_protocol: Option<StatefulProtocol>,
    pub fallback_resize_target: Option<Size>,
    pub native_render_failed: bool,
    pub resize_state: ResizeLifecycle,
}

/// State of an interface that has no cover and draws none.
pub open spec fn initial_state() -> ArtworkState {
    ArtworkState {
        protocol: None,
        track_index: None,
        backend: ArtworkBackendKind::Disabled,
        enabled: false,
        visible: true,
        playlist_target: protocol::whole_area(
            protocol::PLAYLIST_ARTWORK_MAX_PIXELS,
            FontSize { width: 10, height: 20 },
        ),
        external_source: None,
        fallback_protocol: None,
        fallback_resize_target: None,
        native_render_failed: false,
        resize_state: ResizeLifecycle::Ready,
    }
}

/// Whether there is something to draw.
pub open spec fn shows_artwork(s: ArtworkState) -> bool {
    ||| s.protocol matches Some(p) && p.inner is Some
    ||| s.fallback_protocol is Some
    ||| s.external_source is Some
}

/// Cells that a protocol covers inside an area.
pub open spec fn scaled_cells(p: StatefulProtocol, area: Size) -> Size {
    let contents = terminal::protocol_contents(p);
    terminal::fitted_cells(
        images::extent_of(contents.picture),
        contents.font,
        Fitting::Scale,
        area,
    )
}

/// Cells that the artwork covers inside an area: those of the protocol at hand,
/// else those of the fallback, else the whole area for an external source.
pub open spec fn artwork_cells(s: ArtworkState, area: Size) -> Option<Size> {
    if s.protocol matches Some(p) && p.inner is Some {
        Some(scaled_cells(s.protocol->0.inner->0, area))
    } else if s.fallback_protocol is Some {
        Some(scaled_cells(s.fallback_protocol->0, area))
    } else if s.external_source is Some {
        Some(area)
    } else {
        None
    }
}

/// State after the cover of a track arrived, or after it turned out that there
/// is none.
pub open spec fn with_artwork(
    s: ArtworkState,
    track_index: usize,
    cover: Option<ArtworkProtocol>,
) -> ArtworkState {
    ArtworkState {
        protocol: match cover {
            Some(c) => Some(c.protocol),
            None => None,
        },
        track_index: Some(track_index),
        external_source: match cover {
            Some(c) => c.external_source,
            None => None,
        },
        fallback_protocol: match cover {
            Some(c) => c.fallback_protocol,
            None => None,
        },
        fallback_resize_target: match cover {
            Some(c) => c.fallback_resize_target,
            None => None,
        },
        native_render_failed: false,
        resize_state: ResizeLifecycle::Ready,
        ..s
    }
}

/// Whether a new cover draws from the path that the state already draws from.
pub open spec fn keeps_source(s: ArtworkState, cover: Option<ArtworkProtocol>) -> bool {
    &&& s.external_source matches Some(previous)
    &&& cover matches Some(c)
    &&& c.external_source matches Some(next)
    &&& path::same_location(previous.path@, next.path@)
}

/// State after one completion of the worker.
pub open spec fn after_completion(s: ArtworkState, response: ResizeResponse) -> ArtworkState {
    match s.protocol {
        None => s,
        Some(p) => {
            let next = Some(protocol::after_response(p, response));
            match protocol::outcome_of(p, response) {
                ResizeOutcome::Applied => ArtworkState {
                    protocol: next,
                    resize_state: ResizeLifecycle::Ready,
                    ..s
                },
                ResizeOutcome::Stale => s,
                ResizeOutcome::Failed => ArtworkState {
                    protocol: next,
                    resize_state: ResizeLifecycle::Failed,
                    native_render_failed: true,
                    ..s
                },
            }
        },
    }
}

/// State after a sequence of completions.
pub open spec fn after_completions(
    s: ArtworkState,
    responses: Seq<ResizeResponse>,
) -> ArtworkState
    decreases responses.len(),
{
    if responses.len() == 0 {
        s
    } else {
        after_completion(after_completions(s, responses.drop_last()), responses.last())
    }
}

/// Diagnostic of the completion that failed the pending request, if one of a
/// sequence did.
pub open spec fn failure_text(s: ArtworkState, responses: Seq<ResizeResponse>) -> Option<Seq<char>>
    decreases responses.len(),
{
    if responses.len() == 0 {
        None
    } else {
        let front = responses.drop_last();
        match failure_text(s, front) {
            Some(message) => Some(message),
            None => match after_completions(s, front).protocol {
                Some(p) if protocol::outcome_of(p, responses.last()) is Failed => Some(
                    responses.last().result->Err_0@,
                ),
                _ => None,
            },
        }
    }
}

/// State after the worker vanished: a request that it did not answer failed.
pub open spec fn after_disconnect(s: ArtworkState) -> ArtworkState {
    match s.protocol {
        Some(p) if p.pending is Some => ArtworkState {
            protocol: Some(ArtworkThreadProtocol { inner: None, pending: None, ..p }),
            resize_state: ResizeLifecycle::Failed,
            native_render_failed: true,
            ..s
        },
        _ => s,
    }
}

/// State after the worker was asked whether it refused or failed a request.
pub open spec fn after_failure_check(s: ArtworkState, response_failed: bool) -> ArtworkState {
    match s.protocol {
        None => s,
        Some(p) => if p.worker_failed || response_failed {
            ArtworkState {
                protocol: Some(ArtworkThreadProtocol { inner: None, worker_failed: false, ..p }),
                resize_state: ResizeLifecycle::Failed,
                native_render_failed: true,
                ..s
            }
        } else {
            s
        },
    }
}

/// State after a frame's completions were drained, before the worker is asked
/// for failures.
pub open spec fn after_answers(
    s: ArtworkState,
    responses: Seq<ResizeResponse>,
    disconnected: bool,
) -> ArtworkState {
    let applied = after_completions(s, responses);
    if disconnected {
        after_disconnect(applied)
    } else {
        applied
    }
}

/// State after a frame's completions were drained.
pub open spec fn after_drain(
    s: ArtworkState,
    responses: Seq<ResizeResponse>,
    disconnected: bool,
    response_failed: bool,
) -> ArtworkState {
    after_failure_check(after_answers(s, responses, disconnected), response_failed)
}

/// Whether an unanswered request is still to be reported after the worker was
/// asked for failures.
pub open spec fn still_unreported(s: ArtworkState, response_failed: bool) -> bool {
    match s.protocol {
        Some(p) => p.worker_failed && response_failed,
        None => response_failed,
    }
}

/// State after the prepared half blocks took over from a failed renderer.
pub open spec fn in_halfblocks(s: ArtworkState) -> ArtworkState {
    let limit = match s.fallback_resize_target {
        Some(size) => size,
        None => halfblocks_limit(),
    };
    ArtworkState {
        protocol: match (s.protocol, s.fallback_protocol) {
            (Some(current), Some(fallback)) => Some(
                protocol::after_replacement(current, fallback, limit),
            ),
            (current, _) => current,
        },
        fallback_protocol: None,
        fallback_resize_target: if s.fallback_protocol is Some {
            None
        } else {
            s.fallback_resize_target
        },
        external_source: None,
        native_render_failed: false,
        ..s
    }
}

/// Request that the next frame hands to the worker, if the cover has to be
/// encoded for an area and the worker is not busy with it.
pub open spec fn request_for(s: ArtworkState, area: Size) -> Option<ResizeRequest> {
    match s.protocol {
        Some(p) if p.pending is None && protocol::needed_target(p, area) is Some => Some(
            ResizeRequest {
                generation: protocol::next_generation(p.generation),
                target: protocol::bounded(protocol::needed_target(p, area)->0, p.resize_target),
                protocol: p.inner->0,
            },
        ),
        _ => None,
    }
}

/// State after the queue received, or refused, the request of a frame.
pub open spec fn after_submitting(
    s: ArtworkState,
    submission: Submission,
    response_failed: bool,
) -> ArtworkState {
    match s.protocol {
        None => s,
        Some(p) => {
            let asked = protocol::after_submission(p, submission);
            let settled = ArtworkState {
                protocol: Some(ArtworkThreadProtocol { worker_failed: false, ..asked }),
                ..s
            };
            if asked.worker_failed || response_failed {
                ArtworkState {
                    resize_state: ResizeLifecycle::Failed,
                    native_render_failed: true,
                    ..settled
                }
            } else {
                match asked.pending {
                    Some((generation, target)) => ArtworkState {
                        resize_state: ResizeLifecycle::Submitted { generation, target },
                        ..settled
                    },
                    None => settled,
                }
            }
        },
    }
}

impl Default for ArtworkState {
    /// Artwork starts disabled, visible and without a cover.
    fn default() -> (state: Self)
        ensures
            state == initial_state(),
    {
        ArtworkState {
            protocol: None,
            track_index: None,
            backend: ArtworkBackendKind::Disabled,
            enabled: false,
            visible: true,
            playlist_target: protocol::playlist_target_for_font(FontSize::new(10, 20)),
            external_source: None,
            fallback_protocol: None,
            fallback_resize_target: None,
            native_render_failed: false,
            resize_state: ResizeLifecycle::Ready,
        }
    }
}

/// Text of a flag.
pub open spec fn flag_text(flag: bool) -> Seq<char> {
    if flag {
        "true"@
    } else {
        "false"@
    }
}

/// Name of a renderer.
pub open spec fn backend_text(kind: ArtworkBackendKind) -> Seq<char> {
    match kind {
        ArtworkBackendKind::Disabled => "Disabled"@,
        ArtworkBackendKind::RatatuiImage => "RatatuiImage"@,
        ArtworkBackendKind::Ueberzugpp => "Ueberzugpp"@,
        ArtworkBackendKind::Ueberzug => "Ueberzug"@,
        ArtworkBackendKind::Halfblocks => "Halfblocks"@,
    }
}

/// Text of an optional index.
pub open spec fn index_text(index: Option<usize>) -> Seq<char> {
    match index {
        None => "None"@,
        Some(i) => "Some("@ + text::decimal_text(i as nat) + ")"@,
    }
}

fn flag_name(flag: bool) -> (name: &'static str)
    ensures
        name@ == flag_text(flag),
{
    if flag {
        "true"
    } else {
        "false"
    }
}

fn backend_name(kind: ArtworkBackendKind) -> (name: &'static str)
    ensures
        name@ == backend_text(kind),
{
    match kind {
        ArtworkBackendKind::Disabled => "Disabled",
        ArtworkBackendKind::RatatuiImage => "RatatuiImage",
        ArtworkBackendKind::Ueberzugpp => "Ueberzugpp",
        ArtworkBackendKind::Ueberzug => "Ueberzug",
        ArtworkBackendKind::Halfblocks => "Halfblocks",
    }
}

impl ArtworkState {
    /// Whether the protocol and the prepared fallback can be encoded for every
    /// bounded target.
    pub open spec fn wf(self) -> bool {
        &&& self.protocol matches Some(p) ==> p.wf()
        &&& fallback_fits(self.fallback_protocol, self.fallback_resize_target)
    }

    /// One line about the state for diagnostics, without the bulky protocols.
    pub fn debug_text(&self) -> (line: String)
        ensures
            line@ == "ArtworkState { has_protocol: "@ + flag_text(self.protocol is Some)
                + ", track_index: "@ + index_text(self.track_index) + ", backend: "@ + backend_text(
                self.backend,
            ) + ", enabled: "@ + flag_text(self.enabled) + ", visible: "@ + flag_text(self.visible)
                + " }"@,
    {
        let mut line = "ArtworkState { has_protocol: ".to_string();
        line.append(flag_name(self.protocol.is_some()));
        line.append(", track_index: ");
        match self.track_index {
            None => {
                line.append("None");
            },
            Some(i) => {
                let ghost before = line@;
                line.append("Some(");
                text::append_decimal(&mut line, i as u64);
                line.append(")");
                assert(line@ =~= before + index_text(self.track_index));
            },
        }
        line.append(", backend: ");
        line.append(backend_name(self.backend));
        line.append(", enabled: ");
        line.append(flag_name(self.enabled));
        line.append(", visible: ");
        line.append(flag_name(self.visible));
        line.append(" }");
        line
    }

    /// Whether artwork display is active for this session.
    pub fn is_enabled(&self) -> (enabled: bool)
        ensures
            enabled == self.enabled,
    {
        self.enabled
    }

    /// Turn artwork display on or off.
    pub fn set_enabled(&mut self, enabled: bool)
        ensures
            *final(self) == (ArtworkState { enabled, ..*old(self) }),
    {
        self.enabled = enabled;
    }

    /// Whether the user lets the artwork cell show.
    pub fn is_visible(&self) -> (visible: bool)
        ensures
            visible == self.visible,
    {
        self.visible
    }

    /// Flip the user's visibility toggle.
    pub fn toggle_visible(&mut self)
        ensures
            *final(self) == (ArtworkState { visible: !old(self).visible, ..*old(self) }),
    {
        self.visible = !self.visible;
    }

    /// Set the user's visibility toggle.
    pub fn set_visible(&mut self, visible: bool)
        ensures
            *final(self) == (ArtworkState { visible, ..*old(self) }),
    {
        self.visible = visible;
    }

    /// Queue index of the track that the stored cover belongs to, if any.
    pub fn track_index(&self) -> (index: Option<usize>)
        ensures
            index == self.track_index,
    {
        self.track_index
    }

    /// Select the renderer of the next draw.
    pub fn set_backend(&mut self, backend: ArtworkBackendKind)
        ensures
            *final(self) == (ArtworkState { backend, ..*old(self) }),
    {
        self.backend = backend;
    }

    /// Whether a cover is ready to be drawn.
    pub fn has_artwork(&self) -> (ready: bool)
        ensures
            ready == shows_artwork(*self),
    {
        let one_cell = Size::new(1, 1);
        let primary_ready = match &self.protocol {
            Some(current) => current.size_for(Fitting::Fit, one_cell).is_some(),
            None => false,
        };
        if primary_ready {
            return true;
        }
        let fallback_ready = match &self.fallback_protocol {
            Some(fallback) => {
                let cells = terminal::cells_for(fallback, Fitting::Fit, one_cell);
                cells.width > 0 && cells.height > 0
            },
            None => false,
        };
        fallback_ready || self.external_source.is_some()
    }

    /// Let go of the external source, if there is one. The answer is a file to
    /// remove.
    pub fn clear_external_source(&mut self) -> (removed: Option<FilePath>)
        ensures
            *final(self) == (ArtworkState { external_source: None, ..*old(self) }),
            removed == file_to_remove(old(self).external_source),
    {
        match self.external_source.take() {
            Some(source) => source.policy.cleanup(source.path),
            None => None,
        }
    }

    /// Replace the cover and note the track that it belongs to. `None` clears
    /// the cell, so that a track without a cover never shows the previous one.
    /// The answer is a file to remove.
    pub fn set_artwork(&mut self, track_index: usize, cover: Option<ArtworkProtocol>) -> (removed:
        Option<FilePath>)
        ensures
            *final(self) == with_artwork(*old(self), track_index, cover),
            removed == if keeps_source(*old(self), cover) {
                None
            } else {
                file_to_remove(old(self).external_source)
            },
            old(self).wf() && (cover matches Some(c) ==> c.wf()) ==> final(self).wf(),
    {
        self.track_index = Some(track_index);
        self.resize_state = ResizeLifecycle::Ready;
        match cover {
            None => {
                self.protocol = None;
                let removed = self.clear_external_source();
                self.fallback_protocol = None;
                self.fallback_resize_target = None;
                self.native_render_failed = false;
                removed
            },
            Some(cover) => {
                let kept = match (&self.external_source, &cover.external_source) {
                    (Some(previous), Some(next)) => previous.path.same_path(&next.path),
                    _ => false,
                };
                let removed = if kept {
                    None
                } else {
                    self.clear_external_source()
                };
                self.protocol = Some(cover.protocol);
                self.fallback_protocol = cover.fallback_protocol;
                self.fallback_resize_target = cover.fallback_resize_target;
                self.external_source = cover.external_source;
                self.native_render_failed = false;
                removed
            },
        }
    }

    /// Let go of everything. The answer is a file to remove.
    pub fn dispose(self) -> (removed: Option<FilePath>)
        ensures
            removed == file_to_remove(self.external_source),
    {
        let mut state = self;
        state.clear_external_source()
    }

    /// Set the target of playlist artwork.
    pub fn set_playlist_target(&mut self, target: Size)
        ensures
            *final(self) == (ArtworkState { playlist_target: target, ..*old(self) }),
    {
        self.playlist_target = target;
    }

    /// Target of playlist artwork in terminal cells.
    pub fn playlist_target(&self) -> (target: Size)
        ensures
            target == self.playlist_target,
    {
        self.playlist_target
    }

    /// Path that an external renderer can draw from, if any.
    pub fn external_source(&self) -> (source: Option<FilePath>)
        ensures
            source is Some == self.external_source is Some,
            source matches Some(p) ==> p@ == self.external_source->0.path@,
    {
        match &self.external_source {
            Some(source) => Some(source.path.clone()),
            None => None,
        }
    }

    /// Apply the completions that a frame drained from the worker's answers, in
    /// order. `disconnected` tells whether nobody can answer any more, and
    /// `response_failed` whether the worker could not answer a request. The
    /// answer is the diagnostic of an encoding that failed.
    pub fn apply_pending_resizes(
        &mut self,
        responses: Vec<ResizeResponse>,
        disconnected: bool,
        response_failed: &mut bool,
    ) -> (diagnostic: Option<String>)
        ensures
            diagnostic is Some == failure_text(*old(self), responses@) is Some,
            diagnostic matches Some(message) ==> failure_text(*old(self), responses@) == Some(
                message@,
            ),
            *final(self) == after_drain(
                *old(self),
                responses@,
                disconnected,
                *old(response_failed),
            ),
            *final(response_failed) == still_unreported(
                after_answers(*old(self), responses@, disconnected),
                *old(response_failed),
            ),
    {
        let ghost all = responses@;
        let mut waiting = responses;
        let mut ordered: Vec<ResizeResponse> = Vec::new();
        while waiting.len() > 0
            invariant
                waiting@.len() + ordered@.len() == all.len(),
                forall|k: int| 0 <= k < waiting@.len() ==> waiting@[k] == all[k],
                forall|k: int|
                    0 <= k < ordered@.len() ==> #[trigger] ordered@[k] == all[all.len() - 1 - k],
            decreases waiting@.len(),
        {
            match waiting.pop() {
                Some(response) => {
                    ordered.push(response);
                },
                None => {},
            }
        }
        let ghost mut done: int = 0;
        let mut diagnostic: Option<String> = None;
        assert(all.take(0) =~= Seq::<ResizeResponse>::empty());
        while ordered.len() > 0
            invariant
                0 <= done <= all.len(),
                ordered@.len() == all.len() - done,
                forall|k: int|
                    0 <= k < ordered@.len() ==> #[trigger] ordered@[k] == all[all.len() - 1 - k],
                *self == after_completions(*old(self), all.take(done)),
                diagnostic is Some == failure_text(*old(self), all.take(done)) is Some,
                diagnostic matches Some(message) ==> failure_text(*old(self), all.take(done))
                    == Some(message@),
            decreases ordered@.len(),
        {
            match ordered.pop() {
                Some(response) => {
                    assert(response == all[done]);
                    assert(all.take(done + 1).drop_last() =~= all.take(done));
                    assert(all.take(done + 1).last() == response);
                    let failure = self.apply_completion(response);
                    if diagnostic.is_none() {
                        diagnostic = failure;
                    }
                    proof {
                        done = done + 1;
                    }
                },
                None => {},
            }
        }
        assert(all.take(done) =~= all);
        if disconnected {
            self.note_disconnect();
        }
        self.check_worker_failure(response_failed);
        diagnostic
    }

    /// Apply one completion of the worker. The answer is its diagnostic, if it
    /// failed the pending request.
    fn apply_completion(&mut self, response: ResizeResponse) -> (failure: Option<String>)
        ensures
            *final(self) == after_completion(*old(self), response),
            failure is Some == (old(self).protocol matches Some(p) && protocol::outcome_of(
                p,
                response,
            ) is Failed),
            failure matches Some(message) ==> message@ == response.result->Err_0@,
    {
        let message = match &response.result {
            Err(reason) => Some(reason.clone()),
            Ok(_) => None,
        };
        let outcome = match &mut self.protocol {
            Some(current) => current.update_resized_protocol(response),
            None => ResizeOutcome::Stale,
        };
        match outcome {
            ResizeOutcome::Applied => {
                self.resize_state = ResizeLifecycle::Ready;
                None
            },
            ResizeOutcome::Stale => None,
            ResizeOutcome::Failed => {
                self.resize_state = ResizeLifecycle::Failed;
                self.native_render_failed = true;
                message
            },
        }
    }

    /// Note that nobody can answer any more.
    fn note_disconnect(&mut self)
        ensures
            *final(self) == after_disconnect(*old(self)),
    {
        let lost = match &mut self.protocol {
            Some(current) => {
                if current.pending.is_some() {
                    current.inner = None;
                    current.pending = None;
                    true
                } else {
                    false
                }
            },
            None => false,
        };
        if lost {
            self.resize_state = ResizeLifecycle::Failed;
            self.native_render_failed = true;
        }
    }

    /// Ask whether the worker refused or failed a request.
    fn check_worker_failure(&mut self, response_failed: &mut bool)
        ensures
            *final(self) == after_failure_check(*old(self), *old(response_failed)),
            *final(response_failed) == still_unreported(*old(self), *old(response_failed)),
    {
        let failed = match &mut self.protocol {
            Some(current) => {
                let failed = current.take_worker_failure(response_failed);
                if failed {
                    current.inner = None;
                }
                failed
            },
            None => false,
        };
        if failed {
            self.resize_state = ResizeLifecycle::Failed;
            self.native_render_failed = true;
        }
    }

    /// Request to hand to the worker before the artwork is drawn into an area,
    /// if there is one. The protocol is away until the worker answers.
    pub fn submit_resize(&mut self, target: Size) -> (request: Option<ResizeRequest>)
        requires
            old(self).wf(),
        ensures
            request == request_for(*old(self), target),
            request is None ==> *final(self) == *old(self),
            request is Some ==> *final(self) == (ArtworkState {
                protocol: Some(
                    ArtworkThreadProtocol {
                        inner: None,
                        generation: protocol::next_generation(old(self).protocol->0.generation),
                        ..old(self).protocol->0
                    },
                ),
                ..*old(self)
            }),
            request matches Some(r) ==> protocol::encodable_request(r),
            final(self).wf(),
    {
        match &mut self.protocol {
            None => None,
            Some(current) => {
                if current.pending.is_some() {
                    return None;
                }
                match current.needs_resize(target) {
                    None => None,
                    Some(requested) => {
                        proof {
                            protocol::law_requests_are_bounded(*current, requested);
                        }
                        current.resize_encode(requested)
                    },
                }
            },
        }
    }

    /// Note how the worker's queue received the request of
    /// [`ArtworkState::submit_resize`]. `response_failed` tells whether the
    /// worker could not answer a request.
    pub fn resize_submitted(&mut self, submission: Submission, response_failed: &mut bool)
        ensures
            *final(self) == after_submitting(*old(self), submission, *old(response_failed)),
            *final(response_failed) == match old(self).protocol {
                Some(p) => protocol::after_submission(p, submission).worker_failed && *old(
                    response_failed,
                ),
                None => *old(response_failed),
            },
    {
        let (failed, pending) = match &mut self.protocol {
            None => {
                return;
            },
            Some(current) => {
                current.submitted(submission);
                (current.take_worker_failure(response_failed), current.pending)
            },
        };
        if failed {
            self.resize_state = ResizeLifecycle::Failed;
            self.native_render_failed = true;
        } else {
            match pending {
                Some((generation, target)) => {
                    self.resize_state = ResizeLifecycle::Submitted { generation, target };
                },
                None => {},
            }
        }
    }

    /// Ask, once, whether drawing natively failed.
    pub fn take_native_render_failure(&mut self) -> (failed: bool)
        ensures
            failed == old(self).native_render_failed,
            *final(self) == (ArtworkState { native_render_failed: false, ..*old(self) }),
    {
        let failed = self.native_render_failed;
        self.native_render_failed = false;
        failed
    }

    /// Replace a failed protocol by the prepared half blocks and let go of the
    /// external source, so that a later fallback cannot replay it. The answer
    /// is a file to remove.
    pub fn switch_to_halfblocks(&mut self) -> (removed: Option<FilePath>)
        ensures
            *final(self) == in_halfblocks(*old(self)),
            removed == file_to_remove(old(self).external_source),
            old(self).wf() ==> final(self).wf(),
    {
        match self.fallback_protocol.take() {
            Some(fallback) => {
                let limit = match self.fallback_resize_target.take() {
                    Some(size) => size,
                    None => halfblocks_target(),
                };
                match &mut self.protocol {
                    Some(current) => {
                        current.replace_protocol(fallback, limit);
                    },
                    None => {},
                }
            },
            None => {},
        }
        let removed = self.clear_external_source();
        self.native_render_failed = false;
        removed
    }

    /// Whether the interface itself draws the cover, not an external process.
    pub fn renders_natively(&self) -> (native: bool)
        ensures
            native == ((self.backend is RatatuiImage || self.backend is Halfblocks)
                && self.protocol is Some),
    {
        let native_backend = match self.backend {
            ArtworkBackendKind::RatatuiImage | ArtworkBackendKind::Halfblocks => true,
            _ => false,
        };
        native_backend && self.protocol.is_some()
    }

    /// Cells that the artwork covers inside an area, if there is any.
    pub fn image_size(&self, target: Size) -> (cells: Option<Size>)
        ensures
            cells == artwork_cells(*self, target),
            target.width > 0 && target.height > 0 ==> (cells matches Some(c) ==> c.width > 0
                && c.height > 0),
    {
        let native = match &self.protocol {
            Some(current) => current.size_for(Fitting::Scale, target),
            None => None,
        };
        let sized = match native {
            Some(cells) => Some(cells),
            None => match &self.fallback_protocol {
                Some(fallback) => Some(terminal::cells_for(fallback, Fitting::Scale, target)),
                None => None,
            },
        };
        match sized {
            Some(cells) if cells.width > 0 && cells.height > 0 => Some(cells),
            _ => if self.external_source.is_some() {
                Some(target)
            } else {
                None
            },
        }
    }
}

/// There is something to draw exactly when it has a size, whatever the area.
pub proof fn law_artwork_has_a_size(s: ArtworkState, area: Size)
    ensures
        shows_artwork(s) == artwork_cells(s, area) is Some,
{
}

/// A track without a cover clears the cell.
pub proof fn law_clearing_removes_the_cover(s: ArtworkState, track_index: usize, area: Size)
    ensures
        !shows_artwork(with_artwork(s, track_index, None)),
        artwork_cells(with_artwork(s, track_index, None), area) is None,
        with_artwork(s, track_index, None).track_index == Some(track_index),
{
}

/// Completions that were requested for an earlier cover never reach a new one.
pub proof fn law_new_artwork_ignores_old_completions(
    s: ArtworkState,
    track_index: usize,
    cover: ArtworkProtocol,
    responses: Seq<ResizeResponse>,
)
    requires
        cover.protocol.pending is None,
    ensures
        after_completions(with_artwork(s, track_index, Some(cover)), responses) == with_artwork(
            s,
            track_index,
            Some(cover),
        ),
    decreases responses.len(),
{
    if responses.len() > 0 {
        law_new_artwork_ignores_old_completions(s, track_index, cover, responses.drop_last());
    }
}

/// While the worker has the cover, it is not drawn; only the fallback and the
/// external source are.
pub proof fn law_pending_cover_is_not_drawn(s: ArtworkState)
    requires
        s.protocol matches Some(p) && p.inner is None,
    ensures
        shows_artwork(s) == (s.fallback_protocol is Some || s.external_source is Some),
{
}

/// The answer to the pending request brings the cover back.
pub proof fn law_completion_restores_the_cover(s: ArtworkState, response: ResizeResponse)
    requires
        s.protocol matches Some(p) && protocol::answers(p, response),
        response.result is Ok,
    ensures
        shows_artwork(after_completion(s, response)),
        after_completion(s, response).resize_state is Ready,
        after_completion(s, response).protocol->0.inner == Some(response.result->Ok_0),
{
}

/// A worker that is gone is reported as a failure.
pub proof fn law_unavailable_worker_is_a_failure(s: ArtworkState, request: ResizeRequest)
    requires
        s.protocol is Some,
    ensures
        ({
            let refused = after_submitting(s, Submission::Unavailable(request), false);
            refused.resize_state is Failed && refused.native_render_failed
        }),
{
}

/// A state whose worker failed has no protocol to draw after the next drain.
pub proof fn law_worker_failure_drops_the_cover(s: ArtworkState, disconnected: bool)
    requires
        s.protocol matches Some(p) && p.worker_failed,
    ensures
        ({
            let drained = after_drain(s, Seq::empty(), disconnected, false);
            &&& drained.protocol->0.inner is None
            &&& drained.resize_state is Failed
            &&& drained.native_render_failed
        }),
{
}

/// A full queue is no failure: the cover stays and nothing is pending.
pub proof fn law_full_queue_is_no_failure(s: ArtworkState, request: ResizeRequest)
    requires
        s.protocol matches Some(p) && p.pending is None && !p.worker_failed,
    ensures
        ({
            let refused = after_submitting(s, Submission::Full(request), false);
            &&& refused.resize_state == s.resize_state
            &&& refused.native_render_failed == s.native_render_failed
            &&& refused.protocol->0.inner == Some(request.protocol)
        }),
{
}

/// Only a file made for one session is ever removed.
pub proof fn law_only_private_files_are_removed(source: Option<MaterializedArtwork>)
    ensures
        file_to_remove(source) is Some <==> source is Some
            && source->0.policy is PrivateSessionOwned,
        file_to_remove(source) matches Some(path) ==> path == source->0.path,
{
}

/// Switching to half blocks keeps a cover that has a prepared fallback, and
/// nothing external is left to replay.
pub proof fn law_halfblocks_keep_the_cover(s: ArtworkState)
    requires
        s.protocol is Some,
        s.fallback_protocol is Some,
    ensures
        shows_artwork(in_halfblocks(s)),
        in_halfblocks(s).external_source is None,
        in_halfblocks(s).protocol->0.inner == s.fallback_protocol,
{
}

/// Switching to half blocks makes completions on their way stale.
pub proof fn law_halfblocks_ignore_old_completions(s: ArtworkState, response: ResizeResponse)
    requires
        s.protocol is Some,
        s.fallback_protocol is Some,
    ensures
        after_completion(in_halfblocks(s), response) == in_halfblocks(s),
{
}

/// Whether a completion carries a protocol that fits the state it is for.
pub open spec fn suits(s: ArtworkState, response: ResizeResponse) -> bool {
    s.protocol matches Some(p) ==> (response.result matches Ok(encoded) ==> protocol::fits(
        terminal::protocol_contents(encoded).font,
        p.resize_target,
    ))
}

/// Draining keeps the state well formed when the worker hands back the
/// protocols that it was given.
pub proof fn law_draining_keeps_wf(
    s: ArtworkState,
    responses: Seq<ResizeResponse>,
    disconnected: bool,
    response_failed: bool,
)
    requires
        s.wf(),
        forall|i: int| 0 <= i < responses.len() ==> suits(s, #[trigger] responses[i]),
    ensures
        after_drain(s, responses, disconnected, response_failed).wf(),
{
    lemma_completions_keep_wf(s, responses);
}

/// Completions keep the state well formed and do not move its limits.
proof fn lemma_completions_keep_wf(s: ArtworkState, responses: Seq<ResizeResponse>)
    requires
        s.wf(),
        forall|i: int| 0 <= i < responses.len() ==> suits(s, #[trigger] responses[i]),
    ensures
        after_completions(s, responses).wf(),
        after_completions(s, responses).protocol is Some == s.protocol is Some,
        s.protocol is Some ==> after_completions(s, responses).protocol->0.resize_target
            == s.protocol->0.resize_target,
    decreases responses.len(),
{
    if responses.len() > 0 {
        let front = responses.drop_last();
        assert forall|i: int| 0 <= i < front.len() implies suits(s, #[trigger] front[i]) by {
            assert(front[i] == responses[i]);
        }
        lemma_completions_keep_wf(s, front);
        assert(suits(s, responses[responses.len() - 1]));
    }
}

/// A request that the queue accepted, answered with an encoded cover, brings
/// the cover back for good: it is drawn, and the same area asks for nothing
/// more.
pub proof fn law_resize_round_trip(
    s: ArtworkState,
    area: Size,
    response: ResizeResponse,
    encoded: StatefulProtocol,
)
    requires
        s.wf(),
        request_for(s, area) is Some,
        !s.protocol->0.worker_failed,
        response.generation == request_for(s, area)->0.generation,
        response.target == request_for(s, area)->0.target,
        response.result == Ok::<StatefulProtocol, String>(encoded),
        terminal::protocol_contents(encoded) == (terminal::ProtocolContents {
            area: response.target,
            outdated: false,
            outcome: None,
            ..terminal::protocol_contents(request_for(s, area)->0.protocol)
        }),
    ensures
        ({
            let p = s.protocol->0;
            let asked = ArtworkState {
                protocol: Some(
                    ArtworkThreadProtocol {
                        inner: None,
                        generation: protocol::next_generation(p.generation),
                        ..p
                    },
                ),
                ..s
            };
            let waiting = after_submitting(
                asked,
                Submission::Accepted { generation: response.generation, target: response.target },
                false,
            );
            let done = after_completion(waiting, response);
            &&& suits(waiting, response)
            &&& waiting.resize_state == (ResizeLifecycle::Submitted {
                generation: response.generation,
                target: response.target,
            })
            &&& shows_artwork(done)
            &&& done.resize_state is Ready
            &&& request_for(done, area) is None
            &&& done.wf()
        }),
{
    protocol::law_requests_are_bounded(s.protocol->0, area);
}

} // verus!
