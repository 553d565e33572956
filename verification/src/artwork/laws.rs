//! Promises that artwork keeps from one call to the next.
//!
//! Each law is about the calls themselves: what a call may return and how it
//! may change the value that it is made on.
use crate::artwork::backend::{ArtworkBackend, ArtworkRenderer, ArtworkTeardown, LayerAction};
use crate::artwork::backend_kind::ArtworkBackendKind;
use crate::artwork::images;
use crate::artwork::protocol;
use crate::artwork::protocol::{
    ArtworkThreadProtocol, Received, ResizeOutcome, ResizeRequest, ResizeResponse, Submission,
    WorkerStep,
};
use crate::artwork::state;
use crate::artwork::state::{
    ArtworkPathPolicy, ArtworkProtocol, ArtworkState, MaterializedArtwork, ResizeLifecycle,
};
use crate::artwork::terminal;
use crate::artwork::terminal::Fitting;
use crate::config::AlbumArtMode;
use crate::geometry::{FontSize, Size};
use crate::path;
use crate::path::FilePath;
use ratatui_image::picker::Picker;
use ratatui_image::protocol::StatefulProtocol;
use vstd::math;
use vstd::prelude::*;

verus! {

/// An area with at least one cell in each direction, and no more than another.
pub open spec fn clipped(area: Size, top: Size) -> Size {
    Size {
        width: math::max(1, math::min(area.width as int, top.width as int)) as u16,
        height: math::max(1, math::min(area.height as int, top.height as int)) as u16,
    }
}

/// Cells that the picture of a protocol covers in an area, within a limit.
pub open spec fn covered(protocol: StatefulProtocol, area: Size, top: Size) -> Size {
    let contents = terminal::protocol_contents(protocol);
    terminal::fitted_cells(
        images::extent_of(contents.picture),
        contents.font,
        Fitting::Scale,
        clipped(area, top),
    )
}

/// A cover at hand is requested for just the cells that it covers in an area,
/// unless it is encoded for them already. The request holds the cover itself and
/// a number of its own.
pub proof fn law_covers_are_requested_for_the_cells_they_cover(
    state: &mut ArtworkState,
    area: Size,
    request: Option<ResizeRequest>,
)
    requires
        call_ensures(ArtworkState::submit_resize, (state, area), request),
        old(state).protocol is Some,
        old(state).protocol->0.inner is Some,
        old(state).protocol->0.pending is None,
    ensures
        ({
            let p = old(state).protocol->0;
            let contents = terminal::protocol_contents(p.inner->0);
            let cells = covered(p.inner->0, area, p.resize_target);
            let target = clipped(cells, p.resize_target);
            &&& request is Some == ((contents.outdated || cells != contents.area)
                && p.last_encoded_target != Some(target))
            &&& request matches Some(r) ==> {
                &&& r.target == target
                &&& r.protocol == p.inner->0
                &&& r.generation != p.generation
            }
        }),
{
}

/// Nothing is requested without a cover at hand, or while one is being encoded.
pub proof fn law_one_request_at_a_time(
    state: &mut ArtworkState,
    area: Size,
    request: Option<ResizeRequest>,
)
    requires
        call_ensures(ArtworkState::submit_resize, (state, area), request),
        old(state).protocol matches Some(p) ==> p.inner is None || p.pending is Some,
    ensures
        request is None,
        *final(state) == *old(state),
{
}

/// A cover that was encoded for one area is encoded again when it covers other
/// cells in the next one, and is not while it covers the same cells.
pub proof fn law_covers_are_encoded_again_for_other_cells(
    asking: &mut ArtworkState,
    first: Size,
    request: ResizeRequest,
    submitting: &mut ArtworkState,
    unanswered: &mut bool,
    applying: &mut ArtworkState,
    responses: Vec<ResizeResponse>,
    encoded: StatefulProtocol,
    failed: &mut bool,
    diagnostic: Option<String>,
    moving: &mut ArtworkState,
    second: Size,
    again: Option<ResizeRequest>,
)
    requires
        call_ensures(ArtworkState::submit_resize, (asking, first), Some(request)),
        *old(submitting) == *final(asking),
        call_ensures(
            ArtworkState::resize_submitted,
            (
                submitting,
                Submission::Accepted { generation: request.generation, target: request.target },
                unanswered,
            ),
            (),
        ),
        !*old(unanswered),
        *old(applying) == *final(submitting),
        responses@ == seq![
            ResizeResponse {
                generation: request.generation,
                target: request.target,
                result: Ok(encoded),
            },
        ],
        call_ensures(
            protocol::encode_request,
            (request,),
            Some(
                ResizeResponse {
                    generation: request.generation,
                    target: request.target,
                    result: Ok(encoded),
                },
            ),
        ),
        call_ensures(
            ArtworkState::apply_pending_resizes,
            (applying, responses, false, failed),
            diagnostic,
        ),
        !*old(failed),
        *old(moving) == *final(applying),
        call_ensures(ArtworkState::submit_resize, (moving, second), again),
        !old(asking).protocol->0.worker_failed,
    ensures
        ({
            let top = old(asking).protocol->0.resize_target;
            let cells = covered(request.protocol, second, top);
            clipped(cells, top) == cells ==> {
                &&& again is Some == (cells != request.target)
                &&& again matches Some(r) ==> r.target == cells && r.protocol == encoded
            }
        }),
{
}

/// Whether a completion answers what a cover waits for.
pub open spec fn awaited(p: ArtworkThreadProtocol, response: ResizeResponse) -> bool {
    &&& p.pending matches Some((generation, target))
    &&& generation == p.generation
    &&& response.generation == generation
    &&& response.target == target
}

proof fn lemma_unawaited_completions_change_nothing(
    s: ArtworkState,
    responses: Seq<ResizeResponse>,
)
    requires
        s.protocol matches Some(p) ==> forall|k: int|
            0 <= k < responses.len() ==> !awaited(p, #[trigger] responses[k]),
    ensures
        state::after_completions(s, responses) == s,
        state::failure_text(s, responses) is None,
    decreases responses.len(),
{
    if responses.len() > 0 {
        let front = responses.drop_last();
        assert forall|k: int| 0 <= k < front.len() && s.protocol is Some implies !awaited(
            s.protocol->0,
            #[trigger] front[k],
        ) by {
            assert(front[k] == responses[k]);
        }
        lemma_unawaited_completions_change_nothing(s, front);
        assert(responses.last() == responses[responses.len() - 1]);
    }
}

proof fn lemma_the_first_awaited_completion_counts(
    s: ArtworkState,
    responses: Seq<ResizeResponse>,
    first: int,
)
    requires
        s.protocol is Some,
        0 <= first < responses.len(),
        awaited(s.protocol->0, responses[first]),
        forall|k: int| 0 <= k < first ==> !awaited(s.protocol->0, #[trigger] responses[k]),
    ensures
        state::after_completions(s, responses) == state::after_completion(s, responses[first]),
        state::failure_text(s, responses) == match responses[first].result {
            Ok(_) => None,
            Err(message) => Some(message@),
        },
    decreases responses.len(),
{
    let front = responses.drop_last();
    if first == responses.len() - 1 {
        assert forall|k: int| 0 <= k < front.len() implies !awaited(
            s.protocol->0,
            #[trigger] front[k],
        ) by {
            assert(front[k] == responses[k]);
        }
        lemma_unawaited_completions_change_nothing(s, front);
    } else {
        assert forall|k: int| 0 <= k < first implies !awaited(
            s.protocol->0,
            #[trigger] front[k],
        ) by {
            assert(front[k] == responses[k]);
        }
        lemma_the_first_awaited_completion_counts(s, front, first);
    }
}

/// Completions that nobody waits for, however many, change nothing.
pub proof fn law_unawaited_completions_change_nothing(
    state: &mut ArtworkState,
    responses: Vec<ResizeResponse>,
    failed: &mut bool,
    diagnostic: Option<String>,
)
    requires
        call_ensures(
            ArtworkState::apply_pending_resizes,
            (state, responses, false, failed),
            diagnostic,
        ),
        !*old(failed),
        old(state).protocol matches Some(p) ==> !p.worker_failed && forall|k: int|
            0 <= k < responses@.len() ==> !awaited(p, #[trigger] responses@[k]),
    ensures
        *final(state) == *old(state),
        !*final(failed),
        diagnostic is None,
{
    lemma_unawaited_completions_change_nothing(*old(state), responses@);
}

/// The first completion that a cover waits for decides. A success puts the
/// encoded cover in place. A failure drops the cover, asks for another renderer
/// and hands out its diagnostic. Nothing is pending afterwards.
pub proof fn law_the_first_awaited_completion_decides(
    state: &mut ArtworkState,
    responses: Vec<ResizeResponse>,
    first: int,
    failed: &mut bool,
    diagnostic: Option<String>,
)
    requires
        call_ensures(
            ArtworkState::apply_pending_resizes,
            (state, responses, false, failed),
            diagnostic,
        ),
        !*old(failed),
        old(state).protocol is Some,
        !old(state).protocol->0.worker_failed,
        0 <= first < responses@.len(),
        awaited(old(state).protocol->0, responses@[first]),
        forall|k: int|
            0 <= k < first ==> !awaited(old(state).protocol->0, #[trigger] responses@[k]),
    ensures
        final(state).protocol is Some,
        final(state).protocol->0.pending is None,
        responses@[first].result matches Ok(encoded) ==> {
            &&& final(state).protocol->0.inner == Some(encoded)
            &&& final(state).protocol->0.last_encoded_target == Some(responses@[first].target)
            &&& final(state).resize_state is Ready
            &&& final(state).native_render_failed == old(state).native_render_failed
            &&& diagnostic is None
        },
        responses@[first].result matches Err(message) ==> {
            &&& final(state).protocol->0.inner is None
            &&& final(state).resize_state is Failed
            &&& final(state).native_render_failed
            &&& diagnostic is Some && diagnostic->0@ == message@
        },
        final(state).track_index == old(state).track_index,
        final(state).external_source == old(state).external_source,
        final(state).fallback_protocol == old(state).fallback_protocol,
{
    lemma_the_first_awaited_completion_counts(*old(state), responses@, first);
}

/// A worker that vanished, or that could not answer, costs the cover that it had,
/// and another renderer is asked for.
pub proof fn law_lost_covers_are_reported(
    state: &mut ArtworkState,
    responses: Vec<ResizeResponse>,
    disconnected: bool,
    failed: &mut bool,
    diagnostic: Option<String>,
)
    requires
        call_ensures(
            ArtworkState::apply_pending_resizes,
            (state, responses, disconnected, failed),
            diagnostic,
        ),
        responses@.len() == 0,
        old(state).protocol is Some,
        (disconnected && old(state).protocol->0.pending is Some) || *old(failed)
            || old(state).protocol->0.worker_failed,
    ensures
        final(state).protocol is Some,
        final(state).protocol->0.inner is None,
        !final(state).protocol->0.worker_failed,
        final(state).resize_state is Failed,
        final(state).native_render_failed,
{
}

/// A cover that was refused by the queue comes back, to be asked for again; one
/// that nobody can encode any more comes back with a failure.
pub proof fn law_refused_covers_come_back(
    state: &mut ArtworkState,
    request: ResizeRequest,
    unanswered: &mut bool,
    other: &mut ArtworkState,
    ignored: &mut bool,
)
    requires
        old(state).protocol is Some,
        !old(state).protocol->0.worker_failed,
        old(state).protocol->0.pending is None,
        !*old(unanswered),
        call_ensures(
            ArtworkState::resize_submitted,
            (state, Submission::Full(request), unanswered),
            (),
        ),
        old(other).protocol is Some,
        call_ensures(
            ArtworkState::resize_submitted,
            (other, Submission::Unavailable(request), ignored),
            (),
        ),
    ensures
        final(state).protocol->0.inner == Some(request.protocol),
        final(state).protocol->0.pending is None,
        final(state).resize_state == old(state).resize_state,
        final(state).native_render_failed == old(state).native_render_failed,
        final(other).protocol->0.inner == Some(request.protocol),
        final(other).resize_state is Failed,
        final(other).native_render_failed,
{
}

/// A new cover takes the place of the old one in everything, also where there is
/// none. Only a file of the session's own that is not drawn from any more is
/// removed.
pub proof fn law_new_covers_replace_everything(
    state: &mut ArtworkState,
    index: usize,
    cover: Option<ArtworkProtocol>,
    removed: Option<FilePath>,
)
    requires
        call_ensures(ArtworkState::set_artwork, (state, index, cover), removed),
    ensures
        final(state).track_index == Some(index),
        cover matches Some(c) ==> {
            &&& final(state).protocol == Some(c.protocol)
            &&& final(state).fallback_protocol == c.fallback_protocol
            &&& final(state).fallback_resize_target == c.fallback_resize_target
            &&& final(state).external_source == c.external_source
        },
        cover is None ==> {
            &&& final(state).protocol is None
            &&& final(state).fallback_protocol is None
            &&& final(state).external_source is None
        },
        !final(state).native_render_failed,
        final(state).resize_state is Ready,
        final(state).backend == old(state).backend,
        final(state).enabled == old(state).enabled,
        final(state).visible == old(state).visible,
        final(state).playlist_target == old(state).playlist_target,
        removed matches Some(file) ==> {
            &&& old(state).external_source matches Some(previous)
            &&& previous.policy is PrivateSessionOwned
            &&& previous.path == file
        },
        old(state).external_source matches Some(previous) ==> {
            &&& previous.policy is PrivateSessionOwned && cover is None ==> removed is Some
            &&& previous.policy is PrivateSessionOwned && cover is Some
                && cover->0.external_source is None ==> removed is Some
            &&& cover is Some && cover->0.external_source is Some
                && cover->0.external_source->0.path@ == previous.path@ ==> removed is None
            &&& previous.policy is PrivateSessionOwned && cover is Some
                && cover->0.external_source is Some && path::named(
                cover->0.external_source->0.path@,
            ) != path::named(previous.path@) ==> removed is Some
        },
{
}

/// Half blocks take over with the fallback that was prepared. The cover goes on
/// with it, nothing external is left, and answers on their way come too late.
pub proof fn law_halfblocks_take_over(
    state: &mut ArtworkState,
    removed: Option<FilePath>,
    late: ResizeResponse,
)
    requires
        call_ensures(ArtworkState::switch_to_halfblocks, (state,), removed),
    ensures
        final(state).external_source is None,
        !final(state).native_render_failed,
        final(state).fallback_protocol is None,
        final(state).track_index == old(state).track_index,
        old(state).protocol is Some && old(state).fallback_protocol is Some ==> {
            &&& final(state).protocol is Some
            &&& final(state).protocol->0.inner == old(state).fallback_protocol
            &&& final(state).protocol->0.pending is None
            &&& final(state).protocol->0.last_encoded_target is None
            &&& final(state).protocol->0.generation != old(state).protocol->0.generation
            &&& !awaited(final(state).protocol->0, late)
            &&& final(state).protocol->0.resize_target == match old(state).fallback_resize_target {
                Some(limit) => limit,
                None => Size { width: 102, height: 51 },
            }
        },
        old(state).fallback_protocol is None ==> final(state).protocol == old(state).protocol,
        removed is Some == (old(state).external_source matches Some(source)
            && source.policy is PrivateSessionOwned),
        removed matches Some(file) ==> file == old(state).external_source->0.path,
{
}

/// There is artwork exactly if a protocol is at hand, or a fallback, or a file to
/// draw from, and it covers cells in that order of preference.
pub proof fn law_artwork_is_sized_by_what_is_at_hand(
    state: &ArtworkState,
    ready: bool,
    area: Size,
    cells: Option<Size>,
)
    requires
        call_ensures(ArtworkState::has_artwork, (state,), ready),
        call_ensures(ArtworkState::image_size, (state, area), cells),
    ensures
        ({
            let drawn = state.protocol is Some && state.protocol->0.inner is Some;
            &&& ready == (drawn || state.fallback_protocol is Some
                || state.external_source is Some)
            &&& cells is Some == ready
            &&& drawn ==> cells->0 == sized(state.protocol->0.inner->0, area)
            &&& !drawn && state.fallback_protocol is Some ==> cells->0 == sized(
                state.fallback_protocol->0,
                area,
            )
            &&& !drawn && state.fallback_protocol is None && state.external_source is Some
                ==> cells->0 == area
        }),
{
}

/// Cells that the picture of a protocol covers in an area.
pub open spec fn sized(protocol: StatefulProtocol, area: Size) -> Size {
    let contents = terminal::protocol_contents(protocol);
    terminal::fitted_cells(
        images::extent_of(contents.picture),
        contents.font,
        Fitting::Scale,
        area,
    )
}

/// What is set is what is read, and nothing else changes.
pub proof fn law_switches_read_back(
    enabling: &mut ArtworkState,
    on: bool,
    enabled: bool,
    showing: &mut ArtworkState,
    shown: bool,
    visible: bool,
    toggling: &mut ArtworkState,
    toggled: bool,
    aiming: &mut ArtworkState,
    target: Size,
    aimed: Size,
)
    requires
        call_ensures(ArtworkState::set_enabled, (enabling, on), ()),
        call_ensures(ArtworkState::is_enabled, (final(enabling),), enabled),
        call_ensures(ArtworkState::set_visible, (showing, shown), ()),
        call_ensures(ArtworkState::is_visible, (final(showing),), visible),
        call_ensures(ArtworkState::toggle_visible, (toggling,), ()),
        call_ensures(ArtworkState::is_visible, (final(toggling),), toggled),
        call_ensures(ArtworkState::set_playlist_target, (aiming, target), ()),
        call_ensures(ArtworkState::playlist_target, (final(aiming),), aimed),
    ensures
        enabled == on,
        final(enabling).visible == old(enabling).visible,
        visible == shown,
        final(showing).enabled == old(showing).enabled,
        toggled == !old(toggling).visible,
        final(toggling).protocol == old(toggling).protocol,
        aimed == target,
        final(aiming).protocol == old(aiming).protocol,
{
}

/// A failure of the renderer is told once.
pub proof fn law_render_failures_are_told_once(
    state: &mut ArtworkState,
    failed: bool,
    again: &mut ArtworkState,
    twice: bool,
)
    requires
        call_ensures(ArtworkState::take_native_render_failure, (state,), failed),
        *old(again) == *final(state),
        call_ensures(ArtworkState::take_native_render_failure, (again,), twice),
    ensures
        failed == old(state).native_render_failed,
        !twice,
        final(again).protocol == old(state).protocol,
{
}

/// The interface draws a cover itself exactly with graphics or half blocks.
pub proof fn law_native_renderers_draw_themselves(state: &ArtworkState, native: bool)
    requires
        call_ensures(ArtworkState::renders_natively, (state,), native),
        state.protocol is Some,
    ensures
        native == !(state.backend is Disabled || state.backend is Ueberzugpp
            || state.backend is Ueberzug),
{
}

/// A target for playlist artwork is the largest one within 144 pixels, and one for
/// the worker the largest within 1024 pixels that has a cell in each direction.
pub proof fn law_targets_are_as_large_as_their_bound_allows(
    font: FontSize,
    playlist: Size,
    worker: Size,
)
    requires
        font.width >= 1,
        font.height >= 1,
        call_ensures(protocol::playlist_target_for_font, (font,), playlist),
        call_ensures(protocol::resize_target_for_font, (font,), worker),
    ensures
        playlist.width * font.width <= 144 < (playlist.width + 1) * font.width,
        playlist.height * font.height <= 144 < (playlist.height + 1) * font.height,
        worker.width >= 1 && worker.height >= 1,
        1024 < (worker.width + 1) * font.width,
        1024 < (worker.height + 1) * font.height,
        worker.width > 1 ==> worker.width * font.width <= 1024,
        worker.height > 1 ==> worker.height * font.height <= 1024,
{
    let w = worker.width as int;
    let h = worker.height as int;
    let fw = font.width as int;
    let fh = font.height as int;
    protocol::law_whole_area_is_the_largest_within_the_bound(1024, font);
    if w == 1 {
        assert(2 * fw > 1024 || fw > 1024) by {
            let whole = protocol::whole_area(1024, font).width as int;
            assert(whole <= 1);
            assert((whole + 1) * fw <= 2 * fw) by (nonlinear_arith)
                requires
                    whole <= 1,
                    fw >= 1,
            ;
        }
    }
    if h == 1 {
        assert(2 * fh > 1024 || fh > 1024) by {
            let whole = protocol::whole_area(1024, font).height as int;
            assert(whole <= 1);
            assert((whole + 1) * fh <= 2 * fh) by (nonlinear_arith)
                requires
                    whole <= 1,
                    fh >= 1,
            ;
        }
    }
}

/// A worker answers each request that it takes up with that request's own number
/// and target; the answer draws the same picture, encoded for the target. Half
/// blocks never fail.
pub proof fn law_answers_belong_to_their_requests(
    request: ResizeRequest,
    step: WorkerStep,
    late: WorkerStep,
)
    requires
        call_ensures(protocol::worker_step, (Received::Request(request), false), step),
        call_ensures(protocol::worker_step, (Received::Request(request), true), late),
        request.target.width > 0,
        request.target.height > 0,
    ensures
        late is Stop,
        ({
            let before = terminal::protocol_contents(request.protocol);
            &&& step matches WorkerStep::Answer(answer)
            &&& answer.generation == request.generation
            &&& answer.target == request.target
            &&& before.halfblocks ==> answer.result is Ok
            &&& answer.result matches Ok(encoded) ==> {
                let after = terminal::protocol_contents(encoded);
                &&& after.picture == before.picture
                &&& after.font == before.font
                &&& after.halfblocks == before.halfblocks
                &&& after.area == request.target
                &&& !after.outdated
            }
        }),
{
}

/// An idle worker waits, and leaves when it is told to or when nobody is left.
pub proof fn law_idle_workers_wait(
    flag: bool,
    idle: WorkerStep,
    told: WorkerStep,
    alone: WorkerStep,
    arrived: WorkerStep,
    lost: WorkerStep,
)
    requires
        call_ensures(protocol::worker_step, (Received::Timeout, flag), idle),
        call_ensures(protocol::worker_step, (Received::Shutdown, flag), told),
        call_ensures(protocol::worker_step, (Received::Disconnected, flag), alone),
        call_ensures(protocol::delivery_step, (true,), arrived),
        call_ensures(protocol::delivery_step, (false,), lost),
    ensures
        idle is Wait,
        told is Stop,
        alone is Stop,
        arrived is Wait,
        lost is MarkFailed,
{
}

/// Whether a picker found graphics that are better than half blocks.
pub open spec fn has_graphics(picker: Option<Picker>) -> bool {
    picker is Some && !terminal::picker_contents(picker->0).halfblocks
}

/// Each mode selects its renderer: nothing when artwork is off, half blocks when
/// they are asked for, the terminal's graphics where there are any, and without
/// them an external process, but only in the automatic mode. The loader prepares
/// covers for just that renderer.
pub proof fn law_modes_select_their_renderer(
    mode: AlbumArtMode,
    picker: Option<Picker>,
    backend: ArtworkBackend,
    kind: ArtworkBackendKind,
)
    requires
        call_ensures(ArtworkBackend::from_detected_picker, (mode, picker), backend),
        call_ensures(ArtworkBackend::kind, (&backend,), kind),
    ensures
        backend.stage is Idle,
        kind is Disabled == (mode is Off || (mode is Image && !has_graphics(picker))),
        kind is Halfblocks == (mode is Unicode),
        kind is RatatuiImage == ((mode is Image || mode is Auto) && has_graphics(picker)),
        kind is Ueberzugpp == (mode is Auto && !has_graphics(picker)),
        backend.loader is None == kind is Disabled,
        backend.loader matches Some(l) ==> {
            &&& l.backend == kind
            &&& l.external_fallback == (mode is Auto && has_graphics(picker))
            &&& kind is RatatuiImage ==> l.picker == picker->0
            &&& !(kind is RatatuiImage) ==> terminal::picker_contents(l.picker).halfblocks
                && terminal::picker_contents(l.picker).font == (FontSize { width: 10, height: 20 })
        },
        backend.renderer matches ArtworkRenderer::External { attached, .. } ==> !attached,
{
}

/// Whether the artwork is drawn in half blocks, with the fallback that was
/// prepared for it.
pub open spec fn fell_back(before: ArtworkState, after: ArtworkState) -> bool {
    &&& after.backend is Halfblocks
    &&& after.external_source is None
    &&& !after.native_render_failed
    &&& before.protocol is Some && before.fallback_protocol is Some ==> after.protocol is Some
        && after.protocol->0.inner == before.fallback_protocol
    &&& before.fallback_protocol is None ==> after.protocol == before.protocol
    &&& after.track_index == before.track_index
}

/// Whether actions clean up first, and remove only a file of the session's own.
pub open spec fn cleans(actions: Seq<LayerAction>, source: Option<MaterializedArtwork>) -> bool {
    if source is Some && source->0.policy is PrivateSessionOwned {
        actions == seq![LayerAction::CleanUp, LayerAction::Remove(source->0.path)]
    } else {
        actions == seq![LayerAction::CleanUp]
    }
}

/// External processes are started one after the other: `ueberzugpp`, then original
/// `ueberzug`, then half blocks. The one that runs is selected, noted for the
/// teardown and made known to the artwork.
pub proof fn law_processes_are_started_in_turn(
    starting: &mut ArtworkBackend,
    first: Vec<LayerAction>,
    reporting: &mut ArtworkBackend,
    runs: bool,
    artwork: &mut ArtworkState,
    second: Vec<LayerAction>,
    retrying: &mut ArtworkBackend,
    works: bool,
    shown: &mut ArtworkState,
    third: Vec<LayerAction>,
)
    requires
        call_ensures(ArtworkBackend::start_external, (starting,), first),
        old(starting).renderer matches ArtworkRenderer::External { kind, .. }
            && kind is Ueberzugpp,
        *old(reporting) == *final(starting),
        call_ensures(ArtworkBackend::layer_started, (reporting, runs, artwork), second),
        *old(retrying) == *final(reporting),
        *old(shown) == *final(artwork),
        call_ensures(ArtworkBackend::layer_started, (retrying, works, shown), third),
    ensures
        first@ == seq![LayerAction::SpawnUeberzugpp],
        runs ==> {
            &&& second@ == seq![LayerAction::Register]
            &&& final(reporting).renderer == (ArtworkRenderer::External {
                kind: ArtworkBackendKind::Ueberzugpp,
                attached: true,
            })
            &&& final(reporting).stage is Idle
            &&& final(artwork).backend is Ueberzugpp
            &&& final(artwork).protocol == old(artwork).protocol
        },
        !runs ==> second@ == seq![LayerAction::SpawnUeberzug] && *final(artwork) == *old(artwork),
        !runs && works ==> {
            &&& third@ == seq![LayerAction::Register]
            &&& final(retrying).renderer == (ArtworkRenderer::External {
                kind: ArtworkBackendKind::Ueberzug,
                attached: true,
            })
            &&& final(retrying).stage is Idle
            &&& final(shown).backend is Ueberzug
            &&& final(shown).protocol == old(artwork).protocol
        },
        !runs && !works ==> {
            &&& cleans(third@, old(artwork).external_source)
            &&& fell_back(*old(artwork), *final(shown))
            &&& final(retrying).renderer matches ArtworkRenderer::External { kind, attached }
                && kind is Halfblocks && !attached
            &&& final(retrying).stage is Idle
        },
        final(retrying).loader == old(starting).loader,
{
}

/// No process is started for a renderer that does without.
pub proof fn law_native_renderers_start_nothing(
    starting: &mut ArtworkBackend,
    actions: Vec<LayerAction>,
    drawing: &mut ArtworkBackend,
    artwork: &mut ArtworkState,
    frame: Vec<LayerAction>,
)
    requires
        call_ensures(ArtworkBackend::start_external, (starting,), actions),
        !(old(starting).renderer is External),
        old(starting).renderer matches ArtworkRenderer::Native(kind) ==> kind is RatatuiImage
            || kind is Halfblocks,
        call_ensures(ArtworkBackend::reconcile, (drawing, artwork), frame),
        *old(drawing) == *old(starting),
    ensures
        actions@.len() == 0,
        *final(starting) == *old(starting),
        frame@.len() == 0,
        final(drawing).renderer == old(drawing).renderer,
        *final(artwork) == *old(artwork),
{
}

/// Graphics that fail hand over to an external process if one was prepared for,
/// and to nothing else.
pub proof fn law_failed_graphics_cross_over(
    backend: &mut ArtworkBackend,
    artwork: &mut ArtworkState,
    actions: Vec<LayerAction>,
    kind: ArtworkBackendKind,
)
    requires
        call_ensures(ArtworkBackend::kind, (&*old(backend),), kind),
        call_ensures(ArtworkBackend::report_native_failure, (backend, artwork), actions),
    ensures
        ({
            let prepared = kind is RatatuiImage && old(backend).loader is Some
                && old(backend).loader->0.external_fallback;
            &&& prepared ==> {
                &&& actions@ == seq![LayerAction::SpawnUeberzugpp]
                &&& final(backend).stage is StartingUeberzugpp
                &&& final(artwork).backend is Ueberzugpp
                &&& final(artwork).protocol == old(artwork).protocol
                &&& final(artwork).external_source == old(artwork).external_source
            }
            &&& !prepared ==> actions@.len() == 0 && *final(backend) == *old(backend)
                && *final(artwork) == *old(artwork)
        }),
{
}

/// A layer is asked after each frame. One that is healthy stays; `ueberzugpp` that
/// is not is ended and replaced by original `ueberzug`, which is asked for the
/// same image; and original `ueberzug` that is not ends in half blocks.
pub proof fn law_failed_layers_are_replaced(
    asking: &mut ArtworkBackend,
    artwork: &mut ArtworkState,
    first: Vec<LayerAction>,
    hearing: &mut ArtworkBackend,
    healthy: bool,
    shown: &mut ArtworkState,
    second: Vec<LayerAction>,
    replacing: &mut ArtworkBackend,
    runs: bool,
    replaced: &mut ArtworkState,
    third: Vec<LayerAction>,
    finishing: &mut ArtworkBackend,
    works: bool,
    done: &mut ArtworkState,
    fourth: Vec<LayerAction>,
)
    requires
        old(asking).renderer == (ArtworkRenderer::External {
            kind: ArtworkBackendKind::Ueberzugpp,
            attached: true,
        }),
        call_ensures(ArtworkBackend::reconcile, (asking, artwork), first),
        *old(hearing) == *final(asking),
        *old(shown) == *final(artwork),
        call_ensures(ArtworkBackend::layer_reported, (hearing, healthy, shown), second),
        *old(replacing) == *final(hearing),
        *old(replaced) == *final(shown),
        call_ensures(ArtworkBackend::layer_started, (replacing, runs, replaced), third),
        *old(finishing) == *final(replacing),
        *old(done) == *final(replaced),
        call_ensures(ArtworkBackend::layer_reported, (finishing, works, done), fourth),
    ensures
        first@ == seq![LayerAction::Reconcile],
        *final(artwork) == *old(artwork),
        *final(shown) == *old(artwork),
        healthy ==> second@.len() == 0 && final(hearing).renderer == old(asking).renderer
            && final(hearing).stage is Idle,
        !healthy ==> second@ == seq![LayerAction::CleanUp, LayerAction::SpawnUeberzug],
        !healthy && runs ==> third@ == seq![LayerAction::Register, LayerAction::Reconcile]
            && final(replaced).backend is Ueberzug,
        !healthy && !runs ==> cleans(third@, old(artwork).external_source) && fell_back(
            *old(artwork),
            *final(replaced),
        ),
        !healthy && runs && works ==> {
            &&& fourth@.len() == 0
            &&& final(finishing).renderer == (ArtworkRenderer::External {
                kind: ArtworkBackendKind::Ueberzug,
                attached: true,
            })
            &&& final(finishing).stage is Idle
            &&& final(done).backend is Ueberzug
        },
        !healthy && runs && !works ==> cleans(fourth@, old(artwork).external_source) && fell_back(
            *old(artwork),
            *final(done),
        ),
{
}

/// Original `ueberzug` that fails ends in half blocks at once, and so does a layer
/// that is gone; after that no frame asks for anything.
pub proof fn law_failed_originals_end_in_halfblocks(
    hearing: &mut ArtworkBackend,
    artwork: &mut ArtworkState,
    actions: Vec<LayerAction>,
    later: &mut ArtworkBackend,
    shown: &mut ArtworkState,
    frame: Vec<LayerAction>,
)
    requires
        old(hearing).renderer matches ArtworkRenderer::External { kind, .. } && kind is Ueberzug,
        old(hearing).stage is Reconciling || old(hearing).stage is ReconcilingReplacement,
        call_ensures(ArtworkBackend::layer_reported, (hearing, false, artwork), actions),
        *old(later) == *final(hearing),
        *old(shown) == *final(artwork),
        call_ensures(ArtworkBackend::reconcile, (later, shown), frame),
    ensures
        cleans(actions@, old(artwork).external_source),
        fell_back(*old(artwork), *final(artwork)),
        final(hearing).stage is Idle,
        frame@.len() == 0,
        *final(shown) == *final(artwork),
{
}

/// A session that ends cleans up, and at most one process is ever to be ended: the
/// one that was noted last. An earlier one is handed out to be ended at once.
pub proof fn law_every_process_is_ended(
    ending: &mut ArtworkBackend,
    actions: Vec<LayerAction>,
    noting: &mut ArtworkTeardown<u64>,
    process: u64,
    previous: Option<u64>,
    clearing: &mut ArtworkTeardown<u64>,
    last: Option<u64>,
    again: &mut ArtworkTeardown<u64>,
    nothing: Option<u64>,
)
    requires
        call_ensures(ArtworkBackend::dispose, (ending,), actions),
        call_ensures(ArtworkTeardown::<u64>::register_process, (noting, process), previous),
        *old(clearing) == *final(noting),
        call_ensures(ArtworkTeardown::<u64>::cleanup, (clearing,), last),
        *old(again) == *final(clearing),
        call_ensures(ArtworkTeardown::<u64>::cleanup, (again,), nothing),
    ensures
        actions@ == seq![LayerAction::CleanUp],
        final(ending).renderer matches ArtworkRenderer::External { attached, .. } ==> !attached,
        previous == old(noting).active,
        last == Some(process),
        nothing is None,
{
}

/// A file is removed only if it is the session's own.
pub proof fn law_only_private_files_are_removed(
    policy: ArtworkPathPolicy,
    file: FilePath,
    removed: Option<FilePath>,
    state: &mut ArtworkState,
    cleared: Option<FilePath>,
    ending: ArtworkState,
    last: Option<FilePath>,
)
    requires
        call_ensures(ArtworkPathPolicy::cleanup, (policy, file), removed),
        call_ensures(ArtworkState::clear_external_source, (state,), cleared),
        call_ensures(ArtworkState::dispose, (ending,), last),
    ensures
        removed == if policy is Borrowed || policy is SharedContentAddressedCache {
            None
        } else {
            Some(file)
        },
        final(state).external_source is None,
        final(state).protocol == old(state).protocol,
        old(state).external_source is None ==> cleared is None,
        old(state).external_source matches Some(source) ==> cleared
            == if source.policy is PrivateSessionOwned {
            Some(source.path)
        } else {
            None
        },
        ending.external_source is None ==> last is None,
        ending.external_source matches Some(source) ==> last
            == if source.policy is PrivateSessionOwned {
            Some(source.path)
        } else {
            None
        },
{
}

/// The artwork is told the renderer that is selected, and nothing else.
pub proof fn law_artwork_is_told_its_renderer(
    backend: &ArtworkBackend,
    artwork: &mut ArtworkState,
    kind: ArtworkBackendKind,
    external: bool,
)
    requires
        call_ensures(ArtworkBackend::synchronize_state, (backend, artwork), ()),
        call_ensures(ArtworkBackend::kind, (backend,), kind),
        call_ensures(ArtworkBackendKind::uses_external_layer, (kind,), external),
    ensures
        final(artwork).backend == kind,
        final(artwork).protocol == old(artwork).protocol,
        final(artwork).enabled == old(artwork).enabled,
        external == !(kind is Disabled || kind is RatatuiImage || kind is Halfblocks),
        backend.renderer is Disabled ==> kind is Disabled,
        backend.renderer matches ArtworkRenderer::Native(native) ==> kind == native,
        backend.renderer matches ArtworkRenderer::External { kind: outside, .. } ==> kind == outside,
{
}

/// A cover that is replaced or dropped is not what was asked for any more: its
/// number changes and nothing is pending.
pub proof fn law_replaced_covers_are_not_awaited(
    replacing: &mut ArtworkThreadProtocol,
    fresh: StatefulProtocol,
    limit: Size,
    dropping: &mut ArtworkThreadProtocol,
    late: ResizeResponse,
    after: &mut ArtworkThreadProtocol,
    outcome: ResizeOutcome,
)
    requires
        call_ensures(ArtworkThreadProtocol::replace_protocol, (replacing, fresh, limit), ()),
        call_ensures(ArtworkThreadProtocol::empty_protocol, (dropping,), ()),
        *old(after) == *final(dropping) || *old(after) == *final(replacing),
        call_ensures(ArtworkThreadProtocol::update_resized_protocol, (after, late), outcome),
    ensures
        final(replacing).inner == Some(fresh),
        final(replacing).resize_target == limit,
        final(replacing).last_encoded_target is None,
        !final(replacing).worker_failed,
        final(replacing).generation != old(replacing).generation,
        final(dropping).inner is None,
        final(dropping).generation != old(dropping).generation,
        outcome is Stale,
        *final(after) == *old(after),
{
}

/// A failure of the worker is told once, its own before one of an answer.
pub proof fn law_worker_failures_are_told_once(
    p: &mut ArtworkThreadProtocol,
    unanswered: &mut bool,
    failed: bool,
    again: &mut ArtworkThreadProtocol,
    still: &mut bool,
    second: bool,
    third: &mut ArtworkThreadProtocol,
    quiet: &mut bool,
    last: bool,
)
    requires
        call_ensures(ArtworkThreadProtocol::take_worker_failure, (p, unanswered), failed),
        *old(again) == *final(p),
        *old(still) == *final(unanswered),
        call_ensures(ArtworkThreadProtocol::take_worker_failure, (again, still), second),
        *old(third) == *final(again),
        *old(quiet) == *final(still),
        call_ensures(ArtworkThreadProtocol::take_worker_failure, (third, quiet), last),
    ensures
        failed == (old(p).worker_failed || *old(unanswered)),
        second == (old(p).worker_failed && *old(unanswered)),
        !last,
        final(p).inner == old(p).inner,
{
}

/// A protocol is handed out whole, under a new number, for the area that was asked
/// for, cut to the limit; while it is away nothing is.
pub proof fn law_protocols_are_handed_out_whole(
    p: &mut ArtworkThreadProtocol,
    area: Size,
    request: Option<ResizeRequest>,
    size: Size,
)
    requires
        call_ensures(ArtworkThreadProtocol::resize_encode, (p, area), request),
        call_ensures(ArtworkThreadProtocol::bounded_target, (&*old(p), area), size),
        old(p).resize_target.width >= 1,
        old(p).resize_target.height >= 1,
    ensures
        size == clipped(area, old(p).resize_target),
        request is Some == old(p).inner is Some,
        request matches Some(r) ==> {
            &&& r.protocol == old(p).inner->0
            &&& r.target == size
            &&& r.generation == final(p).generation
            &&& r.generation != old(p).generation
            &&& final(p).inner is None
        },
        request is None ==> *final(p) == *old(p),
{
}

/// Reports that nobody asked for change nothing.
pub proof fn law_unexpected_reports_change_nothing(
    starting: &mut ArtworkBackend,
    started: bool,
    artwork: &mut ArtworkState,
    first: Vec<LayerAction>,
    hearing: &mut ArtworkBackend,
    healthy: bool,
    shown: &mut ArtworkState,
    second: Vec<LayerAction>,
)
    requires
        old(starting).stage is Idle,
        call_ensures(ArtworkBackend::layer_started, (starting, started, artwork), first),
        old(hearing).stage is Idle,
        call_ensures(ArtworkBackend::layer_reported, (hearing, healthy, shown), second),
    ensures
        first@.len() == 0,
        final(starting).renderer == old(starting).renderer,
        *final(artwork) == *old(artwork),
        second@.len() == 0,
        final(hearing).renderer == old(hearing).renderer,
        *final(shown) == *old(shown),
{
}

/// A fresh cover is at hand, asks for nothing yet, and never grows beyond its limit.
pub proof fn law_fresh_covers_are_at_hand(
    protocol: StatefulProtocol,
    limit: Size,
    bounded: ArtworkProtocol,
    plain: ArtworkProtocol,
)
    requires
        call_ensures(ArtworkProtocol::with_target, (protocol, limit), bounded),
        call_ensures(ArtworkProtocol::new, (protocol,), plain),
    ensures
        bounded.protocol.inner == Some(protocol),
        bounded.protocol.resize_target == limit,
        bounded.protocol.pending is None && bounded.protocol.last_encoded_target is None,
        bounded.fallback_protocol is None && bounded.external_source is None,
        plain.protocol == (ArtworkThreadProtocol {
            resize_target: Size { width: 102, height: 51 },
            ..bounded.protocol
        }),
        plain.fallback_protocol is None && plain.external_source is None,
{
}

/// A request that the queue took is shown as on its way, and is what the cover waits
/// for.
pub proof fn law_accepted_requests_are_awaited(
    state: &mut ArtworkState,
    generation: u64,
    target: Size,
    unanswered: &mut bool,
)
    requires
        old(state).protocol is Some,
        !old(state).protocol->0.worker_failed,
        !*old(unanswered),
        call_ensures(
            ArtworkState::resize_submitted,
            (state, Submission::Accepted { generation, target }, unanswered),
            (),
        ),
    ensures
        final(state).resize_state == (ResizeLifecycle::Submitted { generation, target }),
        final(state).protocol->0.pending == Some((generation, target)),
        final(state).protocol->0.inner == old(state).protocol->0.inner,
        final(state).native_render_failed == old(state).native_render_failed,
{
}

/// A layer that is missing when a frame needs it has failed: `ueberzugpp` is replaced,
/// and original `ueberzug` ends in half blocks.
pub proof fn law_missing_layers_have_failed(
    backend: &mut ArtworkBackend,
    kind: ArtworkBackendKind,
    artwork: &mut ArtworkState,
    actions: Vec<LayerAction>,
)
    requires
        old(backend).renderer == (ArtworkRenderer::External { kind, attached: false }),
        kind is Ueberzugpp || kind is Ueberzug,
        call_ensures(ArtworkBackend::reconcile, (backend, artwork), actions),
    ensures
        kind is Ueberzugpp ==> actions@ == seq![LayerAction::CleanUp, LayerAction::SpawnUeberzug]
            && *final(artwork) == *old(artwork) && final(backend).stage is Replacing,
        kind is Ueberzug ==> cleans(actions@, old(artwork).external_source) && fell_back(
            *old(artwork),
            *final(artwork),
        ) && final(backend).stage is Idle,
{
}

/// A target without cells is not encoded: the request is marked failed, unless an
/// earlier outcome was never asked for, which is then its answer.
pub proof fn law_targets_without_cells_are_not_encoded(request: ResizeRequest, step: WorkerStep)
    requires
        request.target.width == 0 || request.target.height == 0,
        call_ensures(protocol::worker_step, (Received::Request(request), false), step),
    ensures
        ({
            let before = terminal::protocol_contents(request.protocol);
            &&& before.outcome is None ==> step is MarkFailed
            &&& before.outcome is Some ==> {
                &&& step matches WorkerStep::Answer(answer)
                &&& answer.generation == request.generation
                &&& answer.target == request.target
                &&& answer.result is Ok == before.outcome->0
                &&& answer.result matches Ok(same) ==> {
                    let after = terminal::protocol_contents(same);
                    after.picture == before.picture && after.area == before.area
                }
            }
        }),
{
}

} // verus!
