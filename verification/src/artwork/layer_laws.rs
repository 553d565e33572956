//! Promises that external layers keep from one call to the next.
//!
//! Each law is about the calls themselves: what a call may return and how it
//! may change the value that it is made on.
use crate::artwork::layer::{LayerPipe, LayerStep, ProcessStatus, SendOutcome};
use crate::artwork::overlay;
use crate::artwork::overlay::ArtworkOverlay;
use crate::artwork::ueberzug;
use crate::artwork::ueberzug::{CoordinateCalibration, RefreshStep, RoundedArea};
use crate::artwork::ueberzugpp;
use crate::digest;
use crate::geometry::Rect;
use crate::json;
use crate::json::JsonMember;
use crate::path;
use serde_json::Value;
use vstd::bytes::*;
use vstd::math;
use vstd::prelude::*;
use vstd::utf8::*;

verus! {

/// Whether a step writes one command.
pub open spec fn writes(step: LayerStep, command: Map<Seq<char>, JsonMember>) -> bool {
    step matches LayerStep::Send(line) && line@ == json::object_bytes(command).push(10u8)
}

/// Command that takes an image off the terminal.
pub open spec fn removal(identifier: Seq<char>) -> Map<Seq<char>, JsonMember> {
    map![
        "action"@ => JsonMember::Text("remove"@),
        "identifier"@ => JsonMember::Text(identifier),
    ]
}

/// Command that puts an image on the terminal.
pub open spec fn addition(image: ArtworkOverlay, area: Rect, scaler: Seq<char>) -> Map<
    Seq<char>,
    JsonMember,
> {
    map![
        "action"@ => JsonMember::Text("add"@),
        "identifier"@ => JsonMember::Text(image.identifier@),
        "path"@ => JsonMember::Text(decode_utf8(image.path@)),
        "x"@ => JsonMember::Number(area.x as nat),
        "y"@ => JsonMember::Number(area.y as nat),
        "width"@ => JsonMember::Number(area.width as nat),
        "height"@ => JsonMember::Number(area.height as nat),
        "scaler"@ => JsonMember::Text(scaler),
    ]
}

/// Whether two overlays agree in everything that they hold.
pub open spec fn agree(a: ArtworkOverlay, b: ArtworkOverlay) -> bool {
    &&& a.identifier@ == b.identifier@
    &&& a.rect == b.rect
    &&& path::rooted(a.path@) == path::rooted(b.path@)
    &&& path::dotted(a.path@) == path::dotted(b.path@)
    &&& path::named(a.path@) == path::named(b.path@)
}

/// Overlays are taken for unchanged if both are there and agree, or if neither is
/// there, and in no other case.
pub proof fn law_unchanged_overlays_agree(
    a: &Option<ArtworkOverlay>,
    b: &Option<ArtworkOverlay>,
    same: bool,
)
    requires
        call_ensures(overlay::unchanged, (a, b), same),
    ensures
        same == ((a is None && b is None) || (a is Some && b is Some && agree(a->0, b->0))),
{
}

/// An overlay holds what it was made of, and its place is not part of its name.
pub proof fn law_overlays_hold_what_they_are_made_of(
    index: usize,
    file: path::FilePath,
    rect: Rect,
    made: ArtworkOverlay,
    elsewhere: Rect,
    moved: ArtworkOverlay,
)
    requires
        call_ensures(ArtworkOverlay::new, (index, file, rect), made),
        call_ensures(ArtworkOverlay::new, (index, file, elsewhere), moved),
    ensures
        made.path == file,
        made.rect == rect,
        made.identifier@ == moved.identifier@,
{
}

/// An image on display is removed, by its own name, as soon as none is desired.
pub proof fn law_undesired_images_are_removed(
    manager: &mut ueberzugpp::Manager,
    step: LayerStep,
    replying: &mut ueberzugpp::Manager,
    next: LayerStep,
)
    requires
        call_ensures(
            ueberzugpp::Manager::reconcile,
            (manager, None::<ArtworkOverlay>, ProcessStatus::Running),
            step,
        ),
        old(manager).pipe.enabled,
        old(manager).pipe.stage is Idle,
        old(manager).pipe.active is Some,
        *old(replying) == *final(manager),
        call_ensures(ueberzugpp::Manager::sent, (replying, SendOutcome::Sent), next),
    ensures
        writes(step, removal(old(manager).pipe.active->0.identifier@)),
        final(manager).pipe.active is None,
        next is Rest,
        final(replying).pipe.active is None,
        final(replying).pipe.stage is Idle,
        final(replying).pipe.enabled,
{
}

/// An image on display is removed, by its own name, as soon as none is desired.
pub proof fn law_undesired_images_are_removed_by_the_original(
    manager: &mut ueberzug::Manager,
    rounded: RoundedArea,
    refresh: RefreshStep,
    step: LayerStep,
    replying: &mut ueberzug::Manager,
    next: LayerStep,
)
    requires
        call_ensures(
            ueberzug::Manager::reconcile,
            (manager, None::<ArtworkOverlay>, rounded, refresh, ProcessStatus::Running),
            step,
        ),
        !(refresh is Unusable),
        old(manager).pipe.enabled,
        old(manager).pipe.stage is Idle,
        old(manager).pipe.active is Some,
        *old(replying) == *final(manager),
        call_ensures(ueberzug::Manager::sent, (replying, SendOutcome::Sent), next),
    ensures
        writes(step, removal(old(manager).pipe.active->0.identifier@)),
        final(manager).pipe.active is None,
        next is Rest,
        final(replying).pipe.active is None,
        final(replying).pipe.stage is Idle,
        final(replying).pipe.enabled,
{
}

/// Whether a display shows what is desired.
pub open spec fn displays(pipe: LayerPipe, desired: Option<ArtworkOverlay>) -> bool {
    match desired {
        Some(image) => pipe.active is Some && agree(pipe.active->0, image),
        None => pipe.active is None,
    }
}

/// Once everything was sent, the display shows what is desired, whatever it
/// showed before. No more than two commands are needed.
pub proof fn law_the_display_follows_what_is_desired(
    manager: &mut ueberzugpp::Manager,
    desired: Option<ArtworkOverlay>,
    first: LayerStep,
    replying: &mut ueberzugpp::Manager,
    second: LayerStep,
    closing: &mut ueberzugpp::Manager,
    third: LayerStep,
)
    requires
        old(manager).pipe.enabled,
        old(manager).pipe.stage is Idle,
        call_ensures(
            ueberzugpp::Manager::reconcile,
            (manager, desired, ProcessStatus::Running),
            first,
        ),
        *old(replying) == *final(manager),
        call_ensures(ueberzugpp::Manager::sent, (replying, SendOutcome::Sent), second),
        *old(closing) == *final(replying),
        call_ensures(ueberzugpp::Manager::sent, (closing, SendOutcome::Sent), third),
    ensures
        displays(final(closing).pipe, desired),
        final(closing).pipe.stage is Idle,
        final(closing).pipe.enabled,
        third is Rest,
        // Without a change nothing is sent
        displays(old(manager).pipe, desired) ==> first is Rest && *final(manager) == *old(manager),
        !displays(old(manager).pipe, desired) ==> first is Send,
        // The previous image goes first
        !displays(old(manager).pipe, desired) && old(manager).pipe.active is Some ==> writes(
            first,
            removal(old(manager).pipe.active->0.identifier@),
        ),
        old(manager).pipe.active is Some && desired is Some && !displays(
            old(manager).pipe,
            desired,
        ) ==> writes(second, addition(desired->0, desired->0.rect, scaler_of(*old(manager)))),
        old(manager).pipe.active is None && desired is Some ==> writes(
            first,
            addition(desired->0, desired->0.rect, scaler_of(*old(manager))),
        ) && second is Rest,
{
}

/// Name of the scaler of a conversation.
pub open spec fn scaler_of(manager: ueberzugpp::Manager) -> Seq<char> {
    if manager.pipe.scaler is FitContain {
        "fit_contain"@
    } else {
        "contain"@
    }
}

/// A number cut to a range.
pub open spec fn cut(value: int, low: int, high: int) -> int {
    math::max(low, math::min(value, high))
}

/// Original `ueberzug` shows what is desired once everything was sent. Images are
/// placed where the correction puts them, and in their own area without one.
pub proof fn law_the_original_display_follows_what_is_desired(
    manager: &mut ueberzug::Manager,
    desired: Option<ArtworkOverlay>,
    rounded: RoundedArea,
    refresh: RefreshStep,
    first: LayerStep,
    replying: &mut ueberzug::Manager,
    second: LayerStep,
    closing: &mut ueberzug::Manager,
    third: LayerStep,
    area: Rect,
)
    requires
        old(manager).pipe.enabled,
        old(manager).pipe.stage is Idle,
        old(manager).pipe.scaler is Contain,
        !(refresh is Unusable),
        call_ensures(
            ueberzug::Manager::reconcile,
            (manager, desired, rounded, refresh, ProcessStatus::Running),
            first,
        ),
        *old(replying) == *final(manager),
        call_ensures(ueberzug::Manager::sent, (replying, SendOutcome::Sent), second),
        *old(closing) == *final(replying),
        call_ensures(ueberzug::Manager::sent, (closing, SendOutcome::Sent), third),
        desired matches Some(image) ==> if old(manager).calibration matches Some(
            CoordinateCalibration::Padding { .. },
        ) {
            &&& area.x == cut(rounded.x as int, 0, 65535)
            &&& area.y == cut(rounded.y as int, 0, 65535)
            &&& area.width == cut(rounded.width as int, math::min(image.rect.width as int, 1), 65535)
            &&& area.height == cut(
                rounded.height as int,
                math::min(image.rect.height as int, 1),
                65535,
            )
        } else {
            area == image.rect
        },
    ensures
        displays(final(closing).pipe, desired),
        final(closing).pipe.stage is Idle,
        final(closing).pipe.enabled,
        third is Rest,
        displays(old(manager).pipe, desired) ==> first is Rest && *final(manager) == *old(manager),
        !displays(old(manager).pipe, desired) && old(manager).pipe.active is Some ==> writes(
            first,
            removal(old(manager).pipe.active->0.identifier@),
        ),
        old(manager).pipe.active is Some && desired is Some && !displays(
            old(manager).pipe,
            desired,
        ) ==> writes(second, addition(desired->0, area, "contain"@)),
        old(manager).pipe.active is None && desired is Some ==> writes(
            first,
            addition(desired->0, area, "contain"@),
        ) && second is Rest,
        final(closing).calibration == old(manager).calibration,
{
}

/// A process that does not run any more disables its layer, for good, without a
/// command; and a disabled layer does nothing.
pub proof fn law_layers_without_a_process_are_disabled(
    manager: &mut ueberzugpp::Manager,
    desired: Option<ArtworkOverlay>,
    status: ProcessStatus,
    step: LayerStep,
    later: &mut ueberzugpp::Manager,
    other: Option<ArtworkOverlay>,
    whenever: ProcessStatus,
    next: LayerStep,
)
    requires
        call_ensures(ueberzugpp::Manager::reconcile, (manager, desired, status), step),
        old(manager).pipe.stage is Idle,
        status is Exited || status is Unknown || !old(manager).pipe.enabled,
        *old(later) == *final(manager),
        call_ensures(ueberzugpp::Manager::reconcile, (later, other, whenever), next),
    ensures
        !(step is Send),
        step is Disable == old(manager).pipe.enabled,
        !final(manager).pipe.enabled,
        next is Rest,
        *final(later) == *final(manager),
{
}

/// A process that does not run any more, or a correction that cannot be had,
/// disables original `ueberzug` for good, without a command.
pub proof fn law_unusable_originals_are_disabled(
    manager: &mut ueberzug::Manager,
    desired: Option<ArtworkOverlay>,
    rounded: RoundedArea,
    refresh: RefreshStep,
    status: ProcessStatus,
    step: LayerStep,
    later: &mut ueberzug::Manager,
    other: Option<ArtworkOverlay>,
    again: RoundedArea,
    retry: RefreshStep,
    whenever: ProcessStatus,
    next: LayerStep,
)
    requires
        call_ensures(ueberzug::Manager::reconcile, (manager, desired, rounded, refresh, status), step),
        old(manager).pipe.stage is Idle,
        status is Exited || status is Unknown || refresh is Unusable || !old(manager).pipe.enabled,
        *old(later) == *final(manager),
        call_ensures(ueberzug::Manager::reconcile, (later, other, again, retry, whenever), next),
    ensures
        !(step is Send),
        step is Disable == old(manager).pipe.enabled,
        !final(manager).pipe.enabled,
        next is Rest,
        *final(later) == *final(manager),
{
}

/// A command that did not get through disables the layer, and nothing is on
/// display for it.
pub proof fn law_failed_commands_disable_the_layer(
    manager: &mut ueberzugpp::Manager,
    step: LayerStep,
    original: &mut ueberzug::Manager,
    other: LayerStep,
)
    requires
        call_ensures(ueberzugpp::Manager::sent, (manager, SendOutcome::Failed), step),
        !(old(manager).pipe.stage is Idle),
        call_ensures(ueberzug::Manager::sent, (original, SendOutcome::Failed), other),
        !(old(original).pipe.stage is Idle),
    ensures
        step is Disable,
        !final(manager).pipe.enabled,
        final(manager).pipe.active == old(manager).pipe.active,
        other is Disable,
        !final(original).pipe.enabled,
        final(original).pipe.active == old(original).pipe.active,
{
}

/// A command whose fate is unknown leaves the layer enabled and the display
/// empty, so that the next frame tries again.
pub proof fn law_unknown_fates_are_tried_again(
    manager: &mut ueberzugpp::Manager,
    step: LayerStep,
    original: &mut ueberzug::Manager,
    other: LayerStep,
)
    requires
        call_ensures(ueberzugpp::Manager::sent, (manager, SendOutcome::Unknown), step),
        old(manager).pipe.stage is Adding || old(manager).pipe.stage is Removing,
        call_ensures(ueberzug::Manager::sent, (original, SendOutcome::Unknown), other),
        old(original).pipe.stage is Adding || old(original).pipe.stage is Removing,
    ensures
        step is Rest,
        final(manager).pipe.enabled == old(manager).pipe.enabled,
        final(manager).pipe.active == old(manager).pipe.active,
        final(manager).pipe.stage is Idle,
        other is Rest,
        final(original).pipe.enabled == old(original).pipe.enabled,
        final(original).pipe.active == old(original).pipe.active,
        final(original).pipe.stage is Idle,
{
}

/// A conversation that ends takes its image off the terminal, and is disabled
/// whatever becomes of that command.
pub proof fn law_ended_conversations_leave_nothing_behind(
    manager: &mut ueberzugpp::Manager,
    step: LayerStep,
    replying: &mut ueberzugpp::Manager,
    outcome: SendOutcome,
    next: LayerStep,
)
    requires
        call_ensures(ueberzugpp::Manager::cleanup_layer, (manager,), step),
        *old(replying) == *final(manager),
        call_ensures(ueberzugpp::Manager::sent, (replying, outcome), next),
    ensures
        old(manager).pipe.active matches Some(image) ==> {
            &&& writes(step, removal(image.identifier@))
            &&& next is Disable
            &&& !final(replying).pipe.enabled
            &&& final(replying).pipe.active is None
        },
        old(manager).pipe.active is None ==> step is Disable && !final(manager).pipe.enabled,
{
}

/// A conversation that ends takes its image off the terminal, and is disabled
/// whatever becomes of that command.
pub proof fn law_ended_originals_leave_nothing_behind(
    manager: &mut ueberzug::Manager,
    step: LayerStep,
    replying: &mut ueberzug::Manager,
    outcome: SendOutcome,
    next: LayerStep,
)
    requires
        call_ensures(ueberzug::Manager::cleanup_layer, (manager,), step),
        *old(replying) == *final(manager),
        call_ensures(ueberzug::Manager::sent, (replying, outcome), next),
    ensures
        old(manager).pipe.active matches Some(image) ==> {
            &&& writes(step, removal(image.identifier@))
            &&& next is Disable
            &&& !final(replying).pipe.enabled
            &&& final(replying).pipe.active is None
        },
        old(manager).pipe.active is None ==> step is Disable && !final(manager).pipe.enabled,
{
}

/// Conversations start enabled, with nothing on display, each with the scaler
/// that its program knows.
pub proof fn law_conversations_start_empty(
    plus: ueberzugpp::Manager,
    plain: ueberzug::Manager,
    metrics: ueberzug::TerminalMetrics,
    calibration: CoordinateCalibration,
    corrected: ueberzug::Manager,
)
    requires
        call_ensures(ueberzugpp::Manager::new, (), plus),
        call_ensures(ueberzug::Manager::new, (), plain),
        call_ensures(ueberzug::Manager::calibrated, (metrics, calibration), corrected),
    ensures
        plus.pipe.enabled && plus.pipe.active is None && plus.pipe.stage is Idle,
        scaler_of(plus) == "fit_contain"@,
        plain.pipe.enabled && plain.pipe.active is None && plain.pipe.stage is Idle,
        plain.pipe.scaler is Contain,
        corrected.pipe == plain.pipe,
        plain.calibration is None && !plain.refresh_calibration,
        corrected.calibration == Some(calibration) && corrected.refresh_calibration,
        corrected.metrics == Some(metrics),
{
}

/// The name of an overlay is a digest of its track and of its file, so it tells
/// neither.
pub proof fn law_overlays_are_named_by_a_digest(
    index: usize,
    file: path::FilePath,
    rect: Rect,
    made: ArtworkOverlay,
)
    requires
        call_ensures(ArtworkOverlay::new, (index, file, rect), made),
        valid_utf8(file@),
    ensures
        made.identifier@ == "harmonium-artwork-"@ + digest::hex_text(
            digest::sha256(spec_u64_to_le_bytes(index as u64) + encode_utf8(decode_utf8(file@))),
        ),
{
}

/// Commands say what they are for: an image is shown in its own area, or in a
/// corrected one, with the scaler that the program knows, and removed by its name.
pub proof fn law_commands_say_what_they_are_for(
    image: &ArtworkOverlay,
    area: Rect,
    plus: Value,
    original: Value,
    corrected: Value,
    name: &str,
    gone: Value,
    removed: Value,
)
    requires
        call_ensures(ueberzugpp::add_command, (image,), plus),
        call_ensures(ueberzug::add_command, (image,), original),
        call_ensures(ueberzug::add_command_with_area, (image, area), corrected),
        call_ensures(ueberzugpp::remove_command, (name,), gone),
        call_ensures(ueberzug::remove_command, (name,), removed),
    ensures
        json::object_members(plus) == Some(addition(*image, image.rect, "fit_contain"@)),
        json::object_members(original) == Some(addition(*image, image.rect, "contain"@)),
        json::object_members(corrected) == Some(addition(*image, area, "contain"@)),
        json::object_members(gone) == Some(removal(name@)),
        json::object_members(removed) == Some(removal(name@)),
{
}

/// While a command is on its way, nothing else is sent.
pub proof fn law_one_command_at_a_time(
    manager: &mut ueberzugpp::Manager,
    desired: Option<ArtworkOverlay>,
    status: ProcessStatus,
    step: LayerStep,
    idle: &mut ueberzugpp::Manager,
    outcome: SendOutcome,
    nothing: LayerStep,
)
    requires
        call_ensures(ueberzugpp::Manager::reconcile, (manager, desired, status), step),
        !(old(manager).pipe.stage is Idle),
        call_ensures(ueberzugpp::Manager::sent, (idle, outcome), nothing),
        old(idle).pipe.stage is Idle,
    ensures
        step is Rest,
        *final(manager) == *old(manager),
        nothing is Rest,
        *final(idle) == *old(idle),
{
}

} // verus!
