//! Images drawn by `ueberzugpp`.
use crate::artwork::layer;
use crate::artwork::layer::{LayerPipe, LayerStep, ProcessStatus, Scaler, SendOutcome};
use crate::artwork::overlay;
use crate::artwork::overlay::ArtworkOverlay;
use crate::geometry::Rect;
use crate::json;
use serde_json::Value;
use vstd::prelude::*;
use vstd::utf8::*;

verus! {

/// Program that draws the images.
pub const PROGRAM: &'static str = "ueberzugpp";

/// Arguments that make it read commands.
pub fn arguments() -> (list: Vec<&'static str>)
    ensures
        list@ == seq!["layer"],
{
    vec!["layer"]
}

/// Build the command that shows an image.
pub fn add_command(overlay: &ArtworkOverlay) -> (command: Value)
    requires
        valid_utf8(overlay.path@),
    ensures
        json::object_members(command) == Some(
            layer::show_members(*overlay, overlay.rect, Scaler::FitContain),
        ),
{
    overlay::build_add_command(overlay, overlay.rect, layer::scaler_name(Scaler::FitContain))
}

/// Build the command that removes an image.
pub fn remove_command(identifier: &str) -> (command: Value)
    ensures
        json::object_members(command) == Some(overlay::remove_members(identifier@)),
{
    overlay::build_remove_command(identifier)
}

/// Area that an image is drawn in: its own.
pub open spec fn own_area(desired: Option<ArtworkOverlay>) -> Rect {
    match desired {
        Some(image) => image.rect,
        None => Rect { x: 0, y: 0, width: 0, height: 0 },
    }
}

/// Conversation with `ueberzugpp`.
pub struct Manager {
    pub pipe: LayerPipe,
}

impl Manager {
    /// Start a conversation with a process that runs.
    pub fn new() -> (manager: Self)
        ensures
            manager.pipe == (LayerPipe {
                scaler: Scaler::FitContain,
                active: None,
                enabled: true,
                stage: layer::LayerStage::Idle,
            }),
    {
        Manager { pipe: LayerPipe::new(Scaler::FitContain) }
    }

    /// Whether commands can still be sent.
    pub fn is_enabled(&self) -> (enabled: bool)
        ensures
            enabled == self.pipe.enabled,
    {
        self.pipe.enabled
    }

    /// Make the desired image known after a frame was drawn.
    pub fn reconcile(&mut self, desired: Option<ArtworkOverlay>, status: ProcessStatus) -> (step:
        LayerStep)
        requires
            layer::printable(layer::added_at_once(old(self).pipe, desired, status)),
        ensures
            final(self).pipe == layer::reconciled(
                old(self).pipe,
                desired,
                own_area(desired),
                status,
            ),
            layer::reconciles(old(self).pipe, desired, own_area(desired), status, step),
    {
        let area = match &desired {
            Some(image) => image.rect,
            None => Rect { x: 0, y: 0, width: 0, height: 0 },
        };
        self.pipe.reconcile(desired, area, status)
    }

    /// Report how sending a command went.
    pub fn sent(&mut self, outcome: SendOutcome) -> (step: LayerStep)
        requires
            layer::printable(layer::added_next(old(self).pipe, outcome)),
        ensures
            final(self).pipe == layer::acknowledged(old(self).pipe, outcome),
            layer::follows(old(self).pipe, outcome, step),
    {
        self.pipe.sent(outcome)
    }

    /// End the conversation.
    pub fn cleanup_layer(&mut self) -> (step: LayerStep)
        ensures
            layer::cleans_up(old(self).pipe, final(self).pipe, step),
    {
        self.pipe.cleanup_layer()
    }
}

} // verus!
