//! Conversation with an external process that draws images.
//!
//! The process reads one command per line. At most one image is shown: another
//! one is added only after the previous one was removed. The caller owns the
//! process and its pipe, sends what a step says, and reports how it went.
use crate::artwork::overlay;
use crate::artwork::overlay::ArtworkOverlay;
use crate::geometry::Rect;
use crate::json;
use crate::json::JsonMember;
use vstd::prelude::*;
use vstd::utf8::*;

verus! {

/// How an image is scaled into its area.
#[derive(Debug, Clone, Copy, PartialEq, Eq, Structural)]
pub enum Scaler {
    /// Name of `ueberzugpp`.
    FitContain,
    /// Name of original `ueberzug`.
    Contain,
}

/// Name of a scaler in a command.
pub open spec fn scaler_text(scaler: Scaler) -> Seq<char> {
    match scaler {
        Scaler::FitContain => "fit_contain"@,
        Scaler::Contain => "contain"@,
    }
}

/// Name of a scaler in a command.
pub fn scaler_name(scaler: Scaler) -> (name: &'static str)
    ensures
        name@ == scaler_text(scaler),
{
    match scaler {
        Scaler::FitContain => "fit_contain",
        Scaler::Contain => "contain",
    }
}

/// State of the process, as far as it can be told.
#[derive(Debug, Clone, Copy, PartialEq, Eq, Structural)]
pub enum ProcessStatus {
    Running,
    Exited,
    Unknown,
}

/// How sending a command went.
#[derive(Debug, Clone, Copy, PartialEq, Eq, Structural)]
pub enum SendOutcome {
    /// The command was written and flushed.
    Sent,
    /// The process is gone, or the pipe is.
    Failed,
    /// It could not be told whether the process still runs; nothing was written.
    Unknown,
}

/// What the caller has to do.
pub enum LayerStep {
    /// Nothing.
    Rest,
    /// Write a line to the pipe and report with [`LayerPipe::sent`].
    Send(Vec<u8>),
    /// Close the pipe and end the process.
    Disable,
}

/// What the conversation waits for.
pub enum LayerStage {
    /// Nothing.
    Idle,
    /// The previous image is being removed; this one comes next.
    Removing(Option<(ArtworkOverlay, Rect)>),
    /// This image is being added.
    Adding(ArtworkOverlay),
    /// The last image is being removed before the end.
    Closing,
}

/// A conversation.
pub struct LayerPipe {
    pub scaler: Scaler,
    /// Image on display.
    pub active: Option<ArtworkOverlay>,
    /// Whether commands can still be sent.
    pub enabled: bool,
    pub stage: LayerStage,
}

/// Members of the command that shows an image.
pub open spec fn show_members(image: ArtworkOverlay, area: Rect, scaler: Scaler) -> Map<
    Seq<char>,
    JsonMember,
> {
    overlay::add_members(
        image.identifier@,
        decode_utf8(image.path@),
        area,
        scaler_text(scaler),
    )
}

/// Conversation after the desired image was made known.
pub open spec fn reconciled(
    p: LayerPipe,
    desired: Option<ArtworkOverlay>,
    area: Rect,
    status: ProcessStatus,
) -> LayerPipe {
    if !p.enabled || !(p.stage is Idle) {
        p
    } else if status != ProcessStatus::Running {
        LayerPipe { enabled: false, ..p }
    } else if overlay::same_placement(p.active, desired) {
        p
    } else if p.active is Some {
        LayerPipe {
            active: None,
            stage: LayerStage::Removing(
                match desired {
                    Some(next) => Some((next, area)),
                    None => None,
                },
            ),
            ..p
        }
    } else {
        LayerPipe { stage: LayerStage::Adding(desired->0), ..p }
    }
}

/// Whether a step is what the desired image asks for.
pub open spec fn reconciles(
    p: LayerPipe,
    desired: Option<ArtworkOverlay>,
    area: Rect,
    status: ProcessStatus,
    step: LayerStep,
) -> bool {
    if !p.enabled || !(p.stage is Idle) {
        step is Rest
    } else if status != ProcessStatus::Running {
        step is Disable
    } else if overlay::same_placement(p.active, desired) {
        step is Rest
    } else if p.active is Some {
        sends(step, overlay::remove_members(p.active->0.identifier@))
    } else {
        sends(step, show_members(desired->0, area, p.scaler))
    }
}

/// Image whose command is built as soon as it is desired.
pub open spec fn added_at_once(
    p: LayerPipe,
    desired: Option<ArtworkOverlay>,
    status: ProcessStatus,
) -> Option<ArtworkOverlay> {
    if p.enabled && p.stage is Idle && status == ProcessStatus::Running && p.active is None {
        desired
    } else {
        None
    }
}

/// Image whose command is built after a command was sent.
pub open spec fn added_next(p: LayerPipe, outcome: SendOutcome) -> Option<ArtworkOverlay> {
    match (p.stage, outcome) {
        (LayerStage::Removing(Some((image, _))), SendOutcome::Sent) => Some(image),
        _ => None,
    }
}

/// Whether a command can hold the path of an image, if there is one.
pub open spec fn printable(image: Option<ArtworkOverlay>) -> bool {
    image matches Some(shown) ==> valid_utf8(shown.path@)
}

/// Whether a conversation ends as it should: the image on display is removed
/// first, and without one the conversation is over.
pub open spec fn cleans_up(before: LayerPipe, after: LayerPipe, step: LayerStep) -> bool {
    match before.active {
        Some(image) => {
            &&& after == (LayerPipe { active: None, stage: LayerStage::Closing, ..before })
            &&& sends(step, overlay::remove_members(image.identifier@))
        },
        None => {
            &&& after == (LayerPipe { enabled: false, ..before })
            &&& step is Disable
        },
    }
}

/// Whether a step sends a command.
pub open spec fn sends(step: LayerStep, members: Map<Seq<char>, JsonMember>) -> bool {
    step matches LayerStep::Send(line) && line@ == json::object_line(members)
}

/// Conversation after a command was sent.
pub open spec fn acknowledged(p: LayerPipe, outcome: SendOutcome) -> LayerPipe {
    match p.stage {
        LayerStage::Idle => p,
        LayerStage::Closing => LayerPipe { enabled: false, stage: LayerStage::Idle, ..p },
        LayerStage::Removing(next) => match outcome {
            SendOutcome::Sent => LayerPipe {
                stage: match next {
                    Some((image, _)) => LayerStage::Adding(image),
                    None => LayerStage::Idle,
                },
                ..p
            },
            SendOutcome::Failed => LayerPipe { enabled: false, stage: LayerStage::Idle, ..p },
            SendOutcome::Unknown => LayerPipe { stage: LayerStage::Idle, ..p },
        },
        LayerStage::Adding(image) => match outcome {
            SendOutcome::Sent => LayerPipe { active: Some(image), stage: LayerStage::Idle, ..p },
            SendOutcome::Failed => LayerPipe { enabled: false, stage: LayerStage::Idle, ..p },
            SendOutcome::Unknown => LayerPipe { stage: LayerStage::Idle, ..p },
        },
    }
}

/// Whether a step is what follows a command that was sent.
pub open spec fn follows(p: LayerPipe, outcome: SendOutcome, step: LayerStep) -> bool {
    match p.stage {
        LayerStage::Idle => step is Rest,
        LayerStage::Closing => step is Disable,
        LayerStage::Removing(next) => match outcome {
            SendOutcome::Sent => match next {
                Some((image, area)) => sends(step, show_members(image, area, p.scaler)),
                None => step is Rest,
            },
            SendOutcome::Failed => step is Disable,
            SendOutcome::Unknown => step is Rest,
        },
        LayerStage::Adding(_) => if outcome is Failed {
            step is Disable
        } else {
            step is Rest
        },
    }
}

impl LayerPipe {
    /// Start a conversation.
    pub fn new(scaler: Scaler) -> (pipe: Self)
        ensures
            pipe == (LayerPipe { scaler, active: None, enabled: true, stage: LayerStage::Idle }),
    {
        LayerPipe { scaler, active: None, enabled: true, stage: LayerStage::Idle }
    }

    /// Whether [`LayerPipe::reconcile`] would build the command of an image at
    /// once.
    pub fn adds_at_once(&self, desired: &Option<ArtworkOverlay>, status: ProcessStatus) -> (adds:
        bool)
        ensures
            adds == (added_at_once(*self, *desired, status) is Some),
    {
        let idle = match &self.stage {
            LayerStage::Idle => true,
            _ => false,
        };
        self.enabled && idle && status == ProcessStatus::Running && self.active.is_none()
            && desired.is_some()
    }

    fn show(image: &ArtworkOverlay, area: Rect, scaler: Scaler) -> (step: LayerStep)
        requires
            valid_utf8(image.path@),
        ensures
            sends(step, show_members(*image, area, scaler)),
    {
        let command = overlay::build_add_command(image, area, scaler_name(scaler));
        LayerStep::Send(json::write_line(&command))
    }

    fn remove(image: &ArtworkOverlay) -> (step: LayerStep)
        ensures
            sends(step, overlay::remove_members(image.identifier@)),
    {
        let command = overlay::build_remove_command(image.identifier.as_str());
        LayerStep::Send(json::write_line(&command))
    }

    /// Make the desired image known, with the area to draw it in. The image on
    /// display is removed before another one is added, and an image that is on
    /// display already is left alone.
    pub fn reconcile(
        &mut self,
        desired: Option<ArtworkOverlay>,
        area: Rect,
        status: ProcessStatus,
    ) -> (step: LayerStep)
        requires
            printable(added_at_once(*old(self), desired, status)),
        ensures
            *final(self) == reconciled(*old(self), desired, area, status),
            reconciles(*old(self), desired, area, status, step),
    {
        let idle = match &self.stage {
            LayerStage::Idle => true,
            _ => false,
        };
        if !self.enabled || !idle {
            return LayerStep::Rest;
        }
        if status != ProcessStatus::Running {
            self.enabled = false;
            return LayerStep::Disable;
        }
        if overlay::unchanged(&self.active, &desired) {
            return LayerStep::Rest;
        }
        match self.active.take() {
            Some(previous) => {
                self.stage = LayerStage::Removing(
                    match desired {
                        Some(next) => Some((next, area)),
                        None => None,
                    },
                );
                Self::remove(&previous)
            },
            None => match desired {
                Some(next) => {
                    let step = Self::show(&next, area, self.scaler);
                    self.stage = LayerStage::Adding(next);
                    step
                },
                None => LayerStep::Rest,
            },
        }
    }

    /// Report how sending a command went.
    pub fn sent(&mut self, outcome: SendOutcome) -> (step: LayerStep)
        requires
            printable(added_next(*old(self), outcome)),
        ensures
            *final(self) == acknowledged(*old(self), outcome),
            follows(*old(self), outcome, step),
    {
        let mut stage = LayerStage::Idle;
        core::mem::swap(&mut self.stage, &mut stage);
        match stage {
            LayerStage::Idle => LayerStep::Rest,
            LayerStage::Closing => {
                self.enabled = false;
                LayerStep::Disable
            },
            LayerStage::Removing(next) => match outcome {
                SendOutcome::Sent => match next {
                    Some((image, area)) => {
                        let step = Self::show(&image, area, self.scaler);
                        self.stage = LayerStage::Adding(image);
                        step
                    },
                    None => LayerStep::Rest,
                },
                SendOutcome::Failed => {
                    self.enabled = false;
                    LayerStep::Disable
                },
                SendOutcome::Unknown => LayerStep::Rest,
            },
            LayerStage::Adding(image) => match outcome {
                SendOutcome::Sent => {
                    self.active = Some(image);
                    LayerStep::Rest
                },
                SendOutcome::Failed => {
                    self.enabled = false;
                    LayerStep::Disable
                },
                SendOutcome::Unknown => LayerStep::Rest,
            },
        }
    }

    /// Stop sending commands.
    pub fn disable(&mut self) -> (step: LayerStep)
        ensures
            *final(self) == (LayerPipe { enabled: false, ..*old(self) }),
            step is Disable,
    {
        self.enabled = false;
        LayerStep::Disable
    }

    /// End the conversation: remove the image on display, if there is one.
    pub fn cleanup_layer(&mut self) -> (step: LayerStep)
        ensures
            cleans_up(*old(self), *final(self), step),
    {
        match self.active.take() {
            Some(image) => {
                self.stage = LayerStage::Closing;
                Self::remove(&image)
            },
            None => self.disable(),
        }
    }
}

/// Replacing an image removes the previous one first, then adds the next one,
/// and the next one is on display in the end.
pub proof fn law_replacement_removes_before_adding(
    p: LayerPipe,
    next: ArtworkOverlay,
    area: Rect,
    first: LayerStep,
    second: LayerStep,
)
    requires
        p.enabled,
        p.stage is Idle,
        p.active is Some,
        !overlay::same_placement(p.active, Some(next)),
        reconciles(p, Some(next), area, ProcessStatus::Running, first),
        follows(
            reconciled(p, Some(next), area, ProcessStatus::Running),
            SendOutcome::Sent,
            second,
        ),
    ensures
        sends(first, overlay::remove_members(p.active->0.identifier@)),
        sends(second, show_members(next, area, p.scaler)),
        ({
            let removing = reconciled(p, Some(next), area, ProcessStatus::Running);
            let adding = acknowledged(removing, SendOutcome::Sent);
            let done = acknowledged(adding, SendOutcome::Sent);
            &&& removing.active is None
            &&& adding.active is None
            &&& done.active == Some(next)
            &&& done.stage is Idle
        }),
{
}

/// An image that is on display is not sent again.
pub proof fn law_same_image_is_not_replayed(p: LayerPipe, image: ArtworkOverlay, area: Rect, step:
    LayerStep)
    requires
        p.stage is Idle,
        p.active matches Some(active) && overlay::same_overlay(active, image),
        reconciles(p, Some(image), area, ProcessStatus::Running, step),
    ensures
        step is Rest,
        reconciled(p, Some(image), area, ProcessStatus::Running) == p,
{
}

/// A failure disables the conversation for good.
pub proof fn law_failure_is_final(
    p: LayerPipe,
    desired: Option<ArtworkOverlay>,
    area: Rect,
    status: ProcessStatus,
    step: LayerStep,
)
    requires
        !p.enabled,
        reconciles(p, desired, area, status, step),
    ensures
        step is Rest,
        reconciled(p, desired, area, status) == p,
{
}

/// A pipe that breaks while an image is added or removed is closed.
pub proof fn law_broken_pipe_disables(p: LayerPipe, step: LayerStep)
    requires
        !(p.stage is Idle),
        follows(p, SendOutcome::Failed, step),
    ensures
        step is Disable,
        !acknowledged(p, SendOutcome::Failed).enabled,
{
}

} // verus!
