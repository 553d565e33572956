//! Renderers that can present artwork.
use vstd::prelude::*;

verus! {

/// Renderer selected for the current session.
#[derive(Debug, Clone, Copy, PartialEq, Eq, Structural)]
pub enum ArtworkBackendKind {
    /// Artwork is off, or unavailable in explicit image mode.
    Disabled,
    /// `ratatui-image` draws through a graphics protocol.
    RatatuiImage,
    /// `ueberzugpp` draws, with half blocks underneath it.
    Ueberzugpp,
    /// Original `ueberzug` draws, with half blocks underneath it.
    Ueberzug,
    /// Unicode half blocks draw natively.
    Halfblocks,
}

impl ArtworkBackendKind {
    /// Whether an external process draws the artwork.
    pub open spec fn is_external(self) -> bool {
        self is Ueberzugpp || self is Ueberzug
    }

    /// Whether an external process draws the artwork.
    pub fn uses_external_layer(self) -> (external: bool)
        ensures
            external == self.is_external(),
    {
        match self {
            ArtworkBackendKind::Ueberzugpp | ArtworkBackendKind::Ueberzug => true,
            _ => false,
        }
    }
}

} // verus!
