//! User settings that the library reads.
use vstd::prelude::*;

verus! {

/// How album art is shown.
#[derive(Debug, Clone, Copy, PartialEq, Eq, Structural)]
pub enum AlbumArtMode {
    /// Pick the best renderer that the terminal offers.
    Auto,
    /// Graphics protocols only.
    Image,
    /// Half blocks only.
    Unicode,
    /// No artwork.
    Off,
}

/// Where artwork may come from.
#[derive(Debug, Clone, Copy, PartialEq, Eq, Structural)]
pub enum ArtworkSource {
    /// Pictures embedded in the track's tags.
    Metadata,
    /// Cover files beside the track.
    Local,
    /// Covers from the network.
    Remote,
    /// All of these, in this order.
    All,
}

} // verus!
