//! Album artwork: finding, decoding, sizing and presenting covers.
//!
//! Covers are optional. Whatever goes wrong on the way to one ends without
//! artwork and never in an error for the caller. Nothing here touches a file, a
//! process, a thread or the network: functions that need something from outside
//! say what they need and take the answer as an argument.
pub mod backend;
pub mod backend_kind;
pub mod calibration_laws;
pub mod images;
pub mod laws;
pub mod layer;
pub mod layer_laws;
pub mod load;
pub mod load_laws;
pub mod loader;
pub mod overlay;
pub mod protocol;
pub mod remote;
pub mod remote_laws;
pub mod state;
pub mod tags;
pub mod terminal;
pub mod ueberzug;
pub mod ueberzugpp;

pub use backend::{ArtworkBackend, ArtworkTeardown};
pub use backend_kind::ArtworkBackendKind;
pub use load::{ArtworkLoader, LoadedArtwork};
pub use loader::{ArtworkError, ArtworkSource};
pub use overlay::ArtworkOverlay;
pub use state::{ArtworkPathPolicy, ArtworkProtocol, ArtworkState};
