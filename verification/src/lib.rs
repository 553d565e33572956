//! The core of a terminal music player: album artwork, the queue and playback
//! control.

pub mod artwork;
pub mod config;
pub mod digest;
pub mod geometry;
pub mod json;
pub mod metadata;
pub mod path;
pub mod player;
pub mod text;
pub mod time;
pub mod words;
