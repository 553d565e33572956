//! The player: its queue, what it plays, and what the user sees of it.
pub mod app;
pub mod app_laws;
pub mod audio;
pub mod effect;
pub mod event_laws;
pub mod events;
pub mod laws;
pub mod lyrics;
pub mod navigation;
pub mod notice;
pub mod playlist;
pub mod track;
