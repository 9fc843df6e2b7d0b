//! Decoding and transport core of a terminal music player.
//!
//! The library turns the bytes of an audio file into one stream of samples,
//! whatever the codec, and keeps the books of a playback session: where the
//! playhead is, whether it is paused, and what the progress line shows.

pub mod audio;
pub mod controls;
pub mod models;
pub mod numeric;
pub mod paths;
pub mod playlist;
pub mod text;
pub mod utils;
