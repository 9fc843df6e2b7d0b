//! Texts for the song information.

pub mod format;
