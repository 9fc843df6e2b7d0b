//! Plain data about songs.

pub mod song_metadata;
