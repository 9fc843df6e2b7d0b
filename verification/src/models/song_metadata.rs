//! What the tags of a file say about the song.

use std::time::Duration;
use vstd::prelude::*;

verus! {

/// The tags of one song. A field that the file does not fill is `None`.
#[derive(Debug, Clone)]
pub struct SongMetadata {
    pub title: Option<String>,
    pub artist: Option<String>,
    pub album: Option<String>,
    pub duration: Option<Duration>,
    pub year: Option<u32>,
    pub track_number: Option<u32>,
    /// The name of the file's format.
    pub format: String,
    /// Kilobits per second.
    pub bit_rate: Option<u32>,
}

impl Default for SongMetadata {
    /// No tags at all, and a format called `Unknown`.
    fn default() -> (metadata: SongMetadata)
        ensures
            metadata.title is None,
            metadata.artist is None,
            metadata.album is None,
            metadata.duration is None,
            metadata.year is None,
            metadata.track_number is None,
            metadata.format@ == "Unknown"@,
            metadata.bit_rate is None,
    {
        SongMetadata {
            title: None,
            artist: None,
            album: None,
            duration: None,
            year: None,
            track_number: None,
            format: "Unknown".to_owned(),
            bit_rate: None,
        }
    }
}

} // verus!
