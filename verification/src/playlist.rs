//! The list of tracks and the place in it.

use crate::text::str_equals;
use std::path::PathBuf;
use vstd::prelude::*;

verus! {

/// Why no playlist could be made.
#[derive(Clone, Copy, Debug, PartialEq, Eq, Structural)]
pub enum PlaylistError {
    /// The directory holds no file that the player supports.
    NoSupportedFiles,
}

/// A list of tracks with one of them current.
pub struct Playlist {
    files: Vec<PathBuf>,
    current_index: usize,
}

impl Playlist {
    #[verifier::type_invariant]
    spec fn index_in_list(self) -> bool {
        if self.files@.len() == 0 {
            self.current_index == 0
        } else {
            self.current_index < self.files@.len()
        }
    }

    /// The tracks, in playing order.
    pub closed spec fn files(&self) -> Seq<PathBuf> {
        self.files@
    }

    /// The place of the current track.
    pub closed spec fn index(&self) -> nat {
        self.current_index as nat
    }

    /// A playlist of `files` that starts at the first of them.
    pub fn new(files: Vec<PathBuf>) -> (playlist: Playlist)
        ensures
            playlist.files() == files@,
            playlist.index() == 0,
    {
        Playlist { files, current_index: 0 }
    }

    /// The current track; `None` in an empty playlist.
    pub fn current(&self) -> (track: Option<&PathBuf>)
        ensures
            match track {
                Some(path) => self.index() < self.files().len() && *path == self.files()[self.index() as int],
                None => self.files().len() == 0,
            },
    {
        proof {
            use_type_invariant(self);
        }
        if self.current_index < self.files.len() {
            Some(&self.files[self.current_index])
        } else {
            None
        }
    }

    /// Moves to the next track, from the last track to the first.
    pub fn next(&mut self)
        requires
            old(self).files().len() > 0,
        ensures
            final(self).files() == old(self).files(),
            final(self).index() == (old(self).index() + 1) % old(self).files().len(),
    {
        proof {
            use_type_invariant(&*self);
            let len = self.files@.len() as int;
            if self.current_index + 1 < len {
                vstd::arithmetic::div_mod::lemma_small_mod((self.current_index + 1) as nat, len as nat);
            } else {
                vstd::arithmetic::div_mod::lemma_mod_self_0(len);
            }
        }
        let len = self.files.len();
        if self.current_index + 1 < len {
            self.current_index = self.current_index + 1;
        } else {
            self.current_index = 0;
        }
    }

    /// Moves to the previous track, from the first track to the last.
    pub fn previous(&mut self)
        requires
            old(self).files().len() > 0,
        ensures
            final(self).files() == old(self).files(),
            final(self).index() == if old(self).index() > 0 {
                old(self).index() - 1
            } else {
                old(self).files().len() - 1
            },
    {
        proof {
            use_type_invariant(&*self);
        }
        if self.current_index > 0 {
            self.current_index = self.current_index - 1;
        } else {
            self.current_index = self.files.len() - 1;
        }
    }

    /// The place of the current track, counted from zero.
    pub fn current_index(&self) -> (index: usize)
        ensures
            index == self.index(),
            self.files().len() > 0 ==> index < self.files().len(),
            self.files().len() == 0 ==> index == 0,
    {
        proof {
            use_type_invariant(self);
        }
        self.current_index
    }

    /// The number of tracks.
    pub fn len(&self) -> (len: usize)
        ensures
            len == self.files().len(),
    {
        self.files.len()
    }
}

/// Whether `ext` is one of the extensions that the player takes. The
/// extension is compared as it stands: callers make it lower case first.
pub open spec fn supported_extension(ext: Seq<char>) -> bool {
    ||| ext == "mp3"@
    ||| ext == "wav"@
    ||| ext == "ogg"@
    ||| ext == "flac"@
    ||| ext == "m4a"@
    ||| ext == "opus"@
    ||| ext == "aac"@
}

/// Whether `ext` is one of the extensions that the player takes.
pub fn is_supported_extension(ext: &str) -> (supported: bool)
    ensures
        supported == supported_extension(ext@),
{
    str_equals(ext, "mp3") || str_equals(ext, "wav") || str_equals(ext, "ogg") || str_equals(
        ext,
        "flac",
    ) || str_equals(ext, "m4a") || str_equals(ext, "opus") || str_equals(ext, "aac")
}

/// Makes the playlist for the path that the player was started with.
///
/// For a directory, `directory_files` holds its supported files in playing
/// order; for a single file it is `None`, and the file is the whole
/// playlist. The flag that comes back says whether the path is a directory.
/// A directory without supported files gives no playlist.
pub fn setup_playlist(path: PathBuf, directory_files: Option<Vec<PathBuf>>) -> (r: Result<
    (Playlist, bool),
    PlaylistError,
>)
    ensures
        match r {
            Ok((playlist, is_directory)) => {
                &&& playlist.index() == 0
                &&& playlist.files().len() > 0
                &&& is_directory == (directory_files is Some)
                &&& playlist.files() == match directory_files {
                    Some(files) => files@,
                    None => seq![path],
                }
            },
            Err(e) => {
                &&& e == PlaylistError::NoSupportedFiles
                &&& directory_files matches Some(files)
                &&& files@.len() == 0
            },
        },
{
    let (files, is_directory) = match directory_files {
        Some(files) => (files, true),
        None => {
            let mut files: Vec<PathBuf> = Vec::new();
            files.push(path);
            assert(files@ =~= seq![path]);
            (files, false)
        },
    };
    if files.len() == 0 {
        return Err(PlaylistError::NoSupportedFiles);
    }
    Ok((Playlist::new(files), is_directory))
}

} // verus!
