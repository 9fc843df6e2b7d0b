//! What the keys do, and the small rules of the main loop.

use vstd::prelude::*;

verus! {

/// Seconds that one seek key moves the playhead.
pub const SEEK_STEP_SECONDS: i64 = 10;

/// Milliseconds that must pass between two seeks.
pub const SEEK_COOLDOWN_MS: u64 = 100;

/// Milliseconds that the main loop waits for a key.
pub const KEY_POLL_INTERVAL_MS: u64 = 60;

/// Readings in a row that find the player idle before the track counts as
/// over.
pub const MAX_NOT_PLAYING: u32 = 3;

/// A key as far as the player tells keys apart.
#[derive(Clone, Copy, Debug, PartialEq, Eq, Structural)]
pub enum Key {
    Char(char),
    Enter,
    Left,
    Right,
    /// Any other key.
    Other,
}

/// What a key press asks for.
#[derive(Clone, Copy, Debug, PartialEq, Eq, Structural)]
pub enum Command {
    TogglePause,
    Quit,
    SeekForward,
    SeekBackward,
    NextTrack,
    PreviousTrack,
    ShowHelp,
    /// The key means nothing here.
    Ignore,
}

/// What pressing `key` asks for. The keys that change track count only
/// where a directory is played.
pub open spec fn command_of(key: Key, is_directory: bool) -> Command {
    match key {
        Key::Char(c) => if c == ' ' {
            Command::TogglePause
        } else if c == 'q' {
            Command::Quit
        } else if c == 'k' {
            Command::SeekForward
        } else if c == 'j' {
            Command::SeekBackward
        } else if (c == 'n' || c == 'l') && is_directory {
            Command::NextTrack
        } else if (c == 'p' || c == 'h') && is_directory {
            Command::PreviousTrack
        } else if c == '?' {
            Command::ShowHelp
        } else {
            Command::Ignore
        },
        Key::Enter => Command::Quit,
        Key::Right => Command::SeekForward,
        Key::Left => Command::SeekBackward,
        Key::Other => Command::Ignore,
    }
}

/// What pressing `key` asks for.
pub fn command_for(key: Key, is_directory: bool) -> (command: Command)
    ensures
        command == command_of(key, is_directory),
{
    match key {
        Key::Char(c) => if c == ' ' {
            Command::TogglePause
        } else if c == 'q' {
            Command::Quit
        } else if c == 'k' {
            Command::SeekForward
        } else if c == 'j' {
            Command::SeekBackward
        } else if (c == 'n' || c == 'l') && is_directory {
            Command::NextTrack
        } else if (c == 'p' || c == 'h') && is_directory {
            Command::PreviousTrack
        } else if c == '?' {
            Command::ShowHelp
        } else {
            Command::Ignore
        },
        Key::Enter => Command::Quit,
        Key::Right => Command::SeekForward,
        Key::Left => Command::SeekBackward,
        Key::Other => Command::Ignore,
    }
}

/// The seconds by which a command moves the playhead; zero for a command
/// that is no seek.
pub fn seek_offset(command: Command) -> (offset: i64)
    ensures
        offset == match command {
            Command::SeekForward => SEEK_STEP_SECONDS as int,
            Command::SeekBackward => -SEEK_STEP_SECONDS,
            _ => 0,
        },
{
    match command {
        Command::SeekForward => SEEK_STEP_SECONDS,
        Command::SeekBackward => -SEEK_STEP_SECONDS,
        _ => 0,
    }
}

/// Whether a seek may be made at clock reading `now`, the last one having
/// been made at `last_seek`: not before `cooldown` milliseconds have passed.
pub fn seek_due(now: u64, last_seek: u64, cooldown: u64) -> (due: bool)
    ensures
        due == (now >= last_seek + cooldown),
{
    now >= last_seek && now - last_seek >= cooldown
}

/// Counts the readings in a row that find the player idle. A reading that
/// finds it playing starts the count anew. Returns whether the main loop
/// goes on: it stops once `max_count` idle readings have come in a row.
pub fn check_playback_status(playing: bool, not_playing_count: &mut u32, max_count: u32) -> (go_on:
    bool)
    ensures
        playing ==> *final(not_playing_count) == 0 && go_on,
        !playing ==> {
            &&& *final(not_playing_count) == if *old(not_playing_count) < u32::MAX {
                *old(not_playing_count) + 1
            } else {
                u32::MAX as int
            }
            &&& go_on == (*final(not_playing_count) < max_count)
        },
{
    if !playing {
        if *not_playing_count < u32::MAX {
            *not_playing_count = *not_playing_count + 1;
        }
        if *not_playing_count >= max_count {
            return false;
        }
    } else {
        *not_playing_count = 0;
    }
    true
}

} // verus!
