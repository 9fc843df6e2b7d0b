//! Formats, bit rates and lengths as text.

use crate::audio::utils::{duration_as_nanos, duration_nanos};
use crate::text::{decimal, decimal_2, push_char, push_decimal, push_decimal_2, push_str};
use std::time::Duration;
use vstd::prelude::*;

verus! {

/// The kinds of file that the tag reader tells apart.
#[derive(Debug, PartialEq, Eq)]
pub enum FileKind {
    Flac,
    Opus,
    Vorbis,
    Mpeg,
    Wav,
    Aiff,
    Mp4,
    Aac,
    Ape,
    Mpc,
    WavPack,
    Speex,
    /// A kind that a resolver registered under a name of its own.
    Custom(String),
    /// A kind that this player has no name for.
    Unknown,
}

/// The name under which a kind of file is shown.
pub open spec fn kind_name(kind: FileKind) -> Seq<char> {
    match kind {
        FileKind::Flac => "FLAC"@,
        FileKind::Opus => "Opus"@,
        FileKind::Vorbis => "Vorbis"@,
        FileKind::Mpeg => "MP3"@,
        FileKind::Wav => "WAV"@,
        FileKind::Aiff => "AIFF"@,
        FileKind::Mp4 => "MP4"@,
        FileKind::Aac => "AAC"@,
        FileKind::Ape => "APE"@,
        FileKind::Mpc => "MPC"@,
        FileKind::WavPack => "WavPack"@,
        FileKind::Speex => "Speex"@,
        FileKind::Custom(name) => name@,
        FileKind::Unknown => "Unknown"@,
    }
}

/// A bit rate in kilobits per second as text; a rate of zero is not known.
pub open spec fn bitrate_text(bitrate: nat) -> Seq<char> {
    if bitrate == 0 {
        "Unknown"@
    } else {
        decimal(bitrate) + " kbps"@
    }
}

/// A length of `total_seconds` as text: `H:MM:SS` from one hour on, `MM:SS`
/// below.
pub open spec fn length_text(total_seconds: nat) -> Seq<char> {
    let hours = total_seconds / 3600;
    let minutes = (total_seconds % 3600) / 60;
    let seconds = total_seconds % 60;
    if hours > 0 {
        decimal(hours) + seq![':'] + decimal_2(minutes) + seq![':'] + decimal_2(seconds)
    } else {
        decimal_2(minutes) + seq![':'] + decimal_2(seconds)
    }
}

/// The whole seconds of `d`, as far as 64 bits hold them.
pub open spec fn duration_seconds(d: Duration) -> nat {
    let seconds = duration_nanos(d) / 1_000_000_000;
    if seconds > u64::MAX {
        u64::MAX as nat
    } else {
        seconds
    }
}

/// The name under which a kind of file is shown.
pub fn format_to_string(file_type: FileKind) -> (name: String)
    ensures
        name@ == kind_name(file_type),
{
    match file_type {
        FileKind::Flac => "FLAC".to_owned(),
        FileKind::Opus => "Opus".to_owned(),
        FileKind::Vorbis => "Vorbis".to_owned(),
        FileKind::Mpeg => "MP3".to_owned(),
        FileKind::Wav => "WAV".to_owned(),
        FileKind::Aiff => "AIFF".to_owned(),
        FileKind::Mp4 => "MP4".to_owned(),
        FileKind::Aac => "AAC".to_owned(),
        FileKind::Ape => "APE".to_owned(),
        FileKind::Mpc => "MPC".to_owned(),
        FileKind::WavPack => "WavPack".to_owned(),
        FileKind::Speex => "Speex".to_owned(),
        FileKind::Custom(name) => name,
        FileKind::Unknown => "Unknown".to_owned(),
    }
}

/// A bit rate in kilobits per second as text.
pub fn format_bitrate(bitrate: u32) -> (text: String)
    ensures
        text@ == bitrate_text(bitrate as nat),
{
    if bitrate == 0 {
        return "Unknown".to_owned();
    }
    let mut text = String::new();
    push_decimal(&mut text, bitrate as u64);
    push_str(&mut text, " kbps");
    assert(text@ =~= bitrate_text(bitrate as nat));
    text
}

/// A length in whole seconds as text.
pub fn format_seconds(total_seconds: u64) -> (text: String)
    ensures
        text@ == length_text(total_seconds as nat),
{
    let hours = total_seconds / (60 * 60);
    let minutes = (total_seconds % (60 * 60)) / 60;
    let seconds = total_seconds % 60;
    let mut text = String::new();
    if hours > 0 {
        push_decimal(&mut text, hours);
        push_char(&mut text, ':');
    }
    push_decimal_2(&mut text, minutes);
    push_char(&mut text, ':');
    push_decimal_2(&mut text, seconds);
    assert(text@ =~= length_text(total_seconds as nat));
    text
}

/// The length of a song as text.
pub fn format_duration(duration: Duration) -> (text: String)
    ensures
        text@ == length_text(duration_seconds(duration)),
{
    let seconds: u128 = duration_as_nanos(duration) / 1_000_000_000;
    let total_seconds: u64 = if seconds > u64::MAX as u128 {
        u64::MAX
    } else {
        seconds as u64
    };
    format_seconds(total_seconds)
}

} // verus!
