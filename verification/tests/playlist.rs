use rust_music_player::playlist::{is_supported_extension, setup_playlist, Playlist, PlaylistError};
use std::path::PathBuf;

fn tracks(names: &[&str]) -> Vec<PathBuf> {
    names.iter().map(|name| PathBuf::from(name)).collect()
}

#[test]
fn playlist_starts_at_the_first_track() {
    let playlist = Playlist::new(tracks(&["a.mp3", "b.mp3"]));
    assert_eq!(playlist.current_index(), 0);
    assert_eq!(playlist.current(), Some(&PathBuf::from("a.mp3")));
    assert_eq!(playlist.len(), 2);
}

#[test]
fn empty_playlist_has_no_current_track() {
    let playlist = Playlist::new(Vec::new());
    assert_eq!(playlist.current(), None);
    assert_eq!(playlist.current_index(), 0);
    assert_eq!(playlist.len(), 0);
}

#[test]
fn playlist_next_wraps_from_the_last_track_to_the_first() {
    let mut playlist = Playlist::new(tracks(&["a.mp3", "b.mp3", "c.mp3"]));
    playlist.next();
    assert_eq!(playlist.current_index(), 1);
    assert_eq!(playlist.current(), Some(&PathBuf::from("b.mp3")));
    playlist.next();
    assert_eq!(playlist.current_index(), 2);
    playlist.next();
    assert_eq!(playlist.current_index(), 0);
    assert_eq!(playlist.current(), Some(&PathBuf::from("a.mp3")));
}

#[test]
fn playlist_previous_wraps_from_the_first_track_to_the_last() {
    let mut playlist = Playlist::new(tracks(&["a.mp3", "b.mp3", "c.mp3"]));
    playlist.previous();
    assert_eq!(playlist.current_index(), 2);
    assert_eq!(playlist.current(), Some(&PathBuf::from("c.mp3")));
    playlist.previous();
    assert_eq!(playlist.current_index(), 1);
    playlist.previous();
    assert_eq!(playlist.current_index(), 0);
}

#[test]
fn playlist_of_one_track_stays_on_it() {
    let mut playlist = Playlist::new(tracks(&["only.flac"]));
    playlist.next();
    assert_eq!(playlist.current_index(), 0);
    playlist.previous();
    assert_eq!(playlist.current_index(), 0);
    assert_eq!(playlist.current(), Some(&PathBuf::from("only.flac")));
}

#[test]
fn supported_extensions() {
    for ext in ["mp3", "wav", "ogg", "flac", "m4a", "opus", "aac"] {
        assert!(is_supported_extension(ext), "{}", ext);
    }
    for ext in ["", "txt", "MP3", "mp4", "mp", "mp33", "wma", "ogg ", ".ogg"] {
        assert!(!is_supported_extension(ext), "{}", ext);
    }
}

#[test]
fn single_file_is_the_whole_playlist() {
    let (playlist, is_directory) = setup_playlist(PathBuf::from("song.ogg"), None).unwrap();
    assert!(!is_directory);
    assert_eq!(playlist.len(), 1);
    assert_eq!(playlist.current(), Some(&PathBuf::from("song.ogg")));
}

#[test]
fn directory_gives_its_files_in_order() {
    let files = tracks(&["music/a.mp3", "music/b.wav"]);
    let (mut playlist, is_directory) = setup_playlist(PathBuf::from("music"), Some(files)).unwrap();
    assert!(is_directory);
    assert_eq!(playlist.len(), 2);
    assert_eq!(playlist.current(), Some(&PathBuf::from("music/a.mp3")));
    playlist.next();
    assert_eq!(playlist.current(), Some(&PathBuf::from("music/b.wav")));
}

#[test]
fn directory_without_supported_files_gives_no_playlist() {
    let result = setup_playlist(PathBuf::from("music"), Some(Vec::new()));
    assert_eq!(result.err(), Some(PlaylistError::NoSupportedFiles));
}
