use rust_music_player::audio::player::{PlaybackState, PlayerError, Progress, SinkAction};
use rust_music_player::audio::AudioPlayer;
use std::path::PathBuf;

#[test]
fn test_audio_player_creation() {
    let player = AudioPlayer::new();
    assert_eq!(player.state(), PlaybackState::Stopped);
    assert_eq!(player.current_position(), 0);
    assert_eq!(player.total_duration(), None);
    assert!(player.file_path().is_none());
}

#[test]
fn test_audio_player_lifecycle() {
    let mut player = AudioPlayer::new();

    // Test with a known audio file
    let test_file = PathBuf::from("tests/resources/test.wav");
    player.play(test_file.clone(), Some(30_000), 1_000);
    assert_eq!(player.state(), PlaybackState::Playing);
    assert_eq!(player.file_path(), Some(&test_file));

    // Test pause/resume
    player.toggle_pause(2_000);
    assert!(player.is_paused());

    player.toggle_pause(3_000);
    assert!(!player.is_paused());

    // Test seek
    assert!(player.seek(5, 3_000).is_ok());

    // Test stop
    player.stop();
    assert!(!player.is_playing(true));
}

#[test]
fn seek_beyond_the_end_is_refused_and_changes_nothing() {
    let mut player = AudioPlayer::new();
    player.play(PathBuf::from("a.wav"), Some(20_000), 0);
    assert_eq!(
        player.advance(15_000),
        Some(Progress { position_ms: 15_000, total_ms: 20_000, paused: false, finished: false })
    );
    player.toggle_pause(15_000);

    // 15 s + 10 s lies beyond 20 s.
    assert_eq!(player.seek(10, 16_000), Err(PlayerError::SeekOutOfRange));
    assert_eq!(player.current_position(), 15_000);
    assert_eq!(player.state(), PlaybackState::Paused);
    assert_eq!(player.total_duration(), Some(20_000));

    // A target exactly at the end is refused too.
    assert_eq!(player.seek(5, 16_000), Err(PlayerError::SeekOutOfRange));
    assert_eq!(player.seek_target(5), Err(PlayerError::SeekOutOfRange));
    assert_eq!(player.current_position(), 15_000);
    assert_eq!(player.state(), PlaybackState::Paused);

    // The pause that was in progress is still in progress.
    assert_eq!(player.toggle_pause(17_000), SinkAction::Resume);
    assert_eq!(
        player.advance(18_000),
        Some(Progress { position_ms: 16_000, total_ms: 20_000, paused: false, finished: false })
    );
}

#[test]
fn seek_moves_the_anchor_so_that_the_playhead_reads_the_target() {
    let mut player = AudioPlayer::new();
    player.play(PathBuf::from("a.wav"), Some(100_000), 500);
    assert_eq!(player.seek(10, 700), Ok(10_000));
    assert_eq!(player.current_position(), 10_000);
    assert_eq!(player.state(), PlaybackState::Playing);
    assert_eq!(
        player.advance(700),
        Some(Progress { position_ms: 10_000, total_ms: 100_000, paused: false, finished: false })
    );
    assert_eq!(
        player.advance(1_700),
        Some(Progress { position_ms: 11_000, total_ms: 100_000, paused: false, finished: false })
    );
    // Backwards, and never below zero.
    assert_eq!(player.seek(-10, 2_000), Ok(1_000));
    assert_eq!(player.seek(-10, 2_000), Ok(0));
    assert_eq!(player.current_position(), 0);
}

#[test]
fn seek_saturates_at_the_ends_of_the_range() {
    let mut player = AudioPlayer::new();
    player.play(PathBuf::from("a.wav"), None, 0);
    assert_eq!(player.seek_target(i64::MAX), Ok(u64::MAX));
    assert_eq!(player.seek_target(i64::MIN), Ok(0));
    assert_eq!(player.seek(i64::MAX, 5), Ok(u64::MAX));
    assert_eq!(player.current_position(), u64::MAX);
    assert_eq!(player.seek_target(1), Ok(u64::MAX));
}

#[test]
fn seek_clears_a_pause() {
    let mut player = AudioPlayer::new();
    player.play(PathBuf::from("a.wav"), Some(100_000), 0);
    player.toggle_pause(1_000);
    assert_eq!(player.seek(10, 5_000), Ok(10_000));
    assert!(!player.is_paused());
    assert_eq!(player.state(), PlaybackState::Playing);
}

#[test]
fn seek_without_a_track_is_refused() {
    let mut player = AudioPlayer::new();
    assert_eq!(player.seek(10, 0), Err(PlayerError::NoTrack));
    assert_eq!(player.play_from_position(0, 0), Err(PlayerError::NoTrack));
    assert_eq!(player.state(), PlaybackState::Stopped);
    assert_eq!(player.current_position(), 0);
}

#[test]
fn pause_then_resume_adds_the_pause_to_the_pauses_so_far() {
    let mut player = AudioPlayer::new();
    player.play(PathBuf::from("a.wav"), Some(600_000), 10_000);
    assert!(player.is_playing(true));

    assert_eq!(player.toggle_pause(12_000), SinkAction::Pause);
    assert!(player.is_playing(true));
    // Paused for 250 ms.
    assert_eq!(player.toggle_pause(12_250), SinkAction::Resume);
    assert!(player.is_playing(true));

    // 5 s after the start, 250 ms of them paused.
    assert_eq!(
        player.advance(15_000),
        Some(Progress { position_ms: 4_750, total_ms: 600_000, paused: false, finished: false })
    );

    // A second pause adds to the first.
    player.toggle_pause(16_000);
    player.toggle_pause(17_000);
    assert_eq!(
        player.advance(20_000),
        Some(Progress { position_ms: 8_750, total_ms: 600_000, paused: false, finished: false })
    );
}

#[test]
fn paused_session_counts_as_playing_even_when_the_sink_is_idle() {
    let mut player = AudioPlayer::new();
    player.play(PathBuf::from("a.wav"), None, 0);
    player.toggle_pause(100);
    assert!(player.is_playing(false));
    assert_eq!(player.state(), PlaybackState::Paused);
}

#[test]
fn drained_sink_ends_the_session() {
    let mut player = AudioPlayer::new();
    player.play(PathBuf::from("a.wav"), None, 0);
    assert!(player.is_playing(true));
    assert_eq!(player.state(), PlaybackState::Playing);
    assert!(!player.is_playing(false));
    assert_eq!(player.state(), PlaybackState::Stopped);
    // The session does not come back with the sink.
    assert!(!player.is_playing(true));
}

#[test]
fn playhead_stands_still_while_paused() {
    let mut player = AudioPlayer::new();
    player.play(PathBuf::from("a.wav"), Some(60_000), 0);
    player.toggle_pause(4_000);
    let expected = Progress { position_ms: 4_000, total_ms: 60_000, paused: true, finished: false };
    assert_eq!(player.advance(4_000), Some(expected));
    assert_eq!(player.advance(9_000), Some(expected));
    assert_eq!(player.advance(50_000), Some(expected));
}

#[test]
fn playhead_never_reads_below_zero() {
    let mut player = AudioPlayer::new();
    player.play(PathBuf::from("a.wav"), Some(60_000), 5_000);
    // A clock reading from before the anchor.
    assert_eq!(
        player.advance(4_000),
        Some(Progress { position_ms: 0, total_ms: 60_000, paused: false, finished: false })
    );
}

#[test]
fn advance_detects_the_end_of_the_track() {
    let mut player = AudioPlayer::new();
    player.play(PathBuf::from("a.wav"), Some(3_000), 0);
    assert_eq!(
        player.advance(3_000),
        Some(Progress { position_ms: 3_000, total_ms: 3_000, paused: false, finished: true })
    );
    assert_eq!(player.state(), PlaybackState::Stopped);
    assert_eq!(player.advance(4_000), None);
}

#[test]
fn advance_without_a_session_reads_nothing() {
    let mut player = AudioPlayer::new();
    assert_eq!(player.advance(10), None);
    player.play(PathBuf::from("a.wav"), None, 0);
    player.stop();
    assert_eq!(player.advance(10), None);
}

#[test]
fn metadata_duration_stands_in_where_the_decoder_reports_none() {
    let mut player = AudioPlayer::new();
    player.set_metadata_duration(90);
    assert_eq!(player.total_duration(), Some(90_000));
    player.play(PathBuf::from("a.wav"), None, 0);
    assert_eq!(player.total_duration(), Some(90_000));
    player.play(PathBuf::from("b.wav"), Some(30_000), 0);
    assert_eq!(player.total_duration(), Some(30_000));
    // A length that is known is not replaced by the tags.
    player.set_metadata_duration(45);
    assert_eq!(player.total_duration(), Some(30_000));
    player.play(PathBuf::from("c.wav"), None, 0);
    assert_eq!(player.total_duration(), Some(45_000));
}

#[test]
fn metadata_duration_saturates() {
    let mut player = AudioPlayer::new();
    player.set_metadata_duration(u64::MAX);
    assert_eq!(player.total_duration(), Some(u64::MAX));
}

#[test]
fn play_starts_a_fresh_session() {
    let mut player = AudioPlayer::new();
    player.play(PathBuf::from("a.wav"), Some(60_000), 0);
    player.toggle_pause(1_000);
    player.toggle_pause(2_000);
    player.toggle_pause(3_000);
    player.play(PathBuf::from("b.wav"), Some(60_000), 10_000);
    assert_eq!(player.state(), PlaybackState::Playing);
    assert_eq!(player.current_position(), 0);
    assert_eq!(player.file_path(), Some(&PathBuf::from("b.wav")));
    // No pause of the earlier session counts.
    assert_eq!(
        player.advance(11_000),
        Some(Progress { position_ms: 1_000, total_ms: 60_000, paused: false, finished: false })
    );
}

#[test]
fn stop_clears_playing_and_paused() {
    let mut player = AudioPlayer::new();
    player.play(PathBuf::from("a.wav"), None, 0);
    player.toggle_pause(10);
    player.stop();
    assert_eq!(player.state(), PlaybackState::Stopped);
    assert!(!player.is_paused());
    assert!(!player.is_playing(true));
}
