//! The playback transport: a small state machine that follows where the
//! playhead is across play, pause, seek and stop.
//!
//! The transport owns no clock and no audio device. Its caller reads a
//! monotonic clock, in milliseconds, and hands each reading in; what has to
//! happen to the output sink comes back as a value.

use crate::numeric::clamp;
use std::path::PathBuf;
use vstd::prelude::*;

verus! {

/// The three states of a playback session.
#[derive(Clone, Copy, Debug, PartialEq, Eq, Structural)]
pub enum PlaybackState {
    Stopped,
    Playing,
    Paused,
}

/// What the caller has to do to the output sink after a toggle.
#[derive(Clone, Copy, Debug, PartialEq, Eq, Structural)]
pub enum SinkAction {
    /// Hold the sink: playback was running and is now paused.
    Pause,
    /// Let the sink run again: playback was paused.
    Resume,
}

/// Why the transport turned a request down.
#[derive(Clone, Copy, Debug, PartialEq, Eq, Structural)]
pub enum PlayerError {
    /// The target lies at or after the end of the track.
    SeekOutOfRange,
    /// Nothing has been played yet, so there is no track to seek in.
    NoTrack,
}

/// One reading of a running session, as the progress line shows it.
#[derive(Clone, Copy, Debug, PartialEq, Eq, Structural)]
pub struct Progress {
    /// Elapsed playing time in milliseconds.
    pub position_ms: u64,
    /// Length of the track in milliseconds; zero where it is not known.
    pub total_ms: u64,
    /// Whether the session is paused.
    pub paused: bool,
    /// Whether the playhead has reached the end of the track.
    pub finished: bool,
}

/// The transport as contracts see it. Times are milliseconds; `anchor` and
/// `pause_start` are readings of the caller's clock.
pub struct Transport {
    /// Set by `play` and `seek`, cleared by `stop` and on completion.
    pub session_active: bool,
    /// When the pause in progress began; `None` while not paused.
    pub pause_start: Option<nat>,
    /// The playhead as last recorded.
    pub position: nat,
    /// The clock reading at which the playhead was at zero.
    pub anchor: Option<int>,
    /// The sum of all pauses that have ended since the anchor was set.
    pub accumulated_pause: nat,
    /// The length of the track.
    pub total_duration: Option<nat>,
    /// The length that the file's tags report.
    pub metadata_duration: Option<nat>,
    /// Whether a track has been handed to `play`.
    pub has_file: bool,
}

impl Transport {
    /// The transport before anything was played.
    pub open spec fn initial() -> Transport {
        Transport {
            session_active: false,
            pause_start: None,
            position: 0,
            anchor: None,
            accumulated_pause: 0,
            total_duration: None,
            metadata_duration: None,
            has_file: false,
        }
    }

    pub open spec fn paused(self) -> bool {
        self.pause_start is Some
    }

    /// The state of the session. A paused session counts as paused whether or
    /// not audio is still queued.
    pub open spec fn state(self) -> PlaybackState {
        if self.paused() {
            PlaybackState::Paused
        } else if self.session_active {
            PlaybackState::Playing
        } else {
            PlaybackState::Stopped
        }
    }

    /// How long the pause in progress has lasted at clock reading `now`.
    pub open spec fn pause_in_progress(self, now: nat) -> nat {
        match self.pause_start {
            Some(start) => if now >= start {
                (now - start) as nat
            } else {
                0
            },
            None => 0,
        }
    }

    /// Playing time elapsed at clock reading `now`: the time since the
    /// anchor, less every pause.
    pub open spec fn elapsed(self, now: nat) -> int {
        now - self.anchor.unwrap() - self.accumulated_pause - self.pause_in_progress(now)
    }

    /// The playhead at clock reading `now`.
    pub open spec fn position_at(self, now: nat) -> nat {
        clamp(self.elapsed(now), 0, u64::MAX as int) as nat
    }

    /// After the tags reported a length of `seconds`.
    pub open spec fn with_metadata(self, seconds: nat) -> Transport {
        let ms = clamp((seconds * 1000) as int, 0, u64::MAX as int) as nat;
        Transport {
            metadata_duration: Some(ms),
            total_duration: if self.total_duration is None {
                Some(ms)
            } else {
                self.total_duration
            },
            ..self
        }
    }

    /// After `play` at clock reading `now`, for a source that reports
    /// `source_duration`.
    pub open spec fn played(self, now: nat, source_duration: Option<nat>) -> Transport {
        Transport {
            session_active: true,
            pause_start: None,
            position: 0,
            anchor: Some(now as int),
            accumulated_pause: 0,
            total_duration: if source_duration is Some {
                source_duration
            } else {
                self.metadata_duration
            },
            metadata_duration: self.metadata_duration,
            has_file: true,
        }
    }

    /// After `toggle_pause` at clock reading `now`.
    pub open spec fn toggled(self, now: nat) -> Transport {
        if self.paused() {
            Transport {
                pause_start: None,
                accumulated_pause: clamp(
                    (self.accumulated_pause + self.pause_in_progress(now)) as int,
                    0,
                    u64::MAX as int,
                ) as nat,
                ..self
            }
        } else {
            Transport { pause_start: Some(now), ..self }
        }
    }

    /// After `stop`.
    pub open spec fn stopped(self) -> Transport {
        Transport { session_active: false, pause_start: None, ..self }
    }

    /// Where a seek by `offset_seconds` aims: the recorded playhead moved by
    /// the offset, held within what 64 bits of milliseconds can say.
    pub open spec fn seek_target(self, offset_seconds: int) -> nat {
        clamp(self.position + offset_seconds * 1000, 0, u64::MAX as int) as nat
    }

    /// Whether `target` lies at or after the end of the track.
    pub open spec fn beyond_end(self, target: nat) -> bool {
        self.total_duration is Some && target >= self.total_duration.unwrap()
    }

    /// After playback was restarted from `target` at clock reading `now`.
    pub open spec fn restarted(self, target: nat, now: nat) -> Transport {
        Transport {
            session_active: true,
            pause_start: None,
            position: target,
            anchor: Some(now - target),
            accumulated_pause: 0,
            ..self
        }
    }

    /// What `is_playing` answers when the sink reports `sink_active`.
    pub open spec fn playing(self, sink_active: bool) -> bool {
        self.paused() || (sink_active && self.session_active)
    }

    /// After `is_playing` saw the sink report `sink_active`: a session whose
    /// sink has drained is over.
    pub open spec fn observed(self, sink_active: bool) -> Transport {
        if !self.paused() && !sink_active {
            Transport { session_active: false, ..self }
        } else {
            self
        }
    }

    /// Whether the display has anything to show.
    pub open spec fn showing(self) -> bool {
        self.session_active && self.anchor is Some
    }

    /// The reading that `advance` takes at clock reading `now`.
    pub open spec fn progress(self, now: nat) -> Progress {
        let position = self.position_at(now);
        Progress {
            position_ms: position as u64,
            total_ms: match self.total_duration {
                Some(total) => total as u64,
                None => 0,
            },
            paused: self.paused(),
            finished: self.beyond_end(position),
        }
    }

    /// After `advance` at clock reading `now`.
    pub open spec fn advanced(self, now: nat) -> Transport {
        if self.showing() {
            Transport {
                position: self.position_at(now),
                session_active: !self.beyond_end(self.position_at(now)),
                ..self
            }
        } else {
            self
        }
    }
}

/// The playback transport.
pub struct AudioPlayer {
    session_active: bool,
    pause_start: Option<u64>,
    current_position: u64,
    playback_start: Option<i128>,
    total_pause_duration: u64,
    total_duration: Option<u64>,
    metadata_duration: Option<u64>,
    file_path: Option<PathBuf>,
}

pub open spec fn option_nat(x: Option<u64>) -> Option<nat> {
    match x {
        Some(v) => Some(v as nat),
        None => None,
    }
}

impl View for AudioPlayer {
    type V = Transport;

    closed spec fn view(&self) -> Transport {
        Transport {
            session_active: self.session_active,
            pause_start: option_nat(self.pause_start),
            position: self.current_position as nat,
            anchor: match self.playback_start {
                Some(a) => Some(a as int),
                None => None,
            },
            accumulated_pause: self.total_pause_duration as nat,
            total_duration: option_nat(self.total_duration),
            metadata_duration: option_nat(self.metadata_duration),
            has_file: self.file_path is Some,
        }
    }
}

impl AudioPlayer {
    #[verifier::type_invariant]
    spec fn anchor_in_range(self) -> bool {
        match self.playback_start {
            Some(a) => -0x1_0000_0000_0000_0000 < a < 0x1_0000_0000_0000_0000,
            None => true,
        }
    }

    /// The track that is loaded, as `play` received it.
    pub closed spec fn track(&self) -> Option<PathBuf> {
        self.file_path
    }

    /// A transport in the `Stopped` state, with no track and no durations.
    pub fn new() -> (player: AudioPlayer)
        ensures
            player@ == Transport::initial(),
            player.track() is None,
    {
        AudioPlayer {
            session_active: false,
            pause_start: None,
            current_position: 0,
            playback_start: None,
            total_pause_duration: 0,
            total_duration: None,
            metadata_duration: None,
            file_path: None,
        }
    }

    /// Records the length that the file's tags report, in seconds. It becomes
    /// the track's length where none is known yet.
    pub fn set_metadata_duration(&mut self, duration_seconds: u64)
        ensures
            final(self)@ == old(self)@.with_metadata(duration_seconds as nat),
            final(self).track() == old(self).track(),
    {
        proof {
            use_type_invariant(&*self);
        }
        let ms: u64 = if duration_seconds > u64::MAX / 1000 {
            u64::MAX
        } else {
            duration_seconds * 1000
        };
        self.metadata_duration = Some(ms);
        if self.total_duration.is_none() {
            self.total_duration = self.metadata_duration;
        }
    }

    /// Starts a session for the track at `path` at clock reading `now`. The
    /// length of the track is `source_duration` where the decoder reports
    /// one, else the length from the tags.
    pub fn play(&mut self, path: PathBuf, source_duration: Option<u64>, now: u64)
        ensures
            final(self)@ == old(self)@.played(now as nat, option_nat(source_duration)),
            final(self).track() == Some(path),
    {
        proof {
            use_type_invariant(&*self);
        }
        self.file_path = Some(path);
        self.total_duration = match source_duration {
            Some(d) => Some(d),
            None => self.metadata_duration,
        };
        self.session_active = true;
        self.pause_start = None;
        self.current_position = 0;
        self.total_pause_duration = 0;
        self.playback_start = Some(now as i128);
    }

    /// The track that is loaded.
    pub fn file_path(&self) -> (path: Option<&PathBuf>)
        ensures
            match path {
                Some(p) => self.track() == Some(*p),
                None => self.track() is None,
            },
    {
        self.file_path.as_ref()
    }

    /// The length of the track in milliseconds.
    pub fn total_duration(&self) -> (total: Option<u64>)
        ensures
            option_nat(total) == self@.total_duration,
    {
        self.total_duration
    }

    /// The playhead as last recorded, in milliseconds.
    pub fn current_position(&self) -> (position: u64)
        ensures
            position == self@.position,
    {
        self.current_position
    }

    /// Whether the session is paused.
    pub fn is_paused(&self) -> (paused: bool)
        ensures
            paused == self@.paused(),
    {
        self.pause_start.is_some()
    }

    /// The state of the session.
    pub fn state(&self) -> (state: PlaybackState)
        ensures
            state == self@.state(),
    {
        if self.pause_start.is_some() {
            PlaybackState::Paused
        } else if self.session_active {
            PlaybackState::Playing
        } else {
            PlaybackState::Stopped
        }
    }

    /// Where a seek by `offset_seconds` would land, or why it cannot.
    /// Nothing changes.
    pub fn seek_target(&self, offset_seconds: i64) -> (r: Result<u64, PlayerError>)
        ensures
            match r {
                Ok(target) => {
                    &&& target == self@.seek_target(offset_seconds as int)
                    &&& !self@.beyond_end(target as nat)
                    &&& self@.has_file
                },
                Err(PlayerError::SeekOutOfRange) => self@.beyond_end(
                    self@.seek_target(offset_seconds as int),
                ),
                Err(PlayerError::NoTrack) => {
                    &&& !self@.beyond_end(self@.seek_target(offset_seconds as int))
                    &&& !self@.has_file
                },
            },
    {
        let moved: i128 = self.current_position as i128 + offset_seconds as i128 * 1000;
        let target: u64 = if moved < 0 {
            0
        } else if moved > u64::MAX as i128 {
            u64::MAX
        } else {
            moved as u64
        };
        if let Some(total) = self.total_duration {
            if target >= total {
                return Err(PlayerError::SeekOutOfRange);
            }
        }
        if self.file_path.is_none() {
            return Err(PlayerError::NoTrack);
        }
        Ok(target)
    }

    /// Restarts playback from `position_ms` at clock reading `now`: the
    /// anchor moves to `now - position_ms`, pauses are forgotten and the
    /// session is playing. A position at or after the end of the track, or a
    /// transport without a track, is refused and nothing changes.
    pub fn play_from_position(&mut self, position_ms: u64, now: u64) -> (r: Result<
        (),
        PlayerError,
    >)
        ensures
            final(self).track() == old(self).track(),
            match r {
                Ok(()) => {
                    &&& !old(self)@.beyond_end(position_ms as nat)
                    &&& old(self)@.has_file
                    &&& final(self)@ == old(self)@.restarted(position_ms as nat, now as nat)
                },
                Err(PlayerError::SeekOutOfRange) => {
                    &&& old(self)@.beyond_end(position_ms as nat)
                    &&& *final(self) == *old(self)
                },
                Err(PlayerError::NoTrack) => {
                    &&& !old(self)@.beyond_end(position_ms as nat)
                    &&& !old(self)@.has_file
                    &&& *final(self) == *old(self)
                },
            },
    {
        proof {
            use_type_invariant(&*self);
        }
        if let Some(total) = self.total_duration {
            if position_ms >= total {
                return Err(PlayerError::SeekOutOfRange);
            }
        }
        if self.file_path.is_none() {
            return Err(PlayerError::NoTrack);
        }
        self.playback_start = Some(now as i128 - position_ms as i128);
        self.pause_start = None;
        self.total_pause_duration = 0;
        self.current_position = position_ms;
        self.session_active = true;
        Ok(())
    }

    /// Moves the playhead by `offset_seconds` at clock reading `now` and
    /// returns the new position, from which the caller restarts the source.
    /// A target at or after the end of the track is an error, and so is a
    /// seek before anything was played; either leaves the transport as it
    /// was.
    pub fn seek(&mut self, offset_seconds: i64, now: u64) -> (r: Result<u64, PlayerError>)
        ensures
            final(self).track() == old(self).track(),
            match r {
                Ok(target) => {
                    &&& target == old(self)@.seek_target(offset_seconds as int)
                    &&& !old(self)@.beyond_end(target as nat)
                    &&& old(self)@.has_file
                    &&& final(self)@ == old(self)@.restarted(target as nat, now as nat)
                },
                Err(PlayerError::SeekOutOfRange) => {
                    &&& old(self)@.beyond_end(old(self)@.seek_target(offset_seconds as int))
                    &&& *final(self) == *old(self)
                },
                Err(PlayerError::NoTrack) => {
                    &&& !old(self)@.beyond_end(old(self)@.seek_target(offset_seconds as int))
                    &&& !old(self)@.has_file
                    &&& *final(self) == *old(self)
                },
            },
    {
        match self.seek_target(offset_seconds) {
            Ok(target) => match self.play_from_position(target, now) {
                Ok(()) => Ok(target),
                Err(e) => Err(e),
            },
            Err(e) => Err(e),
        }
    }

    /// Ends the session: neither playing nor paused.
    pub fn stop(&mut self)
        ensures
            final(self)@ == old(self)@.stopped(),
            final(self).track() == old(self).track(),
    {
        proof {
            use_type_invariant(&*self);
        }
        self.session_active = false;
        self.pause_start = None;
    }

    /// Pauses a running session at clock reading `now`, or resumes a paused
    /// one and adds the pause that ends to the pauses so far.
    pub fn toggle_pause(&mut self, now: u64) -> (action: SinkAction)
        ensures
            final(self)@ == old(self)@.toggled(now as nat),
            final(self).track() == old(self).track(),
            action == if old(self)@.paused() {
                SinkAction::Resume
            } else {
                SinkAction::Pause
            },
    {
        proof {
            use_type_invariant(&*self);
        }
        match self.pause_start {
            Some(start) => {
                let pause: u64 = if now >= start {
                    now - start
                } else {
                    0
                };
                self.total_pause_duration = if pause > u64::MAX - self.total_pause_duration {
                    u64::MAX
                } else {
                    self.total_pause_duration + pause
                };
                self.pause_start = None;
                SinkAction::Resume
            },
            None => {
                self.pause_start = Some(now);
                SinkAction::Pause
            },
        }
    }

    /// Whether the session is still going. A paused session is. A session
    /// that is not paused is going while the sink still has audio
    /// (`sink_active`); once the sink has drained the session is over, and
    /// this call records that.
    pub fn is_playing(&mut self, sink_active: bool) -> (playing: bool)
        ensures
            playing == old(self)@.playing(sink_active),
            final(self)@ == old(self)@.observed(sink_active),
            final(self).track() == old(self).track(),
    {
        proof {
            use_type_invariant(&*self);
        }
        if self.pause_start.is_some() {
            return true;
        }
        let playing = sink_active && self.session_active;
        if !playing && self.session_active {
            self.session_active = false;
        }
        playing
    }

    /// Takes a reading for the display at clock reading `now`: records the
    /// playhead, and ends the session where the playhead has reached the end
    /// of the track. `None` where no session is running.
    pub fn advance(&mut self, now: u64) -> (reading: Option<Progress>)
        ensures
            final(self)@ == old(self)@.advanced(now as nat),
            final(self).track() == old(self).track(),
            reading == if old(self)@.showing() {
                Some(old(self)@.progress(now as nat))
            } else {
                None::<Progress>
            },
    {
        proof {
            use_type_invariant(&*self);
        }
        if !self.session_active {
            return None;
        }
        let anchor: i128 = match self.playback_start {
            Some(a) => a,
            None => {
                return None;
            },
        };
        let in_progress: u64 = match self.pause_start {
            Some(start) => if now >= start {
                now - start
            } else {
                0
            },
            None => 0,
        };
        let elapsed: i128 = now as i128 - anchor - self.total_pause_duration as i128
            - in_progress as i128;
        let position: u64 = if elapsed < 0 {
            0
        } else if elapsed > u64::MAX as i128 {
            u64::MAX
        } else {
            elapsed as u64
        };
        self.current_position = position;
        let (total_ms, finished) = match self.total_duration {
            Some(total) => (total, position >= total),
            None => (0, false),
        };
        if finished {
            self.session_active = false;
        }
        Some(Progress { position_ms: position, total_ms, paused: self.pause_start.is_some(), finished })
    }
}


/// Pausing a running session and resuming it later adds the time between the
/// two calls to the pauses so far, as far as 64 bits hold it, and the session
/// counts as playing before, between and after the two calls.
pub proof fn lemma_pause_then_resume(s: Transport, paused_at: nat, resumed_at: nat, sink_active: bool)
    requires
        !s.paused(),
        s.playing(sink_active),
        paused_at <= resumed_at,
    ensures
        s.toggled(paused_at).paused(),
        !s.toggled(paused_at).toggled(resumed_at).paused(),
        s.toggled(paused_at).toggled(resumed_at).accumulated_pause == clamp(
            s.accumulated_pause + (resumed_at - paused_at),
            0,
            u64::MAX as int,
        ),
        s.toggled(paused_at).playing(sink_active),
        s.toggled(paused_at).toggled(resumed_at).playing(sink_active),
        s.toggled(paused_at).toggled(resumed_at).session_active == s.session_active,
        s.toggled(paused_at).toggled(resumed_at).position == s.position,
{
}

/// While a session is paused the playhead stands still.
pub proof fn lemma_position_frozen_while_paused(s: Transport, earlier: nat, later: nat)
    requires
        s.paused(),
        s.anchor is Some,
        s.pause_start.unwrap() <= earlier <= later,
    ensures
        s.position_at(earlier) == s.position_at(later),
{
}

/// While a session is not paused the playhead never moves backwards, and it
/// never reads below zero.
pub proof fn lemma_position_monotonic(s: Transport, earlier: nat, later: nat)
    requires
        !s.paused(),
        s.anchor is Some,
        earlier <= later,
    ensures
        0 <= s.position_at(earlier) <= s.position_at(later),
{
}

/// A pause and resume leaves the playhead where the pause began: time spent
/// paused is not playing time.
pub proof fn lemma_pause_is_not_playing_time(s: Transport, paused_at: nat, resumed_at: nat)
    requires
        !s.paused(),
        s.anchor is Some,
        paused_at <= resumed_at,
        s.accumulated_pause + (resumed_at - paused_at) <= u64::MAX,
    ensures
        s.toggled(paused_at).toggled(resumed_at).position_at(resumed_at) == s.position_at(
            paused_at,
        ),
{
}

/// Right after a restart from `target` the playhead reads `target`, and from
/// then on it runs with the clock.
pub proof fn lemma_restart_reads_target(s: Transport, target: nat, now: nat, later: nat)
    requires
        target <= u64::MAX,
        now <= later,
    ensures
        s.restarted(target, now).position_at(now) == target,
        s.restarted(target, now).position_at(later) == clamp(
            target + (later - now),
            0,
            u64::MAX as int,
        ),
        s.restarted(target, now).state() == PlaybackState::Playing,
{
}

/// After `stop` the session is neither playing nor paused, whatever the sink
/// reports, and the recorded playhead stays where it was.
pub proof fn lemma_stop_ends_session(s: Transport, sink_active: bool)
    ensures
        s.stopped().state() == PlaybackState::Stopped,
        !s.stopped().playing(sink_active),
        s.stopped().position == s.position,
{
}

} // verus!
