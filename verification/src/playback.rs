//! Playback state machine and the control core of the playback engine.
//!
//! Control commands (play, pause, stop, seek) mutate an explicit lifecycle —
//! `Stopped`, `Playing`, `Paused`, `Seeking` — and reposition the master
//! clock. The engine core decides every transition and answers with the one
//! action the audio device needs; starting and stopping the device itself,
//! and the threads around it, are the embedding program's concern.

use vstd::prelude::*;
use crate::media::DecodeError;
use crate::sync::SyncController;
use crate::time::{Time, Timestamp};
use crate::timeline::{Timeline, clamped_playhead};

verus! {

/// The playback lifecycle.
#[derive(Debug, Clone)]
pub enum PlaybackState {
    /// No playback active; the initial state.
    Stopped,
    /// Actively playing from a timeline position. `start_time` is the
    /// wall-clock reading (nanoseconds) when playback began.
    Playing { start_time: Time, timeline_start: Time },
    /// Paused at a timeline position; resume is cheap.
    Paused { timeline_position: Time },
    /// Transitioning to a new position.
    Seeking { target: Time },
}

impl PlaybackState {
    /// The timeline position the state stands for, given the wall-clock
    /// reading `now`: zero when stopped, the anchor plus the wall-clock time
    /// spent playing, the paused position, or the seek target.
    pub open spec fn spec_current_position(self, now: Time) -> int {
        match self {
            PlaybackState::Stopped => 0,
            PlaybackState::Playing { start_time, timeline_start } => timeline_start + now
                - start_time,
            PlaybackState::Paused { timeline_position } => timeline_position as int,
            PlaybackState::Seeking { target } => target as int,
        }
    }

    /// Whether currently playing.
    pub fn is_playing(&self) -> (r: bool)
        ensures
            r == (self is Playing),
    {
        match self {
            PlaybackState::Playing { .. } => true,
            _ => false,
        }
    }

    /// Whether paused.
    pub fn is_paused(&self) -> (r: bool)
        ensures
            r == (self is Paused),
    {
        match self {
            PlaybackState::Paused { .. } => true,
            _ => false,
        }
    }

    /// Whether stopped.
    pub fn is_stopped(&self) -> (r: bool)
        ensures
            r == (self is Stopped),
    {
        match self {
            PlaybackState::Stopped => true,
            _ => false,
        }
    }

    /// Whether seeking.
    pub fn is_seeking(&self) -> (r: bool)
        ensures
            r == (self is Seeking),
    {
        match self {
            PlaybackState::Seeking { .. } => true,
            _ => false,
        }
    }

    /// The timeline position this state stands for at wall-clock reading
    /// `now`.
    pub fn current_position(&self, now: Time) -> (r: Time)
        requires
            *self matches PlaybackState::Playing { start_time, timeline_start } ==> start_time
                <= now && now - start_time <= i64::MAX && timeline_start + now - start_time
                <= i64::MAX,
        ensures
            r == self.spec_current_position(now),
    {
        match self {
            PlaybackState::Stopped => 0,
            PlaybackState::Playing { start_time, timeline_start } => {
                let elapsed_ns = now - *start_time;
                *timeline_start + elapsed_ns
            },
            PlaybackState::Paused { timeline_position } => *timeline_position,
            PlaybackState::Seeking { target } => *target,
        }
    }
}

/// A command sent to the playback engine.
#[derive(Debug, Clone)]
pub enum PlaybackCommand {
    Play,
    Pause,
    Stop,
    Seek(Timestamp),
    UpdateTimeline(Timeline),
}

/// A response from the playback engine.
#[derive(Debug, Clone)]
pub enum PlaybackResponse {
    StateChanged(PlaybackState),
    Error(String),
}

/// Error type for the playback engine.
#[derive(Debug, Clone)]
pub enum PlaybackError {
    /// The audio device failed, quoted as text.
    Audio(String),
    /// The compositor failed, quoted as text.
    Render(String),
    /// A decode failed.
    Decode(DecodeError),
    /// A worker thread failed, quoted as text.
    Thread(String),
    /// The command is not valid in the current state; nothing changed.
    InvalidState,
}

/// What the audio device must do after a transition. The engine core never
/// touches the device itself: the embedding program performs the action.
#[derive(Debug, Clone, Copy, PartialEq, Eq, Structural)]
pub enum AudioAction {
    /// Start (or restart) audio output from the given timeline position.
    Start(Timestamp),
    /// Pause audio output without tearing it down.
    Pause,
    /// Tear audio output down.
    Stop,
    /// Reposition audio output to the given timeline position.
    Seek(Timestamp),
    /// The arrangement changed: hand the new timeline to the mixer.
    UpdateMixer,
}

/// The control core of the playback engine: the document, the lifecycle
/// state and the master clock. The audio device, decoders, cache and
/// compositor around it belong to the embedding program.
#[derive(Debug)]
pub struct PlaybackEngine {
    pub timeline: Timeline,
    pub state: PlaybackState,
    pub sync_controller: SyncController,
}

impl PlaybackEngine {
    /// Well-formedness: a well-formed document and a readable clock.
    pub open spec fn wf(self) -> bool {
        &&& self.timeline.wf()
        &&& self.sync_controller.wf()
    }

    /// The position playback would start from: the paused position, the seek
    /// target, or the document's playhead.
    pub open spec fn spec_play_position(self) -> int {
        match self.state {
            PlaybackState::Paused { timeline_position } => timeline_position as int,
            PlaybackState::Seeking { target } => target as int,
            _ => self.timeline.playhead as int,
        }
    }

    /// A stopped engine around the given document, with a fresh clock.
    pub fn new(timeline: Timeline) -> (engine: PlaybackEngine)
        requires
            timeline.wf(),
        ensures
            engine.wf(),
            engine.timeline == timeline,
            engine.state is Stopped,
            engine.sync_controller.spec_elapsed() == 0,
            engine.sync_controller.spec_timeline_start() == 0,
    {
        PlaybackEngine {
            timeline,
            state: PlaybackState::Stopped,
            sync_controller: SyncController::new(),
        }
    }

    /// Decide one control command: update the lifecycle state, the clock and
    /// the playhead, and answer with the action the audio device needs.
    ///
    /// `now` is the current wall-clock reading in nanoseconds; it anchors the
    /// `Playing` state. Transitions:
    /// - `Play` from `Stopped`, `Paused` or `Seeking` starts the clock at the
    ///   play position and asks the device to start there; `Play` while
    ///   already playing is invalid and changes nothing.
    /// - `Pause` from `Playing` records the clock's current position;
    ///   pausing in any other state is invalid and changes nothing.
    /// - `Stop` from any state resets the clock and tears audio down.
    /// - `Seek(target)` from any state moves the playhead (clamped onto the
    ///   document) and the clock to `target` and resolves immediately to the
    ///   prior play or pause state: playing stays playing from `target`,
    ///   anything else rests paused there — except a stopped engine, which
    ///   stays stopped.
    /// - `UpdateTimeline` replaces the document and tells the mixer.
    ///
    /// No transition blocks on the audio thread: coordination is through the
    /// clock alone.
    pub fn process_command(&mut self, command: PlaybackCommand, now: Time) -> (r: Result<
        AudioAction,
        PlaybackError,
    >)
        requires
            old(self).wf(),
            command is Play ==> 0 <= old(self).spec_play_position(),
            command matches PlaybackCommand::Seek(target) ==> target >= 0,
            command matches PlaybackCommand::UpdateTimeline(t) ==> t.wf(),
        ensures
            final(self).wf(),
            r is Err ==> *final(self) == *old(self),
            command is Play && !(old(self).state is Playing) ==> r == Ok::<_, PlaybackError>(
                AudioAction::Start(old(self).spec_play_position() as i64),
            ) && final(self).state == (PlaybackState::Playing {
                start_time: now,
                timeline_start: old(self).spec_play_position() as i64,
            }) && final(self).sync_controller == old(self).sync_controller.spec_start(
                old(self).spec_play_position() as i64,
            ) && final(self).timeline == old(self).timeline,
            command is Play && old(self).state is Playing ==> r == Err::<AudioAction, _>(
                PlaybackError::InvalidState,
            ),
            command is Pause && old(self).state is Playing ==> r == Ok::<_, PlaybackError>(
                AudioAction::Pause,
            ) && final(self).state == (PlaybackState::Paused {
                timeline_position: old(self).sync_controller.spec_current() as i64,
            }) && final(self).sync_controller == old(self).sync_controller && final(self).timeline
                == old(self).timeline,
            command is Pause && !(old(self).state is Playing) ==> r == Err::<AudioAction, _>(
                PlaybackError::InvalidState,
            ),
            command is Stop ==> r == Ok::<_, PlaybackError>(AudioAction::Stop) && final(self).state
                is Stopped && final(self).sync_controller == old(self).sync_controller.spec_stop()
                && final(self).timeline == old(self).timeline,
            command matches PlaybackCommand::Seek(target) ==> r == Ok::<_, PlaybackError>(
                AudioAction::Seek(target),
            ) && final(self).timeline.playhead == clamped_playhead(
                target as int,
                old(self).timeline.duration as int,
            ) && final(self).timeline.video_track == old(self).timeline.video_track
                && final(self).timeline.audio_track == old(self).timeline.audio_track
                && final(self).sync_controller
                == old(self).sync_controller.spec_seek(target) && final(self).state == (
            match old(self).state {
                PlaybackState::Playing { .. } => PlaybackState::Playing {
                    start_time: now,
                    timeline_start: target,
                },
                PlaybackState::Stopped => PlaybackState::Stopped,
                _ => PlaybackState::Paused { timeline_position: target },
            }),
            command matches PlaybackCommand::UpdateTimeline(t) ==> r == Ok::<_, PlaybackError>(
                AudioAction::UpdateMixer,
            ) && final(self).timeline == t && final(self).state == old(self).state
                && final(self).sync_controller == old(self).sync_controller,
    {
        match command {
            PlaybackCommand::Play => {
                if self.state.is_playing() {
                    return Err(PlaybackError::InvalidState);
                }
                let position: Time = match &self.state {
                    PlaybackState::Paused { timeline_position } => *timeline_position,
                    PlaybackState::Seeking { target } => *target,
                    _ => self.timeline.playhead,
                };
                self.sync_controller.start(position);
                self.state = PlaybackState::Playing { start_time: now, timeline_start: position };
                Ok(AudioAction::Start(position))
            },
            PlaybackCommand::Pause => {
                if !self.state.is_playing() {
                    return Err(PlaybackError::InvalidState);
                }
                let position = self.sync_controller.current_timeline_position();
                self.state = PlaybackState::Paused { timeline_position: position };
                Ok(AudioAction::Pause)
            },
            PlaybackCommand::Stop => {
                self.sync_controller.stop();
                self.state = PlaybackState::Stopped;
                Ok(AudioAction::Stop)
            },
            PlaybackCommand::Seek(target) => {
                self.timeline.set_playhead(target);
                self.sync_controller.seek(target);
                self.state = match &self.state {
                    PlaybackState::Playing { .. } => PlaybackState::Playing {
                        start_time: now,
                        timeline_start: target,
                    },
                    PlaybackState::Stopped => PlaybackState::Stopped,
                    _ => PlaybackState::Paused { timeline_position: target },
                };
                Ok(AudioAction::Seek(target))
            },
            PlaybackCommand::UpdateTimeline(timeline) => {
                self.timeline = timeline;
                Ok(AudioAction::UpdateMixer)
            },
        }
    }

    /// Move the document's playhead to the clock's current position while
    /// playing; outside playback the playhead stays put.
    pub fn update_playhead(&mut self)
        requires
            old(self).wf(),
        ensures
            final(self).wf(),
            old(self).state is Playing ==> final(self).timeline.playhead == clamped_playhead(
                old(self).sync_controller.spec_current(),
                old(self).timeline.duration as int,
            ),
            !(old(self).state is Playing) ==> *final(self) == *old(self),
            final(self).state == old(self).state,
            final(self).sync_controller == old(self).sync_controller,
            final(self).timeline.video_track == old(self).timeline.video_track,
            final(self).timeline.audio_track == old(self).timeline.audio_track,
            final(self).timeline.duration == old(self).timeline.duration,
    {
        if self.state.is_playing() {
            let position = self.sync_controller.current_timeline_position();
            self.timeline.set_playhead(position);
        }
    }

    /// The current playback state.
    pub fn state(&self) -> (r: &PlaybackState)
        ensures
            r == &self.state,
    {
        &self.state
    }

    /// The document the engine plays.
    pub fn timeline(&self) -> (r: &Timeline)
        ensures
            r == &self.timeline,
    {
        &self.timeline
    }
}

} // verus!
