//! The playback state: what is loaded in the sink and whether it is playing.
//!
//! The sink itself belongs to the caller. Every transition here returns the
//! command that the caller has to carry out on it.

use vstd::prelude::*;
use crate::error::AppError;
use crate::error::ErrorView;

verus! {

/// The three states of playback.
#[derive(Clone, Copy, Debug, PartialEq, Eq, Structural)]
pub enum PlaybackStatus {
    /// Nothing is loaded.
    Stopped,
    /// A track is loaded and sounding.
    Playing,
    /// A track is loaded and held.
    Paused,
}

/// What the caller has to do with the sink after a transition.
#[derive(Clone, Copy, Debug, PartialEq, Eq, Structural)]
pub enum SinkCommand {
    /// Leave the sink as it is.
    Nothing,
    /// Discard what the sink holds, then append the new source and let it sound.
    Replace,
    /// Discard what the sink holds and leave it empty.
    Clear,
    /// Hold the sound.
    Pause,
    /// Let the held sound go on.
    Resume,
}

/// The playback state as a value: the status and the path of the loaded track.
pub struct PlaybackView {
    pub status: PlaybackStatus,
    pub track: Option<Seq<char>>,
}

/// The state in which nothing is loaded.
pub open spec fn stopped() -> PlaybackView {
    PlaybackView { status: PlaybackStatus::Stopped, track: None }
}

/// The state after a request to play the track at `path`: playing that track
/// where its source could be had, stopped and empty where it could not.
pub open spec fn after_play(path: Seq<char>, source_ok: bool) -> PlaybackView {
    if source_ok {
        PlaybackView { status: PlaybackStatus::Playing, track: Some(path) }
    } else {
        stopped()
    }
}

/// The state after a request to pause: a playing track is held, anything else
/// stays as it is.
pub open spec fn after_pause(state: PlaybackView) -> PlaybackView {
    if state.status == PlaybackStatus::Playing {
        PlaybackView { status: PlaybackStatus::Paused, track: state.track }
    } else {
        state
    }
}

/// The state after a request to resume: a held track plays again, anything else
/// stays as it is.
pub open spec fn after_resume(state: PlaybackView) -> PlaybackView {
    if state.status == PlaybackStatus::Paused {
        PlaybackView { status: PlaybackStatus::Playing, track: state.track }
    } else {
        state
    }
}

/// The state after a poll of the sink: a playing track whose sound has run out
/// is stopped, anything else stays as it is.
pub open spec fn after_poll(state: PlaybackView, sink_empty: bool) -> PlaybackView {
    if state.status == PlaybackStatus::Playing && sink_empty {
        stopped()
    } else {
        state
    }
}

/// The playback state.
///
/// A track is loaded exactly when the status is not `Stopped`.
#[derive(Debug, PartialEq, Eq)]
pub struct AudioEngine {
    status: PlaybackStatus,
    track: Option<String>,
}

impl View for AudioEngine {
    type V = PlaybackView;

    closed spec fn view(&self) -> PlaybackView {
        PlaybackView {
            status: self.status,
            track: match self.track {
                Some(path) => Some(path@),
                None => None,
            },
        }
    }
}

impl AudioEngine {
    #[verifier::type_invariant]
    spec fn loaded_unless_stopped(&self) -> bool {
        self.status == PlaybackStatus::Stopped <==> self.track is None
    }

    /// The state at start: nothing is loaded.
    pub fn new() -> (engine: Self)
        ensures
            engine@ == stopped(),
    {
        AudioEngine { status: PlaybackStatus::Stopped, track: None }
    }

    /// The status.
    pub fn status(&self) -> (status: PlaybackStatus)
        ensures
            status == self@.status,
            status == PlaybackStatus::Stopped <==> self@.track is None,
    {
        proof {
            use_type_invariant(self);
        }
        self.status
    }

    /// Whether a track is sounding.
    pub fn is_playing(&self) -> (playing: bool)
        ensures
            playing == (self@.status == PlaybackStatus::Playing),
    {
        self.status == PlaybackStatus::Playing
    }

    /// The path of the loaded track, if one is loaded.
    pub fn track(&self) -> (track: Option<&String>)
        ensures
            match track {
                Some(path) => self@.track == Some(path@),
                None => self@.track is None,
            },
    {
        self.track.as_ref()
    }

    /// Takes a request to play the track at `path`.
    ///
    /// `source` says whether the file could be opened and decoded, and if not,
    /// what was reported. Whatever was loaded before is discarded either way.
    /// With a source the engine plays the new track and the command is
    /// `Replace`. Without one the engine is stopped and empty, the command is
    /// `Clear`, and the failure comes back as `AppError::Playback`.
    pub fn play_song(&mut self, path: &String, source: Result<(), String>) -> (played: (
        SinkCommand,
        Result<(), AppError>,
    ))
        ensures
            final(self)@ == after_play(path@, source is Ok),
            match source {
                Ok(_) => {
                    &&& played.0 == SinkCommand::Replace
                    &&& played.1 is Ok
                },
                Err(reason) => {
                    &&& played.0 == SinkCommand::Clear
                    &&& played.1 matches Err(error)
                    &&& error@ == ErrorView::Playback(reason@)
                },
            },
    {
        match source {
            Ok(_) => {
                *self = AudioEngine { status: PlaybackStatus::Playing, track: Some(path.clone()) };
                (SinkCommand::Replace, Ok(()))
            },
            Err(reason) => {
                *self = AudioEngine { status: PlaybackStatus::Stopped, track: None };
                (SinkCommand::Clear, Err(AppError::Playback(reason)))
            },
        }
    }

    /// Holds a playing track. In any other state nothing happens.
    pub fn pause(&mut self) -> (command: SinkCommand)
        ensures
            final(self)@ == after_pause(old(self)@),
            command == if old(self)@.status == PlaybackStatus::Playing {
                SinkCommand::Pause
            } else {
                SinkCommand::Nothing
            },
    {
        proof {
            use_type_invariant(&*self);
        }
        if self.status == PlaybackStatus::Playing {
            self.status = PlaybackStatus::Paused;
            SinkCommand::Pause
        } else {
            SinkCommand::Nothing
        }
    }

    /// Lets a held track play again. In any other state nothing happens: with
    /// nothing loaded the engine stays stopped.
    pub fn resume(&mut self) -> (command: SinkCommand)
        ensures
            final(self)@ == after_resume(old(self)@),
            command == if old(self)@.status == PlaybackStatus::Paused {
                SinkCommand::Resume
            } else {
                SinkCommand::Nothing
            },
            old(self)@.status == PlaybackStatus::Stopped ==> final(self)@ == old(self)@,
    {
        proof {
            use_type_invariant(&*self);
        }
        if self.status == PlaybackStatus::Paused {
            self.status = PlaybackStatus::Playing;
            SinkCommand::Resume
        } else {
            SinkCommand::Nothing
        }
    }

    /// Discards the loaded track. With nothing loaded nothing happens.
    pub fn stop(&mut self) -> (command: SinkCommand)
        ensures
            final(self)@ == stopped(),
            command == if old(self)@.status == PlaybackStatus::Stopped {
                SinkCommand::Nothing
            } else {
                SinkCommand::Clear
            },
    {
        proof {
            use_type_invariant(&*self);
        }
        if self.status == PlaybackStatus::Stopped {
            SinkCommand::Nothing
        } else {
            *self = AudioEngine { status: PlaybackStatus::Stopped, track: None };
            SinkCommand::Clear
        }
    }

    /// Takes the sink's report of whether its sound has run out.
    ///
    /// A playing track whose sink is empty has ended: the engine is stopped.
    /// In every other case the state stays as it is.
    pub fn update(&mut self, sink_empty: bool)
        ensures
            final(self)@ == after_poll(old(self)@, sink_empty),
            sink_empty ==> final(self)@.status != PlaybackStatus::Playing,
    {
        proof {
            use_type_invariant(&*self);
        }
        if self.status == PlaybackStatus::Playing && sink_empty {
            *self = AudioEngine { status: PlaybackStatus::Stopped, track: None };
        }
    }
}

} // verus!
