//! The playback state machine: Stopped, Playing, Paused.
use vstd::prelude::*;

verus! {

#[derive(Clone, Copy, Debug, PartialEq, Eq, Structural)]
pub enum PlaybackState {
    Stopped,
    Playing,
    Paused,
}

/// A request from the control path.
#[derive(Clone, Copy, Debug, PartialEq, Eq, Structural)]
pub enum Transport {
    Start,
    Stop,
    Pause,
    Resume,
}

/// The state after `command`; a transition that is not allowed leaves the
/// state as it is.
pub open spec fn transition(state: PlaybackState, command: Transport) -> PlaybackState {
    match (state, command) {
        (PlaybackState::Stopped, Transport::Start) => PlaybackState::Playing,
        (PlaybackState::Playing, Transport::Pause) => PlaybackState::Paused,
        (PlaybackState::Paused, Transport::Resume) => PlaybackState::Playing,
        (PlaybackState::Playing, Transport::Stop) => PlaybackState::Stopped,
        (PlaybackState::Paused, Transport::Stop) => PlaybackState::Stopped,
        _ => state,
    }
}

impl PlaybackState {
    /// The state after `command`.
    pub fn apply(self, command: Transport) -> (r: PlaybackState)
        ensures
            r == transition(self, command),
    {
        match (self, command) {
            (PlaybackState::Stopped, Transport::Start) => PlaybackState::Playing,
            (PlaybackState::Playing, Transport::Pause) => PlaybackState::Paused,
            (PlaybackState::Paused, Transport::Resume) => PlaybackState::Playing,
            (PlaybackState::Playing, Transport::Stop) => PlaybackState::Stopped,
            (PlaybackState::Paused, Transport::Stop) => PlaybackState::Stopped,
            _ => self,
        }
    }

    pub fn is_playing(self) -> (r: bool)
        ensures
            r == (self == PlaybackState::Playing),
    {
        match self {
            PlaybackState::Playing => true,
            _ => false,
        }
    }
}

} // verus!
