//! The state changes that the engine publishes to its subscribers.

use vstd::prelude::*;
use crate::track::SongProgress;

verus! {

/// Transport state as subscribers see it.
#[allow(non_camel_case_types)]
#[derive(Debug, Clone, Copy, PartialEq, Eq, Structural)]
pub enum PlayerState {
    PLAYING,
    PAUSED,
    STOPPED,
}

/// One published change. The events on the current song and on the stream
/// format stand for the payload that whoever publishes them attaches.
#[derive(Debug, Clone, Copy, PartialEq, Eq, Structural)]
pub enum StateChangeEvent {
    /// The queue's current song has changed.
    CurrentSongEvent,
    /// The transport state has changed.
    PlaybackStateEvent(PlayerState),
    /// Playback has reached another second of the track.
    SongTimeEvent(SongProgress),
    /// The format of the stream that is about to be decoded is known.
    PlayerInfoEvent,
}

} // verus!
