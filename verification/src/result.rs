//! Terminal outcome of one run of the decode loop or of the worker.

use vstd::prelude::*;

verus! {

/// How one invocation of the decode loop, or of the worker, came to an end.
#[derive(Debug, Clone, Copy, PartialEq, Eq, Structural)]
pub enum PlaybackResult {
    /// The queue has no further song to play.
    QueueFinished,
    /// The track was played to its end.
    SongFinished,
    /// Playback was stopped on request.
    PlaybackStopped,
}

} // verus!
