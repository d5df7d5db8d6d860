//! The signals through which the transport controller steers the worker.
//!
//! The three cells are the only state that the controller and the decode loop
//! share. This module holds their model and the transitions on it; whoever
//! runs the threads keeps one lock-free cell per field and mirrors these
//! transitions onto them.

use vstd::prelude::*;

verus! {

/// Run, pause and seek signals as one value.
///
/// `skip_to_seconds` holds a one-shot seek request; zero means that none is
/// pending.
#[derive(Debug, Clone, Copy, PartialEq, Eq, Structural)]
pub struct PlaybackSignals {
    /// Cleared to ask the decode loop to stop at once.
    pub running: bool,
    /// Set to suspend frame delivery without giving up the sink.
    pub paused: bool,
    /// Seek target in seconds, zero when no seek is pending.
    pub skip_to_seconds: u16,
}

impl PlaybackSignals {
    /// The seek request that is waiting to be applied, if any.
    pub open spec fn pending_seek(self) -> Option<u16> {
        if self.skip_to_seconds > 0 {
            Some(self.skip_to_seconds)
        } else {
            None
        }
    }

    /// These signals with the seek request removed.
    pub open spec fn without_seek(self) -> PlaybackSignals {
        PlaybackSignals { skip_to_seconds: 0, ..self }
    }

    /// These signals with a seek to `seconds` requested.
    pub open spec fn with_seek(self, seconds: u16) -> PlaybackSignals {
        PlaybackSignals { skip_to_seconds: seconds, ..self }
    }

    /// Signals of a player at rest: not running, not paused, no seek pending.
    pub fn new() -> (s: PlaybackSignals)
        ensures
            s == (PlaybackSignals { running: false, paused: false, skip_to_seconds: 0 }),
    {
        PlaybackSignals { running: false, paused: false, skip_to_seconds: 0 }
    }

    /// Stores a seek request, replacing one that has not been applied yet.
    pub fn request_seek(&mut self, seconds: u16)
        ensures
            *final(self) == old(self).with_seek(seconds),
    {
        self.skip_to_seconds = seconds;
    }

    /// Takes the pending seek request out of the signals.
    ///
    /// Returns the target of the request, and leaves the signals without one,
    /// so that a request is handed out once only.
    pub fn take_seek(&mut self) -> (target: Option<u16>)
        ensures
            target == old(self).pending_seek(),
            *final(self) == old(self).without_seek(),
    {
        if self.skip_to_seconds > 0 {
            let seconds: u16 = self.skip_to_seconds;
            self.skip_to_seconds = 0;
            Some(seconds)
        } else {
            None
        }
    }

    /// Whether a seek request is waiting.
    pub fn has_pending_seek(&self) -> (r: bool)
        ensures
            r == self.pending_seek().is_some(),
    {
        self.skip_to_seconds > 0
    }
}

/// A seek request is applied at most once: after it has been taken, none is
/// pending, and taking again yields nothing and changes nothing.
pub proof fn law_seek_is_one_shot(signals: PlaybackSignals, seconds: u16)
    ensures
        signals.with_seek(seconds).without_seek().pending_seek() == None::<u16>,
        signals.with_seek(seconds).without_seek().without_seek() == signals.with_seek(
            seconds,
        ).without_seek(),
        seconds > 0 ==> signals.with_seek(seconds).pending_seek() == Some(seconds),
{
}

} // verus!
