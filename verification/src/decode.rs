//! The per-track decode loop as a state machine.
//!
//! Reading packets, decoding them, sleeping and feeding the audio sink are
//! done by whoever runs the loop. What to do next is decided here: each
//! function takes what just happened and returns the next [`LoopAction`].
//! One round of the loop is
//!
//! 1. [`DecodeLoop::poll`] with the current signals: stop, sleep, or read;
//! 2. [`DecodeLoop::on_packet`] with what the reader returned;
//! 3. [`DecodeLoop::on_decoded`] with what the decoder returned;
//! 4. [`DecodeLoop::on_sink_opened`] where the sink had to be opened first.
//!
//! A run ends with the first [`LoopAction::Exit`], which also says whether
//! the sink has to be flushed before the result is handed on.

use vstd::prelude::*;
use crate::result::PlaybackResult;
use crate::signals::PlaybackSignals;
use crate::track::{
    first_supported_track, lemma_seconds_at_is_monotonic, SongProgress, TrackInfo, TrackView,
};

verus! {

/// How long the loop sleeps before it looks at the signals again while
/// playback is paused, in milliseconds.
pub const PAUSE_POLL_MILLIS: u64 = 300;

/// Whole minutes of cumulated pause beyond which the loop gives up.
pub const PAUSE_LIMIT_MINUTES: u64 = 5;

/// Why a track could not be played.
#[derive(Debug, Clone, Copy, PartialEq, Eq, Structural)]
pub enum PlaybackError {
    /// The remote stream did not answer with status 200.
    StreamUnavailable,
    /// The local file could not be opened.
    SourceUnreadable,
    /// The container format was not recognised.
    ProbeFailed,
    /// The container holds no track with a supported codec.
    InvalidTrack,
    /// No decoder could be made for the selected track.
    DecoderUnavailable,
    /// Reading the next packet failed for another reason than the end of the
    /// stream.
    ReadFailed,
    /// The decoder failed in a way that skipping the packet does not mend.
    DecodeFailed,
    /// The audio output could not be opened.
    OutputOpenFailed,
}

/// What the reader returned when asked for the next packet.
#[derive(Debug, Clone, Copy, PartialEq, Eq)]
pub enum PacketRead {
    /// A packet with its timestamp.
    Packet { ts: u64 },
    /// The stream ended where a packet was expected.
    EndOfStream,
    /// Any other read error.
    Failed,
}

/// What the decoder returned for a packet.
#[derive(Debug, Clone, Copy, PartialEq, Eq)]
pub enum DecodeOutcome {
    /// The packet was decoded into a buffer of samples.
    Decoded,
    /// The packet was malformed; it is skipped.
    Malformed,
    /// Any other decoder error.
    Failed,
}

/// The end of a run: the result, and whether the sink is flushed first.
#[derive(Debug, Clone, Copy, PartialEq, Eq)]
pub struct LoopExit {
    /// Whether a sink was opened during the run and has to be drained before
    /// the result is final.
    pub flush_sink: bool,
    /// The terminal outcome of the run.
    pub result: Result<PlaybackResult, PlaybackError>,
}

/// The next thing to do in the decode loop.
#[derive(Debug, Clone, Copy, PartialEq, Eq)]
pub enum LoopAction {
    /// Sleep for `millis` milliseconds, then poll again.
    Sleep { millis: u64 },
    /// Seek the reader to `seek_to` seconds where it is given (a failed seek
    /// is not an error), then read the next packet and report it.
    ReadPacket { seek_to: Option<u16> },
    /// Publish `publish` where it is given, then decode the packet and report
    /// the outcome.
    Decode { publish: Option<SongProgress> },
    /// Open the audio sink for the decoded buffer's format and report whether
    /// that succeeded.
    OpenSink,
    /// Write the decoded buffer to the sink, then poll again.
    WriteFrames,
    /// Nothing is written for this packet; poll again.
    Continue,
    /// Leave the loop.
    Exit(LoopExit),
}

/// Whether a cumulated pause of `paused_ms` milliseconds is past the limit.
pub open spec fn pause_expired(paused_ms: u64) -> bool {
    paused_ms / 1000 / 60 > PAUSE_LIMIT_MINUTES
}

/// The progress event that a packet at second `current` gives rise to, when
/// the last one reported was `last`: one event per change of the second.
pub open spec fn progress_update(last: u64, current: u64, total: u64) -> Option<SongProgress> {
    if current != last {
        Some(SongProgress { total_time: total, current_time: current })
    } else {
        None
    }
}

/// The mathematical content of a [`DecodeLoop`].
pub ghost struct LoopView {
    /// The track that is played.
    pub track: TrackView,
    /// Milliseconds slept so far because playback was paused.
    pub paused_ms: u64,
    /// The second that the last progress event reported, zero at the start.
    pub last_second: u64,
    /// Timestamp of the packet that was read last.
    pub packet_ts: u64,
    /// Whether the audio sink has been opened.
    pub sink_open: bool,
}

impl LoopView {
    /// The state in which the loop starts on `track`.
    pub open spec fn start(track: TrackView) -> LoopView {
        LoopView { track, paused_ms: 0, last_second: 0, packet_ts: 0, sink_open: false }
    }

    /// The exit with `result` from this state.
    pub open spec fn exit(self, result: Result<PlaybackResult, PlaybackError>) -> LoopAction {
        LoopAction::Exit(LoopExit { flush_sink: self.sink_open, result })
    }

    /// What is written for the packet read last: its samples, unless its
    /// timestamp is zero.
    pub open spec fn deliver(self) -> LoopAction {
        if self.packet_ts > 0 {
            LoopAction::WriteFrames
        } else {
            LoopAction::Continue
        }
    }

    /// The head of a round: state, signals and action after looking at the
    /// signals.
    pub open spec fn poll(self, signals: PlaybackSignals) -> (LoopView, PlaybackSignals, LoopAction) {
        if pause_expired(self.paused_ms) || !signals.running {
            (self, signals, self.exit(Ok(PlaybackResult::PlaybackStopped)))
        } else if signals.paused {
            (
                LoopView { paused_ms: (self.paused_ms + PAUSE_POLL_MILLIS) as u64, ..self },
                signals,
                LoopAction::Sleep { millis: PAUSE_POLL_MILLIS },
            )
        } else {
            (
                self,
                signals.without_seek(),
                LoopAction::ReadPacket { seek_to: signals.pending_seek() },
            )
        }
    }

    /// State and action after the reader returned `read`.
    pub open spec fn on_packet(self, read: PacketRead) -> (LoopView, LoopAction) {
        match read {
            PacketRead::EndOfStream => (self, self.exit(Ok(PlaybackResult::SongFinished))),
            PacketRead::Failed => (self, self.exit(Err(PlaybackError::ReadFailed))),
            PacketRead::Packet { ts } => (
                LoopView { last_second: self.track.seconds_at(ts), packet_ts: ts, ..self },
                LoopAction::Decode {
                    publish: progress_update(
                        self.last_second,
                        self.track.seconds_at(ts),
                        self.track.total_seconds(),
                    ),
                },
            ),
        }
    }

    /// Action after the decoder returned `outcome` for the packet read last.
    pub open spec fn on_decoded(self, outcome: DecodeOutcome) -> LoopAction {
        match outcome {
            DecodeOutcome::Decoded => if self.sink_open {
                self.deliver()
            } else {
                LoopAction::OpenSink
            },
            DecodeOutcome::Malformed => LoopAction::Continue,
            DecodeOutcome::Failed => self.exit(Err(PlaybackError::DecodeFailed)),
        }
    }

    /// State and action after the attempt to open the sink.
    pub open spec fn on_sink_opened(self, opened: bool) -> (LoopView, LoopAction) {
        if opened {
            (LoopView { sink_open: true, ..self }, self.deliver())
        } else {
            (self, self.exit(Err(PlaybackError::OutputOpenFailed)))
        }
    }
}

/// State of one run of the decode loop on one track.
#[derive(Debug, Clone, Copy)]
pub struct DecodeLoop {
    track: TrackInfo,
    total_seconds: u64,
    paused_ms: u64,
    last_second: u64,
    packet_ts: u64,
    sink_open: bool,
}

impl View for DecodeLoop {
    type V = LoopView;

    closed spec fn view(&self) -> LoopView {
        LoopView {
            track: self.track@,
            paused_ms: self.paused_ms,
            last_second: self.last_second,
            packet_ts: self.packet_ts,
            sink_open: self.sink_open,
        }
    }
}

impl DecodeLoop {
    #[verifier::type_invariant]
    closed spec fn inv(&self) -> bool {
        &&& self.track@.wf()
        &&& self.total_seconds == self.track@.total_seconds()
    }

    /// Starts a run on `track`: nothing slept, nothing reported, no sink.
    pub fn new(track: TrackInfo) -> (state: DecodeLoop)
        ensures
            state@ == LoopView::start(track@),
    {
        let total_seconds: u64 = track.total_seconds();
        proof {
            use_type_invariant(&track);
        }
        DecodeLoop {
            track,
            total_seconds,
            paused_ms: 0,
            last_second: 0,
            packet_ts: 0,
            sink_open: false,
        }
    }

    /// Starts a run on the first supported track of a probed container.
    /// A container without such a track cannot be played: that is the error
    /// `InvalidTrack`.
    pub fn for_tracks(tracks: &[TrackInfo]) -> (started: Result<DecodeLoop, PlaybackError>)
        ensures
            match started {
                Ok(state) => exists|i: int|
                    0 <= i < tracks@.len() && state@ == LoopView::start((#[trigger] tracks@[i])@)
                        && !tracks@[i]@.codec_is_null && forall|j: int|
                        0 <= j < i ==> (#[trigger] tracks@[j])@.codec_is_null,
                Err(error) => error == PlaybackError::InvalidTrack && forall|i: int|
                    0 <= i < tracks@.len() ==> (#[trigger] tracks@[i])@.codec_is_null,
            },
    {
        match first_supported_track(tracks) {
            Some(track) => Ok(DecodeLoop::new(*track)),
            None => Err(PlaybackError::InvalidTrack),
        }
    }

    /// The track that is played.
    pub fn track(&self) -> (track: &TrackInfo)
        ensures
            track@ == self@.track,
    {
        &self.track
    }

    /// Total duration of the track in whole seconds.
    pub fn total_seconds(&self) -> (seconds: u64)
        ensures
            seconds == self@.track.total_seconds(),
    {
        proof {
            use_type_invariant(self);
        }
        self.total_seconds
    }

    /// Whether the audio sink has been opened in this run.
    pub fn sink_open(&self) -> (open: bool)
        ensures
            open == self@.sink_open,
    {
        self.sink_open
    }

    fn exit(&self, result: Result<PlaybackResult, PlaybackError>) -> (action: LoopAction)
        ensures
            action == self@.exit(result),
    {
        LoopAction::Exit(LoopExit { flush_sink: self.sink_open, result })
    }

    fn deliver(&self) -> (action: LoopAction)
        ensures
            action == self@.deliver(),
    {
        if self.packet_ts > 0 {
            LoopAction::WriteFrames
        } else {
            LoopAction::Continue
        }
    }

    /// Looks at the signals at the head of a round.
    ///
    /// A cleared run signal ends the run as `PlaybackStopped`, and so does a
    /// pause that has lasted past the limit. While paused, the loop sleeps
    /// and reads nothing. Otherwise a pending seek is taken out of the
    /// signals and handed to the reader together with the request for the
    /// next packet.
    pub fn poll(&mut self, signals: &mut PlaybackSignals) -> (action: LoopAction)
        ensures
            (final(self)@, *final(signals), action) == old(self)@.poll(*old(signals)),
    {
        proof {
            use_type_invariant(&*self);
        }
        if self.paused_ms / 1000 / 60 > PAUSE_LIMIT_MINUTES || !signals.running {
            self.exit(Ok(PlaybackResult::PlaybackStopped))
        } else if signals.paused {
            self.paused_ms = self.paused_ms + PAUSE_POLL_MILLIS;
            LoopAction::Sleep { millis: PAUSE_POLL_MILLIS }
        } else {
            let seek_to: Option<u16> = signals.take_seek();
            LoopAction::ReadPacket { seek_to }
        }
    }

    /// Takes what the reader returned.
    ///
    /// The end of the stream ends the run as `SongFinished`; another read
    /// error ends it with that error. For a packet, the elapsed second is
    /// computed from its timestamp, and a progress event is due where that
    /// second differs from the one reported last.
    pub fn on_packet(&mut self, read: PacketRead) -> (action: LoopAction)
        ensures
            (final(self)@, action) == old(self)@.on_packet(read),
    {
        proof {
            use_type_invariant(&*self);
        }
        match read {
            PacketRead::EndOfStream => self.exit(Ok(PlaybackResult::SongFinished)),
            PacketRead::Failed => self.exit(Err(PlaybackError::ReadFailed)),
            PacketRead::Packet { ts } => {
                let current: u64 = self.track.seconds_at(ts);
                let publish: Option<SongProgress> = if current != self.last_second {
                    Some(SongProgress { total_time: self.total_seconds, current_time: current })
                } else {
                    None
                };
                self.last_second = current;
                self.packet_ts = ts;
                LoopAction::Decode { publish }
            },
        }
    }

    /// Takes what the decoder returned for the packet read last.
    ///
    /// A decoded buffer is written to the sink, which is opened first where
    /// it is not open yet; nothing is written for a packet with timestamp
    /// zero. A malformed packet is skipped. Any other decoder error ends the
    /// run.
    pub fn on_decoded(&self, outcome: DecodeOutcome) -> (action: LoopAction)
        ensures
            action == self@.on_decoded(outcome),
    {
        match outcome {
            DecodeOutcome::Decoded => if self.sink_open {
                self.deliver()
            } else {
                LoopAction::OpenSink
            },
            DecodeOutcome::Malformed => LoopAction::Continue,
            DecodeOutcome::Failed => self.exit(Err(PlaybackError::DecodeFailed)),
        }
    }

    /// Takes the outcome of opening the sink: with the sink open the decoded
    /// buffer is delivered, without it the run ends with `OutputOpenFailed`.
    pub fn on_sink_opened(&mut self, opened: bool) -> (action: LoopAction)
        ensures
            (final(self)@, action) == old(self)@.on_sink_opened(opened),
    {
        proof {
            use_type_invariant(&*self);
        }
        if opened {
            self.sink_open = true;
            self.deliver()
        } else {
            self.exit(Err(PlaybackError::OutputOpenFailed))
        }
    }
}

/// The progress events that a run in state `state` publishes while it reads
/// packets with the timestamps `timestamps`, in this order.
pub open spec fn published_progress(state: LoopView, timestamps: Seq<u64>) -> Seq<SongProgress>
    decreases timestamps.len(),
{
    if timestamps.len() == 0 {
        Seq::empty()
    } else {
        let step = state.on_packet(PacketRead::Packet { ts: timestamps[0] });
        let rest = published_progress(step.0, timestamps.drop_first());
        match step.1 {
            LoopAction::Decode { publish: Some(progress) } => seq![progress] + rest,
            _ => rest,
        }
    }
}

/// Whether no timestamp of `timestamps` is smaller than one before it.
pub open spec fn never_goes_back(timestamps: Seq<u64>) -> bool {
    forall|i: int, j: int| 0 <= i <= j < timestamps.len() ==> timestamps[i] <= timestamps[j]
}

proof fn lemma_published_progress(state: LoopView, timestamps: Seq<u64>, bound: u64)
    requires
        state.track.wf(),
        never_goes_back(timestamps),
        forall|i: int| 0 <= i < timestamps.len() ==> state.track.seconds_fit(timestamps[i]),
        forall|i: int|
            0 <= i < timestamps.len() ==> state.last_second <= state.track.seconds_at(
                #[trigger] timestamps[i],
            ) <= bound,
    ensures
        forall|i: int|
            0 <= i < published_progress(state, timestamps).len() ==> {
                let event = #[trigger] published_progress(state, timestamps)[i];
                &&& state.last_second < event.current_time <= bound
                &&& event.total_time == state.track.total_seconds()
            },
        forall|i: int, j: int|
            0 <= i < j < published_progress(state, timestamps).len() ==> published_progress(
                state,
                timestamps,
            )[i].current_time < published_progress(state, timestamps)[j].current_time,
    decreases timestamps.len(),
{
    if timestamps.len() > 0 {
        let first = timestamps[0];
        let step = state.on_packet(PacketRead::Packet { ts: first });
        let tail = timestamps.drop_first();
        let rest = published_progress(step.0, tail);
        assert(step.0.last_second == state.track.seconds_at(first));
        assert forall|i: int| 0 <= i < tail.len() implies step.0.last_second
            <= step.0.track.seconds_at(#[trigger] tail[i]) <= bound by {
            assert(tail[i] == timestamps[i + 1]);
            lemma_seconds_at_is_monotonic(state.track, first, tail[i]);
        }
        assert forall|i: int| 0 <= i < tail.len() implies step.0.track.seconds_fit(tail[i]) by {
            assert(tail[i] == timestamps[i + 1]);
        }
        assert(never_goes_back(tail)) by {
            assert forall|i: int, j: int| 0 <= i <= j < tail.len() implies tail[i] <= tail[j] by {
                assert(tail[i] == timestamps[i + 1]);
                assert(tail[j] == timestamps[j + 1]);
            }
        }
        lemma_published_progress(step.0, tail, bound);
        let events = published_progress(state, timestamps);
        if state.track.seconds_at(first) != state.last_second {
            let head = SongProgress {
                total_time: state.track.total_seconds(),
                current_time: state.track.seconds_at(first),
            };
            assert(events == seq![head] + rest);
            assert forall|i: int| 0 <= i < events.len() implies {
                let event = #[trigger] events[i];
                &&& state.last_second < event.current_time <= bound
                &&& event.total_time == state.track.total_seconds()
            } by {
                if i > 0 {
                    assert(events[i] == rest[i - 1]);
                }
            }
            assert forall|i: int, j: int| 0 <= i < j < events.len() implies events[i].current_time
                < events[j].current_time by {
                assert(events[j] == rest[j - 1]);
                if i > 0 {
                    assert(events[i] == rest[i - 1]);
                }
            }
        } else {
            assert(events == rest);
        }
    }
}

/// Progress grows within a track. Of the events that a run publishes from
/// its start, while the timestamps of the packets never go back and their
/// seconds fit in 64 bits: each carries the track's total time, and each
/// reports a later second than the one before it.
pub proof fn law_progress_is_monotonic(track: TrackView, timestamps: Seq<u64>)
    requires
        track.wf(),
        never_goes_back(timestamps),
        forall|i: int| 0 <= i < timestamps.len() ==> track.seconds_fit(timestamps[i]),
    ensures
        forall|i: int|
            0 <= i < published_progress(LoopView::start(track), timestamps).len()
                ==> (#[trigger] published_progress(
                LoopView::start(track),
                timestamps,
            )[i]).total_time == track.total_seconds(),
        forall|i: int, j: int|
            0 <= i < j < published_progress(LoopView::start(track), timestamps).len()
                ==> published_progress(LoopView::start(track), timestamps)[i].current_time
                < published_progress(LoopView::start(track), timestamps)[j].current_time,
{
    lemma_published_progress(LoopView::start(track), timestamps, u64::MAX);
}

/// Progress stays within the track. Where the frame count is known, the
/// seconds at the track's end fit in 64 bits, and the packets' timestamps
/// never go back nor past the end, no published event reports more elapsed
/// than total time.
pub proof fn law_progress_is_bounded_by_total(track: TrackView, timestamps: Seq<u64>)
    requires
        track.wf(),
        track.n_frames is Some,
        track.seconds_fit(track.end_ts()),
        never_goes_back(timestamps),
        forall|i: int| 0 <= i < timestamps.len() ==> timestamps[i] <= track.end_ts(),
    ensures
        forall|i: int|
            0 <= i < published_progress(LoopView::start(track), timestamps).len() ==> {
                let event = #[trigger] published_progress(LoopView::start(track), timestamps)[i];
                event.current_time <= event.total_time
            },
{
    assert forall|i: int| 0 <= i < timestamps.len() implies track.seconds_fit(timestamps[i])
        && track.seconds_at(#[trigger] timestamps[i]) <= track.total_seconds() by {
        lemma_seconds_at_is_monotonic(track, timestamps[i], track.end_ts());
    }
    lemma_published_progress(LoopView::start(track), timestamps, track.total_seconds());
}

/// A seek request is consumed by the round that applies it. In a round that
/// reads a packet, the pending request is handed to the reader and leaves
/// the signals; the next such round finds none and asks for no seek.
pub proof fn law_seek_is_applied_once(state: LoopView, signals: PlaybackSignals)
    requires
        signals.running,
        !signals.paused,
        !pause_expired(state.paused_ms),
    ensures
        state.poll(signals).2 == (LoopAction::ReadPacket { seek_to: signals.pending_seek() }),
        state.poll(signals).1.pending_seek() == None::<u16>,
        state.poll(signals).0.poll(state.poll(signals).1).2 == (LoopAction::ReadPacket {
            seek_to: None,
        }),
{
}

/// A paused loop waits without consuming anything: it asks for a sleep, and
/// leaves the signals, the pending seek among them, the reported second and
/// the sink as they were. Once the pause is lifted, the next round asks for
/// the next packet, with the seek that was requested meanwhile, if any.
pub proof fn law_pause_consumes_nothing(state: LoopView, signals: PlaybackSignals)
    requires
        signals.running,
        signals.paused,
        !pause_expired(state.paused_ms),
    ensures
        state.poll(signals).2 == (LoopAction::Sleep { millis: PAUSE_POLL_MILLIS }),
        state.poll(signals).1 == signals,
        state.poll(signals).0 == (LoopView {
            paused_ms: (state.paused_ms + PAUSE_POLL_MILLIS) as u64,
            ..state
        }),
        !pause_expired(state.poll(signals).0.paused_ms) ==> state.poll(signals).0.poll(
            PlaybackSignals { paused: false, ..signals },
        ).2 == (LoopAction::ReadPacket { seek_to: signals.pending_seek() }),
{
}

/// Every way out of the loop flushes a sink that was opened: an exit asks
/// for the flush exactly when the sink is open.
pub proof fn law_exit_flushes_open_sink(
    state: LoopView,
    signals: PlaybackSignals,
    read: PacketRead,
    outcome: DecodeOutcome,
    opened: bool,
)
    ensures
        state.poll(signals).2 matches LoopAction::Exit(exit) ==> exit.flush_sink
            == state.sink_open,
        state.on_packet(read).1 matches LoopAction::Exit(exit) ==> exit.flush_sink
            == state.sink_open,
        state.on_decoded(outcome) matches LoopAction::Exit(exit) ==> exit.flush_sink
            == state.sink_open,
        state.on_sink_opened(opened).1 matches LoopAction::Exit(exit) ==> exit.flush_sink
            == state.sink_open,
{
}

/// The sink is opened once in a run. The loop asks for it with the first
/// decoded buffer; once it is open, no outcome of the decoder makes the
/// loop ask again, and reading packets or waiting does not close it.
pub proof fn law_sink_is_opened_once(
    state: LoopView,
    signals: PlaybackSignals,
    read: PacketRead,
    outcome: DecodeOutcome,
)
    ensures
        state.on_decoded(DecodeOutcome::Decoded) == LoopAction::OpenSink <==> !state.sink_open,
        state.on_sink_opened(true).0.sink_open,
        state.sink_open ==> {
            &&& state.on_decoded(outcome) != LoopAction::OpenSink
            &&& state.poll(signals).0.sink_open
            &&& state.on_packet(read).0.sink_open
        },
{
}

} // verus!
