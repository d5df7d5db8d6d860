//! The transport controller: play, pause, stop, seek, next, previous and
//! play-by-id, as decisions on the signals and on the worker's lifetime.
//!
//! The controller owns the worker thread through a handle. Spawning the
//! thread, polling the handle, moving the queue's cursor and reading the
//! resume record are done by its owner; this module decides what each
//! command does, given what the owner observed.

use vstd::prelude::*;
use crate::decode::{LoopAction, LoopView};
use crate::events::{PlayerState, StateChangeEvent};
use crate::result::PlaybackResult;
use crate::resume::ResumeState;
use crate::signals::PlaybackSignals;
use crate::track::TrackView;
use crate::worker::{WorkerStep, WorkerView};

verus! {

/// What a play command comes to.
#[derive(Debug, Clone, Copy, PartialEq, Eq, Structural)]
pub enum PlayStart {
    /// A worker is playing already: publish the state `PLAYING` again and
    /// do nothing else.
    AlreadyPlaying,
    /// Spawn a worker on the queue and keep its handle. Where `count_play`
    /// is set, the queue has a current song, whose play count is raised
    /// first.
    SpawnWorker { count_play: bool },
}

/// The events that are published when a play command came to `start`.
pub open spec fn published_on_play(start: PlayStart) -> Seq<StateChangeEvent> {
    match start {
        PlayStart::AlreadyPlaying => seq![
            StateChangeEvent::PlaybackStateEvent(PlayerState::PLAYING),
        ],
        PlayStart::SpawnWorker { .. } => Seq::empty(),
    }
}

impl PlayStart {
    /// The events that the controller itself publishes for this outcome:
    /// the state `PLAYING` once more where a worker is playing already, and
    /// nothing where a worker is spawned, which announces itself.
    pub fn events(&self) -> (events: Vec<StateChangeEvent>)
        ensures
            events@ == published_on_play(*self),
    {
        let mut events: Vec<StateChangeEvent> = Vec::new();
        match self {
            PlayStart::AlreadyPlaying => {
                events.push(StateChangeEvent::PlaybackStateEvent(PlayerState::PLAYING));
            },
            PlayStart::SpawnWorker { .. } => {},
        }
        assert(events@ =~= published_on_play(*self));
        events
    }
}

/// A command to the transport controller.
#[derive(Debug, Clone, PartialEq, Eq)]
pub enum PlayerCommand {
    /// Play from the queue's current song.
    Play,
    /// Play the song with this id.
    PlayItem(String),
    /// Pause playback.
    Pause,
    /// Play the next song of the queue.
    Next,
    /// Play the previous song of the queue.
    Prev,
    /// Seek to this second of the current song.
    Rewind(u16),
}

/// One step in carrying out a command. The queue's cursor is never moved
/// while a worker runs: a command that moves it stops the worker first.
#[derive(Debug, Clone, PartialEq, Eq)]
pub enum TransportStep {
    /// Pause the current song and, where a worker was playing, wait until
    /// it has ended.
    Pause,
    /// Request a seek to this second of the current song.
    Seek(u16),
    /// Clear the run signal and wait until the worker has ended.
    StopAndWait,
    /// Move the queue's cursor to the next song.
    MoveToNext,
    /// Move the queue's cursor to the previous song.
    MoveToPrevious,
    /// Move the queue's cursor to the song with this id.
    MoveToSong(String),
    /// Play from the queue's current song.
    PlayFromCurrent,
}

/// The mathematical content of a [`PlayerService`].
pub ghost struct ServiceView {
    /// Whether a worker has been spawned, so that a handle exists.
    pub has_worker: bool,
}

impl ServiceView {
    /// Playing means that a handle exists and its thread has not finished.
    pub open spec fn is_playing(self, worker_finished: bool) -> bool {
        self.has_worker && !worker_finished
    }

    /// The signals with which a worker is started: the run signal set, and
    /// the saved progress as seek request where the last session ended
    /// paused.
    pub open spec fn start_signals(resume: ResumeState, signals: PlaybackSignals) -> PlaybackSignals {
        PlaybackSignals {
            running: true,
            skip_to_seconds: if resume.paused {
                resume.progress
            } else {
                signals.skip_to_seconds
            },
            ..signals
        }
    }

    /// Controller, signals and outcome after a play command.
    pub open spec fn play(
        self,
        worker_finished: bool,
        has_current_song: bool,
        resume: ResumeState,
        signals: PlaybackSignals,
    ) -> (ServiceView, PlaybackSignals, PlayStart) {
        if self.is_playing(worker_finished) {
            (self, signals, PlayStart::AlreadyPlaying)
        } else {
            (
                ServiceView { has_worker: true },
                Self::start_signals(resume, signals),
                PlayStart::SpawnWorker { count_play: has_current_song },
            )
        }
    }

    /// The signals after a stop command: the run signal cleared.
    pub open spec fn stop(signals: PlaybackSignals) -> PlaybackSignals {
        PlaybackSignals { running: false, ..signals }
    }
}

/// The transport controller.
#[derive(Debug)]
pub struct PlayerService {
    has_worker: bool,
}

impl View for PlayerService {
    type V = ServiceView;

    closed spec fn view(&self) -> ServiceView {
        ServiceView { has_worker: self.has_worker }
    }
}

impl PlayerService {
    /// A controller at rest, with no worker. Where the last session ended
    /// paused, its saved progress is stored as a seek request, so that the
    /// first song played continues from there.
    pub fn new(resume: ResumeState, signals: &mut PlaybackSignals) -> (service: PlayerService)
        ensures
            service@ == (ServiceView { has_worker: false }),
            *final(signals) == (if resume.paused {
                old(signals).with_seek(resume.progress)
            } else {
                *old(signals)
            }),
    {
        if resume.paused {
            signals.request_seek(resume.progress);
        }
        PlayerService { has_worker: false }
    }

    /// Whether a worker is playing, given whether the thread behind the
    /// handle has finished.
    pub fn is_playing(&self, worker_finished: bool) -> (playing: bool)
        ensures
            playing == self@.is_playing(worker_finished),
    {
        self.has_worker && !worker_finished
    }

    /// The transport state: `PLAYING` while a worker plays, else `STOPPED`.
    pub fn state(&self, worker_finished: bool) -> (state: PlayerState)
        ensures
            state == (if self@.is_playing(worker_finished) {
                PlayerState::PLAYING
            } else {
                PlayerState::STOPPED
            }),
    {
        if self.is_playing(worker_finished) {
            PlayerState::PLAYING
        } else {
            PlayerState::STOPPED
        }
    }

    /// Plays from the queue's current song.
    ///
    /// While a worker is playing, nothing changes and no worker is spawned.
    /// Otherwise the run signal is set, the saved progress becomes the seek
    /// request where the last session ended paused, and a worker is to be
    /// spawned.
    pub fn play_from_current_queue_song(
        &mut self,
        worker_finished: bool,
        has_current_song: bool,
        resume: ResumeState,
        signals: &mut PlaybackSignals,
    ) -> (start: PlayStart)
        ensures
            (final(self)@, *final(signals), start) == old(self)@.play(
                worker_finished,
                has_current_song,
                resume,
                *old(signals),
            ),
    {
        if self.is_playing(worker_finished) {
            return PlayStart::AlreadyPlaying;
        }
        if resume.paused {
            signals.request_seek(resume.progress);
        }
        signals.running = true;
        self.has_worker = true;
        PlayStart::SpawnWorker { count_play: has_current_song }
    }

    /// Stops the current song: clears the run signal. The caller then waits
    /// until the worker has ended.
    pub fn stop_current_song(&self, signals: &mut PlaybackSignals)
        ensures
            *final(signals) == ServiceView::stop(*old(signals)),
    {
        signals.running = false;
    }

    /// Pauses the current song, which stops the worker where one is playing.
    /// Returns whether there is a worker to wait for.
    pub fn pause_current_song(&self, worker_finished: bool, signals: &mut PlaybackSignals) -> (stopping: bool)
        ensures
            stopping == self@.is_playing(worker_finished),
            *final(signals) == (if stopping {
                ServiceView::stop(*old(signals))
            } else {
                *old(signals)
            }),
    {
        if self.is_playing(worker_finished) {
            self.stop_current_song(signals);
            true
        } else {
            false
        }
    }

    /// Requests a seek to `seconds` in the current song. Nothing is stopped
    /// or started: the running decode loop takes the request in its next
    /// round.
    pub fn seek_current_song(&self, seconds: u16, signals: &mut PlaybackSignals)
        ensures
            *final(signals) == old(signals).with_seek(seconds),
    {
        signals.request_seek(seconds);
    }

    /// The steps of the command that plays the next song: stop, move the
    /// cursor, play.
    pub fn play_next_song(&self) -> (steps: Vec<TransportStep>)
        ensures
            is_stop_move_play(steps@),
            steps@[1] is MoveToNext,
    {
        let mut steps: Vec<TransportStep> = Vec::new();
        steps.push(TransportStep::StopAndWait);
        steps.push(TransportStep::MoveToNext);
        steps.push(TransportStep::PlayFromCurrent);
        steps
    }

    /// The steps of the command that plays the previous song: stop, move
    /// the cursor, play.
    pub fn play_prev_song(&self) -> (steps: Vec<TransportStep>)
        ensures
            is_stop_move_play(steps@),
            steps@[1] is MoveToPrevious,
    {
        let mut steps: Vec<TransportStep> = Vec::new();
        steps.push(TransportStep::StopAndWait);
        steps.push(TransportStep::MoveToPrevious);
        steps.push(TransportStep::PlayFromCurrent);
        steps
    }

    /// The steps of the command that plays the song with the id `song_id`:
    /// stop, move the cursor to that song, play.
    pub fn play_song(&self, song_id: &str) -> (steps: Vec<TransportStep>)
        ensures
            is_stop_move_play(steps@),
            steps@[1] matches TransportStep::MoveToSong(id) && id@ == song_id@,
    {
        let mut steps: Vec<TransportStep> = Vec::new();
        steps.push(TransportStep::StopAndWait);
        steps.push(TransportStep::MoveToSong(song_id.to_owned()));
        steps.push(TransportStep::PlayFromCurrent);
        steps
    }
}

/// Whether `steps` is a stop, then one more step, then a play.
pub open spec fn is_stop_move_play(steps: Seq<TransportStep>) -> bool {
    &&& steps.len() == 3
    &&& steps[0] is StopAndWait
    &&& steps[2] is PlayFromCurrent
}

/// Takes one command and returns the steps that carry it out, in order.
///
/// Play, pause and seek are one step each. Next, previous and play-by-id
/// stop the worker, move the cursor and play again.
pub fn handle_player_command(command: PlayerCommand) -> (steps: Vec<TransportStep>)
    ensures
        match command {
            PlayerCommand::Play => steps@.len() == 1 && steps@[0] is PlayFromCurrent,
            PlayerCommand::Pause => steps@.len() == 1 && steps@[0] is Pause,
            PlayerCommand::Rewind(seconds) => steps@.len() == 1 && steps@[0]
                == TransportStep::Seek(seconds),
            PlayerCommand::Next => is_stop_move_play(steps@) && steps@[1] is MoveToNext,
            PlayerCommand::Prev => is_stop_move_play(steps@) && steps@[1] is MoveToPrevious,
            PlayerCommand::PlayItem(id) => is_stop_move_play(steps@) && steps@[1]
                == TransportStep::MoveToSong(id),
        },
{
    let mut steps: Vec<TransportStep> = Vec::new();
    match command {
        PlayerCommand::Play => {
            steps.push(TransportStep::PlayFromCurrent);
        },
        PlayerCommand::Pause => {
            steps.push(TransportStep::Pause);
        },
        PlayerCommand::Rewind(seconds) => {
            steps.push(TransportStep::Seek(seconds));
        },
        PlayerCommand::Next => {
            steps.push(TransportStep::StopAndWait);
            steps.push(TransportStep::MoveToNext);
            steps.push(TransportStep::PlayFromCurrent);
        },
        PlayerCommand::Prev => {
            steps.push(TransportStep::StopAndWait);
            steps.push(TransportStep::MoveToPrevious);
            steps.push(TransportStep::PlayFromCurrent);
        },
        PlayerCommand::PlayItem(id) => {
            steps.push(TransportStep::StopAndWait);
            steps.push(TransportStep::MoveToSong(id));
            steps.push(TransportStep::PlayFromCurrent);
        },
    }
    steps
}

/// Play is idempotent. However a play command went, a second one that
/// arrives while the worker of the first has not finished spawns nothing
/// and changes neither the controller nor the signals; the controller is
/// still playing.
pub proof fn law_play_is_idempotent(
    service: ServiceView,
    worker_finished: bool,
    has_current_song: bool,
    resume: ResumeState,
    signals: PlaybackSignals,
    resume_later: ResumeState,
    has_current_song_later: bool,
)
    ensures
        ({
            let first = service.play(worker_finished, has_current_song, resume, signals);
            let second = first.0.play(false, has_current_song_later, resume_later, first.1);
            &&& first.0.is_playing(false)
            &&& second == (first.0, first.1, PlayStart::AlreadyPlaying)
        }),
{
}

/// Stopping ends the worker. Once the run signal is cleared, the next round
/// of the decode loop ends as `PlaybackStopped`, whatever else the signals
/// say, and the worker takes that result as its own and ends too.
pub proof fn law_stop_ends_worker(
    signals: PlaybackSignals,
    state: LoopView,
    worker: WorkerView,
    remote: bool,
)
    ensures
        state.poll(ServiceView::stop(signals)).2 == state.exit(
            Ok(PlaybackResult::PlaybackStopped),
        ),
        worker.on_track_outcome(remote, Ok(PlaybackResult::PlaybackStopped)).1 == WorkerStep::Exit(
            PlaybackResult::PlaybackStopped,
        ),
{
}

/// Resuming continues from the saved progress. Where the last session
/// ended paused, the play command that spawns a worker hands the saved
/// progress to the decode loop, whose first round asks the reader to seek
/// there before it reads a packet; after that round no seek is pending.
pub proof fn law_resume_seeks_to_saved_progress(
    service: ServiceView,
    worker_finished: bool,
    has_current_song: bool,
    resume: ResumeState,
    signals: PlaybackSignals,
    track: TrackView,
)
    requires
        !service.is_playing(worker_finished),
        resume.paused,
        !signals.paused,
    ensures
        ({
            let started = service.play(worker_finished, has_current_song, resume, signals);
            let round = LoopView::start(track).poll(started.1);
            &&& started.2 is SpawnWorker
            &&& round.2 == (LoopAction::ReadPacket {
                seek_to: if resume.progress > 0 {
                    Some(resume.progress)
                } else {
                    None
                },
            })
            &&& round.1.pending_seek() == None::<u16>
        }),
{
}

} // verus!
