//! The playback worker: the thread that plays the queue song by song.
//!
//! The worker asks the queue for its current song, runs the decode loop on
//! it, and then goes on, stops, or gives up. Queue, decode loop and event
//! channel are driven by whoever runs the thread; what comes next is decided
//! here, by one function for each thing that can have happened:
//!
//! 1. [`Worker::on_current_song`] once the queue has been asked for its
//!    current song;
//! 2. [`Worker::on_track_outcome`] once the decode loop has returned;
//! 3. [`Worker::on_advanced`] once the queue has been asked to advance.

use vstd::prelude::*;
use vstd::string::StringSliceAdditionalSpecFns;
use crate::decode::PlaybackError;
use crate::events::{PlayerState, StateChangeEvent};
use crate::result::PlaybackResult;
use crate::source::{is_remote, is_remote_locator};

verus! {

/// Failures in a row at which the worker gives up on the queue, however
/// long the queue is.
pub const FAILURE_LIMIT: usize = 10;

/// What the worker does next.
#[derive(Debug, Clone, Copy, PartialEq, Eq, Structural)]
pub enum WorkerStep {
    /// Ask the queue for its current song and report whether there is one.
    FetchCurrent,
    /// Publish the current song and the state `PLAYING`, then run the decode
    /// loop on the song's locator and report its outcome.
    PlayCurrent,
    /// Ask the queue to advance and report whether there was a next song.
    Advance,
    /// Clear the run signal, publish the state `STOPPED`, and end the thread
    /// with this result.
    Exit(PlaybackResult),
}

/// The events that are published when `step` is carried out, in order.
pub open spec fn published(step: WorkerStep) -> Seq<StateChangeEvent> {
    match step {
        WorkerStep::PlayCurrent => seq![
            StateChangeEvent::CurrentSongEvent,
            StateChangeEvent::PlaybackStateEvent(PlayerState::PLAYING),
        ],
        WorkerStep::Exit(_) => seq![StateChangeEvent::PlaybackStateEvent(PlayerState::STOPPED)],
        _ => Seq::empty(),
    }
}

impl WorkerStep {
    /// The events to publish when this step is carried out, in order.
    pub fn events(&self) -> (events: Vec<StateChangeEvent>)
        ensures
            events@ == published(*self),
    {
        let mut events: Vec<StateChangeEvent> = Vec::new();
        match self {
            WorkerStep::PlayCurrent => {
                events.push(StateChangeEvent::CurrentSongEvent);
                events.push(StateChangeEvent::PlaybackStateEvent(PlayerState::PLAYING));
            },
            WorkerStep::Exit(_) => {
                events.push(StateChangeEvent::PlaybackStateEvent(PlayerState::STOPPED));
            },
            _ => {},
        }
        assert(events@ =~= published(*self));
        events
    }
}

/// The mathematical content of a [`Worker`].
pub ghost struct WorkerView {
    /// Number of songs in the queue when the worker was started.
    pub queue_size: nat,
    /// Failed tracks since the last one that played.
    pub num_failed: nat,
}

impl WorkerView {
    /// The state in which a worker starts on a queue of `queue_size` songs.
    pub open spec fn start(queue_size: nat) -> WorkerView {
        WorkerView { queue_size, num_failed: 0 }
    }

    /// The failure streak that the worker never reaches without giving up:
    /// the failure limit, or the length of the queue where that is smaller.
    pub open spec fn streak_bound(self) -> nat {
        if self.queue_size < FAILURE_LIMIT {
            self.queue_size
        } else {
            FAILURE_LIMIT as nat
        }
    }

    /// Whether a failure now ends the queue: the failed locator is remote,
    /// or the streak, this failure included, reaches its bound.
    pub open spec fn gives_up(self, remote: bool) -> bool {
        remote || self.num_failed + 1 >= self.streak_bound()
    }

    /// Step after the queue was asked for its current song.
    pub open spec fn on_current_song(self, has_song: bool) -> WorkerStep {
        if has_song {
            WorkerStep::PlayCurrent
        } else {
            WorkerStep::Exit(PlaybackResult::QueueFinished)
        }
    }

    /// State and step after the decode loop returned `outcome` for a locator
    /// that is remote or not.
    pub open spec fn on_track_outcome(
        self,
        remote: bool,
        outcome: Result<PlaybackResult, PlaybackError>,
    ) -> (WorkerView, WorkerStep) {
        match outcome {
            Ok(PlaybackResult::PlaybackStopped) => (
                self,
                WorkerStep::Exit(PlaybackResult::PlaybackStopped),
            ),
            Ok(_) => (WorkerView { num_failed: 0, ..self }, WorkerStep::Advance),
            Err(_) => if self.gives_up(remote) {
                (self, WorkerStep::Exit(PlaybackResult::QueueFinished))
            } else {
                (WorkerView { num_failed: self.num_failed + 1, ..self }, WorkerStep::Advance)
            },
        }
    }

    /// Step after the queue was asked to advance.
    pub open spec fn on_advanced(self, advanced: bool) -> WorkerStep {
        if advanced {
            WorkerStep::FetchCurrent
        } else {
            WorkerStep::Exit(PlaybackResult::QueueFinished)
        }
    }
}

/// State of one run of the playback worker.
#[derive(Debug, Clone, Copy)]
pub struct Worker {
    queue_size: usize,
    num_failed: usize,
}

impl View for Worker {
    type V = WorkerView;

    closed spec fn view(&self) -> WorkerView {
        WorkerView { queue_size: self.queue_size as nat, num_failed: self.num_failed as nat }
    }
}

impl Worker {
    #[verifier::type_invariant]
    closed spec fn inv(&self) -> bool {
        self.num_failed < FAILURE_LIMIT
    }

    /// A worker for a queue that holds `queue_size` songs, with no failure
    /// counted yet.
    pub fn new(queue_size: usize) -> (worker: Worker)
        ensures
            worker@ == WorkerView::start(queue_size as nat),
    {
        Worker { queue_size, num_failed: 0 }
    }

    /// Failed tracks since the last one that played.
    pub fn num_failed(&self) -> (n: usize)
        ensures
            n == self@.num_failed,
    {
        self.num_failed
    }

    /// Takes the queue's answer on its current song: with a song the worker
    /// plays it, without one the queue is finished.
    pub fn on_current_song(&self, has_song: bool) -> (step: WorkerStep)
        ensures
            step == self@.on_current_song(has_song),
    {
        if has_song {
            WorkerStep::PlayCurrent
        } else {
            WorkerStep::Exit(PlaybackResult::QueueFinished)
        }
    }

    /// Takes the outcome of the decode loop on the song at `locator`.
    ///
    /// A stop on request ends the worker. A track that played resets the
    /// failure streak, and the worker advances. A failure adds to the streak;
    /// the worker then gives up on the whole queue where the locator is a
    /// remote stream, or where the streak has reached the failure limit or
    /// the length of the queue, and advances otherwise.
    pub fn on_track_outcome(
        &mut self,
        locator: &str,
        outcome: Result<PlaybackResult, PlaybackError>,
    ) -> (step: WorkerStep)
        ensures
            (final(self)@, step) == old(self)@.on_track_outcome(
                is_remote(locator.spec_bytes()),
                outcome,
            ),
    {
        proof {
            use_type_invariant(&*self);
        }
        match outcome {
            Ok(PlaybackResult::PlaybackStopped) => WorkerStep::Exit(
                PlaybackResult::PlaybackStopped,
            ),
            Ok(_) => {
                self.num_failed = 0;
                WorkerStep::Advance
            },
            Err(_) => {
                let failed: usize = self.num_failed + 1;
                if is_remote_locator(locator) || failed == FAILURE_LIMIT || failed
                    >= self.queue_size {
                    WorkerStep::Exit(PlaybackResult::QueueFinished)
                } else {
                    self.num_failed = failed;
                    WorkerStep::Advance
                }
            },
        }
    }

    /// Takes the queue's answer on advancing: with a next song the worker
    /// goes round again, without one the queue is finished.
    pub fn on_advanced(&self, advanced: bool) -> (step: WorkerStep)
        ensures
            step == self@.on_advanced(advanced),
    {
        if advanced {
            WorkerStep::FetchCurrent
        } else {
            WorkerStep::Exit(PlaybackResult::QueueFinished)
        }
    }
}

/// The priority at which the worker thread is asked to run.
#[derive(Debug, Clone, Copy, PartialEq, Eq, Structural)]
pub enum ThreadPriorityChoice {
    /// The lowest priority that the platform has.
    Min,
    /// The configured priority, on the scale that all platforms share.
    Crossplatform(u8),
}

/// How the worker thread is set up.
#[derive(Debug, Clone, Copy, PartialEq, Eq, Structural)]
pub struct ThreadPlan {
    /// The priority to ask for.
    pub priority: ThreadPriorityChoice,
    /// Position, among the cores that were enumerated, of the core to pin
    /// the thread to, if it is pinned.
    pub pin_to_core: Option<usize>,
}

/// Whether the host has more than one core, given how many were enumerated
/// (`None` where they could not be).
pub open spec fn is_multi_core(core_count: Option<usize>) -> bool {
    core_count matches Some(n) && n > 1
}

/// Decides priority and placement of the worker thread.
///
/// On a host with several cores the thread gets the configured priority and
/// is pinned to the last core, away from the threads that take commands. On
/// a single core a raised priority could starve everything else, so the
/// thread runs at the lowest priority and is not pinned.
pub fn thread_plan(core_count: Option<usize>, configured_priority: u8) -> (plan: ThreadPlan)
    ensures
        plan.priority == (if is_multi_core(core_count) {
            ThreadPriorityChoice::Crossplatform(configured_priority)
        } else {
            ThreadPriorityChoice::Min
        }),
        plan.pin_to_core == (if is_multi_core(core_count) {
            Some((core_count->0 - 1) as usize)
        } else {
            None
        }),
{
    match core_count {
        Some(n) => if n > 1 {
            ThreadPlan {
                priority: ThreadPriorityChoice::Crossplatform(configured_priority),
                pin_to_core: Some(n - 1),
            }
        } else {
            ThreadPlan { priority: ThreadPriorityChoice::Min, pin_to_core: None }
        },
        None => ThreadPlan { priority: ThreadPriorityChoice::Min, pin_to_core: None },
    }
}

/// What a worker did from its start to its end.
pub ghost struct WorkerRun {
    /// The events that it published, in order.
    pub events: Seq<StateChangeEvent>,
    /// How many times it ran the decode loop.
    pub attempts: nat,
    /// The result with which it ended.
    pub result: PlaybackResult,
}

/// The run of a worker in state `worker` on a queue that holds the songs
/// with the locators `locators`, stands at position `cursor`, and advances
/// song by song up to its end, where the decode loop returns
/// `outcome_of(i)` for the song at position `i`.
pub open spec fn run(
    worker: WorkerView,
    locators: Seq<Seq<u8>>,
    cursor: nat,
    outcome_of: spec_fn(nat) -> Result<PlaybackResult, PlaybackError>,
) -> WorkerRun
    decreases locators.len() - cursor,
{
    let fetched = worker.on_current_song(cursor < locators.len());
    if cursor >= locators.len() {
        WorkerRun {
            events: published(fetched),
            attempts: 0,
            result: PlaybackResult::QueueFinished,
        }
    } else {
        let played = worker.on_track_outcome(
            is_remote(locators[cursor as int]),
            outcome_of(cursor),
        );
        let advanced = played.0.on_advanced(cursor + 1 < locators.len());
        match (played.1, advanced) {
            (WorkerStep::Exit(result), _) => WorkerRun {
                events: published(fetched) + published(played.1),
                attempts: 1,
                result,
            },
            (_, WorkerStep::Exit(result)) => WorkerRun {
                events: published(fetched) + published(advanced),
                attempts: 1,
                result,
            },
            _ => {
                let rest = run(played.0, locators, cursor + 1, outcome_of);
                WorkerRun {
                    events: published(fetched) + rest.events,
                    attempts: 1 + rest.attempts,
                    result: rest.result,
                }
            },
        }
    }
}

/// The events of `attempts` songs announced one after the other: for each
/// the change of the current song, then the state `PLAYING`.
pub open spec fn announcements(attempts: nat) -> Seq<StateChangeEvent>
    decreases attempts,
{
    if attempts == 0 {
        Seq::empty()
    } else {
        published(WorkerStep::PlayCurrent) + announcements((attempts - 1) as nat)
    }
}

/// The event that ends every run.
pub open spec fn stopped_event() -> StateChangeEvent {
    StateChangeEvent::PlaybackStateEvent(PlayerState::STOPPED)
}

/// Every run of the worker publishes, for each song that it tries, the
/// change of song and the state `PLAYING`, and the state `STOPPED` once, as
/// its last event.
pub proof fn law_run_publishes_stopped_once(
    worker: WorkerView,
    locators: Seq<Seq<u8>>,
    cursor: nat,
    outcome_of: spec_fn(nat) -> Result<PlaybackResult, PlaybackError>,
)
    ensures
        run(worker, locators, cursor, outcome_of).events == announcements(
            run(worker, locators, cursor, outcome_of).attempts,
        ) + seq![stopped_event()],
        forall|i: int|
            0 <= i < run(worker, locators, cursor, outcome_of).events.len() ==> (run(
                worker,
                locators,
                cursor,
                outcome_of,
            ).events[i] == stopped_event() <==> i == run(
                worker,
                locators,
                cursor,
                outcome_of,
            ).events.len() - 1),
    decreases locators.len() - cursor,
{
    let whole = run(worker, locators, cursor, outcome_of);
    let last = seq![stopped_event()];
    if cursor >= locators.len() {
        assert(whole.events =~= announcements(0) + last);
    } else {
        let played = worker.on_track_outcome(
            is_remote(locators[cursor as int]),
            outcome_of(cursor),
        );
        let advanced = played.0.on_advanced(cursor + 1 < locators.len());
        let one = published(WorkerStep::PlayCurrent);
        assert(announcements(1) =~= one) by {
            assert(announcements(0) =~= Seq::<StateChangeEvent>::empty());
        }
        if played.1 is Exit || advanced is Exit {
            assert(whole.events =~= announcements(1) + last);
        } else {
            let rest = run(played.0, locators, cursor + 1, outcome_of);
            law_run_publishes_stopped_once(played.0, locators, cursor + 1, outcome_of);
            assert(whole.events =~= one + rest.events);
            assert(announcements(whole.attempts) =~= one + announcements(rest.attempts));
            assert(whole.events =~= announcements(whole.attempts) + last);
            assert forall|i: int| 0 <= i < whole.events.len() implies (whole.events[i]
                == stopped_event() <==> i == whole.events.len() - 1) by {
                if i >= 2 {
                    assert(whole.events[i] == rest.events[i - 2]);
                }
            }
        }
    }
}

proof fn lemma_failures_reach_bound(
    worker: WorkerView,
    locators: Seq<Seq<u8>>,
    cursor: nat,
    outcome_of: spec_fn(nat) -> Result<PlaybackResult, PlaybackError>,
)
    requires
        worker.queue_size == locators.len(),
        worker.num_failed < worker.streak_bound(),
        cursor + worker.streak_bound() - worker.num_failed <= locators.len(),
        forall|i: int| 0 <= i < locators.len() ==> !is_remote(#[trigger] locators[i]),
        forall|i: nat| i < locators.len() ==> (#[trigger] outcome_of(i)) is Err,
    ensures
        run(worker, locators, cursor, outcome_of).attempts == worker.streak_bound()
            - worker.num_failed,
        run(worker, locators, cursor, outcome_of).result == PlaybackResult::QueueFinished,
    decreases locators.len() - cursor,
{
    let played = worker.on_track_outcome(is_remote(locators[cursor as int]), outcome_of(cursor));
    assert(outcome_of(cursor) is Err);
    if !worker.gives_up(false) {
        lemma_failures_reach_bound(played.0, locators, cursor + 1, outcome_of);
    }
}

/// The failure streak breaks the run. On a queue of local songs of which
/// every one fails to play, a worker that starts at the head of the queue
/// tries as many songs as the failure limit, or as the queue holds where
/// that is fewer, then ends with `QueueFinished`; it publishes `STOPPED`
/// once, as its last event.
pub proof fn law_failure_streak_breaker(
    locators: Seq<Seq<u8>>,
    outcome_of: spec_fn(nat) -> Result<PlaybackResult, PlaybackError>,
)
    requires
        forall|i: int| 0 <= i < locators.len() ==> !is_remote(#[trigger] locators[i]),
        forall|i: nat| i < locators.len() ==> (#[trigger] outcome_of(i)) is Err,
    ensures
        run(WorkerView::start(locators.len()), locators, 0, outcome_of).attempts == (if locators.len()
            < FAILURE_LIMIT {
            locators.len()
        } else {
            FAILURE_LIMIT as nat
        }),
        run(WorkerView::start(locators.len()), locators, 0, outcome_of).result
            == PlaybackResult::QueueFinished,
        run(WorkerView::start(locators.len()), locators, 0, outcome_of).events == announcements(
            run(WorkerView::start(locators.len()), locators, 0, outcome_of).attempts,
        ) + seq![stopped_event()],
        forall|i: int|
            0 <= i < run(WorkerView::start(locators.len()), locators, 0, outcome_of).events.len()
                ==> (run(WorkerView::start(locators.len()), locators, 0, outcome_of).events[i]
                == stopped_event() <==> i == run(
                WorkerView::start(locators.len()),
                locators,
                0,
                outcome_of,
            ).events.len() - 1),
{
    let worker = WorkerView::start(locators.len());
    if locators.len() > 0 {
        lemma_failures_reach_bound(worker, locators, 0, outcome_of);
    }
    law_run_publishes_stopped_once(worker, locators, 0, outcome_of);
}

/// A remote stream that fails ends the queue at once, whatever the streak
/// and the length of the queue, and the streak is left as it was.
pub proof fn law_remote_failure_ends_queue(worker: WorkerView, error: PlaybackError)
    ensures
        worker.on_track_outcome(true, Err(error)) == (
            worker,
            WorkerStep::Exit(PlaybackResult::QueueFinished),
        ),
{
}

/// The streak stays below its bound. Whatever happens to a worker whose
/// streak is below the failure limit and the length of its queue, it either
/// ends or goes on with a streak that is below both again; and a track that
/// played leaves no streak at all.
pub proof fn law_streak_stays_below_bound(
    worker: WorkerView,
    remote: bool,
    outcome: Result<PlaybackResult, PlaybackError>,
)
    requires
        worker.num_failed == 0 || worker.num_failed < worker.streak_bound(),
    ensures
        worker.on_track_outcome(remote, outcome).1 is Exit || worker.on_track_outcome(
            remote,
            outcome,
        ).1 == WorkerStep::Advance,
        worker.on_track_outcome(remote, outcome).1 == WorkerStep::Advance ==> {
            let next = worker.on_track_outcome(remote, outcome).0;
            &&& next.queue_size == worker.queue_size
            &&& next.num_failed == 0 || next.num_failed < next.streak_bound()
            &&& outcome is Ok ==> next.num_failed == 0
        },
{
}

} // verus!
