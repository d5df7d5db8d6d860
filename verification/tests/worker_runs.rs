use rsplayer_playback::decode::{
    DecodeLoop, DecodeOutcome, LoopAction, PacketRead, PlaybackError,
};
use rsplayer_playback::events::{PlayerState, StateChangeEvent};
use rsplayer_playback::result::PlaybackResult;
use rsplayer_playback::signals::PlaybackSignals;
use rsplayer_playback::track::TrackInfo;
use rsplayer_playback::worker::{
    thread_plan, ThreadPlan, ThreadPriorityChoice, Worker, WorkerStep, FAILURE_LIMIT,
};

#[derive(Clone, Copy)]
enum Script {
    Plays { seconds: u64 },
    Fails(PlaybackError),
}

fn decode_and_play(
    script: Script,
    signals: &mut PlaybackSignals,
    log: &mut Vec<String>,
) -> Result<PlaybackResult, PlaybackError> {
    let seconds = match script {
        Script::Plays { seconds } => seconds,
        Script::Fails(error) => return Err(error),
    };
    let track = TrackInfo::new(
        0,
        false,
        Some((1, 44100)),
        Some(seconds * 44100),
        0,
        Some(44100),
        Some(16),
        Some(2),
    )
    .unwrap();
    log.push("info".to_string());
    let mut state = DecodeLoop::new(track);
    let mut ts = 0u64;
    let mut action = state.poll(signals);
    loop {
        action = match action {
            LoopAction::Sleep { .. } => panic!("nothing pauses this run"),
            LoopAction::ReadPacket { .. } => {
                let read = if ts > seconds * 44100 {
                    PacketRead::EndOfStream
                } else {
                    PacketRead::Packet { ts }
                };
                ts += 4410;
                state.on_packet(read)
            }
            LoopAction::Decode { publish } => {
                if let Some(progress) = publish {
                    assert_eq!(progress.total_time, seconds);
                    log.push(format!("progress:{}", progress.current_time));
                }
                state.on_decoded(DecodeOutcome::Decoded)
            }
            LoopAction::OpenSink => state.on_sink_opened(true),
            LoopAction::WriteFrames | LoopAction::Continue => state.poll(signals),
            LoopAction::Exit(exit) => {
                assert!(exit.flush_sink);
                return exit.result;
            }
        };
    }
}

fn publish(step: WorkerStep, locator: &str, log: &mut Vec<String>) {
    for event in step.events() {
        log.push(match event {
            StateChangeEvent::CurrentSongEvent => format!("song:{}", locator),
            StateChangeEvent::PlaybackStateEvent(state) => format!("state:{:?}", state),
            other => panic!("a worker step does not publish {:?}", other),
        });
    }
}

fn run_worker(songs: &[(&str, Script)]) -> (Vec<String>, PlaybackResult, usize) {
    let mut log: Vec<String> = Vec::new();
    let mut signals = PlaybackSignals { running: true, paused: false, skip_to_seconds: 0 };
    let mut worker = Worker::new(songs.len());
    let mut cursor = 0usize;
    let mut attempts = 0usize;
    let mut step = WorkerStep::FetchCurrent;
    loop {
        step = match step {
            WorkerStep::FetchCurrent => worker.on_current_song(cursor < songs.len()),
            WorkerStep::PlayCurrent => {
                let (locator, script) = songs[cursor];
                publish(step, locator, &mut log);
                attempts += 1;
                assert!(attempts <= songs.len());
                let outcome = decode_and_play(script, &mut signals, &mut log);
                worker.on_track_outcome(locator, outcome)
            }
            WorkerStep::Advance => {
                let advanced = cursor + 1 < songs.len();
                if advanced {
                    cursor += 1;
                }
                worker.on_advanced(advanced)
            }
            WorkerStep::Exit(result) => {
                publish(step, "", &mut log);
                return (log, result, attempts);
            }
        };
    }
}

#[test]
fn valid_song_then_corrupt_song_finishes_the_queue() {
    let (log, result, attempts) = run_worker(&[
        ("a.flac", Script::Plays { seconds: 180 }),
        ("b.mp3", Script::Fails(PlaybackError::ProbeFailed)),
    ]);
    let mut expected: Vec<String> =
        vec!["song:a.flac".to_string(), "state:PLAYING".to_string(), "info".to_string()];
    for second in 1..=180 {
        expected.push(format!("progress:{}", second));
    }
    expected.push("song:b.mp3".to_string());
    expected.push("state:PLAYING".to_string());
    expected.push("state:STOPPED".to_string());
    assert_eq!(log, expected);
    assert_eq!(result, PlaybackResult::QueueFinished);
    assert_eq!(attempts, 2);
}

#[test]
fn worker_gives_up_after_ten_failures_in_a_long_queue() {
    let songs: Vec<(&str, Script)> =
        (0..25).map(|_| ("broken.flac", Script::Fails(PlaybackError::ProbeFailed))).collect();
    let (log, result, attempts) = run_worker(&songs);
    assert_eq!(attempts, 10);
    assert_eq!(FAILURE_LIMIT, 10);
    assert_eq!(result, PlaybackResult::QueueFinished);
    assert_eq!(log.iter().filter(|e| e.as_str() == "state:STOPPED").count(), 1);
    assert_eq!(log.last().map(|e| e.as_str()), Some("state:STOPPED"));
    assert_eq!(log.len(), 21);
}

#[test]
fn worker_gives_up_at_the_length_of_a_short_queue() {
    for n in 0..10usize {
        let songs: Vec<(&str, Script)> =
            (0..n).map(|_| ("broken.flac", Script::Fails(PlaybackError::InvalidTrack))).collect();
        let (log, result, attempts) = run_worker(&songs);
        assert_eq!(attempts, n);
        assert_eq!(result, PlaybackResult::QueueFinished);
        assert_eq!(log.iter().filter(|e| e.as_str() == "state:STOPPED").count(), 1);
        assert_eq!(log.last().map(|e| e.as_str()), Some("state:STOPPED"));
    }
}

#[test]
fn failing_remote_stream_ends_the_queue_at_once() {
    let (log, result, attempts) = run_worker(&[
        ("http://radio.example/live", Script::Fails(PlaybackError::StreamUnavailable)),
        ("a.flac", Script::Plays { seconds: 3 }),
        ("b.flac", Script::Plays { seconds: 3 }),
    ]);
    assert_eq!(
        log,
        vec!["song:http://radio.example/live", "state:PLAYING", "state:STOPPED"]
    );
    assert_eq!(result, PlaybackResult::QueueFinished);
    assert_eq!(attempts, 1);
}

#[test]
fn remote_failure_does_not_count_towards_the_streak() {
    let mut worker = Worker::new(50);
    for _ in 0..4 {
        assert_eq!(
            worker.on_track_outcome("x.flac", Err(PlaybackError::ProbeFailed)),
            WorkerStep::Advance
        );
    }
    assert_eq!(worker.num_failed(), 4);
    assert_eq!(
        worker.on_track_outcome("https://radio.example", Err(PlaybackError::StreamUnavailable)),
        WorkerStep::Exit(PlaybackResult::QueueFinished)
    );
    assert_eq!(worker.num_failed(), 4);
}

#[test]
fn a_song_that_plays_resets_the_streak() {
    let mut worker = Worker::new(100);
    for round in 0..5 {
        for failed in 1..=9 {
            assert_eq!(
                worker.on_track_outcome("x.flac", Err(PlaybackError::ReadFailed)),
                WorkerStep::Advance,
                "round {}",
                round
            );
            assert_eq!(worker.num_failed(), failed);
        }
        assert_eq!(
            worker.on_track_outcome("y.flac", Ok(PlaybackResult::SongFinished)),
            WorkerStep::Advance
        );
        assert_eq!(worker.num_failed(), 0);
    }
    for _ in 0..9 {
        worker.on_track_outcome("x.flac", Err(PlaybackError::ReadFailed));
    }
    assert_eq!(
        worker.on_track_outcome("x.flac", Err(PlaybackError::ReadFailed)),
        WorkerStep::Exit(PlaybackResult::QueueFinished)
    );
}

#[test]
fn every_kind_of_error_counts_as_a_failure() {
    for error in [
        PlaybackError::StreamUnavailable,
        PlaybackError::SourceUnreadable,
        PlaybackError::ProbeFailed,
        PlaybackError::InvalidTrack,
        PlaybackError::DecoderUnavailable,
        PlaybackError::ReadFailed,
        PlaybackError::DecodeFailed,
        PlaybackError::OutputOpenFailed,
    ] {
        let mut worker = Worker::new(3);
        assert_eq!(worker.on_track_outcome("a.flac", Err(error)), WorkerStep::Advance);
        assert_eq!(worker.on_track_outcome("b.flac", Err(error)), WorkerStep::Advance);
        assert_eq!(
            worker.on_track_outcome("c.flac", Err(error)),
            WorkerStep::Exit(PlaybackResult::QueueFinished)
        );
    }
}

#[test]
fn stop_on_request_ends_the_worker() {
    let mut worker = Worker::new(5);
    assert_eq!(
        worker.on_track_outcome("a.flac", Ok(PlaybackResult::PlaybackStopped)),
        WorkerStep::Exit(PlaybackResult::PlaybackStopped)
    );
    assert_eq!(
        worker.on_track_outcome("a.flac", Ok(PlaybackResult::QueueFinished)),
        WorkerStep::Advance
    );
}

#[test]
fn empty_queue_is_finished_at_once() {
    let (log, result, attempts) = run_worker(&[]);
    assert_eq!(log, vec!["state:STOPPED"]);
    assert_eq!(result, PlaybackResult::QueueFinished);
    assert_eq!(attempts, 0);
    let worker = Worker::new(0);
    assert_eq!(worker.on_current_song(false), WorkerStep::Exit(PlaybackResult::QueueFinished));
    assert_eq!(worker.on_current_song(true), WorkerStep::PlayCurrent);
    assert_eq!(worker.on_advanced(true), WorkerStep::FetchCurrent);
    assert_eq!(worker.on_advanced(false), WorkerStep::Exit(PlaybackResult::QueueFinished));
}

#[test]
fn steps_publish_their_events() {
    assert_eq!(
        WorkerStep::PlayCurrent.events(),
        vec![
            StateChangeEvent::CurrentSongEvent,
            StateChangeEvent::PlaybackStateEvent(PlayerState::PLAYING)
        ]
    );
    for result in [
        PlaybackResult::QueueFinished,
        PlaybackResult::SongFinished,
        PlaybackResult::PlaybackStopped,
    ] {
        assert_eq!(
            WorkerStep::Exit(result).events(),
            vec![StateChangeEvent::PlaybackStateEvent(PlayerState::STOPPED)]
        );
    }
    assert_eq!(WorkerStep::Advance.events(), vec![]);
    assert_eq!(WorkerStep::FetchCurrent.events(), vec![]);
}

#[test]
fn worker_thread_is_placed_by_the_number_of_cores() {
    let low = ThreadPlan { priority: ThreadPriorityChoice::Min, pin_to_core: None };
    assert_eq!(thread_plan(None, 50), low);
    assert_eq!(thread_plan(Some(0), 50), low);
    assert_eq!(thread_plan(Some(1), 99), low);
    assert_eq!(
        thread_plan(Some(2), 50),
        ThreadPlan { priority: ThreadPriorityChoice::Crossplatform(50), pin_to_core: Some(1) }
    );
    assert_eq!(
        thread_plan(Some(8), 1),
        ThreadPlan { priority: ThreadPriorityChoice::Crossplatform(1), pin_to_core: Some(7) }
    );
}
