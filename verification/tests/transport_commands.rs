use std::collections::HashMap;

use rsplayer_playback::decode::{
    DecodeLoop, DecodeOutcome, LoopAction, LoopExit, PacketRead,
};
use rsplayer_playback::events::{PlayerState, StateChangeEvent};
use rsplayer_playback::result::PlaybackResult;
use rsplayer_playback::resume::{ResumeRecorder, ResumeState, StoreKey, StoreOp};
use rsplayer_playback::signals::PlaybackSignals;
use rsplayer_playback::track::TrackInfo;
use rsplayer_playback::transport::{
    handle_player_command, PlayStart, PlayerCommand, PlayerService, TransportStep,
};
use rsplayer_playback::worker::{Worker, WorkerStep};

const NOTHING_SAVED: ResumeState = ResumeState { paused: false, progress: 0 };

fn record(
    recorder: &mut ResumeRecorder,
    store: &mut HashMap<&'static str, Vec<u8>>,
    event: StateChangeEvent,
) {
    match recorder.on_event(event) {
        Some(StoreOp::Insert { key, value }) => {
            store.insert(key.name(), value);
        }
        Some(StoreOp::Remove { key }) => {
            store.remove(key.name());
        }
        None => {}
    }
}

fn read(store: &HashMap<&'static str, Vec<u8>>) -> ResumeState {
    let progress = store
        .get(StoreKey::LastSongProgress.name())
        .map(|bytes| String::from_utf8(bytes.clone()).unwrap());
    ResumeState::read(store.contains_key(StoreKey::LastSongPaused.name()), progress.as_deref())
}

#[test]
fn play_while_playing_spawns_no_second_worker() {
    let mut signals = PlaybackSignals::new();
    let mut service = PlayerService::new(NOTHING_SAVED, &mut signals);
    assert!(!service.is_playing(false));
    assert_eq!(service.state(false), PlayerState::STOPPED);
    assert_eq!(
        service.play_from_current_queue_song(false, true, NOTHING_SAVED, &mut signals),
        PlayStart::SpawnWorker { count_play: true }
    );
    assert!(signals.running);
    assert!(service.is_playing(false));
    assert_eq!(service.state(false), PlayerState::PLAYING);
    let before = signals;
    for _ in 0..3 {
        let saved = ResumeState { paused: true, progress: 99 };
        assert_eq!(
            service.play_from_current_queue_song(false, true, saved, &mut signals),
            PlayStart::AlreadyPlaying
        );
        assert_eq!(signals, before);
        assert!(service.is_playing(false));
    }
}

#[test]
fn play_after_the_worker_ended_spawns_a_new_one() {
    let mut signals = PlaybackSignals::new();
    let mut service = PlayerService::new(NOTHING_SAVED, &mut signals);
    service.play_from_current_queue_song(false, true, NOTHING_SAVED, &mut signals);
    signals.running = false;
    assert!(!service.is_playing(true));
    assert_eq!(service.state(true), PlayerState::STOPPED);
    assert_eq!(
        service.play_from_current_queue_song(true, false, NOTHING_SAVED, &mut signals),
        PlayStart::SpawnWorker { count_play: false }
    );
    assert!(signals.running);
    assert_eq!(signals.skip_to_seconds, 0);
}

#[test]
fn play_restores_the_saved_progress_after_a_pause() {
    let mut signals = PlaybackSignals::new();
    let mut service = PlayerService::new(NOTHING_SAVED, &mut signals);
    let saved = ResumeState { paused: true, progress: 42 };
    assert_eq!(
        service.play_from_current_queue_song(false, true, saved, &mut signals),
        PlayStart::SpawnWorker { count_play: true }
    );
    assert_eq!(signals, PlaybackSignals { running: true, paused: false, skip_to_seconds: 42 });
}

#[test]
fn play_keeps_a_requested_seek_when_nothing_was_paused() {
    let mut signals = PlaybackSignals::new();
    let mut service = PlayerService::new(NOTHING_SAVED, &mut signals);
    service.seek_current_song(15, &mut signals);
    let saved = ResumeState { paused: false, progress: 42 };
    service.play_from_current_queue_song(false, true, saved, &mut signals);
    assert_eq!(signals, PlaybackSignals { running: true, paused: false, skip_to_seconds: 15 });
}

#[test]
fn constructor_restores_progress_only_after_a_pause() {
    let mut signals = PlaybackSignals::new();
    let service = PlayerService::new(ResumeState { paused: false, progress: 42 }, &mut signals);
    assert_eq!(signals.skip_to_seconds, 0);
    assert!(!service.is_playing(false));
    assert!(!service.is_playing(true));
    let mut signals = PlaybackSignals::new();
    PlayerService::new(ResumeState { paused: true, progress: 42 }, &mut signals);
    assert_eq!(signals, PlaybackSignals { running: false, paused: false, skip_to_seconds: 42 });
}

#[test]
fn pause_stops_only_a_playing_worker() {
    let mut signals = PlaybackSignals::new();
    let mut service = PlayerService::new(NOTHING_SAVED, &mut signals);
    assert!(!service.pause_current_song(false, &mut signals));
    service.play_from_current_queue_song(false, true, NOTHING_SAVED, &mut signals);
    assert!(service.pause_current_song(false, &mut signals));
    assert!(!signals.running);
    signals.running = true;
    assert!(!service.pause_current_song(true, &mut signals));
    assert!(signals.running);
    service.stop_current_song(&mut signals);
    assert!(!signals.running);
}

#[test]
fn seek_only_stores_the_request() {
    let mut signals = PlaybackSignals { running: true, paused: true, skip_to_seconds: 0 };
    let service = PlayerService::new(NOTHING_SAVED, &mut signals);
    service.seek_current_song(73, &mut signals);
    assert_eq!(signals, PlaybackSignals { running: true, paused: true, skip_to_seconds: 73 });
    service.seek_current_song(5, &mut signals);
    assert_eq!(signals.skip_to_seconds, 5);
}

#[test]
fn cursor_commands_stop_before_they_move() {
    let mut signals = PlaybackSignals::new();
    let service = PlayerService::new(NOTHING_SAVED, &mut signals);
    assert_eq!(
        service.play_next_song(),
        vec![TransportStep::StopAndWait, TransportStep::MoveToNext, TransportStep::PlayFromCurrent]
    );
    assert_eq!(
        service.play_prev_song(),
        vec![
            TransportStep::StopAndWait,
            TransportStep::MoveToPrevious,
            TransportStep::PlayFromCurrent
        ]
    );
    assert_eq!(
        service.play_song("song-17"),
        vec![
            TransportStep::StopAndWait,
            TransportStep::MoveToSong("song-17".to_string()),
            TransportStep::PlayFromCurrent
        ]
    );
}

#[test]
fn pause_at_42_seconds_resumes_there_after_a_restart() {
    let mut store: HashMap<&'static str, Vec<u8>> = HashMap::new();
    let mut recorder = ResumeRecorder::new();
    let mut signals = PlaybackSignals::new();
    let mut service = PlayerService::new(read(&store), &mut signals);
    assert_eq!(
        service.play_from_current_queue_song(false, true, read(&store), &mut signals),
        PlayStart::SpawnWorker { count_play: true }
    );

    let mut worker = Worker::new(1);
    let step = worker.on_current_song(true);
    assert_eq!(step, WorkerStep::PlayCurrent);
    for event in step.events() {
        record(&mut recorder, &mut store, event);
    }
    assert_eq!(read(&store), ResumeState { paused: false, progress: 0 });

    let track =
        TrackInfo::new(0, false, Some((1, 44100)), Some(180 * 44100), 0, None, None, None).unwrap();
    let mut state = DecodeLoop::new(track);
    let mut ts = 0u64;
    let mut last_second = 0u64;
    let mut worker_finished = false;
    let outcome = loop {
        if last_second == 42 && signals.running {
            assert!(service.pause_current_song(worker_finished, &mut signals));
        }
        match state.poll(&mut signals) {
            LoopAction::ReadPacket { seek_to: None } => {}
            LoopAction::Exit(exit) => {
                assert_eq!(
                    exit,
                    LoopExit { flush_sink: true, result: Ok(PlaybackResult::PlaybackStopped) }
                );
                break exit.result;
            }
            other => panic!("unexpected {:?}", other),
        }
        if let LoopAction::Decode { publish: Some(progress) } =
            state.on_packet(PacketRead::Packet { ts })
        {
            last_second = progress.current_time;
            record(&mut recorder, &mut store, StateChangeEvent::SongTimeEvent(progress));
        }
        if state.on_decoded(DecodeOutcome::Decoded) == LoopAction::OpenSink {
            state.on_sink_opened(true);
        }
        ts += 4410;
    };
    let step = worker.on_track_outcome("a.flac", outcome);
    assert_eq!(step, WorkerStep::Exit(PlaybackResult::PlaybackStopped));
    for event in step.events() {
        record(&mut recorder, &mut store, event);
    }
    worker_finished = true;
    assert!(!service.is_playing(worker_finished));
    assert_eq!(store.get("last_song_paused"), Some(&b"true".to_vec()));
    assert_eq!(store.get("last_played_song_progress"), Some(&b"42".to_vec()));

    let saved = read(&store);
    assert_eq!(saved, ResumeState { paused: true, progress: 42 });
    let mut signals = PlaybackSignals::new();
    let mut service = PlayerService::new(saved, &mut signals);
    assert_eq!(signals.skip_to_seconds, 42);
    assert_eq!(
        service.play_from_current_queue_song(false, true, saved, &mut signals),
        PlayStart::SpawnWorker { count_play: true }
    );
    let mut state = DecodeLoop::new(track);
    assert_eq!(state.poll(&mut signals), LoopAction::ReadPacket { seek_to: Some(42) });
    assert_eq!(state.poll(&mut signals), LoopAction::ReadPacket { seek_to: None });
}

#[test]
fn commands_map_to_their_steps() {
    assert_eq!(handle_player_command(PlayerCommand::Play), vec![TransportStep::PlayFromCurrent]);
    assert_eq!(handle_player_command(PlayerCommand::Pause), vec![TransportStep::Pause]);
    assert_eq!(handle_player_command(PlayerCommand::Rewind(90)), vec![TransportStep::Seek(90)]);
    assert_eq!(
        handle_player_command(PlayerCommand::Next),
        vec![TransportStep::StopAndWait, TransportStep::MoveToNext, TransportStep::PlayFromCurrent]
    );
    assert_eq!(
        handle_player_command(PlayerCommand::Prev),
        vec![
            TransportStep::StopAndWait,
            TransportStep::MoveToPrevious,
            TransportStep::PlayFromCurrent
        ]
    );
    assert_eq!(
        handle_player_command(PlayerCommand::PlayItem("7".to_string())),
        vec![
            TransportStep::StopAndWait,
            TransportStep::MoveToSong("7".to_string()),
            TransportStep::PlayFromCurrent
        ]
    );
}

#[test]
fn play_events_republish_playing_only_when_already_playing() {
    assert_eq!(
        PlayStart::AlreadyPlaying.events(),
        vec![StateChangeEvent::PlaybackStateEvent(PlayerState::PLAYING)]
    );
    assert_eq!(PlayStart::SpawnWorker { count_play: true }.events(), vec![]);
    assert_eq!(PlayStart::SpawnWorker { count_play: false }.events(), vec![]);
}
