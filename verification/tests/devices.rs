use rsplayer_playback::mixer::{AlsaMixer, MixerElement, Volume, ALSA_MIXER_STEP};
use rsplayer_playback::monitor::StatusMonitor;
use rsplayer_playback::pcm_card::{AlsaPcmCard, DeviceProbe, UnlockWait, DELAY_MS, WAIT_TIME_MS};
use rsplayer_playback::track::PlayerInfo;

#[test]
fn get_and_set_playback_volume() {
    let mixer = AlsaMixer::new("hw:0".to_string());
    let mut selem = MixerElement::new(0, 87, vec![None, Some(30), Some(30)]);
    let name = "Master";

    let (rmin, rmax) = selem.as_ref().unwrap().volume_range();
    let channel = selem.as_ref().unwrap().first_playback_channel();
    println!("Testing on {} with limits {}-{} on channel {}", name, rmin, rmax, channel);

    let old: i64 = mixer.get_vol(selem.as_ref()).current;
    let new: i64 = rmax / 2;
    assert_ne!(new, old);

    println!("Changing volume of {} from {} to {}", channel, old, new);
    mixer.set_vol(&mut selem, new);
    let result: i64 = mixer.get_vol(selem.as_ref()).current;
    assert_eq!(new, result);
}

#[test]
fn test_trim() {
    assert_eq!("\" Artist\n".replace('\"', "").trim(), "Artist");
}

#[test]
fn mixer_reads_the_first_playback_channel() {
    let mixer = AlsaMixer::new("hw:1".to_string());
    assert_eq!(mixer.card_name(), "hw:1");
    let selem = MixerElement::new(-5, 64, vec![None, None, Some(12), Some(40)]).unwrap();
    assert_eq!(selem.first_playback_channel(), 2);
    assert_eq!(selem.volume_range(), (-5, 64));
    assert_eq!(selem.volumes(), &vec![None, None, Some(12), Some(40)]);
    assert_eq!(
        mixer.get_vol(Some(&selem)),
        Volume { step: 1, min: -5, max: 64, current: 12 }
    );
    assert_eq!(selem.get_vol(), Volume { step: 1, min: -5, max: 64, current: 12 });
    assert_eq!(ALSA_MIXER_STEP, 1);
}

#[test]
fn mixer_without_playback_channel_is_refused() {
    assert!(MixerElement::new(0, 10, vec![]).is_none());
    assert!(MixerElement::new(0, 10, vec![None, None]).is_none());
    assert!(MixerElement::new(0, 10, vec![None, Some(3)]).is_some());
}

#[test]
fn unreachable_mixer_reads_as_zero() {
    let mixer = AlsaMixer::new("hw:9".to_string());
    let zero = Volume { step: 0, min: 0, max: 0, current: 0 };
    assert_eq!(Volume::default(), zero);
    assert_eq!(mixer.get_vol(None), zero);
    let mut none: Option<MixerElement> = None;
    assert_eq!(mixer.set_vol(&mut none, 5), zero);
    assert_eq!(mixer.vol_up(&mut none), zero);
    assert_eq!(mixer.vol_down(&mut none), zero);
    assert!(none.is_none());
}

#[test]
fn set_vol_sets_every_playback_channel() {
    let mixer = AlsaMixer::new("hw:0".to_string());
    let mut selem = MixerElement::new(0, 100, vec![Some(1), None, Some(2), Some(3)]);
    assert_eq!(
        mixer.set_vol(&mut selem, 77),
        Volume { step: 1, min: 0, max: 100, current: 77 }
    );
    assert_eq!(selem.as_ref().unwrap().volumes(), &vec![Some(77), None, Some(77), Some(77)]);
    assert_eq!(
        mixer.set_vol(&mut selem, 250),
        Volume { step: 1, min: 0, max: 100, current: 250 }
    );
}

#[test]
fn volume_steps_stay_within_the_range() {
    let mixer = AlsaMixer::new("hw:0".to_string());
    let mut selem = MixerElement::new(0, 3, vec![Some(2), Some(0)]);
    assert_eq!(mixer.vol_up(&mut selem), Volume { step: 1, min: 0, max: 3, current: 3 });
    assert_eq!(selem.as_ref().unwrap().volumes(), &vec![Some(3), Some(3)]);
    assert_eq!(mixer.vol_up(&mut selem), Volume { step: 1, min: 0, max: 3, current: 3 });
    assert_eq!(mixer.vol_down(&mut selem), Volume { step: 1, min: 0, max: 3, current: 2 });
    assert_eq!(mixer.vol_down(&mut selem), Volume { step: 1, min: 0, max: 3, current: 1 });
    assert_eq!(mixer.vol_down(&mut selem), Volume { step: 1, min: 0, max: 3, current: 0 });
    assert_eq!(mixer.vol_down(&mut selem), Volume { step: 1, min: 0, max: 3, current: 0 });
    assert_eq!(selem.as_ref().unwrap().volumes(), &vec![Some(0), Some(0)]);
    let mut top = MixerElement::new(i64::MIN, i64::MAX, vec![Some(i64::MAX)]).unwrap();
    assert_eq!(top.vol_up().current, i64::MAX);
    assert_eq!(top.vol_down().current, i64::MAX - 1);
    let mut bottom = MixerElement::new(i64::MIN, i64::MAX, vec![Some(i64::MIN)]).unwrap();
    assert_eq!(bottom.vol_down().current, i64::MIN);
    assert_eq!(bottom.vol_up().current, i64::MIN + 1);
}

#[test]
fn device_is_in_use_when_it_cannot_be_opened() {
    let card = AlsaPcmCard::new("hw:0".to_string());
    assert_eq!(card.device_name(), "hw:0");
    assert!(card.is_device_in_use(DeviceProbe::Unavailable));
    assert!(!card.is_device_in_use(DeviceProbe::Running));
    assert!(!card.is_device_in_use(DeviceProbe::NotRunning));
}

#[test]
fn wait_for_device_ends_when_it_is_not_running() {
    let card = AlsaPcmCard::new("hw:0".to_string());
    assert_eq!(card.wait_unlock_audio_dev(0, DeviceProbe::NotRunning), UnlockWait::Unlocked);
    assert_eq!(card.wait_unlock_audio_dev(9900, DeviceProbe::NotRunning), UnlockWait::Unlocked);
    assert_eq!(
        card.wait_unlock_audio_dev(0, DeviceProbe::Running),
        UnlockWait::Retry { sleep_millis: 100, elapsed_ms: 100 }
    );
    assert_eq!(
        card.wait_unlock_audio_dev(500, DeviceProbe::Unavailable),
        UnlockWait::Retry { sleep_millis: 100, elapsed_ms: 600 }
    );
}

#[test]
fn wait_for_device_gives_up_after_ten_seconds() {
    let card = AlsaPcmCard::new("hw:0".to_string());
    let mut elapsed = 0u64;
    let mut probes = 0u32;
    let locked_after = loop {
        probes += 1;
        match card.wait_unlock_audio_dev(elapsed, DeviceProbe::Running) {
            UnlockWait::Retry { sleep_millis, elapsed_ms } => {
                assert_eq!(sleep_millis, DELAY_MS);
                assert_eq!(elapsed_ms, elapsed + 100);
                elapsed = elapsed_ms;
            }
            UnlockWait::Locked { sleep_millis, elapsed_ms } => {
                assert_eq!(sleep_millis, 100);
                break elapsed_ms;
            }
            UnlockWait::Unlocked => panic!("a running device is not free"),
        }
    };
    assert_eq!(probes, 100);
    assert_eq!(locked_after, WAIT_TIME_MS);
    assert_eq!(
        card.wait_unlock_audio_dev(10000, DeviceProbe::NotRunning),
        UnlockWait::Locked { sleep_millis: 0, elapsed_ms: 10000 }
    );
}

fn info(rate: u32, codec: &str) -> PlayerInfo {
    PlayerInfo {
        audio_format_bit: Some(16),
        audio_format_channels: Some(2),
        audio_format_rate: Some(rate),
        codec: Some(codec.to_string()),
    }
}

#[test]
fn monitor_publishes_player_info_on_change() {
    let mut monitor = StatusMonitor::new();
    assert!(!monitor.observe_player_info(None));
    assert!(monitor.observe_player_info(Some(info(44100, "flac"))));
    assert!(!monitor.observe_player_info(Some(info(44100, "flac"))));
    assert!(monitor.observe_player_info(Some(info(48000, "flac"))));
    assert!(monitor.observe_player_info(Some(info(48000, "mp3"))));
    assert!(!monitor.observe_player_info(None));
    assert!(monitor.observe_player_info(Some(info(48000, "mp3"))));
    let mut bare = info(48000, "mp3");
    bare.codec = None;
    assert!(monitor.observe_player_info(Some(bare)));
}

#[test]
fn monitor_looks_at_the_song_only_while_the_device_is_in_use() {
    let mut monitor = StatusMonitor::new();
    assert!(!monitor.observe_song(false, Some("a.flac".to_string())));
    assert!(monitor.observe_song(true, Some("a.flac".to_string())));
    assert!(!monitor.observe_song(true, Some("a.flac".to_string())));
    assert!(!monitor.observe_song(false, Some("b.flac".to_string())));
    assert!(monitor.observe_song(true, Some("b.flac".to_string())));
    assert!(!monitor.observe_song(true, None));
    assert!(monitor.observe_song(true, Some("b.flac".to_string())));
}
