//! The status monitor: publishes what is playing and in which format when
//! either has changed since it last looked.

use vstd::prelude::*;
use crate::track::{PlayerInfo, PlayerInfoView};

verus! {

/// The content of a format that may be missing.
pub open spec fn optional_info_view(info: Option<PlayerInfo>) -> Option<PlayerInfoView> {
    match info {
        Some(info) => Some(info@),
        None => None,
    }
}

/// The content of a text that may be missing.
pub open spec fn optional_text_view(text: Option<String>) -> Option<Seq<char>> {
    match text {
        Some(text) => Some(text@),
        None => None,
    }
}

fn same_number(a: Option<u32>, b: Option<u32>) -> (same: bool)
    ensures
        same == (a == b),
{
    match (a, b) {
        (Some(x), Some(y)) => x == y,
        (None, None) => true,
        _ => false,
    }
}

fn same_count(a: Option<usize>, b: Option<usize>) -> (same: bool)
    ensures
        same == (a == b),
{
    match (a, b) {
        (Some(x), Some(y)) => x == y,
        (None, None) => true,
        _ => false,
    }
}

fn same_text(a: &Option<String>, b: &Option<String>) -> (same: bool)
    ensures
        same == (optional_text_view(*a) == optional_text_view(*b)),
{
    match (a, b) {
        (Some(x), Some(y)) => *x == *y,
        (None, None) => true,
        _ => false,
    }
}

fn same_info(a: &Option<PlayerInfo>, b: &Option<PlayerInfo>) -> (same: bool)
    ensures
        same == (optional_info_view(*a) == optional_info_view(*b)),
{
    match (a, b) {
        (Some(x), Some(y)) => same_number(x.audio_format_bit, y.audio_format_bit) && same_count(
            x.audio_format_channels,
            y.audio_format_channels,
        ) && same_number(x.audio_format_rate, y.audio_format_rate) && same_text(
            &x.codec,
            &y.codec,
        ),
        (None, None) => true,
        _ => false,
    }
}

/// What the monitor saw when it last looked.
#[derive(Debug)]
pub struct StatusMonitor {
    last_song: Option<String>,
    last_player_info: Option<PlayerInfo>,
}

impl StatusMonitor {
    /// The locator of the song seen last.
    pub closed spec fn last_song(&self) -> Option<Seq<char>> {
        optional_text_view(self.last_song)
    }

    /// The format seen last.
    pub closed spec fn last_player_info(&self) -> Option<PlayerInfoView> {
        optional_info_view(self.last_player_info)
    }

    /// A monitor that has seen nothing yet.
    pub fn new() -> (monitor: StatusMonitor)
        ensures
            monitor.last_song() == None::<Seq<char>>,
            monitor.last_player_info() == None::<PlayerInfoView>,
    {
        StatusMonitor { last_song: None, last_player_info: None }
    }

    /// Takes the locator of the song that the player names as current, and
    /// says whether it is to be published.
    ///
    /// The song is looked at only while the audio device is in use. It is
    /// remembered when it differs from the one seen last, and published when
    /// it differs and there is one.
    pub fn observe_song(&mut self, device_in_use: bool, song: Option<String>) -> (publish: bool)
        ensures
            publish == (device_in_use && optional_text_view(song) != old(self).last_song()
                && song is Some),
            final(self).last_song() == (if device_in_use {
                optional_text_view(song)
            } else {
                old(self).last_song()
            }),
            final(self).last_player_info() == old(self).last_player_info(),
    {
        if !device_in_use {
            return false;
        }
        let changed: bool = !same_text(&self.last_song, &song);
        let publish: bool = changed && song.is_some();
        if changed {
            self.last_song = song;
        }
        publish
    }

    /// Takes the format that the player reports, and says whether it is to
    /// be published: it is remembered when it differs from the one seen
    /// last, and published when it differs and there is one.
    pub fn observe_player_info(&mut self, info: Option<PlayerInfo>) -> (publish: bool)
        ensures
            publish == (optional_info_view(info) != old(self).last_player_info() && info is Some),
            final(self).last_player_info() == optional_info_view(info),
            final(self).last_song() == old(self).last_song(),
    {
        let changed: bool = !same_info(&self.last_player_info, &info);
        let publish: bool = changed && info.is_some();
        if changed {
            self.last_player_info = info;
        }
        publish
    }
}

} // verus!
