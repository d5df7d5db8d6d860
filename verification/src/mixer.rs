//! Volume control on a hardware mixer.
//!
//! The mixer element is modelled by what the control reads and writes: its
//! volume range and the volume of each playback channel. The owner of the
//! device fills the model from the hardware and carries the changes back.

use vstd::prelude::*;

verus! {

/// The amount by which one step up or down changes the volume.
pub const ALSA_MIXER_STEP: i64 = 1;

/// A volume reading: the step, the range and the current level.
#[derive(Debug, Clone, Copy, PartialEq, Eq, Structural)]
pub struct Volume {
    pub step: i64,
    pub min: i64,
    pub max: i64,
    pub current: i64,
}

impl Volume {
    /// The reading of a mixer that cannot be reached: all zero.
    pub open spec fn unavailable() -> Volume {
        Volume { step: 0, min: 0, max: 0, current: 0 }
    }
}

impl Default for Volume {
    fn default() -> (volume: Volume)
        ensures
            volume == Volume::unavailable(),
    {
        Volume { step: 0, min: 0, max: 0, current: 0 }
    }
}

/// The mathematical content of a [`MixerElement`].
pub ghost struct MixerView {
    /// Lowest level of the element.
    pub min: i64,
    /// Highest level of the element.
    pub max: i64,
    /// For each channel, in the order in which the device lists them, its
    /// level where it is a playback channel.
    pub volumes: Seq<Option<i64>>,
}

impl MixerView {
    /// Whether some channel is a playback channel.
    pub open spec fn has_playback(self) -> bool {
        exists|i: int| 0 <= i < self.volumes.len() && (#[trigger] self.volumes[i]) is Some
    }

    /// Whether `channel` is the first playback channel.
    pub open spec fn is_first_playback(self, channel: int) -> bool {
        &&& 0 <= channel < self.volumes.len()
        &&& self.volumes[channel] is Some
        &&& forall|i: int| 0 <= i < channel ==> (#[trigger] self.volumes[i]) is None
    }

    /// Position of the first playback channel.
    pub open spec fn first_playback(self) -> int {
        choose|channel: int| self.is_first_playback(channel)
    }

    /// The reading of this element: its range, and the level of its first
    /// playback channel.
    pub open spec fn current_reading(self) -> Volume {
        self.reading(self.first_playback())
    }

    /// Element and reading after one step up: the level raised by one step
    /// where that stays within the range, else both as they are.
    pub open spec fn stepped_up(self) -> (MixerView, Volume) {
        let now = self.current_reading();
        if now.current + ALSA_MIXER_STEP <= now.max {
            (
                self.with_level((now.current + ALSA_MIXER_STEP) as i64),
                self.reading_at((now.current + ALSA_MIXER_STEP) as i64),
            )
        } else {
            (self, now)
        }
    }

    /// Element and reading after one step down: the level lowered by one
    /// step where that stays within the range, else both as they are.
    pub open spec fn stepped_down(self) -> (MixerView, Volume) {
        let now = self.current_reading();
        if now.current - ALSA_MIXER_STEP >= now.min {
            (
                self.with_level((now.current - ALSA_MIXER_STEP) as i64),
                self.reading_at((now.current - ALSA_MIXER_STEP) as i64),
            )
        } else {
            (self, now)
        }
    }

    /// The reading of this element taken from `channel`.
    pub open spec fn reading(self, channel: int) -> Volume {
        Volume {
            step: ALSA_MIXER_STEP,
            min: self.min,
            max: self.max,
            current: self.volumes[channel]->0,
        }
    }

    /// The reading after the level was set to `level`.
    pub open spec fn reading_at(self, level: i64) -> Volume {
        Volume { step: ALSA_MIXER_STEP, min: self.min, max: self.max, current: level }
    }

    /// This element with every playback channel set to `level`.
    pub open spec fn with_level(self, level: i64) -> MixerView {
        MixerView {
            volumes: Seq::new(
                self.volumes.len(),
                |i: int|
                    if self.volumes[i] is Some {
                        Some(level)
                    } else {
                        None
                    },
            ),
            ..self
        }
    }
}

/// One element of a hardware mixer, with at least one playback channel.
#[derive(Debug)]
pub struct MixerElement {
    min: i64,
    max: i64,
    volumes: Vec<Option<i64>>,
}

impl View for MixerElement {
    type V = MixerView;

    closed spec fn view(&self) -> MixerView {
        MixerView { min: self.min, max: self.max, volumes: self.volumes@ }
    }
}

impl MixerElement {
    #[verifier::type_invariant]
    pub open spec fn inv(&self) -> bool {
        self@.has_playback()
    }

    /// An element with the range `min` to `max` and the given channels.
    /// Returns `None` exactly when no channel is a playback channel.
    pub fn new(min: i64, max: i64, volumes: Vec<Option<i64>>) -> (element: Option<MixerElement>)
        ensures
            match element {
                Some(e) => e@ == (MixerView { min, max, volumes: volumes@ }) && e@.has_playback(),
                None => !(MixerView { min, max, volumes: volumes@ }).has_playback(),
            },
    {
        let mut i: usize = 0;
        while i < volumes.len()
            invariant
                i <= volumes@.len(),
                forall|j: int| 0 <= j < i ==> (#[trigger] volumes@[j]) is None,
            decreases volumes@.len() - i,
        {
            if volumes[i].is_some() {
                return Some(MixerElement { min, max, volumes });
            }
            i = i + 1;
        }
        None
    }

    /// Lowest and highest level of the element.
    pub fn volume_range(&self) -> (range: (i64, i64))
        ensures
            range == (self@.min, self@.max),
    {
        (self.min, self.max)
    }

    /// The channels with their levels, in the device's order.
    pub fn volumes(&self) -> (volumes: &Vec<Option<i64>>)
        ensures
            volumes@ == self@.volumes,
    {
        &self.volumes
    }

    /// Position of the first playback channel, from which the level is read.
    pub fn first_playback_channel(&self) -> (channel: usize)
        ensures
            channel == self@.first_playback(),
            self@.is_first_playback(channel as int),
    {
        proof {
            use_type_invariant(self);
        }
        let mut i: usize = 0;
        while i < self.volumes.len()
            invariant
                i <= self.volumes@.len(),
                forall|j: int| 0 <= j < i ==> (#[trigger] self.volumes@[j]) is None,
                self@.has_playback(),
                self@.volumes == self.volumes@,
            decreases self.volumes@.len() - i,
        {
            if self.volumes[i].is_some() {
                proof {
                    let first = self@.first_playback();
                    assert(self@.is_first_playback(i as int));
                    assert(self@.is_first_playback(first));
                    assert(self@.volumes[first] is Some);
                    assert(self@.volumes[i as int] is Some);
                }
                return i;
            }
            i = i + 1;
        }
        proof {
            let k = choose|k: int|
                0 <= k < self@.volumes.len() && (#[trigger] self@.volumes[k]) is Some;
            assert(self.volumes@[k] is None);
        }
        0
    }

    /// Reads the volume: range and step of the element, and the level of its
    /// first playback channel.
    pub fn get_vol(&self) -> (volume: Volume)
        ensures
            volume == self@.current_reading(),
    {
        let channel: usize = self.first_playback_channel();
        let current: i64 = match self.volumes[channel] {
            Some(level) => level,
            None => 0,
        };
        Volume { step: ALSA_MIXER_STEP, min: self.min, max: self.max, current }
    }

    /// Sets every playback channel to `level` and returns the new reading.
    pub fn set_vol(&mut self, level: i64) -> (volume: Volume)
        ensures
            final(self)@ == old(self)@.with_level(level),
            volume == old(self)@.reading_at(level),
    {
        proof {
            use_type_invariant(&*self);
        }
        let mut updated: Vec<Option<i64>> = Vec::new();
        let mut i: usize = 0;
        while i < self.volumes.len()
            invariant
                i <= self.volumes@.len(),
                updated@.len() == i,
                forall|j: int|
                    0 <= j < i ==> #[trigger] updated@[j] == (if self.volumes@[j] is Some {
                        Some(level)
                    } else {
                        None
                    }),
            decreases self.volumes@.len() - i,
        {
            if self.volumes[i].is_some() {
                updated.push(Some(level));
            } else {
                updated.push(None);
            }
            i = i + 1;
        }
        proof {
            let before = self@;
            assert(updated@ =~= before.with_level(level).volumes);
            let k = choose|k: int|
                0 <= k < before.volumes.len() && (#[trigger] before.volumes[k]) is Some;
            assert(updated@[k] is Some);
        }
        self.volumes = updated;
        Volume { step: ALSA_MIXER_STEP, min: self.min, max: self.max, current: level }
    }

    /// Raises the volume by one step and returns the new reading; at the top
    /// of the range nothing changes.
    pub fn vol_up(&mut self) -> (volume: Volume)
        ensures
            (final(self)@, volume) == old(self)@.stepped_up(),
    {
        let now: Volume = self.get_vol();
        if now.current < now.max {
            self.set_vol(now.current + ALSA_MIXER_STEP)
        } else {
            now
        }
    }

    /// Lowers the volume by one step and returns the new reading; at the
    /// bottom of the range nothing changes.
    pub fn vol_down(&mut self) -> (volume: Volume)
        ensures
            (final(self)@, volume) == old(self)@.stepped_down(),
    {
        let now: Volume = self.get_vol();
        if now.current > now.min {
            self.set_vol(now.current - ALSA_MIXER_STEP)
        } else {
            now
        }
    }
}

/// Volume control through the mixer of one sound card.
#[derive(Debug)]
pub struct AlsaMixer {
    card_name: String,
}

impl AlsaMixer {
    /// The control for the card `card_name`.
    pub fn new(card_name: String) -> (mixer: Box<AlsaMixer>)
        ensures
            mixer.card_name_spec() == card_name@,
    {
        Box::new(AlsaMixer { card_name })
    }

    /// Name of the card, as a sequence of characters.
    pub closed spec fn card_name_spec(&self) -> Seq<char> {
        self.card_name@
    }

    /// Name of the card whose mixer is controlled.
    pub fn card_name(&self) -> (name: &str)
        ensures
            name@ == self.card_name_spec(),
    {
        self.card_name.as_str()
    }

    /// Reads the volume from `element`; a mixer that cannot be reached reads
    /// as all zero.
    pub fn get_vol(&self, element: Option<&MixerElement>) -> (volume: Volume)
        ensures
            volume == (match element {
                Some(e) => e@.current_reading(),
                None => Volume::unavailable(),
            }),
    {
        match element {
            Some(e) => e.get_vol(),
            None => Volume::default(),
        }
    }

    /// Sets every playback channel of `element` to `level` and returns the
    /// new reading; a mixer that cannot be reached reads as all zero.
    pub fn set_vol(&self, element: &mut Option<MixerElement>, level: i64) -> (volume: Volume)
        ensures
            match *old(element) {
                Some(e) => *final(element) matches Some(after) && after@ == e@.with_level(level)
                    && volume == e@.reading_at(level),
                None => *final(element) is None && volume == Volume::unavailable(),
            },
    {
        match element.take() {
            Some(mut e) => {
                let volume: Volume = e.set_vol(level);
                *element = Some(e);
                volume
            },
            None => Volume::default(),
        }
    }

    /// Raises the volume of `element` by one step, up to the top of its
    /// range, and returns the new reading.
    pub fn vol_up(&self, element: &mut Option<MixerElement>) -> (volume: Volume)
        ensures
            match *old(element) {
                Some(e) => *final(element) matches Some(after) && (after@, volume)
                    == e@.stepped_up(),
                None => *final(element) is None && volume == Volume::unavailable(),
            },
    {
        match element.take() {
            Some(mut e) => {
                let volume: Volume = e.vol_up();
                *element = Some(e);
                volume
            },
            None => Volume::default(),
        }
    }

    /// Lowers the volume of `element` by one step, down to the bottom of its
    /// range, and returns the new reading.
    pub fn vol_down(&self, element: &mut Option<MixerElement>) -> (volume: Volume)
        ensures
            match *old(element) {
                Some(e) => *final(element) matches Some(after) && (after@, volume)
                    == e@.stepped_down(),
                None => *final(element) is None && volume == Volume::unavailable(),
            },
    {
        match element.take() {
            Some(mut e) => {
                let volume: Volume = e.vol_down();
                *element = Some(e);
                volume
            },
            None => Volume::default(),
        }
    }
}

} // verus!
