//! What the decode loop needs to know of a probed track: which track of a
//! container can be played, how its timestamps map to seconds, and what is
//! published about its format.

use vstd::prelude::*;

verus! {

/// Two to the power of 64, the modulus of timestamp arithmetic.
pub open spec fn two_pow_64() -> int {
    0x1_0000_0000_0000_0000
}

/// Whole seconds at timestamp `ts` of a stream whose tick lasts
/// `numer / denom` seconds, wrapping at 64 bits.
pub open spec fn seconds_at(numer: u32, denom: u32, ts: u64) -> u64 {
    (((ts as int) * (numer as int) / (denom as int)) % two_pow_64()) as u64
}

/// Calls `TimeBase::new(numer, denom).calc_time(ts)` of symphonia and returns
/// the `seconds` field of the result.
///
/// Both functions panic on a zero numerator or denominator, which the
/// precondition excludes. `calc_time` is documented to compute the time
/// accurately and to wrap the seconds on overflow, and the contract says
/// that: the seconds are the quotient of `ts * numer` by `denom`, rounded
/// down and reduced modulo 2^64. The crate divides in 128-bit integers where
/// the product takes 52 bits or more and truncates the quotient to 64 bits;
/// below that it divides in floating point, where product and denominator
/// are exact and the rounded quotient cannot reach the next whole number.
#[verifier::external_body]
fn calc_time_seconds(numer: u32, denom: u32, ts: u64) -> (seconds: u64)
    requires
        numer > 0,
        denom > 0,
    ensures
        seconds == seconds_at(numer, denom, ts),
{
    symphonia::core::units::TimeBase::new(numer, denom).calc_time(ts).seconds
}

/// Elapsed and total time of the current track, in whole seconds.
#[derive(Debug, Clone, Copy, PartialEq, Eq, Structural)]
pub struct SongProgress {
    pub total_time: u64,
    pub current_time: u64,
}

/// Format of the stream that is about to be decoded.
#[derive(Debug, Clone, PartialEq, Eq)]
pub struct PlayerInfo {
    pub audio_format_bit: Option<u32>,
    pub audio_format_channels: Option<usize>,
    pub audio_format_rate: Option<u32>,
    pub codec: Option<String>,
}

/// The mathematical content of a [`PlayerInfo`].
pub ghost struct PlayerInfoView {
    pub audio_format_bit: Option<u32>,
    pub audio_format_channels: Option<usize>,
    pub audio_format_rate: Option<u32>,
    pub codec: Option<Seq<char>>,
}

impl View for PlayerInfo {
    type V = PlayerInfoView;

    open spec fn view(&self) -> PlayerInfoView {
        PlayerInfoView {
            audio_format_bit: self.audio_format_bit,
            audio_format_channels: self.audio_format_channels,
            audio_format_rate: self.audio_format_rate,
            codec: match self.codec {
                Some(name) => Some(name@),
                None => None,
            },
        }
    }
}

/// The mathematical content of a [`TrackInfo`].
pub ghost struct TrackView {
    pub id: u32,
    pub codec_is_null: bool,
    pub time_base: Option<(u32, u32)>,
    pub n_frames: Option<u64>,
    pub start_ts: u64,
    pub sample_rate: Option<u32>,
    pub bits_per_sample: Option<u32>,
    pub channels: Option<usize>,
}

impl TrackView {
    /// A time base has no zero part, and the last timestamp fits in 64 bits.
    pub open spec fn wf(self) -> bool {
        &&& self.time_base matches Some(tb) ==> tb.0 > 0 && tb.1 > 0
        &&& self.n_frames matches Some(frames) ==> self.start_ts + frames <= u64::MAX
    }

    /// Numerator and denominator used for this track: its own time base, or
    /// one second per tick where the container gives none.
    pub open spec fn effective_time_base(self) -> (u32, u32) {
        match self.time_base {
            Some(tb) => tb,
            None => (1u32, 1u32),
        }
    }

    /// The timestamp at which the track ends: first timestamp plus frame
    /// count, or 1 where the frame count is unknown.
    pub open spec fn end_ts(self) -> u64 {
        match self.n_frames {
            Some(frames) => (self.start_ts + frames) as u64,
            None => 1u64,
        }
    }

    /// Whole seconds at timestamp `ts` of this track.
    pub open spec fn seconds_at(self, ts: u64) -> u64 {
        seconds_at(self.effective_time_base().0, self.effective_time_base().1, ts)
    }

    /// Total duration of the track in whole seconds.
    pub open spec fn total_seconds(self) -> u64 {
        self.seconds_at(self.end_ts())
    }

    /// Whether the seconds at timestamp `ts` fit in 64 bits, so that
    /// [`TrackView::seconds_at`] does not wrap there.
    pub open spec fn seconds_fit(self, ts: u64) -> bool {
        (ts as int) * (self.effective_time_base().0 as int) / (
        self.effective_time_base().1 as int) <= u64::MAX
    }
}

/// Later timestamps lie at later seconds, as long as the seconds fit in 64
/// bits.
pub proof fn lemma_seconds_at_is_monotonic(track: TrackView, earlier: u64, later: u64)
    requires
        track.wf(),
        earlier <= later,
        track.seconds_fit(later),
    ensures
        track.seconds_fit(earlier),
        track.seconds_at(earlier) <= track.seconds_at(later),
{
    let numer = track.effective_time_base().0 as int;
    let denom = track.effective_time_base().1 as int;
    let a = earlier as int;
    let b = later as int;
    vstd::arithmetic::mul::lemma_mul_inequality(a, b, numer);
    vstd::arithmetic::mul::lemma_mul_nonnegative(a, numer);
    vstd::arithmetic::div_mod::lemma_div_is_ordered(a * numer, b * numer, denom);
    vstd::arithmetic::div_mod::lemma_div_pos_is_pos(a * numer, denom);
    vstd::arithmetic::div_mod::lemma_small_mod((a * numer / denom) as nat, two_pow_64() as nat);
    vstd::arithmetic::div_mod::lemma_small_mod((b * numer / denom) as nat, two_pow_64() as nat);
}

/// One track of a probed container, reduced to what playback reads.
#[derive(Debug, Clone, Copy)]
pub struct TrackInfo {
    id: u32,
    codec_is_null: bool,
    time_base: Option<(u32, u32)>,
    n_frames: Option<u64>,
    start_ts: u64,
    sample_rate: Option<u32>,
    bits_per_sample: Option<u32>,
    channels: Option<usize>,
}

impl View for TrackInfo {
    type V = TrackView;

    closed spec fn view(&self) -> TrackView {
        TrackView {
            id: self.id,
            codec_is_null: self.codec_is_null,
            time_base: self.time_base,
            n_frames: self.n_frames,
            start_ts: self.start_ts,
            sample_rate: self.sample_rate,
            bits_per_sample: self.bits_per_sample,
            channels: self.channels,
        }
    }
}

impl TrackInfo {
    #[verifier::type_invariant]
    pub open spec fn inv(&self) -> bool {
        self@.wf()
    }

    /// Builds a track from the codec parameters that a probe reported.
    ///
    /// `codec_is_null` says that the codec is the placeholder for "no codec";
    /// `time_base` is numerator and denominator of the length of one tick in
    /// seconds; `channels` is the channel count. Returns `None` exactly when
    /// the parameters are not well formed.
    pub fn new(
        id: u32,
        codec_is_null: bool,
        time_base: Option<(u32, u32)>,
        n_frames: Option<u64>,
        start_ts: u64,
        sample_rate: Option<u32>,
        bits_per_sample: Option<u32>,
        channels: Option<usize>,
    ) -> (track: Option<TrackInfo>)
        ensures
            match track {
                Some(t) => t@ == (TrackView {
                    id,
                    codec_is_null,
                    time_base,
                    n_frames,
                    start_ts,
                    sample_rate,
                    bits_per_sample,
                    channels,
                }) && t@.wf(),
                None => !(TrackView {
                    id,
                    codec_is_null,
                    time_base,
                    n_frames,
                    start_ts,
                    sample_rate,
                    bits_per_sample,
                    channels,
                }).wf(),
            },
    {
        if let Some(tb) = time_base {
            if tb.0 == 0 || tb.1 == 0 {
                return None;
            }
        }
        if let Some(frames) = n_frames {
            if frames > u64::MAX - start_ts {
                return None;
            }
        }
        Some(
            TrackInfo {
                id,
                codec_is_null,
                time_base,
                n_frames,
                start_ts,
                sample_rate,
                bits_per_sample,
                channels,
            },
        )
    }

    /// Identifier of the track within its container.
    pub fn id(&self) -> (id: u32)
        ensures
            id == self@.id,
    {
        self.id
    }

    /// Whether a decoder can be asked for this track: its codec is not the
    /// null placeholder.
    pub fn is_supported(&self) -> (r: bool)
        ensures
            r == !self@.codec_is_null,
    {
        !self.codec_is_null
    }

    /// Whole seconds at timestamp `ts` of this track.
    pub fn seconds_at(&self, ts: u64) -> (seconds: u64)
        ensures
            seconds == self@.seconds_at(ts),
    {
        proof {
            use_type_invariant(self);
        }
        match self.time_base {
            Some(tb) => calc_time_seconds(tb.0, tb.1, ts),
            None => calc_time_seconds(1, 1, ts),
        }
    }

    /// Total duration of the track in whole seconds, from its frame count and
    /// time base; where the frame count is unknown, the time of timestamp 1.
    pub fn total_seconds(&self) -> (seconds: u64)
        ensures
            seconds == self@.total_seconds(),
    {
        proof {
            use_type_invariant(self);
        }
        let end_ts: u64 = match self.n_frames {
            Some(frames) => self.start_ts + frames,
            None => 1,
        };
        self.seconds_at(end_ts)
    }

    /// The format telemetry that is published once, before decoding begins.
    /// `codec_name` is the display name that the codec registry has for the
    /// track's codec.
    pub fn player_info(&self, codec_name: Option<String>) -> (info: PlayerInfo)
        ensures
            info@ == (PlayerInfoView {
                audio_format_bit: self@.bits_per_sample,
                audio_format_channels: self@.channels,
                audio_format_rate: self@.sample_rate,
                codec: match codec_name {
                    Some(name) => Some(name@),
                    None => None,
                },
            }),
    {
        PlayerInfo {
            audio_format_bit: self.bits_per_sample,
            audio_format_channels: self.channels,
            audio_format_rate: self.sample_rate,
            codec: codec_name,
        }
    }
}

/// Selects the track to play: the first one whose codec is not the null
/// placeholder. `None` means that the container holds no playable track.
pub fn first_supported_track(tracks: &[TrackInfo]) -> (found: Option<&TrackInfo>)
    ensures
        found is None <==> forall|i: int|
            0 <= i < tracks@.len() ==> (#[trigger] tracks@[i])@.codec_is_null,
        found matches Some(t) ==> exists|i: int|
            0 <= i < tracks@.len() && *t == #[trigger] tracks@[i] && !t@.codec_is_null && forall|
                j: int,
            |
                0 <= j < i ==> (#[trigger] tracks@[j])@.codec_is_null,
{
    let mut i: usize = 0;
    while i < tracks.len()
        invariant
            i <= tracks@.len(),
            forall|j: int| 0 <= j < i ==> (#[trigger] tracks@[j])@.codec_is_null,
        decreases tracks@.len() - i,
    {
        if tracks[i].is_supported() {
            return Some(&tracks[i]);
        }
        i = i + 1;
    }
    None
}

} // verus!
