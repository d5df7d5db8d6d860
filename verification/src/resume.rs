//! The record that lets playback resume after a restart: whether the last
//! session ended stopped or paused, and how far into its song it was.
//!
//! The record lives in a keyed store of byte strings. This module holds the
//! format of its two entries and decides, for each published event, what is
//! written; reading and writing the store is left to its owner.

use vstd::prelude::*;
use vstd::string::StringSliceAdditionalSpecFns;
use crate::events::{PlayerState, StateChangeEvent};

verus! {

/// The two entries of the record.
#[derive(Debug, Clone, Copy, PartialEq, Eq, Hash, Structural)]
pub enum StoreKey {
    /// Present while the last state published was not `PLAYING`.
    LastSongPaused,
    /// Elapsed seconds of the song that played last, in decimal digits.
    LastSongProgress,
}

impl StoreKey {
    /// The name under which the entry is kept in the store.
    pub fn name(&self) -> (name: &'static str)
        ensures
            name@ == (match *self {
                StoreKey::LastSongPaused => "last_song_paused"@,
                StoreKey::LastSongProgress => "last_played_song_progress"@,
            }),
    {
        match self {
            StoreKey::LastSongPaused => "last_song_paused",
            StoreKey::LastSongProgress => "last_played_song_progress",
        }
    }
}

/// One write to the store.
#[derive(Debug, Clone, PartialEq, Eq)]
pub enum StoreOp {
    /// Insert `value` under `key`, replacing what was there.
    Insert { key: StoreKey, value: Vec<u8> },
    /// Remove the entry under `key`.
    Remove { key: StoreKey },
}

/// The mathematical content of a [`StoreOp`].
pub ghost enum StoreOpView {
    Insert { key: StoreKey, value: Seq<u8> },
    Remove { key: StoreKey },
}

impl View for StoreOp {
    type V = StoreOpView;

    open spec fn view(&self) -> StoreOpView {
        match *self {
            StoreOp::Insert { key, value } => StoreOpView::Insert { key, value: value@ },
            StoreOp::Remove { key } => StoreOpView::Remove { key },
        }
    }
}

/// The value stored under [`StoreKey::LastSongPaused`]: the bytes of `true`.
pub open spec fn paused_flag_value() -> Seq<u8> {
    seq![116u8, 114u8, 117u8, 101u8]
}

/// Whether `byte` is an ASCII decimal digit.
pub open spec fn is_digit(byte: u8) -> bool {
    48 <= byte <= 57
}

/// Whether `text` is one or more ASCII decimal digits.
pub open spec fn is_number(text: Seq<u8>) -> bool {
    text.len() > 0 && forall|i: int| 0 <= i < text.len() ==> is_digit(#[trigger] text[i])
}

/// The number that the decimal digits `digits` denote.
pub open spec fn decimal_value(digits: Seq<u8>) -> nat
    decreases digits.len(),
{
    if digits.len() == 0 {
        0
    } else {
        10 * decimal_value(digits.drop_last()) + (digits.last() - 48) as nat
    }
}

/// Whether `text` is the decimal notation of `n`: its digits, with no sign
/// and no zero in front.
pub open spec fn is_decimal_of(text: Seq<u8>, n: nat) -> bool {
    &&& is_number(text)
    &&& decimal_value(text) == n
    &&& text.len() > 1 ==> text[0] != 48
}

/// The digits of `text` once an optional plus sign in front is dropped.
pub open spec fn unsigned_part(text: Seq<u8>) -> Seq<u8> {
    if text.len() > 0 && text[0] == 43 {
        text.subrange(1, text.len() as int)
    } else {
        text
    }
}

/// The progress in seconds that the stored text `text` stands for: its value
/// where it is a decimal number of at most 16 bits, with or without a plus
/// sign in front; zero for any other text.
pub open spec fn parse_progress(text: Seq<u8>) -> u16 {
    if is_number(unsigned_part(text)) && decimal_value(unsigned_part(text)) <= u16::MAX {
        decimal_value(unsigned_part(text)) as u16
    } else {
        0
    }
}

proof fn lemma_decimal_value_grows(digits: Seq<u8>, len: int)
    requires
        0 <= len <= digits.len(),
        forall|i: int| 0 <= i < digits.len() ==> is_digit(#[trigger] digits[i]),
    ensures
        decimal_value(digits.subrange(0, len)) <= decimal_value(digits),
    decreases digits.len() - len,
{
    if len == digits.len() {
        assert(digits.subrange(0, len) =~= digits);
    } else {
        let shorter = digits.drop_last();
        assert(shorter.subrange(0, len) =~= digits.subrange(0, len));
        lemma_decimal_value_grows(shorter, len);
    }
}

/// The decimal notation of `n`.
pub open spec fn decimal_text(n: nat) -> Seq<u8>
    decreases n,
{
    if n < 10 {
        seq![(48 + n) as u8]
    } else {
        decimal_text(n / 10).push((48 + n % 10) as u8)
    }
}

/// The decimal notation of a number consists of digits that denote it, with
/// no zero in front.
pub proof fn lemma_decimal_text_denotes(n: nat)
    ensures
        is_decimal_of(decimal_text(n), n),
    decreases n,
{
    let text = decimal_text(n);
    if n < 10 {
        assert(text.drop_last() =~= Seq::<u8>::empty());
        assert(decimal_value(text.drop_last()) == 0);
    } else {
        let front = decimal_text(n / 10);
        lemma_decimal_text_denotes(n / 10);
        assert(text.drop_last() =~= front);
        assert(text[0] == front[0]);
        if front.len() == 1 {
            assert(front.drop_last() =~= Seq::<u8>::empty());
            assert(decimal_value(front.drop_last()) == 0);
        }
        assert forall|i: int| 0 <= i < text.len() implies is_digit(#[trigger] text[i]) by {
            if i < front.len() {
                assert(text[i] == front[i]);
            }
        }
    }
}

/// Writes `seconds` in decimal notation.
pub fn encode_seconds(seconds: u64) -> (text: Vec<u8>)
    ensures
        text@ == decimal_text(seconds as nat),
    decreases seconds,
{
    if seconds < 10 {
        let mut text: Vec<u8> = Vec::new();
        text.push(48 + seconds as u8);
        assert(text@ =~= decimal_text(seconds as nat));
        text
    } else {
        let mut text: Vec<u8> = encode_seconds(seconds / 10);
        text.push(48 + (seconds % 10) as u8);
        text
    }
}

/// Reads the progress in seconds from the stored text.
///
/// A text that is no decimal number, or whose number does not fit in 16
/// bits, reads as zero.
pub fn parse_saved_progress(text: &str) -> (seconds: u16)
    ensures
        seconds == parse_progress(text.spec_bytes()),
{
    let bytes = text.as_bytes();
    let start: usize = if bytes.len() > 0 && bytes[0] == 43 {
        1
    } else {
        0
    };
    let ghost digits = unsigned_part(bytes@);
    if start == bytes.len() {
        return 0;
    }
    let mut value: u32 = 0;
    let mut i: usize = start;
    while i < bytes.len()
        invariant
            start <= i <= bytes@.len(),
            start <= 1,
            bytes@ == text.spec_bytes(),
            digits == unsigned_part(bytes@),
            digits == bytes@.subrange(start as int, bytes@.len() as int),
            forall|j: int| 0 <= j < i - start ==> is_digit(#[trigger] digits[j]),
            value == decimal_value(digits.subrange(0, i - start)),
            value <= u16::MAX,
        decreases bytes@.len() - i,
    {
        let byte: u8 = bytes[i];
        assert(byte == digits[i - start]);
        if byte < 48 || byte > 57 {
            return 0;
        }
        let ghost longer = digits.subrange(0, i - start + 1);
        proof {
            assert(longer.drop_last() =~= digits.subrange(0, i - start));
            assert(longer.last() == byte);
        }
        let next: u32 = value * 10 + (byte - 48) as u32;
        if next > 65535 {
            proof {
                if is_number(digits) {
                    lemma_decimal_value_grows(digits, i - start + 1);
                }
            }
            return 0;
        }
        value = next;
        i = i + 1;
    }
    proof {
        assert(digits.subrange(0, i - start) =~= digits);
    }
    value as u16
}

/// The progress to resume from, given the entry stored under
/// [`StoreKey::LastSongProgress`]: zero where there is no entry.
pub fn saved_progress(entry: Option<&str>) -> (seconds: u16)
    ensures
        seconds == (match entry {
            Some(text) => parse_progress(text.spec_bytes()),
            None => 0,
        }),
{
    match entry {
        Some(text) => parse_saved_progress(text),
        None => 0,
    }
}

/// What is written reads back as it was, up to the largest progress that
/// can be resumed from; beyond that it reads as zero.
pub proof fn law_progress_round_trip(seconds: u64)
    ensures
        parse_progress(decimal_text(seconds as nat)) == (if seconds <= u16::MAX {
            seconds as u16
        } else {
            0
        }),
{
    lemma_decimal_text_denotes(seconds as nat);
    let text = decimal_text(seconds as nat);
    assert(unsigned_part(text) == text);
}

/// What the last session left behind.
#[derive(Debug, Clone, Copy, PartialEq, Eq, Structural)]
pub struct ResumeState {
    /// Whether the last state published was `PAUSED` or `STOPPED`.
    pub paused: bool,
    /// Elapsed seconds that were saved last.
    pub progress: u16,
}

impl ResumeState {
    /// Reads the record from the two entries of the store: the paused flag
    /// counts by its presence, whatever its value.
    pub fn read(paused_entry_present: bool, progress_entry: Option<&str>) -> (state: ResumeState)
        ensures
            state.paused == paused_entry_present,
            state.progress == (match progress_entry {
                Some(text) => parse_progress(text.spec_bytes()),
                None => 0,
            }),
    {
        ResumeState { paused: paused_entry_present, progress: saved_progress(progress_entry) }
    }
}

/// What the recorder writes for `event`, when `ticks_odd` says whether it
/// has seen an odd number of progress events before: the elapsed seconds
/// for every other progress event, and the paused flag, set or removed, for
/// every change of the transport state.
pub open spec fn recorded(ticks_odd: bool, event: StateChangeEvent) -> Option<StoreOpView> {
    match event {
        StateChangeEvent::SongTimeEvent(progress) => if ticks_odd {
            Some(
                StoreOpView::Insert {
                    key: StoreKey::LastSongProgress,
                    value: decimal_text(progress.current_time as nat),
                },
            )
        } else {
            None
        },
        StateChangeEvent::PlaybackStateEvent(PlayerState::PLAYING) => Some(
            StoreOpView::Remove { key: StoreKey::LastSongPaused },
        ),
        StateChangeEvent::PlaybackStateEvent(_) => Some(
            StoreOpView::Insert { key: StoreKey::LastSongPaused, value: paused_flag_value() },
        ),
        _ => None,
    }
}

/// The subscriber that keeps the record up to date from the published
/// events.
#[derive(Debug, Clone, Copy, PartialEq, Eq, Structural)]
pub struct ResumeRecorder {
    /// Whether an odd number of progress events has been seen.
    pub ticks_odd: bool,
}

impl ResumeRecorder {
    /// A recorder that has seen no event.
    pub fn new() -> (recorder: ResumeRecorder)
        ensures
            recorder == (ResumeRecorder { ticks_odd: false }),
    {
        ResumeRecorder { ticks_odd: false }
    }

    /// Takes one published event and returns what is to be written.
    ///
    /// Of the progress events every second one is saved, the first one not.
    /// A change of state to `PLAYING` removes the paused flag; a change to
    /// `PAUSED` or `STOPPED` sets it. Other events write nothing.
    pub fn on_event(&mut self, event: StateChangeEvent) -> (op: Option<StoreOp>)
        ensures
            (match op {
                Some(op) => Some(op@),
                None => None,
            }) == recorded(old(self).ticks_odd, event),
            final(self).ticks_odd == (if event is SongTimeEvent {
                !old(self).ticks_odd
            } else {
                old(self).ticks_odd
            }),
    {
        match event {
            StateChangeEvent::SongTimeEvent(progress) => {
                let save: bool = self.ticks_odd;
                self.ticks_odd = !self.ticks_odd;
                if save {
                    Some(
                        StoreOp::Insert {
                            key: StoreKey::LastSongProgress,
                            value: encode_seconds(progress.current_time),
                        },
                    )
                } else {
                    None
                }
            },
            StateChangeEvent::PlaybackStateEvent(PlayerState::PLAYING) => Some(
                StoreOp::Remove { key: StoreKey::LastSongPaused },
            ),
            StateChangeEvent::PlaybackStateEvent(_) => {
                let mut value: Vec<u8> = Vec::new();
                value.push(116);
                value.push(114);
                value.push(117);
                value.push(101);
                assert(value@ =~= paused_flag_value());
                Some(StoreOp::Insert { key: StoreKey::LastSongPaused, value })
            },
            _ => None,
        }
    }
}

} // verus!
