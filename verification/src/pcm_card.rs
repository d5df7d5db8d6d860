//! The playback device of a sound card: whether it is in use, and waiting
//! for it to be released.

use vstd::prelude::*;

verus! {

/// Longest time to wait for the device to be released, in milliseconds.
pub const WAIT_TIME_MS: u64 = 10000;

/// Time between two looks at the device, in milliseconds.
pub const DELAY_MS: u64 = 100;

/// What opening the device for playback, without blocking, showed.
#[derive(Debug, Clone, Copy, PartialEq, Eq, Structural)]
pub enum DeviceProbe {
    /// The device could not be opened.
    Unavailable,
    /// The device was opened and is playing.
    Running,
    /// The device was opened and is in any other state.
    NotRunning,
}

/// The next step while waiting for the device.
#[derive(Debug, Clone, Copy, PartialEq, Eq, Structural)]
pub enum UnlockWait {
    /// The device is free.
    Unlocked,
    /// Sleep for `sleep_millis`, then look at the device again; `elapsed_ms`
    /// is the time waited once the sleep is over.
    Retry { sleep_millis: u64, elapsed_ms: u64 },
    /// Sleep for `sleep_millis`, then give up: the device stayed locked for
    /// `elapsed_ms`.
    Locked { sleep_millis: u64, elapsed_ms: u64 },
}

/// The step after a look at the device showed `probe`, `elapsed_ms` into
/// the wait.
pub open spec fn unlock_wait(elapsed_ms: u64, probe: DeviceProbe) -> UnlockWait {
    if elapsed_ms >= WAIT_TIME_MS {
        UnlockWait::Locked { sleep_millis: 0, elapsed_ms }
    } else if probe == DeviceProbe::NotRunning {
        UnlockWait::Unlocked
    } else if elapsed_ms + DELAY_MS < WAIT_TIME_MS {
        UnlockWait::Retry { sleep_millis: DELAY_MS, elapsed_ms: (elapsed_ms + DELAY_MS) as u64 }
    } else {
        UnlockWait::Locked { sleep_millis: DELAY_MS, elapsed_ms: (elapsed_ms + DELAY_MS) as u64 }
    }
}

/// A sound card's playback device, known by its name.
#[derive(Debug)]
pub struct AlsaPcmCard {
    device_name: String,
}

impl AlsaPcmCard {
    /// The device called `device_name`.
    pub fn new(device_name: String) -> (card: AlsaPcmCard)
        ensures
            card.device_name_spec() == device_name@,
    {
        AlsaPcmCard { device_name }
    }

    /// Name of the device, as a sequence of characters.
    pub closed spec fn device_name_spec(&self) -> Seq<char> {
        self.device_name@
    }

    /// Name of the device.
    pub fn device_name(&self) -> (name: &str)
        ensures
            name@ == self.device_name_spec(),
    {
        self.device_name.as_str()
    }

    /// Whether the device is in use: it is, where it cannot be opened.
    pub fn is_device_in_use(&self, probe: DeviceProbe) -> (in_use: bool)
        ensures
            in_use == (probe == DeviceProbe::Unavailable),
    {
        match probe {
            DeviceProbe::Unavailable => true,
            _ => false,
        }
    }

    /// One round of waiting for the device to be released.
    ///
    /// The device is free once it can be opened and is not playing. Until
    /// then the wait goes on in steps of [`DELAY_MS`], and gives up when
    /// [`WAIT_TIME_MS`] have passed.
    pub fn wait_unlock_audio_dev(&self, elapsed_ms: u64, probe: DeviceProbe) -> (step: UnlockWait)
        ensures
            step == unlock_wait(elapsed_ms, probe),
    {
        if elapsed_ms >= WAIT_TIME_MS {
            return UnlockWait::Locked { sleep_millis: 0, elapsed_ms };
        }
        match probe {
            DeviceProbe::NotRunning => UnlockWait::Unlocked,
            _ => {
                let waited: u64 = elapsed_ms + DELAY_MS;
                if waited < WAIT_TIME_MS {
                    UnlockWait::Retry { sleep_millis: DELAY_MS, elapsed_ms: waited }
                } else {
                    UnlockWait::Locked { sleep_millis: DELAY_MS, elapsed_ms: waited }
                }
            },
        }
    }
}

} // verus!
