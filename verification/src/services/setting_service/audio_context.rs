//! The audio settings: which microphone the engine uses.
use vstd::prelude::*;

use crate::native::NativeHandle;
use crate::public_types::{SdkError, SdkResult, ZoomRsError, UNDEFINED_STATUS};
use crate::text::{chars_of, contains, find_in};

verus! {

/// The audio settings of the engine.
#[derive(Debug)]
pub struct AudioContext {
    /// The engine's audio setting context.
    pub ref_audio_context: NativeHandle,
}

/// Whether the device `mic` belongs to the loopback driver of ALSA: its
/// identifier holds the text `snd_aloop`.
pub open spec fn is_loopback(mic: &MicList) -> bool {
    contains(mic.device_id@, "snd_aloop"@)
}

/// The position of the first loopback device in `mics`, if there is one.
pub open spec fn first_loopback(mics: Seq<MicList>) -> Option<int> {
    if exists|i: int| 0 <= i < mics.len() && is_loopback(&#[trigger] mics[i]) {
        Some(
            choose|i: int|
                0 <= i < mics.len() && is_loopback(&#[trigger] mics[i]) && forall|j: int|
                    0 <= j < i ==> !is_loopback(&#[trigger] mics[j]),
        )
    } else {
        None
    }
}

impl AudioContext {
    /// Create audio context interface from the handle that the engine gave
    /// for a setting service: `None` where it gave the null handle.
    pub fn new(fetched: NativeHandle) -> (r: Option<Self>)
        ensures
            fetched.is_null() ==> r is None,
            !fetched.is_null() ==> r is Some && r->0.ref_audio_context == fetched,
    {
        if fetched.is_null() {
            None
        } else {
            Some(AudioContext { ref_audio_context: fetched })
        }
    }

    /// Whether selecting a microphone for `driver` needs the engine's list
    /// of devices: it does for every driver but [`MicDriver::Default`].
    pub fn needs_device_list(driver: &MicDriver) -> (r: bool)
        ensures
            r == (*driver != MicDriver::Default),
    {
        match driver {
            MicDriver::Default => false,
            _ => true,
        }
    }

    /// Select mic device: decides which device of the engine's list `mics`
    /// is to be selected for `driver`.
    ///
    /// For [`MicDriver::Default`] nothing is to be selected: the result is
    /// `Ok(None)`, whatever the list holds. For [`MicDriver::SndAloop`] it is
    /// the position in the list of the first device whose identifier holds
    /// `snd_aloop`: that device is to be selected. Where the list holds no
    /// device of the driver the result is the error
    /// [`SdkError::UnexpectedError`] with [`UNDEFINED_STATUS`].
    ///
    /// No device is known to belong to [`MicDriver::Pulse`]: with that
    /// driver the list must be empty.
    pub fn select_microphone(&self, driver: &MicDriver, mics: &Vec<MicList>) -> (r: SdkResult<
        Option<usize>,
    >)
        requires
            *driver == MicDriver::Pulse ==> mics@.len() == 0,
        ensures
            *driver == MicDriver::Default ==> r == Ok::<Option<usize>, ZoomRsError>(None),
            *driver == MicDriver::Pulse ==> r == Err::<Option<usize>, ZoomRsError>(
                ZoomRsError::Sdk(SdkError::UnexpectedError(UNDEFINED_STATUS)),
            ),
            *driver == MicDriver::SndAloop ==> r == match first_loopback(mics@) {
                Some(i) => Ok::<Option<usize>, ZoomRsError>(Some(i as usize)),
                None => Err::<Option<usize>, ZoomRsError>(
                    ZoomRsError::Sdk(SdkError::UnexpectedError(UNDEFINED_STATUS)),
                ),
            },
    {
        match driver {
            MicDriver::Default => Ok(None),
            MicDriver::Pulse => Err(ZoomRsError::Sdk(SdkError::UnexpectedError(UNDEFINED_STATUS))),
            MicDriver::SndAloop => {
                let needle = chars_of("snd_aloop");
                let mut i: usize = 0;
                while i < mics.len()
                    invariant
                        *driver == MicDriver::SndAloop,
                        i <= mics@.len(),
                        needle@ == "snd_aloop"@,
                        forall|j: int| 0 <= j < i ==> !is_loopback(&#[trigger] mics@[j]),
                    decreases mics@.len() - i,
                {
                    let id = chars_of(mics[i].device_id.as_str());
                    if find_in(&id, &needle) {
                        proof {
                            assert(is_loopback(&mics@[i as int]));
                            let chosen = first_loopback(mics@)->0;
                            if chosen < i {
                                assert(!is_loopback(&mics@[chosen]));
                            }
                            if i < chosen {
                                assert(!is_loopback(&mics@[i as int]));
                            }
                        }
                        return Ok(Some(i));
                    }
                    i = i + 1;
                }
                Err(ZoomRsError::Sdk(SdkError::UnexpectedError(UNDEFINED_STATUS)))
            },
        }
    }
}

/// The driver whose microphone is wanted.
#[derive(Debug, Clone, Copy, PartialEq, Eq, Structural)]
pub enum MicDriver {
    /// The loopback device of ALSA.
    SndAloop,
    /// PulseAudio.
    Pulse,
    /// Whatever the engine has selected.
    Default,
}

/// One microphone of the engine's device list.
#[derive(Debug, Clone)]
pub struct MicList {
    /// The device's identifier.
    pub device_id: String,
    /// The device's name.
    pub device_name: String,
    /// Whether the engine uses this device now.
    pub selected: bool,
}

/// How strongly background noise is suppressed.
#[derive(Debug, Clone, Copy, PartialEq, Eq, Structural)]
pub enum SupressBackgroundNoiseLevel {
    /// No suppression.
    NoSuppression,
    /// The engine chooses.
    Auto,
    /// Low.
    Low,
    /// Medium.
    Medium,
    /// High.
    Heigh,
}

impl SupressBackgroundNoiseLevel {
    /// The number by which the engine knows this level.
    pub open spec fn spec_code(self) -> u32 {
        match self {
            SupressBackgroundNoiseLevel::NoSuppression => 0u32,
            SupressBackgroundNoiseLevel::Auto => 1u32,
            SupressBackgroundNoiseLevel::Low => 2u32,
            SupressBackgroundNoiseLevel::Medium => 3u32,
            SupressBackgroundNoiseLevel::Heigh => 4u32,
        }
    }

    /// The number by which the engine knows this level.
    #[verifier::when_used_as_spec(spec_code)]
    pub fn code(self) -> (c: u32)
        ensures
            c == self.spec_code(),
    {
        match self {
            SupressBackgroundNoiseLevel::NoSuppression => 0u32,
            SupressBackgroundNoiseLevel::Auto => 1u32,
            SupressBackgroundNoiseLevel::Low => 2u32,
            SupressBackgroundNoiseLevel::Medium => 3u32,
            SupressBackgroundNoiseLevel::Heigh => 4u32,
        }
    }
}

} // verus!
