//! The audio controller of a meeting.
use vstd::prelude::*;

use crate::native::NativeHandle;

verus! {

/// Main audio controller instance.
#[derive(Debug)]
pub struct AudioController {
    /// The engine's audio controller.
    pub ref_audio_controller: NativeHandle,
}

impl AudioController {
    /// Wraps the audio controller that the engine gave for a meeting
    /// service: `None` where it gave the null handle.
    pub fn new(fetched: NativeHandle) -> (r: Option<Self>)
        ensures
            fetched.is_null() ==> r is None,
            !fetched.is_null() ==> r is Some && r->0.ref_audio_controller == fetched,
    {
        if fetched.is_null() {
            None
        } else {
            Some(AudioController { ref_audio_controller: fetched })
        }
    }
}

} // verus!
