//! The setting service.
use vstd::prelude::*;

/// Sub-service related to audio, microphone, auto-join, etc...
pub mod audio_context;

pub use audio_context::AudioContext;

use crate::native::{host_only, NativeCall, NativeHandle, TeardownStep};
use crate::public_types::{SdkError, SdkResult, ZoomRsError, ZoomSdkResult};
use crate::teardown::TeardownCoordinator;

verus! {

/// Main instance of the parameters.
///
/// The host destroys the service, and only while the engine has not begun
/// its own teardown. The audio context belongs to the engine and goes with
/// the service.
#[derive(Debug)]
pub struct SettingService {
    ref_setting_service: NativeHandle,
    audio_context: Option<AudioContext>,
}

impl SettingService {
    /// The engine's setting service.
    pub closed spec fn handle(&self) -> NativeHandle {
        self.ref_setting_service
    }

    /// The audio context, once it was asked for.
    pub closed spec fn audio(&self) -> Option<AudioContext> {
        self.audio_context
    }

    /// What taking the service down consists of: while the engine has not
    /// begun its teardown, the service is destroyed.
    pub open spec fn teardown_plan(&self, tearing_down: bool) -> Seq<TeardownStep> {
        if tearing_down {
            Seq::<TeardownStep>::empty()
        } else {
            seq![TeardownStep::Call(NativeCall::DestroySettingService(self.handle()))]
        }
    }

    /// Create setting service interface from the engine's answer to the
    /// request for one: a status other than success gives its error, and a
    /// null service with the status of success gives [`ZoomRsError::NullPtr`].
    pub fn new(created: ZoomSdkResult<NativeHandle>) -> (r: SdkResult<Self>)
        ensures
            created.0 != 0 ==> r is Err && r->Err_0 == ZoomRsError::Sdk(SdkError::of_code(created.0)),
            created.0 == 0 && created.1.is_null() ==> r is Err && r->Err_0 == ZoomRsError::NullPtr,
            created.0 == 0 && !created.1.is_null() ==> r is Ok && r->Ok_0.handle() == created.1
                && r->Ok_0.audio() is None,
    {
        let ZoomSdkResult(status, service) = created;
        if status != 0 {
            return Err(ZoomRsError::Sdk(SdkError::from(status)));
        }
        if service.is_null() {
            return Err(ZoomRsError::NullPtr);
        }
        Ok(SettingService { ref_setting_service: service, audio_context: None })
    }

    /// The engine's setting service.
    pub fn native(&self) -> (r: NativeHandle)
        ensures
            r == self.handle(),
    {
        self.ref_setting_service
    }

    /// Whether the audio context stands ready, so that
    /// [`SettingService::audio_context`] needs nothing from the engine.
    pub fn has_audio_context(&self) -> (r: bool)
        ensures
            r == self.audio() is Some,
    {
        self.audio_context.is_some()
    }

    /// Get Audio Context.
    ///
    /// The first call makes it from `fetched`, the audio settings that the
    /// engine gave for this service, and keeps it; later calls return what
    /// was kept and do not look at `fetched`. Where there is none yet and
    /// the engine gave the null handle, nothing changes and the result is
    /// [`ZoomRsError::NullPtr`].
    pub fn audio_context(&mut self, fetched: NativeHandle) -> (r: SdkResult<&mut AudioContext>)
        ensures
            final(self).handle() == old(self).handle(),
            old(self).audio() is None && fetched.is_null() ==> r is Err && r->Err_0
                == ZoomRsError::NullPtr && final(self).audio() is None,
            old(self).audio() is Some ==> r is Ok && *r->Ok_0 == old(self).audio()->0,
            old(self).audio() is None && !fetched.is_null() ==> r is Ok
                && r->Ok_0.ref_audio_context == fetched,
            r is Ok ==> final(self).audio() == Some(*final(r->Ok_0)),
    {
        if self.audio_context.is_none() {
            match AudioContext::new(fetched) {
                Some(made) => {
                    self.audio_context = Some(made);
                },
                None => {
                    return Err(ZoomRsError::NullPtr);
                },
            }
        }
        match &mut self.audio_context {
            Some(kept) => Ok(kept),
            None => Err(ZoomRsError::NullPtr),
        }
    }

    /// Takes the service down: the steps to perform. They make no request
    /// of the engine once it has begun its teardown.
    pub fn release(self, coordinator: &TeardownCoordinator) -> (steps: Vec<TeardownStep>)
        ensures
            steps@ == self.teardown_plan(coordinator.started()),
            coordinator.started() ==> host_only(steps@),
    {
        let mut steps: Vec<TeardownStep> = Vec::new();
        if !coordinator.is_tearing_down() {
            steps.push(
                TeardownStep::Call(NativeCall::DestroySettingService(self.ref_setting_service)),
            );
        }
        proof {
            assert(steps@ =~= self.teardown_plan(coordinator.started()));
        }
        steps
    }
}

} // verus!
