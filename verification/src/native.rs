//! What crosses the boundary to the engine: the handles it gives out, the
//! context it echoes into every callback, and the requests this library
//! decides to make of it.
//!
//! The library never calls the engine. A function that decides on a request
//! returns it as a [`NativeCall`]; whoever holds the engine performs it and
//! hands the answer to the function that goes on from there.
use vstd::prelude::*;

use crate::public_types::{SdkResult, ZoomRsError};

verus! {

/// The address of one object that the engine owns. It is never read through;
/// only the engine gives it a meaning. Address 0 is the null handle.
#[derive(Debug, Clone, Copy, PartialEq, Eq, Structural)]
pub struct NativeHandle {
    /// The address as the engine wrote it.
    pub addr: usize,
}

impl NativeHandle {
    /// Whether this is the null handle.
    pub open spec fn spec_is_null(self) -> bool {
        self.addr == 0
    }

    /// The null handle.
    pub fn null() -> (r: Self)
        ensures
            r.addr == 0,
    {
        NativeHandle { addr: 0 }
    }

    /// Whether this is the null handle.
    #[verifier::when_used_as_spec(spec_is_null)]
    pub fn is_null(self) -> (r: bool)
        ensures
            r == self.spec_is_null(),
    {
        self.addr == 0
    }

    /// The handle itself where the engine gave one, and
    /// [`ZoomRsError::NullPtr`] for the null handle.
    pub fn require(self) -> (r: SdkResult<NativeHandle>)
        ensures
            self.is_null() ==> r == Err::<NativeHandle, ZoomRsError>(ZoomRsError::NullPtr),
            !self.is_null() ==> r == Ok::<NativeHandle, ZoomRsError>(self),
    {
        if self.addr == 0 {
            Err(ZoomRsError::NullPtr)
        } else {
            Ok(self)
        }
    }
}

/// The value that the engine stores with a registered handler and passes back,
/// unchanged, as the first argument of every callback for it. It names the
/// handler and owns nothing. Token 0 names no handler.
#[derive(Debug, Clone, Copy, PartialEq, Eq, Structural)]
pub struct CallbackContext {
    /// The token as the engine stores it.
    pub token: u64,
}

/// One request to the engine.
#[derive(Debug, Clone, Copy, PartialEq, Eq, Structural)]
pub enum NativeCall {
    /// Release the engine as a whole.
    CleanUpSdk,
    /// Destroy the meeting service.
    DestroyMeetingService(NativeHandle),
    /// Destroy the authentication service.
    DestroyAuthService(NativeHandle),
    /// Destroy the setting service.
    DestroySettingService(NativeHandle),
    /// Destroy the network connection helper.
    DestroyNetworkConnectionHelper(NativeHandle),
    /// Install the handler named by `context` as the meeting service's delegate.
    SetMeetingEvent { service: NativeHandle, context: CallbackContext },
    /// Install the handler named by `context` as the authentication service's delegate.
    SetAuthEvent { service: NativeHandle, context: CallbackContext },
    /// Install the handler named by `context` as the recording controller's delegate.
    SetRecordingEvent { controller: NativeHandle, context: CallbackContext },
    /// Install the handler named by `context` as the sharing controller's delegate.
    SetSharingEvent { controller: NativeHandle, context: CallbackContext },
    /// Set the largest resolution in which a renderer delivers frames.
    SetRawDataResolution { renderer: NativeHandle, resolution: u32 },
    /// Let a renderer deliver the frames of one user.
    SubscribeVideo { renderer: NativeHandle, user_id: u32, data_type: u32 },
    /// Stop a renderer's delivery.
    UnsubscribeVideo(NativeHandle),
    /// Destroy a renderer.
    DestroyRenderer(NativeHandle),
    /// Let the audio helper deliver to a delegate.
    SubscribeAudio { helper: NativeHandle, delegate: NativeHandle },
    /// Stop the audio helper's delivery.
    UnsubscribeAudio(NativeHandle),
    /// Install the handler named by `context` as the virtual microphone.
    SetExternalAudioSource { helper: NativeHandle, context: CallbackContext },
    /// Give a list of participants back to the engine.
    FreeParticipants(NativeHandle),
}

/// One step of taking a resource down.
#[derive(Debug, Clone, Copy, PartialEq, Eq, Structural)]
pub enum TeardownStep {
    /// Make this request of the engine; a status other than success is
    /// reported and the steps go on.
    Call(NativeCall),
    /// Release the handler that this context names, by
    /// [`CallbackBridge::unregister`](crate::bridge::CallbackBridge::unregister):
    /// the engine is not involved.
    Release(CallbackContext),
    /// Record with the coordinator that the teardown has started, by
    /// [`TeardownCoordinator::mark_teardown_started`](crate::teardown::TeardownCoordinator::mark_teardown_started):
    /// whatever is taken down after this step makes no request of the
    /// engine.
    MarkTeardownStarted,
}

impl TeardownStep {
    /// Whether the step makes a request of the engine.
    pub open spec fn spec_is_native(self) -> bool {
        self is Call
    }

    /// Whether the step makes a request of the engine.
    #[verifier::when_used_as_spec(spec_is_native)]
    pub fn is_native(self) -> (r: bool)
        ensures
            r == self.spec_is_native(),
    {
        match self {
            TeardownStep::Call(_) => true,
            TeardownStep::Release(_) => false,
            TeardownStep::MarkTeardownStarted => false,
        }
    }
}

/// Whether no step of `steps` makes a request of the engine.
pub open spec fn host_only(steps: Seq<TeardownStep>) -> bool {
    forall|i: int| 0 <= i < steps.len() ==> !(#[trigger] steps[i]).spec_is_native()
}

/// Whether no step of `steps` records the start of the teardown.
pub open spec fn marks_nothing(steps: Seq<TeardownStep>) -> bool {
    forall|i: int| 0 <= i < steps.len() ==> (#[trigger] steps[i]) != TeardownStep::MarkTeardownStarted
}

/// Whether the teardown has started once `steps` are performed, given
/// whether it had started before: it has if it had, or if one of the steps
/// records it.
pub open spec fn started_after(started: bool, steps: Seq<TeardownStep>) -> bool {
    started || !marks_nothing(steps)
}

/// The requests to the engine among `steps`, in their order.
pub open spec fn native_calls(steps: Seq<TeardownStep>) -> Seq<NativeCall>
    decreases steps.len(),
{
    if steps.len() == 0 {
        Seq::empty()
    } else {
        let rest = native_calls(steps.drop_last());
        match steps.last() {
            TeardownStep::Call(call) => rest.push(call),
            _ => rest,
        }
    }
}

/// Counts the requests to the engine among `steps`.
pub fn count_native_calls(steps: &Vec<TeardownStep>) -> (n: usize)
    ensures
        n == native_calls(steps@).len(),
        n <= steps@.len(),
{
    let mut n: usize = 0;
    let mut i: usize = 0;
    while i < steps.len()
        invariant
            i <= steps@.len(),
            n == native_calls(steps@.take(i as int)).len(),
            n <= i,
        decreases steps@.len() - i,
    {
        proof {
            assert(steps@.take(i + 1).drop_last() =~= steps@.take(i as int));
            assert(steps@.take(i + 1).last() == steps@[i as int]);
        }
        if steps[i].is_native() {
            n = n + 1;
        }
        i = i + 1;
    }
    proof {
        assert(steps@.take(steps@.len() as int) =~= steps@);
    }
    n
}

/// Steps that make no request of the engine hold no native call, and the
/// other way round.
pub proof fn lemma_host_only_has_no_calls(steps: Seq<TeardownStep>)
    ensures
        host_only(steps) <==> native_calls(steps).len() == 0,
    decreases steps.len(),
{
    if steps.len() > 0 {
        lemma_host_only_has_no_calls(steps.drop_last());
        let front = steps.drop_last();
        if host_only(steps) {
            assert forall|i: int| 0 <= i < front.len() implies !(#[trigger] front[i]).spec_is_native() by {
                assert(front[i] == steps[i]);
            }
            assert(!steps[steps.len() - 1].spec_is_native());
        }
        if native_calls(steps).len() == 0 {
            assert(!steps.last().spec_is_native());
            assert forall|i: int| 0 <= i < steps.len() implies !(#[trigger] steps[i]).spec_is_native() by {
                if i < front.len() {
                    assert(front[i] == steps[i]);
                }
            }
        }
    }
}

} // verus!
