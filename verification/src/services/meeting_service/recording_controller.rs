//! The recording controller of a meeting.
use vstd::prelude::*;
use vstd::std_specs::convert::FromSpecImpl;

use crate::bridge::{
    after_callback, delivery_of, replaced, CallbackBridge, Delivery, Handler, HandlerKind,
};
use crate::native::{host_only, CallbackContext, NativeCall, NativeHandle, TeardownStep};
use crate::public_types::{SdkResult, ZoomRsError};

verus! {

/// This trait handles events related to recording.
pub trait RecordingControllerEvent: Send {
    /// Callback event that the status of request local recording privilege.
    /// - [RequestLocalRecordingStatus] of request local recording privilege status.
    fn on_recording_privilege_request_status(&mut self, _status: RequestLocalRecordingStatus) {
    }

    /// Callback event that the status of my local recording changes.
    /// - [RecordingStatus] of recording status.
    fn on_recording_status(&mut self, _status: RecordingStatus, _time: i64) {
    }

    /// Callback event that the recording authority changes.
    /// - [bool] TRUE indicates to enable to record.
    fn on_recording_privilege_changed(&mut self, _can_rec: bool) {
    }
}

/// Main interface of [RecordingController].
///
/// The controller belongs to the engine's meeting service and is never
/// destroyed by the host; what the host takes down is its handler.
#[derive(Debug)]
pub struct RecordingController {
    ref_recording_controller: NativeHandle,
    event: Option<CallbackContext>,
}

impl RecordingController {
    /// The engine's recording controller.
    pub closed spec fn handle(&self) -> NativeHandle {
        self.ref_recording_controller
    }

    /// The token of the installed handler, if there is one.
    pub closed spec fn event(&self) -> Option<CallbackContext> {
        self.event
    }

    /// What taking the controller down consists of: the release of its
    /// handler, if it has one.
    pub open spec fn teardown_plan(&self) -> Seq<TeardownStep> {
        match self.event() {
            Some(c) => seq![TeardownStep::Release(c)],
            None => Seq::<TeardownStep>::empty(),
        }
    }

    /// Wraps the recording controller that the engine gave for a meeting
    /// service: `None` where it gave the null handle.
    pub fn new(fetched: NativeHandle) -> (r: Option<Self>)
        ensures
            fetched.is_null() ==> r is None,
            !fetched.is_null() ==> r is Some && r->0.handle() == fetched && r->0.event() is None,
    {
        if fetched.is_null() {
            None
        } else {
            Some(RecordingController { ref_recording_controller: fetched, event: None })
        }
    }

    /// The engine's recording controller.
    pub fn native(&self) -> (r: NativeHandle)
        ensures
            r == self.handle(),
    {
        self.ref_recording_controller
    }

    /// Set the recording controller callback event handler: registers the
    /// handler, in the place of an earlier one, and returns the request that
    /// installs it. The registration stands whatever the engine answers to
    /// that request. Where the table has no token left the controller is
    /// left without a handler and the result is [`ZoomRsError::NullPtr`].
    pub fn set_event(&mut self, bridge: &mut CallbackBridge, ctx: Box<dyn RecordingControllerEvent>) -> (r:
        SdkResult<NativeCall>)
        requires
            old(bridge).wf(),
        ensures
            final(bridge).wf(),
            final(self).handle() == old(self).handle(),
            old(bridge).issued() == u64::MAX ==> r is Err && r->Err_0 == ZoomRsError::NullPtr
                && final(self).event() is None && final(bridge).issued() == old(bridge).issued(),
            old(bridge).issued() < u64::MAX ==> {
                let context = CallbackContext { token: (old(bridge).issued() + 1) as u64 };
                &&& r == Ok::<NativeCall, ZoomRsError>(
                    NativeCall::SetRecordingEvent { controller: old(self).handle(), context },
                )
                &&& final(self).event() == Some(context)
                &&& final(bridge).issued() == context.token
                &&& final(bridge).serves(context, HandlerKind::Recording)
            },
            old(self).event() is Some && old(bridge).is_live(old(self).event()->0)
                ==> !final(bridge).is_live(old(self).event()->0),
            replaced(
                final(bridge)@,
                old(bridge)@,
                old(self).event(),
                final(self).event(),
                Handler::Recording(ctx),
            ),
    {
        let registered = bridge.replace(self.event, Handler::Recording(ctx));
        match registered {
            Ok(context) => {
                self.event = Some(context);
                Ok(
                    NativeCall::SetRecordingEvent {
                        controller: self.ref_recording_controller,
                        context,
                    },
                )
            },
            Err(e) => {
                self.event = None;
                Err(e)
            },
        }
    }

    /// Takes the controller down: the steps to perform. None of them makes
    /// a request of the engine.
    pub fn release(self) -> (steps: Vec<TeardownStep>)
        ensures
            steps@ == self.teardown_plan(),
            host_only(steps@),
    {
        let mut steps: Vec<TeardownStep> = Vec::new();
        match self.event {
            Some(c) => {
                steps.push(TeardownStep::Release(c));
            },
            None => {},
        }
        steps
    }
}

/// The engine reports what became of a request for the privilege to record.
/// The result says what became of the callback.
pub fn on_recording_privilege_request_status(
    bridge: &mut CallbackBridge,
    context: CallbackContext,
    status: u32,
) -> (delivery: Delivery)
    requires
        old(bridge).wf(),
    ensures
        after_callback(final(bridge), old(bridge), context, HandlerKind::Recording, true),
        delivery == delivery_of(old(bridge), context, HandlerKind::Recording, true),
{
    match bridge.handler_of_kind(context, HandlerKind::Recording) {
        Some(Handler::Recording(h)) => {
            h.on_recording_privilege_request_status(RequestLocalRecordingStatus::from(status));
            Delivery::Delivered
        },
        _ => Delivery::NoHandler,
    }
}

/// The engine reports that the status of the recording changed.
/// The result says what became of the callback.
pub fn on_recording_status(
    bridge: &mut CallbackBridge,
    context: CallbackContext,
    status: u32,
    time: i64,
) -> (delivery: Delivery)
    requires
        old(bridge).wf(),
    ensures
        after_callback(final(bridge), old(bridge), context, HandlerKind::Recording, true),
        delivery == delivery_of(old(bridge), context, HandlerKind::Recording, true),
{
    match bridge.handler_of_kind(context, HandlerKind::Recording) {
        Some(Handler::Recording(h)) => {
            h.on_recording_status(RecordingStatus::from(status), time);
            Delivery::Delivered
        },
        _ => Delivery::NoHandler,
    }
}

/// The engine reports whether the host may record.
/// The result says what became of the callback.
pub fn on_recording_privilege_changed(
    bridge: &mut CallbackBridge,
    context: CallbackContext,
    can_rec: bool,
) -> (delivery: Delivery)
    requires
        old(bridge).wf(),
    ensures
        after_callback(final(bridge), old(bridge), context, HandlerKind::Recording, true),
        delivery == delivery_of(old(bridge), context, HandlerKind::Recording, true),
{
    match bridge.handler_of_kind(context, HandlerKind::Recording) {
        Some(Handler::Recording(h)) => {
            h.on_recording_privilege_changed(can_rec);
            Delivery::Delivered
        },
        _ => Delivery::NoHandler,
    }
}

/// Request local recording privilege status.
#[derive(Debug, Clone, Copy, PartialEq, Eq, Structural)]
pub enum RequestLocalRecordingStatus {
    /// Host granted the request.
    RequestLocalRecordingGranted,
    /// Host denied the request.
    RequestLocalRecordingDenied,
    /// Request timed out.
    RequestLocalRecordingTimeout,
    /// Unexpected result from SDK
    Unexpected,
}

impl RequestLocalRecordingStatus {
    /// The number by which the engine knows this status.
    pub open spec fn spec_code(self) -> u32 {
        match self {
            RequestLocalRecordingStatus::RequestLocalRecordingGranted => 0u32,
            RequestLocalRecordingStatus::RequestLocalRecordingDenied => 1u32,
            RequestLocalRecordingStatus::RequestLocalRecordingTimeout => 2u32,
            RequestLocalRecordingStatus::Unexpected => 3u32,
        }
    }

    /// The status that the engine's number `code` stands for; every number
    /// that the engine does not define stands for [`RequestLocalRecordingStatus::Unexpected`].
    pub open spec fn of_code(code: u32) -> Self {
        if code == 0u32 {
            RequestLocalRecordingStatus::RequestLocalRecordingGranted
        } else if code == 1u32 {
            RequestLocalRecordingStatus::RequestLocalRecordingDenied
        } else if code == 2u32 {
            RequestLocalRecordingStatus::RequestLocalRecordingTimeout
        } else {
            RequestLocalRecordingStatus::Unexpected
        }
    }

    /// The number by which the engine knows this status.
    #[verifier::when_used_as_spec(spec_code)]
    pub fn code(self) -> (c: u32)
        ensures
            c == self.spec_code(),
            Self::of_code(c) == self,
    {
        match self {
            RequestLocalRecordingStatus::RequestLocalRecordingGranted => 0u32,
            RequestLocalRecordingStatus::RequestLocalRecordingDenied => 1u32,
            RequestLocalRecordingStatus::RequestLocalRecordingTimeout => 2u32,
            RequestLocalRecordingStatus::Unexpected => 3u32,
        }
    }
}

impl From<u32> for RequestLocalRecordingStatus {
    fn from(code: u32) -> (r: Self) {
        match code {
            0u32 => RequestLocalRecordingStatus::RequestLocalRecordingGranted,
            1u32 => RequestLocalRecordingStatus::RequestLocalRecordingDenied,
            2u32 => RequestLocalRecordingStatus::RequestLocalRecordingTimeout,
            _ => RequestLocalRecordingStatus::Unexpected,
        }
    }
}

impl FromSpecImpl<u32> for RequestLocalRecordingStatus {
    open spec fn obeys_from_spec() -> bool {
        true
    }

    open spec fn from_spec(code: u32) -> Self {
        Self::of_code(code)
    }
}

/// Recording status.
#[derive(Debug, Clone, Copy, PartialEq, Eq, Structural)]
pub enum RecordingStatus {
    /// Start recording on local computer or on cloud.
    RecordingStart,
    /// Stop recording on local computer or on cloud.
    RecordingStop,
    /// There is no more space to store both local and cloud recording.
    RecordingDiskFull,
    /// Pause recording on local or on cloud.
    RecordingPause,
    /// Connecting, only for cloud recording.
    RecordingConnecting,
    /// Recording failed.
    RecordingFail,
    /// Unexpected result from SDK
    Unexpected,
}

impl RecordingStatus {
    /// The number by which the engine knows this status.
    pub open spec fn spec_code(self) -> u32 {
        match self {
            RecordingStatus::RecordingStart => 0u32,
            RecordingStatus::RecordingStop => 1u32,
            RecordingStatus::RecordingDiskFull => 2u32,
            RecordingStatus::RecordingPause => 3u32,
            RecordingStatus::RecordingConnecting => 4u32,
            RecordingStatus::RecordingFail => 5u32,
            RecordingStatus::Unexpected => 6u32,
        }
    }

    /// The status that the engine's number `code` stands for; every number
    /// that the engine does not define stands for [`RecordingStatus::Unexpected`].
    pub open spec fn of_code(code: u32) -> Self {
        if code == 0u32 {
            RecordingStatus::RecordingStart
        } else if code == 1u32 {
            RecordingStatus::RecordingStop
        } else if code == 2u32 {
            RecordingStatus::RecordingDiskFull
        } else if code == 3u32 {
            RecordingStatus::RecordingPause
        } else if code == 4u32 {
            RecordingStatus::RecordingConnecting
        } else if code == 5u32 {
            RecordingStatus::RecordingFail
        } else {
            RecordingStatus::Unexpected
        }
    }

    /// The number by which the engine knows this status.
    #[verifier::when_used_as_spec(spec_code)]
    pub fn code(self) -> (c: u32)
        ensures
            c == self.spec_code(),
            Self::of_code(c) == self,
    {
        match self {
            RecordingStatus::RecordingStart => 0u32,
            RecordingStatus::RecordingStop => 1u32,
            RecordingStatus::RecordingDiskFull => 2u32,
            RecordingStatus::RecordingPause => 3u32,
            RecordingStatus::RecordingConnecting => 4u32,
            RecordingStatus::RecordingFail => 5u32,
            RecordingStatus::Unexpected => 6u32,
        }
    }
}

impl From<u32> for RecordingStatus {
    fn from(code: u32) -> (r: Self) {
        match code {
            0u32 => RecordingStatus::RecordingStart,
            1u32 => RecordingStatus::RecordingStop,
            2u32 => RecordingStatus::RecordingDiskFull,
            3u32 => RecordingStatus::RecordingPause,
            4u32 => RecordingStatus::RecordingConnecting,
            5u32 => RecordingStatus::RecordingFail,
            _ => RecordingStatus::Unexpected,
        }
    }
}

impl FromSpecImpl<u32> for RecordingStatus {
    open spec fn obeys_from_spec() -> bool {
        true
    }

    open spec fn from_spec(code: u32) -> Self {
        Self::of_code(code)
    }
}

} // verus!
