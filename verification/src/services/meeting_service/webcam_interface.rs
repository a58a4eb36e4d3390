//! The virtual webcam: video that the host sends into the meeting.
use vstd::prelude::*;

use crate::bridge::{
    after_callback, delivery_of, CallbackBridge, Delivery, Handler, HandlerKind,
};
use crate::native::{CallbackContext, NativeHandle};
use crate::public_types::{translated, SdkResult, ZoomSdkResult};

verus! {

/// This structure represents the ZOOM SDK video sender.
#[derive(Debug, Clone, Copy, PartialEq, Eq, Structural)]
pub struct CamInterface(pub NativeHandle);

/// Implements this Trait to send video data through virtual webcam.
pub trait VideoToWebcam: Send {
    /// Event triggered when virtual camera is ready to take data.
    fn on_video_source_started(&mut self, interface: CamInterface);

    /// Event triggered when the virtual camera has stopped.
    fn on_video_source_stopped(&mut self);
}

/// Get WebCam injection boilerplates: decides on the engine's answer to the
/// request that installs the registered handler `context` as the virtual
/// webcam. On success the result is the registration; any other status is
/// returned as the engine's error, with the status in it. The registration
/// stands either way.
pub fn new_webcam_injection_boitlerplate(context: CallbackContext, status: u32) -> (r: SdkResult<
    CallbackContext,
>)
    ensures
        r == translated(status, context),
        status != 0 ==> r is Err && r->Err_0.spec_status() == Some(status),
{
    ZoomSdkResult(status, context).into()
}

/// The engine hands the virtual webcam its sender. A null sender is not
/// handed on: nothing is called and nothing changes.
/// The result says what became of the callback.
pub fn video_source_started(
    bridge: &mut CallbackBridge,
    context: CallbackContext,
    sender: NativeHandle,
) -> (delivery: Delivery)
    requires
        old(bridge).wf(),
    ensures
        after_callback(final(bridge), old(bridge), context, HandlerKind::Webcam, !sender.is_null()),
        delivery == delivery_of(old(bridge), context, HandlerKind::Webcam, !sender.is_null()),
{
    if !sender.is_null() {
        match bridge.handler_of_kind(context, HandlerKind::Webcam) {
            Some(Handler::Webcam(h)) => {
                h.on_video_source_started(CamInterface(sender));
                Delivery::Delivered
            },
            _ => Delivery::NoHandler,
        }
    } else {
        Delivery::NothingToDeliver
    }
}

/// The engine tells the virtual webcam that it has stopped.
/// The result says what became of the callback.
pub fn video_source_stopped(bridge: &mut CallbackBridge, context: CallbackContext) -> (delivery: Delivery)
    requires
        old(bridge).wf(),
    ensures
        after_callback(final(bridge), old(bridge), context, HandlerKind::Webcam, true),
        delivery == delivery_of(old(bridge), context, HandlerKind::Webcam, true),
{
    match bridge.handler_of_kind(context, HandlerKind::Webcam) {
        Some(Handler::Webcam(h)) => {
            h.on_video_source_stopped();
            Delivery::Delivered
        },
        _ => Delivery::NoHandler,
    }
}

} // verus!
