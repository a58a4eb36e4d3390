//! Raw video: a renderer delivers the frames of one user to a handler.
use vstd::prelude::*;

use crate::bridge::{
    after_callback, delivery_of, without, CallbackBridge, Delivery, Handler, HandlerKind,
};
use crate::native::{host_only, CallbackContext, NativeCall, NativeHandle, TeardownStep};
use crate::public_types::{
    check_status, translated, SdkError, SdkResult, ZoomRsError, ZoomSdkResult,
};
use crate::teardown::TeardownCoordinator;

verus! {

/// Raw data of an image.
#[derive(Debug, Clone)]
pub struct ExportedVideoRawData {
    /// The picture, as the engine laid it out.
    pub data: Vec<u8>,
    /// Width of the picture in pixels.
    pub width: u32,
    /// Height of the picture in pixels.
    pub height: u32,
    /// When the engine took the picture.
    pub time: i64,
}

/// RawData video events from delegate.
pub trait RawVideoEvent: Send {
    /// Get Data frame.
    fn on_raw_data_frame_received(&mut self, _data: &ExportedVideoRawData);

    /// On status change.
    fn on_raw_data_status_changed(&mut self, _status: bool, time: i64);

    /// Notify the current renderer object is going to be destroyed.
    /// After you handle this callback, you should never user this renderer object any more
    fn on_renderer_be_destroyed(&mut self, time: i64);

    /// Use it when you want to do last operation after unsubscribing.
    fn flush(&mut self);
}

/// A renderer takes a delegate and allows retrieving images.
///
/// The engine may destroy the renderer on its own; it says so through
/// [`on_renderer_be_destroyed`], and the host then calls
/// [`Renderer::invalid`]. From then on the renderer holds no handle, and
/// nothing it does reaches the engine.
#[derive(Debug)]
pub struct Renderer {
    renderer: Option<NativeHandle>,
    delegate: NativeHandle,
    context: CallbackContext,
    subscribed: bool,
}

impl Renderer {
    /// The engine's renderer, while it is valid.
    pub closed spec fn handle(&self) -> Option<NativeHandle> {
        self.renderer
    }

    /// The engine's delegate object, through which the frames come.
    pub closed spec fn delegate(&self) -> NativeHandle {
        self.delegate
    }

    /// The token of the handler that receives the frames.
    pub closed spec fn context(&self) -> CallbackContext {
        self.context
    }

    /// Whether the engine has accepted a subscription of the renderer that
    /// was not ended since, and the renderer is still valid.
    pub closed spec fn subscribed(&self) -> bool {
        self.subscribed && self.renderer is Some
    }

    /// Only a valid renderer is subscribed.
    pub proof fn lemma_subscribed_is_valid(&self)
        ensures
            self.subscribed() ==> self.handle() is Some,
    {
    }

    /// What taking the renderer down consists of. While the engine has not
    /// begun its teardown and the renderer is valid: end the subscription if
    /// there is one, release the handler, destroy the renderer. Otherwise the
    /// engine owns the renderer or has freed it, and only the handler is
    /// released.
    pub open spec fn teardown_plan(&self, tearing_down: bool) -> Seq<TeardownStep> {
        if tearing_down || self.handle() is None {
            seq![TeardownStep::Release(self.context())]
        } else if self.subscribed() {
            seq![
                TeardownStep::Call(NativeCall::UnsubscribeVideo(self.handle()->0)),
                TeardownStep::Release(self.context()),
                TeardownStep::Call(NativeCall::DestroyRenderer(self.handle()->0)),
            ]
        } else {
            seq![
                TeardownStep::Release(self.context()),
                TeardownStep::Call(NativeCall::DestroyRenderer(self.handle()->0)),
            ]
        }
    }

    /// Create a new renderer from what the engine answered.
    ///
    /// `context` names the registered handler, `delegate` is the delegate
    /// object that the engine made for it, and `created` is the engine's
    /// answer to the request for a renderer. A null delegate gives
    /// [`ZoomRsError::NullPtr`]; else a status other than success gives its
    /// error; else a null renderer gives [`ZoomRsError::NullPtr`]. Otherwise
    /// the result is the renderer, valid and not subscribed, with the request
    /// that sets its resolution, and the table stays as it is.
    ///
    /// Where no renderer is made the handler has no use: it is released.
    pub fn new(
        bridge: &mut CallbackBridge,
        context: CallbackContext,
        delegate: NativeHandle,
        created: ZoomSdkResult<NativeHandle>,
        resolution: VideoResolution,
    ) -> (r: SdkResult<(Renderer, NativeCall)>)
        requires
            old(bridge).wf(),
        ensures
            final(bridge).wf(),
            final(bridge).issued() == old(bridge).issued(),
            delegate.is_null() ==> r == Err::<(Renderer, NativeCall), ZoomRsError>(
                ZoomRsError::NullPtr,
            ),
            !delegate.is_null() && created.0 != 0 ==> r == Err::<(Renderer, NativeCall), ZoomRsError>(
                ZoomRsError::Sdk(SdkError::of_code(created.0)),
            ),
            !delegate.is_null() && created.0 == 0 && created.1.is_null() ==> r == Err::<
                (Renderer, NativeCall),
                ZoomRsError,
            >(ZoomRsError::NullPtr),
            !delegate.is_null() && created.0 == 0 && !created.1.is_null() ==> {
                &&& r is Ok
                &&& r->Ok_0.0.handle() == Some(created.1)
                &&& r->Ok_0.0.delegate() == delegate
                &&& r->Ok_0.0.context() == context
                &&& !r->Ok_0.0.subscribed()
                &&& r->Ok_0.1 == (NativeCall::SetRawDataResolution {
                    renderer: created.1,
                    resolution: resolution.code(),
                })
            },
            r is Ok ==> *final(bridge) == *old(bridge),
            r is Err ==> final(bridge)@ == without(old(bridge)@, context) && !final(bridge).is_live(
                context,
            ),
    {
        let ZoomSdkResult(status, renderer) = created;
        if delegate.is_null() {
            bridge.unregister(context);
            return Err(ZoomRsError::NullPtr);
        }
        if status != 0 {
            bridge.unregister(context);
            return Err(ZoomRsError::Sdk(SdkError::from(status)));
        }
        if renderer.is_null() {
            bridge.unregister(context);
            return Err(ZoomRsError::NullPtr);
        }
        Ok(
            (
                Renderer { renderer: Some(renderer), delegate, context, subscribed: false },
                NativeCall::SetRawDataResolution { renderer, resolution: resolution.code() },
            ),
        )
    }

    /// Subscribe a delegate for given user_id and type: the request to make
    /// of the engine, or [`ZoomRsError::NullPtr`] where the renderer is no
    /// longer valid. The engine's answer goes to [`Renderer::subscription_answered`].
    pub fn subscribe_delegate(&self, user_id: u32, data_type: RawDataType) -> (r: SdkResult<
        NativeCall,
    >)
        ensures
            self.handle() is None ==> r == Err::<NativeCall, ZoomRsError>(ZoomRsError::NullPtr),
            self.handle() is Some ==> r == Ok::<NativeCall, ZoomRsError>(
                NativeCall::SubscribeVideo {
                    renderer: self.handle()->0,
                    user_id,
                    data_type: data_type.code(),
                },
            ),
    {
        match self.renderer {
            Some(renderer) => Ok(
                NativeCall::SubscribeVideo { renderer, user_id, data_type: data_type.code() },
            ),
            None => Err(ZoomRsError::NullPtr),
        }
    }

    /// Takes the engine's answer to a subscription: success is noted, if the
    /// renderer is still valid, and any other status is returned as its error.
    pub fn subscription_answered(&mut self, status: u32) -> (r: SdkResult<()>)
        ensures
            r == translated(status, ()),
            final(self).handle() == old(self).handle(),
            final(self).delegate() == old(self).delegate(),
            final(self).context() == old(self).context(),
            final(self).subscribed() == (old(self).subscribed() || (status == 0 && old(
                self,
            ).handle() is Some)),
    {
        if status == 0 && self.renderer.is_some() {
            self.subscribed = true;
        }
        check_status(status)
    }

    /// Unsubscribe the renderer delegate: the request to make of the engine.
    ///
    /// It is [`ZoomRsError::NullPtr`], and the renderer stays as it is, where
    /// the engine has begun its teardown, where the renderer is no longer
    /// valid, and where no subscription stands. Otherwise the subscription is
    /// noted as ended.
    pub fn unsubscribe_delegate(&mut self, coordinator: &TeardownCoordinator) -> (r: SdkResult<
        NativeCall,
    >)
        ensures
            final(self).handle() == old(self).handle(),
            final(self).delegate() == old(self).delegate(),
            final(self).context() == old(self).context(),
            coordinator.started() || !old(self).subscribed() ==> r == Err::<
                NativeCall,
                ZoomRsError,
            >(ZoomRsError::NullPtr) && final(self).subscribed() == old(self).subscribed(),
            old(self).handle() is None ==> r == Err::<NativeCall, ZoomRsError>(ZoomRsError::NullPtr),
            !coordinator.started() && old(self).subscribed() ==> r == Ok::<NativeCall, ZoomRsError>(
                NativeCall::UnsubscribeVideo(old(self).handle()->0),
            ) && !final(self).subscribed(),
    {
        if coordinator.is_tearing_down() || !self.subscribed {
            return Err(ZoomRsError::NullPtr);
        }
        match self.renderer {
            Some(renderer) => {
                self.subscribed = false;
                Ok(NativeCall::UnsubscribeVideo(renderer))
            },
            None => Err(ZoomRsError::NullPtr),
        }
    }

    /// The renderer is not valid anymore according to documentation.
    /// Notify the current renderer object is going to be destroyed.
    /// After you handle this callback, you should never user this renderer object any more.
    pub fn invalid(&mut self)
        ensures
            final(self).handle() is None,
            !final(self).subscribed(),
            final(self).delegate() == old(self).delegate(),
            final(self).context() == old(self).context(),
    {
        self.renderer = None;
        self.subscribed = false;
    }

    /// Whether the renderer still holds a handle of the engine.
    pub fn is_valid(&self) -> (r: bool)
        ensures
            r == self.handle() is Some,
    {
        self.renderer.is_some()
    }

    /// Takes the renderer down: the steps to perform, in their order. They
    /// make no request of the engine once it has begun its teardown, nor for
    /// a renderer that is no longer valid.
    pub fn release(self, coordinator: &TeardownCoordinator) -> (steps: Vec<TeardownStep>)
        ensures
            steps@ == self.teardown_plan(coordinator.started()),
            coordinator.started() || self.handle() is None ==> host_only(steps@),
    {
        let mut steps: Vec<TeardownStep> = Vec::new();
        if coordinator.is_tearing_down() {
            steps.push(TeardownStep::Release(self.context));
            return steps;
        }
        match self.renderer {
            Some(renderer) => {
                if self.subscribed {
                    steps.push(TeardownStep::Call(NativeCall::UnsubscribeVideo(renderer)));
                }
                steps.push(TeardownStep::Release(self.context));
                steps.push(TeardownStep::Call(NativeCall::DestroyRenderer(renderer)));
            },
            None => {
                steps.push(TeardownStep::Release(self.context));
            },
        }
        steps
    }
}

/// The engine delivers a frame to the handler that `context` names. A null
/// frame is not delivered: nothing is called and nothing changes.
/// The result says what became of the callback.
pub fn on_raw_data_frame_received(
    bridge: &mut CallbackBridge,
    context: CallbackContext,
    data: Option<&ExportedVideoRawData>,
) -> (delivery: Delivery)
    requires
        old(bridge).wf(),
    ensures
        after_callback(final(bridge), old(bridge), context, HandlerKind::Video, data is Some),
        delivery == delivery_of(old(bridge), context, HandlerKind::Video, data is Some),
{
    match data {
        Some(frame) => {
            match bridge.handler_of_kind(context, HandlerKind::Video) {
                Some(Handler::Video(h)) => {
                    h.on_raw_data_frame_received(frame);
                    Delivery::Delivered
                },
                _ => Delivery::NoHandler,
            }
        },
        None => Delivery::NothingToDeliver,
    }
}

/// The engine tells the handler that `context` names that its renderer is
/// going to be destroyed.
/// The result says what became of the callback.
pub fn on_renderer_be_destroyed(bridge: &mut CallbackBridge, context: CallbackContext, time: i64) -> (delivery: Delivery)
    requires
        old(bridge).wf(),
    ensures
        after_callback(final(bridge), old(bridge), context, HandlerKind::Video, true),
        delivery == delivery_of(old(bridge), context, HandlerKind::Video, true),
{
    match bridge.handler_of_kind(context, HandlerKind::Video) {
        Some(Handler::Video(h)) => {
            h.on_renderer_be_destroyed(time);
            Delivery::Delivered
        },
        _ => Delivery::NoHandler,
    }
}

/// The engine tells the handler that `context` names whether frames flow.
/// The result says what became of the callback.
pub fn on_raw_data_status_changed(
    bridge: &mut CallbackBridge,
    context: CallbackContext,
    status: bool,
    time: i64,
) -> (delivery: Delivery)
    requires
        old(bridge).wf(),
    ensures
        after_callback(final(bridge), old(bridge), context, HandlerKind::Video, true),
        delivery == delivery_of(old(bridge), context, HandlerKind::Video, true),
{
    match bridge.handler_of_kind(context, HandlerKind::Video) {
        Some(Handler::Video(h)) => {
            h.on_raw_data_status_changed(status, time);
            Delivery::Delivered
        },
        _ => Delivery::NoHandler,
    }
}

/// Type of data to subscribe.
#[derive(Debug, Clone, Copy, PartialEq, Eq, Structural)]
pub enum RawDataType {
    /// Video from camera.
    Video,
    /// Sharing screen.
    Share,
}

impl RawDataType {
    /// The number by which the engine knows this kind of data.
    pub open spec fn spec_code(self) -> u32 {
        match self {
            RawDataType::Video => 0u32,
            RawDataType::Share => 1u32,
        }
    }

    /// The number by which the engine knows this kind of data.
    #[verifier::when_used_as_spec(spec_code)]
    pub fn code(self) -> (c: u32)
        ensures
            c == self.spec_code(),
    {
        match self {
            RawDataType::Video => 0u32,
            RawDataType::Share => 1u32,
        }
    }
}

/// Resolution MAX of the input images.
#[derive(Debug, Clone, Copy, PartialEq, Eq, Structural)]
pub enum VideoResolution {
    /// 90 lines.
    R90P,
    /// 180 lines.
    R180P,
    /// 360 lines.
    R360P,
    /// 720 lines.
    R720P,
    /// 1080 lines.
    R1080P,
}

impl VideoResolution {
    /// The number by which the engine knows this resolution.
    pub open spec fn spec_code(self) -> u32 {
        match self {
            VideoResolution::R90P => 0u32,
            VideoResolution::R180P => 1u32,
            VideoResolution::R360P => 2u32,
            VideoResolution::R720P => 3u32,
            VideoResolution::R1080P => 4u32,
        }
    }

    /// The number by which the engine knows this resolution.
    #[verifier::when_used_as_spec(spec_code)]
    pub fn code(self) -> (c: u32)
        ensures
            c == self.spec_code(),
    {
        match self {
            VideoResolution::R90P => 0u32,
            VideoResolution::R180P => 1u32,
            VideoResolution::R360P => 2u32,
            VideoResolution::R720P => 3u32,
            VideoResolution::R1080P => 4u32,
        }
    }
}

} // verus!
