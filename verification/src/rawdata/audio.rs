//! Raw audio: the helper delivers mixed or per-user audio to a handler, and a
//! virtual microphone sends audio into the meeting.
use vstd::prelude::*;

use crate::bridge::{
    after_callback, delivery_of, replaced, without, CallbackBridge, Delivery, Handler, HandlerKind,
};
use crate::native::{host_only, CallbackContext, NativeCall, NativeHandle, TeardownStep};
use crate::public_types::{check_status, translated, SdkResult, ZoomRsError};
use crate::teardown::TeardownCoordinator;

verus! {

/// One buffer of raw audio.
#[derive(Debug, Clone)]
pub struct ExportedAudioRawData {
    /// The samples, 16 bits each.
    pub data: Vec<u8>,
    /// Samples per second.
    pub sample_rate: u32,
    /// Number of channels.
    pub channel_num: u32,
}

/// This structure represents the ZOOM SDK audio sender.
#[derive(Debug, Clone, Copy, PartialEq, Eq, Structural)]
pub struct AudioRawDataSenderInterface(pub NativeHandle);

/// RawData audio events from delegate.
pub trait RawAudioEvent: Send {
    /// Mixed audio represents all audio channels mixed.
    fn on_mixed_audio_raw_data(&mut self, _data: &ExportedAudioRawData) -> i32;

    /// Separate channels by users.
    fn on_one_way_audio_raw_data(&mut self, _data: &ExportedAudioRawData, _user_id: u32) -> i32;

    /// Sharing audio song from Zoom.
    fn on_share_audio_raw_data(&mut self, _data: &ExportedAudioRawData) -> i32;

    /// Use it when you want to do last operation after unsubscribing.
    fn flush(&mut self);
}

/// VirtualAudioMicEvent
pub trait VirtualAudioMicEvent: Send {
    /// Callback for virtual audio mic to do some initialization.
    fn on_mic_initialize(&mut self, sender: AudioRawDataSenderInterface);

    /// Callback for virtual audio mic can send raw data with 'pSender'.
    fn on_mic_start_send(&mut self);

    /// Callback for virtual audio mic should stop send raw data.
    fn on_mic_stop_send(&mut self);

    /// Callback for virtual audio mic is uninitialized.
    fn on_mic_uninitialized(&mut self);
}

/// The engine's delegate object for raw audio, with the token of the handler
/// that it delivers to.
#[derive(Debug, Clone, Copy, PartialEq, Eq, Structural)]
pub struct RawAudioDelegate {
    /// The token of the handler.
    pub context: CallbackContext,
    /// The engine's delegate object.
    pub ref_delegate: NativeHandle,
}

impl RawAudioDelegate {
    /// Wraps the delegate object that the engine made for the handler that
    /// `context` names. Where the engine gave the null handle there is no
    /// delegate: the handler is released and the result is
    /// [`ZoomRsError::NullPtr`].
    pub fn new(bridge: &mut CallbackBridge, context: CallbackContext, delegate: NativeHandle) -> (r:
        SdkResult<Self>)
        requires
            old(bridge).wf(),
        ensures
            final(bridge).wf(),
            final(bridge).issued() == old(bridge).issued(),
            !delegate.is_null() ==> r == Ok::<Self, ZoomRsError>(
                RawAudioDelegate { context, ref_delegate: delegate },
            ) && *final(bridge) == *old(bridge),
            delegate.is_null() ==> r == Err::<Self, ZoomRsError>(ZoomRsError::NullPtr)
                && !final(bridge).is_live(context) && final(bridge)@ == without(
                old(bridge)@,
                context,
            ),
    {
        if delegate.is_null() {
            bridge.unregister(context);
            return Err(ZoomRsError::NullPtr);
        }
        Ok(RawAudioDelegate { context, ref_delegate: delegate })
    }
}

/// Audio RawData Helper.
///
/// The helper itself belongs to the engine and is never destroyed by the
/// host; what the host takes down is its subscription and its handlers.
#[derive(Debug)]
pub struct AudioRawDataHelper {
    ref_rawdata_helper: NativeHandle,
    delegate: Option<RawAudioDelegate>,
    subscribed: bool,
    mic_event: Option<CallbackContext>,
}

impl AudioRawDataHelper {
    /// The engine's helper.
    pub closed spec fn handle(&self) -> NativeHandle {
        self.ref_rawdata_helper
    }

    /// The delegate that was handed over for subscription, if any.
    pub closed spec fn delegate(&self) -> Option<RawAudioDelegate> {
        self.delegate
    }

    /// Whether the engine has accepted a subscription of the delegate that
    /// was not ended since.
    pub closed spec fn subscribed(&self) -> bool {
        self.subscribed && self.delegate is Some
    }

    /// The token of the virtual microphone's handler, if one is installed.
    pub closed spec fn mic_event(&self) -> Option<CallbackContext> {
        self.mic_event
    }

    /// Only a helper that holds a delegate is subscribed.
    pub proof fn lemma_subscribed_has_delegate(&self)
        ensures
            self.subscribed() ==> self.delegate() is Some,
    {
    }

    /// The steps that release the handlers: that of the delegate, then that
    /// of the virtual microphone, as far as there are any.
    pub open spec fn handler_releases(&self) -> Seq<TeardownStep> {
        let first = match self.delegate() {
            Some(d) => seq![TeardownStep::Release(d.context)],
            None => Seq::<TeardownStep>::empty(),
        };
        match self.mic_event() {
            Some(c) => first.push(TeardownStep::Release(c)),
            None => first,
        }
    }

    /// What taking the helper down consists of: while the engine has not
    /// begun its teardown, a subscription that stands is ended; then the
    /// handlers are released.
    pub open spec fn teardown_plan(&self, tearing_down: bool) -> Seq<TeardownStep> {
        if !tearing_down && self.subscribed() {
            seq![TeardownStep::Call(NativeCall::UnsubscribeAudio(self.handle()))]
                + self.handler_releases()
        } else {
            self.handler_releases()
        }
    }

    /// Create a new RawData helper from the handle that the engine gave:
    /// [`ZoomRsError::NullPtr`] where it gave the null handle.
    pub fn new(fetched: NativeHandle) -> (r: SdkResult<Self>)
        ensures
            fetched.is_null() ==> r is Err && r->Err_0 == ZoomRsError::NullPtr,
            !fetched.is_null() ==> {
                &&& r is Ok
                &&& r->Ok_0.handle() == fetched
                &&& r->Ok_0.delegate() is None
                &&& r->Ok_0.mic_event() is None
                &&& !r->Ok_0.subscribed()
            },
    {
        if fetched.is_null() {
            return Err(ZoomRsError::NullPtr);
        }
        Ok(
            AudioRawDataHelper {
                ref_rawdata_helper: fetched,
                delegate: None,
                subscribed: false,
                mic_event: None,
            },
        )
    }

    /// Subscribe raw audio data: takes the delegate over and returns the
    /// request to make of the engine. A delegate that the helper held before
    /// is let go and its handler released; a subscription that stood is not
    /// counted any more. The engine's answer goes to
    /// [`AudioRawDataHelper::subscription_answered`].
    pub fn subscribe_delegate(&mut self, bridge: &mut CallbackBridge, delegate: RawAudioDelegate) -> (r:
        NativeCall)
        requires
            old(bridge).wf(),
        ensures
            final(bridge).wf(),
            final(bridge).issued() == old(bridge).issued(),
            r == (NativeCall::SubscribeAudio {
                helper: old(self).handle(),
                delegate: delegate.ref_delegate,
            }),
            final(self).handle() == old(self).handle(),
            final(self).mic_event() == old(self).mic_event(),
            final(self).delegate() == Some(delegate),
            !final(self).subscribed(),
            match old(self).delegate() {
                Some(d) => final(bridge)@ == without(old(bridge)@, d.context),
                None => *final(bridge) == *old(bridge),
            },
    {
        match self.delegate {
            Some(d) => {
                bridge.unregister(d.context);
            },
            None => {},
        }
        self.delegate = Some(delegate);
        self.subscribed = false;
        NativeCall::SubscribeAudio {
            helper: self.ref_rawdata_helper,
            delegate: delegate.ref_delegate,
        }
    }

    /// Takes the engine's answer to a subscription: success is noted, if a
    /// delegate is held, and any other status is returned as its error.
    pub fn subscription_answered(&mut self, status: u32) -> (r: SdkResult<()>)
        ensures
            r == translated(status, ()),
            final(self).handle() == old(self).handle(),
            final(self).delegate() == old(self).delegate(),
            final(self).mic_event() == old(self).mic_event(),
            final(self).subscribed() == (old(self).subscribed() || (status == 0 && old(
                self,
            ).delegate() is Some)),
    {
        if status == 0 && self.delegate.is_some() {
            self.subscribed = true;
        }
        check_status(status)
    }

    /// Unsubscribe raw audio data: the steps to perform, which end the
    /// subscription and then release the delegate's handler.
    ///
    /// It is [`ZoomRsError::NullPtr`], and the helper stays as it is, where
    /// the engine has begun its teardown and where no subscription stands.
    pub fn unsubscribe_delegate(&mut self, coordinator: &TeardownCoordinator) -> (r: SdkResult<
        Vec<TeardownStep>,
    >)
        ensures
            final(self).handle() == old(self).handle(),
            final(self).mic_event() == old(self).mic_event(),
            coordinator.started() || !old(self).subscribed() ==> r is Err && r->Err_0
                == ZoomRsError::NullPtr && final(self).subscribed() == old(self).subscribed()
                && final(self).delegate() == old(self).delegate(),
            old(self).delegate() is None ==> r is Err && r->Err_0 == ZoomRsError::NullPtr,
            !coordinator.started() && old(self).subscribed() ==> r is Ok && r->Ok_0@ == seq![
                TeardownStep::Call(NativeCall::UnsubscribeAudio(old(self).handle())),
                TeardownStep::Release(old(self).delegate()->0.context),
            ] && !final(self).subscribed() && final(self).delegate() is None,
    {
        if coordinator.is_tearing_down() || !self.subscribed {
            return Err(ZoomRsError::NullPtr);
        }
        match self.delegate {
            Some(d) => {
                let mut steps: Vec<TeardownStep> = Vec::new();
                steps.push(TeardownStep::Call(NativeCall::UnsubscribeAudio(self.ref_rawdata_helper)));
                steps.push(TeardownStep::Release(d.context));
                self.delegate = None;
                self.subscribed = false;
                Ok(steps)
            },
            None => Err(ZoomRsError::NullPtr),
        }
    }

    /// Subscribe audio mic raw data with a callback: registers the handler
    /// of the virtual microphone and returns the request that installs it.
    /// A handler that was installed before is released first. Where the
    /// table has no token left nothing changes but that release, and the
    /// result is [`ZoomRsError::NullPtr`].
    pub fn set_external_audio_source(
        &mut self,
        bridge: &mut CallbackBridge,
        event: Box<dyn VirtualAudioMicEvent>,
    ) -> (r: SdkResult<NativeCall>)
        requires
            old(bridge).wf(),
        ensures
            final(bridge).wf(),
            final(self).handle() == old(self).handle(),
            final(self).delegate() == old(self).delegate(),
            final(self).subscribed() == old(self).subscribed(),
            old(bridge).issued() == u64::MAX ==> r is Err && r->Err_0 == ZoomRsError::NullPtr
                && final(self).mic_event() is None && final(bridge).issued() == old(bridge).issued(),
            old(bridge).issued() < u64::MAX ==> {
                let context = CallbackContext { token: (old(bridge).issued() + 1) as u64 };
                &&& r == Ok::<NativeCall, ZoomRsError>(
                    NativeCall::SetExternalAudioSource { helper: old(self).handle(), context },
                )
                &&& final(self).mic_event() == Some(context)
                &&& final(bridge).issued() == context.token
                &&& final(bridge).serves(context, HandlerKind::Microphone)
            },
            old(self).mic_event() is Some && old(bridge).is_live(old(self).mic_event()->0)
                ==> !final(bridge).is_live(old(self).mic_event()->0),
            replaced(
                final(bridge)@,
                old(bridge)@,
                old(self).mic_event(),
                final(self).mic_event(),
                Handler::Microphone(event),
            ),
    {
        let registered = bridge.replace(self.mic_event, Handler::Microphone(event));
        match registered {
            Ok(context) => {
                self.mic_event = Some(context);
                Ok(NativeCall::SetExternalAudioSource { helper: self.ref_rawdata_helper, context })
            },
            Err(e) => {
                self.mic_event = None;
                Err(e)
            },
        }
    }

    /// Takes the helper down: the steps to perform, in their order. They
    /// make no request of the engine once it has begun its teardown.
    pub fn release(self, coordinator: &TeardownCoordinator) -> (steps: Vec<TeardownStep>)
        ensures
            steps@ == self.teardown_plan(coordinator.started()),
            coordinator.started() ==> host_only(steps@),
    {
        let mut steps: Vec<TeardownStep> = Vec::new();
        if !coordinator.is_tearing_down() && self.subscribed && self.delegate.is_some() {
            steps.push(TeardownStep::Call(NativeCall::UnsubscribeAudio(self.ref_rawdata_helper)));
        }
        match self.delegate {
            Some(d) => {
                steps.push(TeardownStep::Release(d.context));
            },
            None => {},
        }
        match self.mic_event {
            Some(c) => {
                steps.push(TeardownStep::Release(c));
            },
            None => {},
        }
        proof {
            assert(steps@ =~= self.teardown_plan(coordinator.started()));
        }
        steps
    }
}

/// What the engine is answered where no handler took its audio.
pub const NEUTRAL_ANSWER: i32 = 0;

/// What the engine is answered to a delivery of audio: the handler's answer
/// where a handler took it, else [`NEUTRAL_ANSWER`].
pub fn answer_or_neutral(answer: Option<i32>) -> (r: i32)
    ensures
        r == match answer {
            Some(a) => a,
            None => NEUTRAL_ANSWER,
        },
{
    match answer {
        Some(a) => a,
        None => NEUTRAL_ANSWER,
    }
}

/// The engine delivers mixed audio to the handler that `context` names, and
/// gets the handler's answer. A null buffer is not delivered; then, and
/// where `context` names no live handler of raw audio, nothing is called
/// and the answer is [`NEUTRAL_ANSWER`]. The result is the answer for the
/// engine and what became of the callback.
pub fn on_mixed_audio_raw_data(
    bridge: &mut CallbackBridge,
    context: CallbackContext,
    data: Option<&ExportedAudioRawData>,
) -> (r: (i32, Delivery))
    requires
        old(bridge).wf(),
    ensures
        after_callback(final(bridge), old(bridge), context, HandlerKind::Audio, data is Some),
        r.1 == delivery_of(old(bridge), context, HandlerKind::Audio, data is Some),
        r.1 != Delivery::Delivered ==> r.0 == NEUTRAL_ANSWER,
{
    match data {
        Some(buffer) => {
            match bridge.handler_of_kind(context, HandlerKind::Audio) {
                Some(Handler::Audio(h)) => {
                    let answer = h.on_mixed_audio_raw_data(buffer);
                    (answer_or_neutral(Some(answer)), Delivery::Delivered)
                },
                _ => (answer_or_neutral(None), Delivery::NoHandler),
            }
        },
        None => (answer_or_neutral(None), Delivery::NothingToDeliver),
    }
}

/// The engine delivers the audio of one user to the handler that `context`
/// names, and gets the handler's answer. A null buffer is not delivered;
/// then, and where `context` names no live handler of raw audio, nothing is
/// called and the answer is [`NEUTRAL_ANSWER`]. The result is the answer for
/// the engine and what became of the callback.
pub fn on_one_way_audio_raw_data(
    bridge: &mut CallbackBridge,
    context: CallbackContext,
    data: Option<&ExportedAudioRawData>,
    user_id: u32,
) -> (r: (i32, Delivery))
    requires
        old(bridge).wf(),
    ensures
        after_callback(final(bridge), old(bridge), context, HandlerKind::Audio, data is Some),
        r.1 == delivery_of(old(bridge), context, HandlerKind::Audio, data is Some),
        r.1 != Delivery::Delivered ==> r.0 == NEUTRAL_ANSWER,
{
    match data {
        Some(buffer) => {
            match bridge.handler_of_kind(context, HandlerKind::Audio) {
                Some(Handler::Audio(h)) => {
                    let answer = h.on_one_way_audio_raw_data(buffer, user_id);
                    (answer_or_neutral(Some(answer)), Delivery::Delivered)
                },
                _ => (answer_or_neutral(None), Delivery::NoHandler),
            }
        },
        None => (answer_or_neutral(None), Delivery::NothingToDeliver),
    }
}

/// The engine delivers the audio of a shared screen to the handler that
/// `context` names, and gets the handler's answer. A null buffer is not
/// delivered; then, and where `context` names no live handler of raw audio,
/// nothing is called and the answer is [`NEUTRAL_ANSWER`]. The result is the
/// answer for the engine and what became of the callback.
pub fn on_share_audio_raw_data(
    bridge: &mut CallbackBridge,
    context: CallbackContext,
    data: Option<&ExportedAudioRawData>,
) -> (r: (i32, Delivery))
    requires
        old(bridge).wf(),
    ensures
        after_callback(final(bridge), old(bridge), context, HandlerKind::Audio, data is Some),
        r.1 == delivery_of(old(bridge), context, HandlerKind::Audio, data is Some),
        r.1 != Delivery::Delivered ==> r.0 == NEUTRAL_ANSWER,
{
    match data {
        Some(buffer) => {
            match bridge.handler_of_kind(context, HandlerKind::Audio) {
                Some(Handler::Audio(h)) => {
                    let answer = h.on_share_audio_raw_data(buffer);
                    (answer_or_neutral(Some(answer)), Delivery::Delivered)
                },
                _ => (answer_or_neutral(None), Delivery::NoHandler),
            }
        },
        None => (answer_or_neutral(None), Delivery::NothingToDeliver),
    }
}

/// The engine hands the virtual microphone its sender. A null sender is not
/// handed on: nothing is called and nothing changes.
/// The result says what became of the callback.
pub fn on_mic_initialize(bridge: &mut CallbackBridge, context: CallbackContext, sender: NativeHandle) -> (delivery: Delivery)
    requires
        old(bridge).wf(),
    ensures
        after_callback(
            final(bridge),
            old(bridge),
            context,
            HandlerKind::Microphone,
            !sender.is_null(),
        ),
        delivery == delivery_of(old(bridge), context, HandlerKind::Microphone, !sender.is_null()),
{
    if !sender.is_null() {
        match bridge.handler_of_kind(context, HandlerKind::Microphone) {
            Some(Handler::Microphone(h)) => {
                h.on_mic_initialize(AudioRawDataSenderInterface(sender));
                Delivery::Delivered
            },
            _ => Delivery::NoHandler,
        }
    } else {
        Delivery::NothingToDeliver
    }
}

/// The engine tells the virtual microphone that it may send.
/// The result says what became of the callback.
pub fn on_mic_start_send(bridge: &mut CallbackBridge, context: CallbackContext) -> (delivery: Delivery)
    requires
        old(bridge).wf(),
    ensures
        after_callback(final(bridge), old(bridge), context, HandlerKind::Microphone, true),
        delivery == delivery_of(old(bridge), context, HandlerKind::Microphone, true),
{
    match bridge.handler_of_kind(context, HandlerKind::Microphone) {
        Some(Handler::Microphone(h)) => {
            h.on_mic_start_send();
            Delivery::Delivered
        },
        _ => Delivery::NoHandler,
    }
}

/// The engine tells the virtual microphone to stop sending.
/// The result says what became of the callback.
pub fn on_mic_stop_send(bridge: &mut CallbackBridge, context: CallbackContext) -> (delivery: Delivery)
    requires
        old(bridge).wf(),
    ensures
        after_callback(final(bridge), old(bridge), context, HandlerKind::Microphone, true),
        delivery == delivery_of(old(bridge), context, HandlerKind::Microphone, true),
{
    match bridge.handler_of_kind(context, HandlerKind::Microphone) {
        Some(Handler::Microphone(h)) => {
            h.on_mic_stop_send();
            Delivery::Delivered
        },
        _ => Delivery::NoHandler,
    }
}

/// The engine tells the virtual microphone that it is taken out of use.
/// The result says what became of the callback.
pub fn on_mic_uninitialized(bridge: &mut CallbackBridge, context: CallbackContext) -> (delivery: Delivery)
    requires
        old(bridge).wf(),
    ensures
        after_callback(final(bridge), old(bridge), context, HandlerKind::Microphone, true),
        delivery == delivery_of(old(bridge), context, HandlerKind::Microphone, true),
{
    match bridge.handler_of_kind(context, HandlerKind::Microphone) {
        Some(Handler::Microphone(h)) => {
            h.on_mic_uninitialized();
            Delivery::Delivered
        },
        _ => Delivery::NoHandler,
    }
}

} // verus!
