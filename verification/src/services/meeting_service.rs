//! The meeting service and what hangs on it.
use vstd::prelude::*;
use vstd::std_specs::convert::FromSpecImpl;

pub mod audio_controller;
pub mod chat_interface;
pub mod participants_interface;
pub mod recording_controller;
pub mod sharing_controller;
pub mod webcam_interface;

pub use audio_controller::AudioController;
pub use chat_interface::ChatInterface;
pub use participants_interface::ParticipantsInterface;
pub use recording_controller::RecordingController;
pub use sharing_controller::SharingController;
pub use webcam_interface::{new_webcam_injection_boitlerplate, VideoToWebcam};

use crate::bridge::{
    after_callback, delivery_of, replaced, without, CallbackBridge, Delivery, Handler, HandlerKind,
};
use crate::native::{host_only, CallbackContext, NativeCall, NativeHandle, TeardownStep};
use crate::public_types::{translated, SdkError, SdkResult, ZoomRsError, ZoomSdkResult};
use crate::teardown::TeardownCoordinator;

verus! {

/// What the meeting service reports.
pub trait MeetingServiceEvent: Send {
    /// Meeting status changed callback.
    /// - [MeetingStatus] The value of meeting. For more details.
    /// - [i32] Detailed reasons for special meeting status.
    /// - If the status is [MeetingStatus::MeetingStatusFailed], the value of result is one of those listed in MeetingFailCode enum.
    /// - If the status is [MeetingStatus::MeetingStatusEnded], the value of result is one of those listed in MeetingEndReason.
    fn on_meeting_status_changed(&mut self, _status: MeetingStatus, _result: i32) {
    }

    /// Meeting statistics warning notification callback.
    /// - [StatisticsWarningType] The warning type of the meeting statistics.
    fn on_meeting_statistics_warning_notification(&mut self, _warn_type: StatisticsWarningType) {
    }

    /// Meeting parameter notification callback.
    /// - [MeetingParameter] Meeting parameter.
    /// - NOTE : The callback will be triggered right before the meeting starts. The meeting_param will be destroyed once the function calls end.
    fn on_meeting_parameter_notification(&mut self, _meeting_param: &MeetingParameter) {
    }

    /// Callback event when a meeting is suspended.
    fn on_suspend_participants_activities(&mut self) {
    }

    /// Callback event for the AI Companion active status changed.
    /// - [bool] active Specify whether the AI Companion active or not.
    fn on_ai_companion_active_change_notice(&mut self, _active: bool) {
    }

    /// Callback event for the meeting topic changed.
    /// - [str] topic The new meeting topic.
    fn on_meeting_topic_changed(&mut self, _topic: &str) {
    }

    /// Calback event that the meeting users have reached the meeting capacity.
    /// The new join user can not join meeting, but they can watch the meeting live stream.
    /// - [str] The live stream URL to watch the meeting live stream.
    fn on_meeting_full_to_watch_live_stream(&mut self, _s_live_stream_url: &str) {
    }
}

/// The meeting service: the root of everything that belongs to one meeting.
///
/// Its controllers belong to the engine and go with the service; the host
/// destroys the service itself, and only while the engine has not begun its
/// own teardown.
#[derive(Debug)]
pub struct MeetingService {
    evt: Option<CallbackContext>,
    ref_meeting_service: NativeHandle,
    recording_controller: Option<RecordingController>,
    participants_interface: Option<ParticipantsInterface>,
    chat_interface: Option<ChatInterface>,
    sharing_controller: Option<SharingController>,
    camera: Option<CallbackContext>,
}

impl MeetingService {
    /// The engine's meeting service.
    pub closed spec fn handle(&self) -> NativeHandle {
        self.ref_meeting_service
    }

    /// The token of the installed handler, if there is one.
    pub closed spec fn event(&self) -> Option<CallbackContext> {
        self.evt
    }

    /// The token of the virtual webcam's handler, if one is installed.
    pub closed spec fn camera(&self) -> Option<CallbackContext> {
        self.camera
    }

    /// The chat interface, once it was asked for.
    pub closed spec fn chat_interface(&self) -> Option<ChatInterface> {
        self.chat_interface
    }

    /// The participants interface, once it was asked for.
    pub closed spec fn participants_interface(&self) -> Option<ParticipantsInterface> {
        self.participants_interface
    }

    /// The recording controller, once it was asked for.
    pub closed spec fn recording_controller(&self) -> Option<RecordingController> {
        self.recording_controller
    }

    /// The sharing controller, once it was asked for.
    pub closed spec fn sharing_controller(&self) -> Option<SharingController> {
        self.sharing_controller
    }

    /// The steps that release the handlers of the service: its own, that of
    /// the recording controller, that of the sharing controller and that of
    /// the virtual webcam, as far as there are any.
    pub open spec fn handler_releases(&self) -> Seq<TeardownStep> {
        let own = match self.event() {
            Some(c) => seq![TeardownStep::Release(c)],
            None => Seq::<TeardownStep>::empty(),
        };
        let recording = match self.recording_controller() {
            Some(c) => c.teardown_plan(),
            None => Seq::<TeardownStep>::empty(),
        };
        let sharing = match self.sharing_controller() {
            Some(c) => c.teardown_plan(),
            None => Seq::<TeardownStep>::empty(),
        };
        let camera = match self.camera() {
            Some(c) => seq![TeardownStep::Release(c)],
            None => Seq::<TeardownStep>::empty(),
        };
        own + recording + sharing + camera
    }

    /// What taking the service down consists of: while the engine has not
    /// begun its teardown, the service is destroyed; then the handlers are
    /// released.
    pub open spec fn teardown_plan(&self, tearing_down: bool) -> Seq<TeardownStep> {
        if tearing_down {
            self.handler_releases()
        } else {
            seq![TeardownStep::Call(NativeCall::DestroyMeetingService(self.handle()))]
                + self.handler_releases()
        }
    }

    /// The release of the handlers makes no request of the engine.
    pub proof fn lemma_releases_are_host_only(&self)
        ensures
            host_only(self.handler_releases()),
            host_only(self.teardown_plan(true)),
    {
    }

    /// The steps that take the service down are the destruction of the
    /// service and releases of handlers, nothing else.
    pub proof fn lemma_plan_only_destroys_and_releases(&self)
        ensures
            forall|tearing_down: bool, i: int|
                0 <= i < self.teardown_plan(tearing_down).len() ==> {
                    let step = #[trigger] self.teardown_plan(tearing_down)[i];
                    step is Release || step == TeardownStep::Call(
                        NativeCall::DestroyMeetingService(self.handle()),
                    )
                },
    {
    }

    /// Create meeting service interface from the engine's answer to the
    /// request for one: a status other than success gives its error, and a
    /// null service with the status of success gives [`ZoomRsError::NullPtr`].
    pub fn new(created: ZoomSdkResult<NativeHandle>) -> (r: SdkResult<Self>)
        ensures
            created.0 != 0 ==> r is Err && r->Err_0 == ZoomRsError::Sdk(SdkError::of_code(created.0)),
            created.0 == 0 && created.1.is_null() ==> r is Err && r->Err_0 == ZoomRsError::NullPtr,
            created.0 == 0 && !created.1.is_null() ==> {
                &&& r is Ok
                &&& r->Ok_0.handle() == created.1
                &&& r->Ok_0.event() is None
                &&& r->Ok_0.camera() is None
                &&& r->Ok_0.chat_interface() is None
                &&& r->Ok_0.participants_interface() is None
                &&& r->Ok_0.recording_controller() is None
                &&& r->Ok_0.sharing_controller() is None
            },
    {
        let ZoomSdkResult(status, service) = created;
        if status != 0 {
            return Err(ZoomRsError::Sdk(SdkError::from(status)));
        }
        if service.is_null() {
            return Err(ZoomRsError::NullPtr);
        }
        Ok(
            MeetingService {
                evt: None,
                ref_meeting_service: service,
                recording_controller: None,
                participants_interface: None,
                chat_interface: None,
                sharing_controller: None,
                camera: None,
            },
        )
    }

    /// The engine's meeting service.
    pub fn native(&self) -> (r: NativeHandle)
        ensures
            r == self.handle(),
    {
        self.ref_meeting_service
    }

    /// Set meeting service callback event handler: registers the handler, in
    /// the place of an earlier one, and returns the request that installs
    /// it. The registration stands whatever the engine answers to that
    /// request. Where the table has no token left the service is left
    /// without a handler and the result is [`ZoomRsError::NullPtr`].
    pub fn set_event(&mut self, bridge: &mut CallbackBridge, ctx: Box<dyn MeetingServiceEvent>) -> (r:
        SdkResult<NativeCall>)
        requires
            old(bridge).wf(),
        ensures
            final(bridge).wf(),
            final(self).handle() == old(self).handle(),
            final(self).camera() == old(self).camera(),
            final(self).chat_interface() == old(self).chat_interface(),
            final(self).participants_interface() == old(self).participants_interface(),
            final(self).recording_controller() == old(self).recording_controller(),
            final(self).sharing_controller() == old(self).sharing_controller(),
            old(bridge).issued() == u64::MAX ==> r is Err && r->Err_0 == ZoomRsError::NullPtr
                && final(self).event() is None && final(bridge).issued() == old(bridge).issued(),
            old(bridge).issued() < u64::MAX ==> {
                let context = CallbackContext { token: (old(bridge).issued() + 1) as u64 };
                &&& r == Ok::<NativeCall, ZoomRsError>(
                    NativeCall::SetMeetingEvent { service: old(self).handle(), context },
                )
                &&& final(self).event() == Some(context)
                &&& final(bridge).issued() == context.token
                &&& final(bridge).serves(context, HandlerKind::Meeting)
            },
            old(self).event() is Some && old(bridge).is_live(old(self).event()->0)
                ==> !final(bridge).is_live(old(self).event()->0),
            replaced(
                final(bridge)@,
                old(bridge)@,
                old(self).event(),
                final(self).event(),
                Handler::Meeting(ctx),
            ),
    {
        let registered = bridge.replace(self.evt, Handler::Meeting(ctx));
        match registered {
            Ok(context) => {
                self.evt = Some(context);
                Ok(NativeCall::SetMeetingEvent { service: self.ref_meeting_service, context })
            },
            Err(e) => {
                self.evt = None;
                Err(e)
            },
        }
    }

    /// Whether the chat interface stands ready, so that [`MeetingService::chat`] needs
    /// nothing from the engine.
    pub fn has_chat(&self) -> (r: bool)
        ensures
            r == self.chat_interface() is Some,
    {
        self.chat_interface.is_some()
    }

    /// Get Chat Interface.
    ///
    /// The first call makes it from `fetched`, the chat controller that the
    /// engine gave for this service, and keeps it; later calls return what
    /// was kept and do not look at `fetched`. Where there is none yet and
    /// the engine gave the null handle, nothing changes and the result is
    /// [`ZoomRsError::NullPtr`].
    pub fn chat(&mut self, fetched: NativeHandle) -> (r: SdkResult<&mut ChatInterface>)
        ensures
            final(self).handle() == old(self).handle(),
            final(self).event() == old(self).event(),
            final(self).camera() == old(self).camera(),
            final(self).participants_interface() == old(self).participants_interface(),
            final(self).recording_controller() == old(self).recording_controller(),
            final(self).sharing_controller() == old(self).sharing_controller(),
            old(self).chat_interface() is None && fetched.is_null() ==> r is Err && r->Err_0
                == ZoomRsError::NullPtr && final(self).chat_interface() is None,
            old(self).chat_interface() is Some ==> r is Ok && *r->Ok_0 == old(self).chat_interface()->0,
            old(self).chat_interface() is None && !fetched.is_null() ==> r is Ok && r->Ok_0.handle()
                == fetched,
            r is Ok ==> final(self).chat_interface() == Some(*final(r->Ok_0)),
    {
        if self.chat_interface.is_none() {
            match ChatInterface::new(fetched) {
                Some(made) => {
                    self.chat_interface = Some(made);
                },
                None => {
                    return Err(ZoomRsError::NullPtr);
                },
            }
        }
        match &mut self.chat_interface {
            Some(kept) => Ok(kept),
            None => Err(ZoomRsError::NullPtr),
        }
    }

    /// Whether the participants interface stands ready, so that [`MeetingService::participants`] needs
    /// nothing from the engine.
    pub fn has_participants(&self) -> (r: bool)
        ensures
            r == self.participants_interface() is Some,
    {
        self.participants_interface.is_some()
    }

    /// Get Participants Interface.
    ///
    /// The first call makes it from `fetched`, the participants controller that the
    /// engine gave for this service, and keeps it; later calls return what
    /// was kept and do not look at `fetched`. Where there is none yet and
    /// the engine gave the null handle, nothing changes and the result is
    /// [`ZoomRsError::NullPtr`].
    pub fn participants(&mut self, fetched: NativeHandle) -> (r: SdkResult<&mut ParticipantsInterface>)
        ensures
            final(self).handle() == old(self).handle(),
            final(self).event() == old(self).event(),
            final(self).camera() == old(self).camera(),
            final(self).chat_interface() == old(self).chat_interface(),
            final(self).recording_controller() == old(self).recording_controller(),
            final(self).sharing_controller() == old(self).sharing_controller(),
            old(self).participants_interface() is None && fetched.is_null() ==> r is Err && r->Err_0
                == ZoomRsError::NullPtr && final(self).participants_interface() is None,
            old(self).participants_interface() is Some ==> r is Ok && *r->Ok_0 == old(self).participants_interface()->0,
            old(self).participants_interface() is None && !fetched.is_null() ==> r is Ok && r->Ok_0.handle()
                == fetched,
            r is Ok ==> final(self).participants_interface() == Some(*final(r->Ok_0)),
    {
        if self.participants_interface.is_none() {
            match ParticipantsInterface::new(fetched) {
                Some(made) => {
                    self.participants_interface = Some(made);
                },
                None => {
                    return Err(ZoomRsError::NullPtr);
                },
            }
        }
        match &mut self.participants_interface {
            Some(kept) => Ok(kept),
            None => Err(ZoomRsError::NullPtr),
        }
    }

    /// Whether the recording controller stands ready, so that [`MeetingService::recording_ctrl`] needs
    /// nothing from the engine.
    pub fn has_recording_ctrl(&self) -> (r: bool)
        ensures
            r == self.recording_controller() is Some,
    {
        self.recording_controller.is_some()
    }

    /// Get Recording Controller.
    ///
    /// The first call makes it from `fetched`, the recording controller that the
    /// engine gave for this service, and keeps it; later calls return what
    /// was kept and do not look at `fetched`. Where there is none yet and
    /// the engine gave the null handle, nothing changes and the result is
    /// [`ZoomRsError::NullPtr`].
    pub fn recording_ctrl(&mut self, fetched: NativeHandle) -> (r: SdkResult<&mut RecordingController>)
        ensures
            final(self).handle() == old(self).handle(),
            final(self).event() == old(self).event(),
            final(self).camera() == old(self).camera(),
            final(self).chat_interface() == old(self).chat_interface(),
            final(self).participants_interface() == old(self).participants_interface(),
            final(self).sharing_controller() == old(self).sharing_controller(),
            old(self).recording_controller() is None && fetched.is_null() ==> r is Err && r->Err_0
                == ZoomRsError::NullPtr && final(self).recording_controller() is None,
            old(self).recording_controller() is Some ==> r is Ok && *r->Ok_0 == old(self).recording_controller()->0,
            old(self).recording_controller() is None && !fetched.is_null() ==> r is Ok && r->Ok_0.handle()
                == fetched && r->Ok_0.event() is None,
            r is Ok ==> final(self).recording_controller() == Some(*final(r->Ok_0)),
    {
        if self.recording_controller.is_none() {
            match RecordingController::new(fetched) {
                Some(made) => {
                    self.recording_controller = Some(made);
                },
                None => {
                    return Err(ZoomRsError::NullPtr);
                },
            }
        }
        match &mut self.recording_controller {
            Some(kept) => Ok(kept),
            None => Err(ZoomRsError::NullPtr),
        }
    }

    /// Whether the sharing controller stands ready, so that [`MeetingService::sharing_ctrl`] needs
    /// nothing from the engine.
    pub fn has_sharing_ctrl(&self) -> (r: bool)
        ensures
            r == self.sharing_controller() is Some,
    {
        self.sharing_controller.is_some()
    }

    /// Get Sharing Controller.
    ///
    /// The first call makes it from `fetched`, the sharing controller that the
    /// engine gave for this service, and keeps it; later calls return what
    /// was kept and do not look at `fetched`. Where there is none yet and
    /// the engine gave the null handle, nothing changes and the result is
    /// [`ZoomRsError::NullPtr`].
    pub fn sharing_ctrl(&mut self, fetched: NativeHandle) -> (r: SdkResult<&mut SharingController>)
        ensures
            final(self).handle() == old(self).handle(),
            final(self).event() == old(self).event(),
            final(self).camera() == old(self).camera(),
            final(self).chat_interface() == old(self).chat_interface(),
            final(self).participants_interface() == old(self).participants_interface(),
            final(self).recording_controller() == old(self).recording_controller(),
            old(self).sharing_controller() is None && fetched.is_null() ==> r is Err && r->Err_0
                == ZoomRsError::NullPtr && final(self).sharing_controller() is None,
            old(self).sharing_controller() is Some ==> r is Ok && *r->Ok_0 == old(self).sharing_controller()->0,
            old(self).sharing_controller() is None && !fetched.is_null() ==> r is Ok && r->Ok_0.handle()
                == fetched && r->Ok_0.event() is None,
            r is Ok ==> final(self).sharing_controller() == Some(*final(r->Ok_0)),
    {
        if self.sharing_controller.is_none() {
            match SharingController::new(fetched) {
                Some(made) => {
                    self.sharing_controller = Some(made);
                },
                None => {
                    return Err(ZoomRsError::NullPtr);
                },
            }
        }
        match &mut self.sharing_controller {
            Some(kept) => Ok(kept),
            None => Err(ZoomRsError::NullPtr),
        }
    }

    /// Initialize WebCam Injection.
    ///
    /// `None` asks for nothing: the result is `Ok(())` and nothing changes.
    /// Otherwise `injected` holds the token of the registered handler and
    /// the engine's answer to the request that installs it. The service
    /// keeps the handler whatever the engine answered, in the place of an
    /// earlier one, which is released: so the registration is released with
    /// the service and the caller learns of the failure. The result is
    /// `Ok(())` on success and the engine's error, with its status, for any
    /// other status ([`new_webcam_injection_boitlerplate`]).
    pub fn set_webcam_injection(
        &mut self,
        bridge: &mut CallbackBridge,
        injected: Option<(CallbackContext, u32)>,
    ) -> (r: SdkResult<()>)
        requires
            old(bridge).wf(),
        ensures
            final(bridge).wf(),
            final(bridge).issued() == old(bridge).issued(),
            final(self).handle() == old(self).handle(),
            final(self).event() == old(self).event(),
            final(self).chat_interface() == old(self).chat_interface(),
            final(self).participants_interface() == old(self).participants_interface(),
            final(self).recording_controller() == old(self).recording_controller(),
            final(self).sharing_controller() == old(self).sharing_controller(),
            match injected {
                None => r is Ok && final(self).camera() == old(self).camera() && *final(bridge)
                    == *old(bridge),
                Some((context, status)) => {
                    &&& r == translated(status, ())
                    &&& status != 0 ==> r is Err && r->Err_0 == ZoomRsError::Sdk(
                        SdkError::of_code(status),
                    )
                    &&& final(self).camera() == Some(context)
                    &&& final(bridge)@ == match old(self).camera() {
                        Some(previous) if previous != context => without(old(bridge)@, previous),
                        _ => old(bridge)@,
                    }
                },
            },
    {
        match injected {
            None => Ok(()),
            Some((context, status)) => {
                match self.camera {
                    Some(previous) => {
                        if previous.token != context.token {
                            bridge.unregister(previous);
                        }
                    },
                    None => {},
                }
                self.camera = Some(context);
                match new_webcam_injection_boitlerplate(context, status) {
                    Ok(_) => Ok(()),
                    Err(e) => Err(e),
                }
            },
        }
    }

    /// Takes the service down: the steps to perform, in their order. They
    /// make no request of the engine once it has begun its teardown.
    pub fn release(self, coordinator: &TeardownCoordinator) -> (steps: Vec<TeardownStep>)
        ensures
            steps@ == self.teardown_plan(coordinator.started()),
            coordinator.started() ==> host_only(steps@),
    {
        let mut steps: Vec<TeardownStep> = Vec::new();
        if !coordinator.is_tearing_down() {
            steps.push(TeardownStep::Call(NativeCall::DestroyMeetingService(self.ref_meeting_service)));
        }
        match self.evt {
            Some(c) => {
                steps.push(TeardownStep::Release(c));
            },
            None => {},
        }
        match self.recording_controller {
            Some(c) => {
                let mut more = c.release();
                steps.append(&mut more);
            },
            None => {},
        }
        match self.sharing_controller {
            Some(c) => {
                let mut more = c.release();
                steps.append(&mut more);
            },
            None => {},
        }
        match self.camera {
            Some(c) => {
                steps.push(TeardownStep::Release(c));
            },
            None => {},
        }
        proof {
            assert(steps@ =~= self.teardown_plan(coordinator.started()));
        }
        steps
    }
}

/// The engine reports that the status of the meeting changed.
///
/// Two statuses are recorded before anything else happens, so that the
/// record stands when the engine gets control back: with
/// [`MeetingStatus::MeetingStatusDisconnecting`] the engine begins its
/// teardown, and with [`MeetingStatus::MeetingStatusInMeeting`] the session
/// has reached its active state. Then the handler that `context` names is
/// told. The result says whether an event loop is to be ended at once.
pub fn on_meeting_status_changed(
    bridge: &mut CallbackBridge,
    coordinator: &mut TeardownCoordinator,
    context: CallbackContext,
    status: u32,
    result: i32,
) -> (wake: bool)
    requires
        old(bridge).wf(),
    ensures
        after_callback(final(bridge), old(bridge), context, HandlerKind::Meeting, true),
        final(coordinator).follows(*old(coordinator)),
        final(coordinator).has_event_loop() == old(coordinator).has_event_loop(),
        final(coordinator).started() == (old(coordinator).started() || MeetingStatus::of_code(status)
            == MeetingStatus::MeetingStatusDisconnecting),
        final(coordinator).active() == (old(coordinator).active() || MeetingStatus::of_code(status)
            == MeetingStatus::MeetingStatusInMeeting),
        wake == (MeetingStatus::of_code(status) == MeetingStatus::MeetingStatusDisconnecting && old(
            coordinator,
        ).has_event_loop()),
{
    let status = MeetingStatus::from(status);
    let mut wake = false;
    match status {
        MeetingStatus::MeetingStatusDisconnecting => {
            wake = coordinator.mark_teardown_started();
        },
        MeetingStatus::MeetingStatusInMeeting => {
            coordinator.mark_entered_active_state();
        },
        _ => {},
    }
    match bridge.handler_mut(context) {
        Some(Handler::Meeting(h)) => {
            h.on_meeting_status_changed(status, result);
        },
        _ => {},
    }
    wake
}

/// The engine warns about the statistics of the meeting.
/// The result says what became of the callback.
pub fn on_meeting_statistics_warning_notification(
    bridge: &mut CallbackBridge,
    context: CallbackContext,
    warn_type: u32,
) -> (delivery: Delivery)
    requires
        old(bridge).wf(),
    ensures
        after_callback(final(bridge), old(bridge), context, HandlerKind::Meeting, true),
        delivery == delivery_of(old(bridge), context, HandlerKind::Meeting, true),
{
    match bridge.handler_of_kind(context, HandlerKind::Meeting) {
        Some(Handler::Meeting(h)) => {
            h.on_meeting_statistics_warning_notification(StatisticsWarningType::from(warn_type));
            Delivery::Delivered
        },
        _ => Delivery::NoHandler,
    }
}

/// The engine hands over the parameters of the meeting, right before it
/// starts. Null parameters are not handed on: nothing is called and nothing
/// changes.
/// The result says what became of the callback.
pub fn on_meeting_parameter_notification(
    bridge: &mut CallbackBridge,
    context: CallbackContext,
    meeting_param: Option<&MeetingParameter>,
) -> (delivery: Delivery)
    requires
        old(bridge).wf(),
    ensures
        after_callback(
            final(bridge),
            old(bridge),
            context,
            HandlerKind::Meeting,
            meeting_param is Some,
        ),
        delivery == delivery_of(old(bridge), context, HandlerKind::Meeting, meeting_param is Some),
{
    match meeting_param {
        Some(param) => {
            match bridge.handler_of_kind(context, HandlerKind::Meeting) {
                Some(Handler::Meeting(h)) => {
                    h.on_meeting_parameter_notification(param);
                    Delivery::Delivered
                },
                _ => Delivery::NoHandler,
            }
        },
        None => Delivery::NothingToDeliver,
    }
}

/// The engine reports that the meeting is suspended.
/// The result says what became of the callback.
pub fn on_suspend_participants_activities(bridge: &mut CallbackBridge, context: CallbackContext) -> (delivery: Delivery)
    requires
        old(bridge).wf(),
    ensures
        after_callback(final(bridge), old(bridge), context, HandlerKind::Meeting, true),
        delivery == delivery_of(old(bridge), context, HandlerKind::Meeting, true),
{
    match bridge.handler_of_kind(context, HandlerKind::Meeting) {
        Some(Handler::Meeting(h)) => {
            h.on_suspend_participants_activities();
            Delivery::Delivered
        },
        _ => Delivery::NoHandler,
    }
}

/// The engine reports whether the AI Companion is active: any number but 0
/// says that it is.
/// The result says what became of the callback.
pub fn on_ai_companion_active_change_notice(
    bridge: &mut CallbackBridge,
    context: CallbackContext,
    b_active: i32,
) -> (delivery: Delivery)
    requires
        old(bridge).wf(),
    ensures
        after_callback(final(bridge), old(bridge), context, HandlerKind::Meeting, true),
        delivery == delivery_of(old(bridge), context, HandlerKind::Meeting, true),
{
    match bridge.handler_of_kind(context, HandlerKind::Meeting) {
        Some(Handler::Meeting(h)) => {
            h.on_ai_companion_active_change_notice(b_active != 0);
            Delivery::Delivered
        },
        _ => Delivery::NoHandler,
    }
}

/// The engine reports the new topic of the meeting. A null topic is not
/// handed on: nothing is called and nothing changes.
/// The result says what became of the callback.
pub fn on_meeting_topic_changed(
    bridge: &mut CallbackBridge,
    context: CallbackContext,
    topic: Option<&str>,
) -> (delivery: Delivery)
    requires
        old(bridge).wf(),
    ensures
        after_callback(final(bridge), old(bridge), context, HandlerKind::Meeting, topic is Some),
        delivery == delivery_of(old(bridge), context, HandlerKind::Meeting, topic is Some),
{
    match topic {
        Some(text) => {
            match bridge.handler_of_kind(context, HandlerKind::Meeting) {
                Some(Handler::Meeting(h)) => {
                    h.on_meeting_topic_changed(text);
                    Delivery::Delivered
                },
                _ => Delivery::NoHandler,
            }
        },
        None => Delivery::NothingToDeliver,
    }
}

/// The engine reports that the meeting is full and where its live stream can
/// be watched. A null address is not handed on: nothing is called and
/// nothing changes.
/// The result says what became of the callback.
pub fn on_meeting_full_to_watch_live_stream(
    bridge: &mut CallbackBridge,
    context: CallbackContext,
    s_live_stream_url: Option<&str>,
) -> (delivery: Delivery)
    requires
        old(bridge).wf(),
    ensures
        after_callback(
            final(bridge),
            old(bridge),
            context,
            HandlerKind::Meeting,
            s_live_stream_url is Some,
        ),
        delivery == delivery_of(
            old(bridge),
            context,
            HandlerKind::Meeting,
            s_live_stream_url is Some,
        ),
{
    match s_live_stream_url {
        Some(url) => {
            match bridge.handler_of_kind(context, HandlerKind::Meeting) {
                Some(Handler::Meeting(h)) => {
                    h.on_meeting_full_to_watch_live_stream(url);
                    Delivery::Delivered
                },
                _ => Delivery::NoHandler,
            }
        },
        None => Delivery::NothingToDeliver,
    }
}

/// Meeting parameter.
#[derive(Debug, Clone)]
pub struct MeetingParameter<'a> {
    /// Meeting type.
    pub meeting_type: u32,
    /// View only or not. True indicates to view only.
    pub is_view_only: bool,
    /// Auto local recording or not. True indicates to auto local recording.
    pub is_auto_recording_local: bool,
    /// Auto cloud recording or not. True indicates to auto cloud recording.
    pub is_auto_recording_cloud: bool,
    /// Meeting number.
    pub meeting_number: u64,
    /// Meeting topic.
    pub meeting_topic: Option<&'a str>,
    /// Meeting host.
    pub meeting_host: Option<&'a str>,
}

/// The parameters of non-login user when joins the meeting.
#[derive(Debug, Clone)]
pub struct JoinParam<'a> {
    /// Meeting number,
    pub meeting_id: usize,
    /// Username when logged in the meeting.
    pub username: &'a str,
    /// Meeting password.
    pub password: Option<&'a str>,
}

/// Meeting status.
#[derive(Debug, Clone, Copy, PartialEq, Eq, Structural)]
pub enum MeetingStatus {
    /// No meeting is running.
    MeetingStatusIdle,
    /// Connect to the meeting server status.
    MeetingStatusConnecting,
    /// Waiting for the host to start the meeting.
    MeetingStatusWaitingForHost,
    /// Meeting is ready, in meeting status.
    MeetingStatusInMeeting,
    /// Disconnect the meeting server, leave meeting status.
    MeetingStatusDisconnecting,
    /// Reconnecting meeting server status.
    MeetingStatusReconnecting,
    /// Failed to connect the meeting server.
    MeetingStatusFailed,
    /// Meeting ends.
    MeetingStatusEnded,
    /// Unknown status.
    MeetingStatusUnknown,
    /// Meeting is locked to prevent the further participants to join the meeting.
    MeetingStatusLocked,
    /// Meeting is open and participants can join the meeting.
    MeetingStatusUnlocked,
    /// Participants who join the meeting before the start are in the waiting room.
    MeetingStatusInWaitingRoom,
    /// Upgrade the attendees to panelist in webinar.
    MeetingStatusWebinarPromote,
    /// Downgrade the attendees from the panelist.
    MeetingStatusWebinarDepromote,
    /// Join the breakout room.
    MeetingStatusJoinBreakoutRoom,
    /// Leave the breakout room.
    MeetingStatusLeaveBreakoutRoom,
    /// Unexpected result from SDK
    Unexpected,
}

impl MeetingStatus {
    /// The number by which the engine knows this status.
    pub open spec fn spec_code(self) -> u32 {
        match self {
            MeetingStatus::MeetingStatusIdle => 0u32,
            MeetingStatus::MeetingStatusConnecting => 1u32,
            MeetingStatus::MeetingStatusWaitingForHost => 2u32,
            MeetingStatus::MeetingStatusInMeeting => 3u32,
            MeetingStatus::MeetingStatusDisconnecting => 4u32,
            MeetingStatus::MeetingStatusReconnecting => 5u32,
            MeetingStatus::MeetingStatusFailed => 6u32,
            MeetingStatus::MeetingStatusEnded => 7u32,
            MeetingStatus::MeetingStatusUnknown => 8u32,
            MeetingStatus::MeetingStatusLocked => 9u32,
            MeetingStatus::MeetingStatusUnlocked => 10u32,
            MeetingStatus::MeetingStatusInWaitingRoom => 11u32,
            MeetingStatus::MeetingStatusWebinarPromote => 12u32,
            MeetingStatus::MeetingStatusWebinarDepromote => 13u32,
            MeetingStatus::MeetingStatusJoinBreakoutRoom => 14u32,
            MeetingStatus::MeetingStatusLeaveBreakoutRoom => 15u32,
            MeetingStatus::Unexpected => 16u32,
        }
    }

    /// The status that the engine's number `code` stands for; every number
    /// that the engine does not define stands for [`MeetingStatus::Unexpected`].
    pub open spec fn of_code(code: u32) -> Self {
        if code == 0u32 {
            MeetingStatus::MeetingStatusIdle
        } else if code == 1u32 {
            MeetingStatus::MeetingStatusConnecting
        } else if code == 2u32 {
            MeetingStatus::MeetingStatusWaitingForHost
        } else if code == 3u32 {
            MeetingStatus::MeetingStatusInMeeting
        } else if code == 4u32 {
            MeetingStatus::MeetingStatusDisconnecting
        } else if code == 5u32 {
            MeetingStatus::MeetingStatusReconnecting
        } else if code == 6u32 {
            MeetingStatus::MeetingStatusFailed
        } else if code == 7u32 {
            MeetingStatus::MeetingStatusEnded
        } else if code == 8u32 {
            MeetingStatus::MeetingStatusUnknown
        } else if code == 9u32 {
            MeetingStatus::MeetingStatusLocked
        } else if code == 10u32 {
            MeetingStatus::MeetingStatusUnlocked
        } else if code == 11u32 {
            MeetingStatus::MeetingStatusInWaitingRoom
        } else if code == 12u32 {
            MeetingStatus::MeetingStatusWebinarPromote
        } else if code == 13u32 {
            MeetingStatus::MeetingStatusWebinarDepromote
        } else if code == 14u32 {
            MeetingStatus::MeetingStatusJoinBreakoutRoom
        } else if code == 15u32 {
            MeetingStatus::MeetingStatusLeaveBreakoutRoom
        } else {
            MeetingStatus::Unexpected
        }
    }

    /// The number by which the engine knows this status.
    #[verifier::when_used_as_spec(spec_code)]
    pub fn code(self) -> (c: u32)
        ensures
            c == self.spec_code(),
            Self::of_code(c) == self,
    {
        match self {
            MeetingStatus::MeetingStatusIdle => 0u32,
            MeetingStatus::MeetingStatusConnecting => 1u32,
            MeetingStatus::MeetingStatusWaitingForHost => 2u32,
            MeetingStatus::MeetingStatusInMeeting => 3u32,
            MeetingStatus::MeetingStatusDisconnecting => 4u32,
            MeetingStatus::MeetingStatusReconnecting => 5u32,
            MeetingStatus::MeetingStatusFailed => 6u32,
            MeetingStatus::MeetingStatusEnded => 7u32,
            MeetingStatus::MeetingStatusUnknown => 8u32,
            MeetingStatus::MeetingStatusLocked => 9u32,
            MeetingStatus::MeetingStatusUnlocked => 10u32,
            MeetingStatus::MeetingStatusInWaitingRoom => 11u32,
            MeetingStatus::MeetingStatusWebinarPromote => 12u32,
            MeetingStatus::MeetingStatusWebinarDepromote => 13u32,
            MeetingStatus::MeetingStatusJoinBreakoutRoom => 14u32,
            MeetingStatus::MeetingStatusLeaveBreakoutRoom => 15u32,
            MeetingStatus::Unexpected => 16u32,
        }
    }
}

impl From<u32> for MeetingStatus {
    fn from(code: u32) -> (r: Self) {
        match code {
            0u32 => MeetingStatus::MeetingStatusIdle,
            1u32 => MeetingStatus::MeetingStatusConnecting,
            2u32 => MeetingStatus::MeetingStatusWaitingForHost,
            3u32 => MeetingStatus::MeetingStatusInMeeting,
            4u32 => MeetingStatus::MeetingStatusDisconnecting,
            5u32 => MeetingStatus::MeetingStatusReconnecting,
            6u32 => MeetingStatus::MeetingStatusFailed,
            7u32 => MeetingStatus::MeetingStatusEnded,
            8u32 => MeetingStatus::MeetingStatusUnknown,
            9u32 => MeetingStatus::MeetingStatusLocked,
            10u32 => MeetingStatus::MeetingStatusUnlocked,
            11u32 => MeetingStatus::MeetingStatusInWaitingRoom,
            12u32 => MeetingStatus::MeetingStatusWebinarPromote,
            13u32 => MeetingStatus::MeetingStatusWebinarDepromote,
            14u32 => MeetingStatus::MeetingStatusJoinBreakoutRoom,
            15u32 => MeetingStatus::MeetingStatusLeaveBreakoutRoom,
            _ => MeetingStatus::Unexpected,
        }
    }
}

impl FromSpecImpl<u32> for MeetingStatus {
    open spec fn obeys_from_spec() -> bool {
        true
    }

    open spec fn from_spec(code: u32) -> Self {
        Self::of_code(code)
    }
}

/// Meeting statistics warning type.
#[derive(Debug, Clone, Copy, PartialEq, Eq, Structural)]
pub enum StatisticsWarningType {
    /// No warning.
    WarningNone,
    /// The network connection quality is bad.
    WarningNetworkQualityBad,
    /// The system is busy.
    WarningBusySystem,
    /// Unexpected result from SDK
    Unexpected,
}

impl StatisticsWarningType {
    /// The number by which the engine knows this warning.
    pub open spec fn spec_code(self) -> u32 {
        match self {
            StatisticsWarningType::WarningNone => 0u32,
            StatisticsWarningType::WarningNetworkQualityBad => 1u32,
            StatisticsWarningType::WarningBusySystem => 2u32,
            StatisticsWarningType::Unexpected => 3u32,
        }
    }

    /// The warning that the engine's number `code` stands for; every number
    /// that the engine does not define stands for [`StatisticsWarningType::Unexpected`].
    pub open spec fn of_code(code: u32) -> Self {
        if code == 0u32 {
            StatisticsWarningType::WarningNone
        } else if code == 1u32 {
            StatisticsWarningType::WarningNetworkQualityBad
        } else if code == 2u32 {
            StatisticsWarningType::WarningBusySystem
        } else {
            StatisticsWarningType::Unexpected
        }
    }

    /// The number by which the engine knows this warning.
    #[verifier::when_used_as_spec(spec_code)]
    pub fn code(self) -> (c: u32)
        ensures
            c == self.spec_code(),
            Self::of_code(c) == self,
    {
        match self {
            StatisticsWarningType::WarningNone => 0u32,
            StatisticsWarningType::WarningNetworkQualityBad => 1u32,
            StatisticsWarningType::WarningBusySystem => 2u32,
            StatisticsWarningType::Unexpected => 3u32,
        }
    }
}

impl From<u32> for StatisticsWarningType {
    fn from(code: u32) -> (r: Self) {
        match code {
            0u32 => StatisticsWarningType::WarningNone,
            1u32 => StatisticsWarningType::WarningNetworkQualityBad,
            2u32 => StatisticsWarningType::WarningBusySystem,
            _ => StatisticsWarningType::Unexpected,
        }
    }
}

impl FromSpecImpl<u32> for StatisticsWarningType {
    open spec fn obeys_from_spec() -> bool {
        true
    }

    open spec fn from_spec(code: u32) -> Self {
        Self::of_code(code)
    }
}

/// Leave meeting command.
#[derive(Debug, Clone, Copy, PartialEq, Eq, Structural)]
pub enum LeaveMeetingCmd {
    /// Leave meeting.
    LeaveMeeting,
    /// End meeting.
    EndMeeting,
    /// Unexpected result from SDK
    Unexpected,
}

impl LeaveMeetingCmd {
    /// The number by which the engine knows this command.
    pub open spec fn spec_code(self) -> u32 {
        match self {
            LeaveMeetingCmd::LeaveMeeting => 0u32,
            LeaveMeetingCmd::EndMeeting => 1u32,
            LeaveMeetingCmd::Unexpected => 2u32,
        }
    }

    /// The command that the engine's number `code` stands for; every number
    /// that the engine does not define stands for [`LeaveMeetingCmd::Unexpected`].
    pub open spec fn of_code(code: u32) -> Self {
        if code == 0u32 {
            LeaveMeetingCmd::LeaveMeeting
        } else if code == 1u32 {
            LeaveMeetingCmd::EndMeeting
        } else {
            LeaveMeetingCmd::Unexpected
        }
    }

    /// The number by which the engine knows this command.
    #[verifier::when_used_as_spec(spec_code)]
    pub fn code(self) -> (c: u32)
        ensures
            c == self.spec_code(),
            Self::of_code(c) == self,
    {
        match self {
            LeaveMeetingCmd::LeaveMeeting => 0u32,
            LeaveMeetingCmd::EndMeeting => 1u32,
            LeaveMeetingCmd::Unexpected => 2u32,
        }
    }
}

impl From<u32> for LeaveMeetingCmd {
    fn from(code: u32) -> (r: Self) {
        match code {
            0u32 => LeaveMeetingCmd::LeaveMeeting,
            1u32 => LeaveMeetingCmd::EndMeeting,
            _ => LeaveMeetingCmd::Unexpected,
        }
    }
}

impl FromSpecImpl<u32> for LeaveMeetingCmd {
    open spec fn obeys_from_spec() -> bool {
        true
    }

    open spec fn from_spec(code: u32) -> Self {
        Self::of_code(code)
    }
}

} // verus!
