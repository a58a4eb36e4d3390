//! The sharing controller of a meeting.
use vstd::prelude::*;
use vstd::std_specs::convert::FromSpecImpl;

use crate::bridge::{
    after_callback, delivery_of, replaced, CallbackBridge, Delivery, Handler, HandlerKind,
};
use crate::native::{host_only, CallbackContext, NativeCall, NativeHandle, TeardownStep};
use crate::public_types::{SdkResult, ZoomRsError};

verus! {

/// Information about the sharing.
#[derive(Debug, Clone, Copy, PartialEq, Eq, Structural)]
pub struct ShareInfo {
    /// The engine's number for the shared source.
    pub share_source_id: u32,
    /// The user who shares.
    pub user_id: u32,
}

/// Obscure pointer of the SDK.
#[derive(Debug, Clone, Copy, PartialEq, Eq, Structural)]
pub struct ShareSwitchMultitoSingleConfirmHandler(pub NativeHandle);

/// This trait handles events related to sharing.
pub trait SharingControllerEvent: Send {
    /// Callback event of the changed sharing status.
    /// - status The values of sharing status.
    /// - [u32] Sharer ID.
    /// The userId changes according to the status value. When the status value is
    /// the Sharing_Self_Send_Begin or Sharing_Self_Send_End, the userId is the user own ID.
    /// Otherwise, the value of userId is the sharer ID.
    fn on_sharing_status(&mut self, _status: SharingStatus, _user_id: u32) {
    }

    /// Callback event of locked share status.
    /// - [bool] TRUE indicates that it is locked. FALSE unlocked.
    fn on_lock_share_status(&mut self, _locked: bool) {
    }

    /// Callback event of changed sharing information.
    /// - [ShareInfo] Sharing information.
    fn on_share_content_notification(&mut self, _share_info: &ShareInfo) {
    }

    /// Callback event of switching multi-participants share to one participant share.
    /// - [ShareSwitchMultitoSingleConfirmHandler] An object pointer used by user to complete
    /// all the related operations.
    fn on_multi_share_switch_to_single_share_need_confirm(
        &mut self,
        _handler: &ShareSwitchMultitoSingleConfirmHandler,
    ) {
    }

    /// Callback event of sharing setting type changed.
    /// [SharingSettingType] type Sharing setting type. For more details.
    fn on_share_setting_type_changed_notification(&mut self, _kind: SharingSettingType) {
    }

    /// Callback event of the shared video's playback has completed.
    fn on_shared_video_ended(&mut self) {
    }

    /// Callback event of the video file playback error.
    /// - [SharingPlayError] The error type. For more details,
    fn on_video_file_share_play_error(&mut self, _error: SharingPlayError) {
    }
}

/// Main interface of [SharingController].
///
/// The controller belongs to the engine's meeting service and is never
/// destroyed by the host; what the host takes down is its handler.
#[derive(Debug)]
pub struct SharingController {
    ref_sharing_controller: NativeHandle,
    event: Option<CallbackContext>,
}

impl SharingController {
    /// The engine's sharing controller.
    pub closed spec fn handle(&self) -> NativeHandle {
        self.ref_sharing_controller
    }

    /// The token of the installed handler, if there is one.
    pub closed spec fn event(&self) -> Option<CallbackContext> {
        self.event
    }

    /// What taking the controller down consists of: the release of its
    /// handler, if it has one.
    pub open spec fn teardown_plan(&self) -> Seq<TeardownStep> {
        match self.event() {
            Some(c) => seq![TeardownStep::Release(c)],
            None => Seq::<TeardownStep>::empty(),
        }
    }

    /// Wraps the sharing controller that the engine gave for a meeting
    /// service: `None` where it gave the null handle.
    pub fn new(fetched: NativeHandle) -> (r: Option<Self>)
        ensures
            fetched.is_null() ==> r is None,
            !fetched.is_null() ==> r is Some && r->0.handle() == fetched && r->0.event() is None,
    {
        if fetched.is_null() {
            None
        } else {
            Some(SharingController { ref_sharing_controller: fetched, event: None })
        }
    }

    /// The engine's sharing controller.
    pub fn native(&self) -> (r: NativeHandle)
        ensures
            r == self.handle(),
    {
        self.ref_sharing_controller
    }

    /// Set the sharing controller callback event handler: registers the
    /// handler, in the place of an earlier one, and returns the request that
    /// installs it. The registration stands whatever the engine answers to
    /// that request. Where the table has no token left the controller is
    /// left without a handler and the result is [`ZoomRsError::NullPtr`].
    pub fn set_event(&mut self, bridge: &mut CallbackBridge, ctx: Box<dyn SharingControllerEvent>) -> (r:
        SdkResult<NativeCall>)
        requires
            old(bridge).wf(),
        ensures
            final(bridge).wf(),
            final(self).handle() == old(self).handle(),
            old(bridge).issued() == u64::MAX ==> r is Err && r->Err_0 == ZoomRsError::NullPtr
                && final(self).event() is None && final(bridge).issued() == old(bridge).issued(),
            old(bridge).issued() < u64::MAX ==> {
                let context = CallbackContext { token: (old(bridge).issued() + 1) as u64 };
                &&& r == Ok::<NativeCall, ZoomRsError>(
                    NativeCall::SetSharingEvent { controller: old(self).handle(), context },
                )
                &&& final(self).event() == Some(context)
                &&& final(bridge).issued() == context.token
                &&& final(bridge).serves(context, HandlerKind::Sharing)
            },
            old(self).event() is Some && old(bridge).is_live(old(self).event()->0)
                ==> !final(bridge).is_live(old(self).event()->0),
            replaced(
                final(bridge)@,
                old(bridge)@,
                old(self).event(),
                final(self).event(),
                Handler::Sharing(ctx),
            ),
    {
        let registered = bridge.replace(self.event, Handler::Sharing(ctx));
        match registered {
            Ok(context) => {
                self.event = Some(context);
                Ok(
                    NativeCall::SetSharingEvent {
                        controller: self.ref_sharing_controller,
                        context,
                    },
                )
            },
            Err(e) => {
                self.event = None;
                Err(e)
            },
        }
    }

    /// Takes the controller down: the steps to perform. None of them makes
    /// a request of the engine.
    pub fn release(self) -> (steps: Vec<TeardownStep>)
        ensures
            steps@ == self.teardown_plan(),
            host_only(steps@),
    {
        let mut steps: Vec<TeardownStep> = Vec::new();
        match self.event {
            Some(c) => {
                steps.push(TeardownStep::Release(c));
            },
            None => {},
        }
        steps
    }
}

/// The engine reports that the status of a sharing changed.
/// The result says what became of the callback.
pub fn on_sharing_status(
    bridge: &mut CallbackBridge,
    context: CallbackContext,
    status: u32,
    user_id: u32,
) -> (delivery: Delivery)
    requires
        old(bridge).wf(),
    ensures
        after_callback(final(bridge), old(bridge), context, HandlerKind::Sharing, true),
        delivery == delivery_of(old(bridge), context, HandlerKind::Sharing, true),
{
    match bridge.handler_of_kind(context, HandlerKind::Sharing) {
        Some(Handler::Sharing(h)) => {
            h.on_sharing_status(SharingStatus::from(status), user_id);
            Delivery::Delivered
        },
        _ => Delivery::NoHandler,
    }
}

/// The engine reports whether sharing is locked.
/// The result says what became of the callback.
pub fn on_lock_share_status(bridge: &mut CallbackBridge, context: CallbackContext, locked: bool) -> (delivery: Delivery)
    requires
        old(bridge).wf(),
    ensures
        after_callback(final(bridge), old(bridge), context, HandlerKind::Sharing, true),
        delivery == delivery_of(old(bridge), context, HandlerKind::Sharing, true),
{
    match bridge.handler_of_kind(context, HandlerKind::Sharing) {
        Some(Handler::Sharing(h)) => {
            h.on_lock_share_status(locked);
            Delivery::Delivered
        },
        _ => Delivery::NoHandler,
    }
}

/// The engine reports what is shared. Null information is not handed on:
/// nothing is called and nothing changes.
/// The result says what became of the callback.
pub fn on_share_content_notification(
    bridge: &mut CallbackBridge,
    context: CallbackContext,
    share_info: Option<&ShareInfo>,
) -> (delivery: Delivery)
    requires
        old(bridge).wf(),
    ensures
        after_callback(
            final(bridge),
            old(bridge),
            context,
            HandlerKind::Sharing,
            share_info is Some,
        ),
        delivery == delivery_of(old(bridge), context, HandlerKind::Sharing, share_info is Some),
{
    match share_info {
        Some(info) => {
            match bridge.handler_of_kind(context, HandlerKind::Sharing) {
                Some(Handler::Sharing(h)) => {
                    h.on_share_content_notification(info);
                    Delivery::Delivered
                },
                _ => Delivery::NoHandler,
            }
        },
        None => Delivery::NothingToDeliver,
    }
}

/// The engine asks for the confirmation of a switch from several sharings to
/// one. A null confirmation object is not handed on: nothing is called and
/// nothing changes.
/// The result says what became of the callback.
pub fn on_multi_share_switch_to_single_share_need_confirm(
    bridge: &mut CallbackBridge,
    context: CallbackContext,
    handler: NativeHandle,
) -> (delivery: Delivery)
    requires
        old(bridge).wf(),
    ensures
        after_callback(
            final(bridge),
            old(bridge),
            context,
            HandlerKind::Sharing,
            !handler.is_null(),
        ),
        delivery == delivery_of(old(bridge), context, HandlerKind::Sharing, !handler.is_null()),
{
    if !handler.is_null() {
        match bridge.handler_of_kind(context, HandlerKind::Sharing) {
            Some(Handler::Sharing(h)) => {
                h.on_multi_share_switch_to_single_share_need_confirm(
                    &ShareSwitchMultitoSingleConfirmHandler(handler),
                );
                Delivery::Delivered
            },
            _ => Delivery::NoHandler,
        }
    } else {
        Delivery::NothingToDeliver
    }
}

/// The engine reports that the setting of who may share changed.
/// The result says what became of the callback.
pub fn on_share_setting_type_changed_notification(
    bridge: &mut CallbackBridge,
    context: CallbackContext,
    kind: u32,
) -> (delivery: Delivery)
    requires
        old(bridge).wf(),
    ensures
        after_callback(final(bridge), old(bridge), context, HandlerKind::Sharing, true),
        delivery == delivery_of(old(bridge), context, HandlerKind::Sharing, true),
{
    match bridge.handler_of_kind(context, HandlerKind::Sharing) {
        Some(Handler::Sharing(h)) => {
            h.on_share_setting_type_changed_notification(SharingSettingType::from(kind));
            Delivery::Delivered
        },
        _ => Delivery::NoHandler,
    }
}

/// The engine reports that a shared video has played to its end.
/// The result says what became of the callback.
pub fn on_shared_video_ended(bridge: &mut CallbackBridge, context: CallbackContext) -> (delivery: Delivery)
    requires
        old(bridge).wf(),
    ensures
        after_callback(final(bridge), old(bridge), context, HandlerKind::Sharing, true),
        delivery == delivery_of(old(bridge), context, HandlerKind::Sharing, true),
{
    match bridge.handler_of_kind(context, HandlerKind::Sharing) {
        Some(Handler::Sharing(h)) => {
            h.on_shared_video_ended();
            Delivery::Delivered
        },
        _ => Delivery::NoHandler,
    }
}

/// The engine reports that a shared video could not be played.
/// The result says what became of the callback.
pub fn on_video_file_share_play_error(
    bridge: &mut CallbackBridge,
    context: CallbackContext,
    error: u32,
) -> (delivery: Delivery)
    requires
        old(bridge).wf(),
    ensures
        after_callback(final(bridge), old(bridge), context, HandlerKind::Sharing, true),
        delivery == delivery_of(old(bridge), context, HandlerKind::Sharing, true),
{
    match bridge.handler_of_kind(context, HandlerKind::Sharing) {
        Some(Handler::Sharing(h)) => {
            h.on_video_file_share_play_error(SharingPlayError::from(error));
            Delivery::Delivered
        },
        _ => Delivery::NoHandler,
    }
}

/// This enumeration describes all the events related to sharing.
#[derive(Debug, Clone, Copy, PartialEq, Eq, Structural)]
pub enum SharingStatus {
    /// Begin to share by the user himself.
    SharingSelfSendBegin,
    /// Stop sharing by the user.
    SharingSelfSendEnd,
    /// Begin to share pure audio by the user himself.
    SharingSelfSendPureAudioBegin,
    /// Stop sharing pure audio by the user.
    SharingSelfSendPureAudioEnd,
    /// Others begin to share.
    SharingOtherShareBegin,
    /// Others stop sharing.
    SharingOtherShareEnd,
    /// Others begin to share pure audio.
    SharingOtherSendPureAudioBegin,
    /// Others stop sharing pure audio.
    SharingOtherSendPureAudioEnd,
    /// View the sharing of others.
    SharingViewOtherSharing,
    /// Pause sharing.
    SharingPause,
    /// Resume sharing.
    SharingResume,
    /// Unexpected result from SDK
    Unexpected,
}

impl SharingStatus {
    /// The number by which the engine knows this status.
    pub open spec fn spec_code(self) -> u32 {
        match self {
            SharingStatus::SharingSelfSendBegin => 0u32,
            SharingStatus::SharingSelfSendEnd => 1u32,
            SharingStatus::SharingSelfSendPureAudioBegin => 2u32,
            SharingStatus::SharingSelfSendPureAudioEnd => 3u32,
            SharingStatus::SharingOtherShareBegin => 4u32,
            SharingStatus::SharingOtherShareEnd => 5u32,
            SharingStatus::SharingOtherSendPureAudioBegin => 6u32,
            SharingStatus::SharingOtherSendPureAudioEnd => 7u32,
            SharingStatus::SharingViewOtherSharing => 8u32,
            SharingStatus::SharingPause => 9u32,
            SharingStatus::SharingResume => 10u32,
            SharingStatus::Unexpected => 11u32,
        }
    }

    /// The status that the engine's number `code` stands for; every number
    /// that the engine does not define stands for [`SharingStatus::Unexpected`].
    pub open spec fn of_code(code: u32) -> Self {
        if code == 0u32 {
            SharingStatus::SharingSelfSendBegin
        } else if code == 1u32 {
            SharingStatus::SharingSelfSendEnd
        } else if code == 2u32 {
            SharingStatus::SharingSelfSendPureAudioBegin
        } else if code == 3u32 {
            SharingStatus::SharingSelfSendPureAudioEnd
        } else if code == 4u32 {
            SharingStatus::SharingOtherShareBegin
        } else if code == 5u32 {
            SharingStatus::SharingOtherShareEnd
        } else if code == 6u32 {
            SharingStatus::SharingOtherSendPureAudioBegin
        } else if code == 7u32 {
            SharingStatus::SharingOtherSendPureAudioEnd
        } else if code == 8u32 {
            SharingStatus::SharingViewOtherSharing
        } else if code == 9u32 {
            SharingStatus::SharingPause
        } else if code == 10u32 {
            SharingStatus::SharingResume
        } else {
            SharingStatus::Unexpected
        }
    }

    /// The number by which the engine knows this status.
    #[verifier::when_used_as_spec(spec_code)]
    pub fn code(self) -> (c: u32)
        ensures
            c == self.spec_code(),
            Self::of_code(c) == self,
    {
        match self {
            SharingStatus::SharingSelfSendBegin => 0u32,
            SharingStatus::SharingSelfSendEnd => 1u32,
            SharingStatus::SharingSelfSendPureAudioBegin => 2u32,
            SharingStatus::SharingSelfSendPureAudioEnd => 3u32,
            SharingStatus::SharingOtherShareBegin => 4u32,
            SharingStatus::SharingOtherShareEnd => 5u32,
            SharingStatus::SharingOtherSendPureAudioBegin => 6u32,
            SharingStatus::SharingOtherSendPureAudioEnd => 7u32,
            SharingStatus::SharingViewOtherSharing => 8u32,
            SharingStatus::SharingPause => 9u32,
            SharingStatus::SharingResume => 10u32,
            SharingStatus::Unexpected => 11u32,
        }
    }
}

impl From<u32> for SharingStatus {
    fn from(code: u32) -> (r: Self) {
        match code {
            0u32 => SharingStatus::SharingSelfSendBegin,
            1u32 => SharingStatus::SharingSelfSendEnd,
            2u32 => SharingStatus::SharingSelfSendPureAudioBegin,
            3u32 => SharingStatus::SharingSelfSendPureAudioEnd,
            4u32 => SharingStatus::SharingOtherShareBegin,
            5u32 => SharingStatus::SharingOtherShareEnd,
            6u32 => SharingStatus::SharingOtherSendPureAudioBegin,
            7u32 => SharingStatus::SharingOtherSendPureAudioEnd,
            8u32 => SharingStatus::SharingViewOtherSharing,
            9u32 => SharingStatus::SharingPause,
            10u32 => SharingStatus::SharingResume,
            _ => SharingStatus::Unexpected,
        }
    }
}

impl FromSpecImpl<u32> for SharingStatus {
    open spec fn obeys_from_spec() -> bool {
        true
    }

    open spec fn from_spec(code: u32) -> Self {
        Self::of_code(code)
    }
}

/// This enumeration describes all configuration related to sharing.
#[derive(Debug, Clone, Copy, PartialEq, Eq, Structural)]
pub enum SharingSettingType {
    /// Only host can share, the same as "lock share".
    LockShare,
    /// Anyone can share, but one sharing only at one moment, and only host can grab other's sharing.
    HostGrab,
    /// Anyone can share, but one sharing only at one moment, and anyone can grab other's sharing.
    AnyoneGrab,
    /// Anyone can share, Multi-share can exist at the same time.
    MultiShare,
    /// Unexpected result from SDK
    Unexpected,
}

impl SharingSettingType {
    /// The number by which the engine knows this setting.
    pub open spec fn spec_code(self) -> u32 {
        match self {
            SharingSettingType::LockShare => 0u32,
            SharingSettingType::HostGrab => 1u32,
            SharingSettingType::AnyoneGrab => 2u32,
            SharingSettingType::MultiShare => 3u32,
            SharingSettingType::Unexpected => 4u32,
        }
    }

    /// The setting that the engine's number `code` stands for; every number
    /// that the engine does not define stands for [`SharingSettingType::Unexpected`].
    pub open spec fn of_code(code: u32) -> Self {
        if code == 0u32 {
            SharingSettingType::LockShare
        } else if code == 1u32 {
            SharingSettingType::HostGrab
        } else if code == 2u32 {
            SharingSettingType::AnyoneGrab
        } else if code == 3u32 {
            SharingSettingType::MultiShare
        } else {
            SharingSettingType::Unexpected
        }
    }

    /// The number by which the engine knows this setting.
    #[verifier::when_used_as_spec(spec_code)]
    pub fn code(self) -> (c: u32)
        ensures
            c == self.spec_code(),
            Self::of_code(c) == self,
    {
        match self {
            SharingSettingType::LockShare => 0u32,
            SharingSettingType::HostGrab => 1u32,
            SharingSettingType::AnyoneGrab => 2u32,
            SharingSettingType::MultiShare => 3u32,
            SharingSettingType::Unexpected => 4u32,
        }
    }
}

impl From<u32> for SharingSettingType {
    fn from(code: u32) -> (r: Self) {
        match code {
            0u32 => SharingSettingType::LockShare,
            1u32 => SharingSettingType::HostGrab,
            2u32 => SharingSettingType::AnyoneGrab,
            3u32 => SharingSettingType::MultiShare,
            _ => SharingSettingType::Unexpected,
        }
    }
}

impl FromSpecImpl<u32> for SharingSettingType {
    open spec fn obeys_from_spec() -> bool {
        true
    }

    open spec fn from_spec(code: u32) -> Self {
        Self::of_code(code)
    }
}

/// This enumeration describes all errors related to sharing.
#[derive(Debug, Clone, Copy, PartialEq, Eq, Structural)]
pub enum SharingPlayError {
    /// No error.
    NoError,
    /// Not supported.
    NotSupported,
    /// The resolution is too high to play.
    ResolutionTooHigh,
    /// Failed to open.
    OpenFail,
    /// Failed to play.
    PlayFail,
    /// Failed to seek.
    SeekFail,
    /// Unexpected result from SDK
    Unexpected,
}

impl SharingPlayError {
    /// The number by which the engine knows this error.
    pub open spec fn spec_code(self) -> u32 {
        match self {
            SharingPlayError::NoError => 0u32,
            SharingPlayError::NotSupported => 1u32,
            SharingPlayError::ResolutionTooHigh => 2u32,
            SharingPlayError::OpenFail => 3u32,
            SharingPlayError::PlayFail => 4u32,
            SharingPlayError::SeekFail => 5u32,
            SharingPlayError::Unexpected => 6u32,
        }
    }

    /// The error that the engine's number `code` stands for; every number
    /// that the engine does not define stands for [`SharingPlayError::Unexpected`].
    pub open spec fn of_code(code: u32) -> Self {
        if code == 0u32 {
            SharingPlayError::NoError
        } else if code == 1u32 {
            SharingPlayError::NotSupported
        } else if code == 2u32 {
            SharingPlayError::ResolutionTooHigh
        } else if code == 3u32 {
            SharingPlayError::OpenFail
        } else if code == 4u32 {
            SharingPlayError::PlayFail
        } else if code == 5u32 {
            SharingPlayError::SeekFail
        } else {
            SharingPlayError::Unexpected
        }
    }

    /// The number by which the engine knows this error.
    #[verifier::when_used_as_spec(spec_code)]
    pub fn code(self) -> (c: u32)
        ensures
            c == self.spec_code(),
            Self::of_code(c) == self,
    {
        match self {
            SharingPlayError::NoError => 0u32,
            SharingPlayError::NotSupported => 1u32,
            SharingPlayError::ResolutionTooHigh => 2u32,
            SharingPlayError::OpenFail => 3u32,
            SharingPlayError::PlayFail => 4u32,
            SharingPlayError::SeekFail => 5u32,
            SharingPlayError::Unexpected => 6u32,
        }
    }
}

impl From<u32> for SharingPlayError {
    fn from(code: u32) -> (r: Self) {
        match code {
            0u32 => SharingPlayError::NoError,
            1u32 => SharingPlayError::NotSupported,
            2u32 => SharingPlayError::ResolutionTooHigh,
            3u32 => SharingPlayError::OpenFail,
            4u32 => SharingPlayError::PlayFail,
            5u32 => SharingPlayError::SeekFail,
            _ => SharingPlayError::Unexpected,
        }
    }
}

impl FromSpecImpl<u32> for SharingPlayError {
    open spec fn obeys_from_spec() -> bool {
        true
    }

    open spec fn from_spec(code: u32) -> Self {
        Self::of_code(code)
    }
}

} // verus!
