use std::sync::{Arc, Mutex};

use zoom_sdk_linux_rs::bridge::{CallbackBridge, Delivery, Handler, HandlerKind};
use zoom_sdk_linux_rs::native::{count_native_calls, CallbackContext, NativeCall, NativeHandle, TeardownStep};
use zoom_sdk_linux_rs::rawdata::audio::{
    AudioRawDataHelper, AudioRawDataSenderInterface, ExportedAudioRawData, RawAudioDelegate,
    RawAudioEvent, VirtualAudioMicEvent,
};
use zoom_sdk_linux_rs::rawdata::video::{
    on_renderer_be_destroyed, ExportedVideoRawData, RawDataType, RawVideoEvent, Renderer,
    VideoResolution,
};
use zoom_sdk_linux_rs::services::auth_service::AuthServiceEvent;
use zoom_sdk_linux_rs::services::meeting_service::recording_controller::RecordingControllerEvent;
use zoom_sdk_linux_rs::services::meeting_service::sharing_controller::SharingControllerEvent;
use zoom_sdk_linux_rs::services::meeting_service::webcam_interface::{CamInterface, VideoToWebcam};
use zoom_sdk_linux_rs::services::meeting_service::{
    on_meeting_status_changed, MeetingService, MeetingServiceEvent, MeetingStatus,
};
use zoom_sdk_linux_rs::{
    cleanup_sdk, init_sdk, perform_step, Instance, InstanceState, Performed, SdkError, SdkInitParam,
    TeardownCoordinator, TeardownReport, ZoomRsError, ZoomSdkResult,
};

type Log = Arc<Mutex<Vec<String>>>;

struct Frames {
    log: Log,
}

impl RawVideoEvent for Frames {
    fn on_raw_data_frame_received(&mut self, _data: &ExportedVideoRawData) {
        self.log.lock().unwrap().push("frame".to_string());
    }

    fn on_raw_data_status_changed(&mut self, _status: bool, _time: i64) {
        self.log.lock().unwrap().push("status".to_string());
    }

    fn on_renderer_be_destroyed(&mut self, _time: i64) {
        self.log.lock().unwrap().push("destroyed".to_string());
    }

    fn flush(&mut self) {
        self.log.lock().unwrap().push("flush".to_string());
    }
}

struct Sound;

impl RawAudioEvent for Sound {
    fn on_mixed_audio_raw_data(&mut self, _data: &ExportedAudioRawData) -> i32 {
        1
    }

    fn on_one_way_audio_raw_data(&mut self, _data: &ExportedAudioRawData, _user_id: u32) -> i32 {
        2
    }

    fn on_share_audio_raw_data(&mut self, _data: &ExportedAudioRawData) -> i32 {
        3
    }

    fn flush(&mut self) {}
}

struct Mic;

impl VirtualAudioMicEvent for Mic {
    fn on_mic_initialize(&mut self, _sender: AudioRawDataSenderInterface) {}

    fn on_mic_start_send(&mut self) {}

    fn on_mic_stop_send(&mut self) {}

    fn on_mic_uninitialized(&mut self) {}
}

struct Meeting {
    log: Log,
}

impl MeetingServiceEvent for Meeting {
    fn on_meeting_status_changed(&mut self, status: MeetingStatus, result: i32) {
        self.log.lock().unwrap().push(format!("{:?} {}", status, result));
    }
}

struct Quiet;

impl AuthServiceEvent for Quiet {}

impl RecordingControllerEvent for Quiet {}

impl SharingControllerEvent for Quiet {}

impl VideoToWebcam for Quiet {
    fn on_video_source_started(&mut self, _interface: CamInterface) {}

    fn on_video_source_stopped(&mut self) {}
}

fn new_log() -> Log {
    Arc::new(Mutex::new(Vec::new()))
}

fn handle(addr: usize) -> NativeHandle {
    NativeHandle { addr }
}

fn call(c: NativeCall) -> TeardownStep {
    TeardownStep::Call(c)
}

fn release(token: u64) -> TeardownStep {
    TeardownStep::Release(CallbackContext { token })
}

/// Performs the steps as the application would: the host's side goes to the
/// library, requests of the engine are recorded and answered with success.
fn perform(
    steps: &Vec<TeardownStep>,
    bridge: &mut CallbackBridge,
    coordinator: &mut TeardownCoordinator,
    engine: &mut Vec<NativeCall>,
) -> Result<(), ZoomRsError> {
    let mut report = TeardownReport::new();
    for step in steps {
        let done = perform_step(*step, bridge, coordinator);
        if let Some(call) = done.call {
            engine.push(call);
            report.record(call, 0);
        }
    }
    report.result()
}

fn new_renderer(bridge: &mut CallbackBridge, log: &Log) -> (Renderer, CallbackContext) {
    let context = bridge.register(Handler::Video(Box::new(Frames { log: log.clone() }))).unwrap();
    let (renderer, first) =
        Renderer::new(bridge, context, handle(0x10), ZoomSdkResult(0, handle(0x20)), VideoResolution::R720P)
            .unwrap();
    assert_eq!(first, NativeCall::SetRawDataResolution { renderer: handle(0x20), resolution: 3 });
    (renderer, context)
}

#[test]
fn a_renderer_is_made_only_from_a_good_answer() {
    let mut bridge = CallbackBridge::new();
    let mut register = |bridge: &mut CallbackBridge| {
        bridge.register(Handler::Video(Box::new(Frames { log: new_log() }))).unwrap()
    };
    let c = register(&mut bridge);
    let r = Renderer::new(&mut bridge, c, NativeHandle::null(), ZoomSdkResult(0, handle(2)), VideoResolution::R90P);
    assert_eq!(r.err(), Some(ZoomRsError::NullPtr));
    assert!(!bridge.is_registered(c));
    let c = register(&mut bridge);
    let r = Renderer::new(&mut bridge, c, handle(1), ZoomSdkResult(5, handle(2)), VideoResolution::R90P);
    assert_eq!(r.err(), Some(ZoomRsError::Sdk(SdkError::MemoryFailed)));
    assert!(!bridge.is_registered(c));
    let c = register(&mut bridge);
    let r = Renderer::new(&mut bridge, c, handle(1), ZoomSdkResult(77, handle(2)), VideoResolution::R90P);
    assert_eq!(r.err(), Some(ZoomRsError::Sdk(SdkError::UnexpectedError(77))));
    let c = register(&mut bridge);
    let r = Renderer::new(&mut bridge, c, handle(1), ZoomSdkResult(0, NativeHandle::null()), VideoResolution::R90P);
    assert_eq!(r.err(), Some(ZoomRsError::NullPtr));
    assert!(!bridge.is_registered(c));
    assert_eq!(bridge.len(), 0);
    let c = register(&mut bridge);
    let r = Renderer::new(&mut bridge, c, handle(1), ZoomSdkResult(0, handle(2)), VideoResolution::R1080P);
    let (renderer, first) = r.unwrap();
    assert!(renderer.is_valid());
    assert!(bridge.is_registered(c));
    assert_eq!(first, NativeCall::SetRawDataResolution { renderer: handle(2), resolution: 4 });
}

#[test]
fn unsubscribe_without_subscription_is_refused() {
    let mut bridge = CallbackBridge::new();
    let coordinator = TeardownCoordinator::new();
    let (mut renderer, _) = new_renderer(&mut bridge, &new_log());
    assert_eq!(renderer.unsubscribe_delegate(&coordinator), Err(ZoomRsError::NullPtr));
    let request = renderer.subscribe_delegate(7, RawDataType::Share).unwrap();
    assert_eq!(request, NativeCall::SubscribeVideo { renderer: handle(0x20), user_id: 7, data_type: 1 });
    assert_eq!(renderer.subscription_answered(3), Err(ZoomRsError::Sdk(SdkError::InvalidParameter)));
    assert_eq!(renderer.unsubscribe_delegate(&coordinator), Err(ZoomRsError::NullPtr));
    assert_eq!(renderer.subscription_answered(0), Ok(()));
    assert_eq!(renderer.unsubscribe_delegate(&coordinator), Ok(NativeCall::UnsubscribeVideo(handle(0x20))));
    assert_eq!(renderer.unsubscribe_delegate(&coordinator), Err(ZoomRsError::NullPtr));
}

#[test]
fn a_subscribed_renderer_is_taken_down_in_order() {
    let log = new_log();
    let mut bridge = CallbackBridge::new();
    let mut coordinator = TeardownCoordinator::new();
    let (mut renderer, context) = new_renderer(&mut bridge, &log);
    renderer.subscribe_delegate(1, RawDataType::Video).unwrap();
    renderer.subscription_answered(0).unwrap();
    let steps = renderer.release(&coordinator);
    assert_eq!(
        steps,
        vec![
            call(NativeCall::UnsubscribeVideo(handle(0x20))),
            TeardownStep::Release(context),
            call(NativeCall::DestroyRenderer(handle(0x20))),
        ]
    );
    let mut engine = Vec::new();
    perform(&steps, &mut bridge, &mut coordinator, &mut engine).unwrap();
    assert_eq!(*log.lock().unwrap(), vec!["flush".to_string()]);
    assert!(!bridge.is_registered(context));
    assert_eq!(engine.len(), 2);
}

#[test]
fn an_unsubscribed_renderer_is_only_destroyed() {
    let mut bridge = CallbackBridge::new();
    let coordinator = TeardownCoordinator::new();
    let (renderer, context) = new_renderer(&mut bridge, &new_log());
    let steps = renderer.release(&coordinator);
    assert_eq!(steps, vec![TeardownStep::Release(context), call(NativeCall::DestroyRenderer(handle(0x20)))]);
}

#[test]
fn an_invalidated_renderer_makes_no_request() {
    let log = new_log();
    let mut bridge = CallbackBridge::new();
    let mut coordinator = TeardownCoordinator::new();
    let (mut renderer, context) = new_renderer(&mut bridge, &log);
    renderer.subscribe_delegate(1, RawDataType::Video).unwrap();
    renderer.subscription_answered(0).unwrap();
    assert_eq!(on_renderer_be_destroyed(&mut bridge, context, 12), Delivery::Delivered);
    assert_eq!(*log.lock().unwrap(), vec!["destroyed".to_string()]);
    renderer.invalid();
    assert!(!renderer.is_valid());
    assert_eq!(renderer.subscribe_delegate(1, RawDataType::Video), Err(ZoomRsError::NullPtr));
    assert_eq!(renderer.unsubscribe_delegate(&coordinator), Err(ZoomRsError::NullPtr));
    let steps = renderer.release(&coordinator);
    assert_eq!(steps, vec![TeardownStep::Release(context)]);
    assert_eq!(count_native_calls(&steps), 0);
    let mut engine = Vec::new();
    perform(&steps, &mut bridge, &mut coordinator, &mut engine).unwrap();
    assert!(engine.is_empty());
    assert_eq!(*log.lock().unwrap(), vec!["destroyed".to_string(), "flush".to_string()]);
}

#[test]
fn a_renderer_makes_no_request_during_teardown() {
    let mut bridge = CallbackBridge::new();
    let mut coordinator = TeardownCoordinator::new();
    let (mut renderer, context) = new_renderer(&mut bridge, &new_log());
    renderer.subscribe_delegate(1, RawDataType::Video).unwrap();
    renderer.subscription_answered(0).unwrap();
    coordinator.mark_teardown_started();
    assert_eq!(renderer.unsubscribe_delegate(&coordinator), Err(ZoomRsError::NullPtr));
    let steps = renderer.release(&coordinator);
    assert_eq!(steps, vec![TeardownStep::Release(context)]);
    assert_eq!(count_native_calls(&steps), 0);
}

#[test]
fn the_audio_helper_ends_its_subscription_and_releases_its_handlers() {
    let mut bridge = CallbackBridge::new();
    let coordinator = TeardownCoordinator::new();
    assert_eq!(AudioRawDataHelper::new(NativeHandle::null()).err(), Some(ZoomRsError::NullPtr));
    let mut helper = AudioRawDataHelper::new(handle(0x30)).unwrap();
    assert_eq!(helper.unsubscribe_delegate(&coordinator).err(), Some(ZoomRsError::NullPtr));

    let context = bridge.register(Handler::Audio(Box::new(Sound))).unwrap();
    let delegate = RawAudioDelegate::new(&mut bridge, context, handle(0x31)).unwrap();
    let request = helper.subscribe_delegate(&mut bridge, delegate);
    assert_eq!(request, NativeCall::SubscribeAudio { helper: handle(0x30), delegate: handle(0x31) });
    assert_eq!(helper.subscription_answered(0), Ok(()));

    let mic = helper.set_external_audio_source(&mut bridge, Box::new(Mic)).unwrap();
    let mic_context = CallbackContext { token: 2 };
    assert_eq!(mic, NativeCall::SetExternalAudioSource { helper: handle(0x30), context: mic_context });
    assert_eq!(bridge.kind_of(mic_context), Some(HandlerKind::Microphone));

    let steps = helper.release(&coordinator);
    assert_eq!(
        steps,
        vec![call(NativeCall::UnsubscribeAudio(handle(0x30))), TeardownStep::Release(context), release(2)]
    );
}

#[test]
fn the_audio_helper_unsubscribes_once() {
    let mut bridge = CallbackBridge::new();
    let coordinator = TeardownCoordinator::new();
    let mut helper = AudioRawDataHelper::new(handle(0x30)).unwrap();
    let context = bridge.register(Handler::Audio(Box::new(Sound))).unwrap();
    let delegate = RawAudioDelegate::new(&mut bridge, context, handle(0x31)).unwrap();
    helper.subscribe_delegate(&mut bridge, delegate);
    assert_eq!(helper.subscription_answered(9), Err(ZoomRsError::Sdk(SdkError::NoRecordingInProcess)));
    assert_eq!(helper.unsubscribe_delegate(&coordinator).err(), Some(ZoomRsError::NullPtr));
    helper.subscription_answered(0).unwrap();
    let steps = helper.unsubscribe_delegate(&coordinator).unwrap();
    assert_eq!(steps, vec![call(NativeCall::UnsubscribeAudio(handle(0x30))), TeardownStep::Release(context)]);
    assert_eq!(helper.unsubscribe_delegate(&coordinator).err(), Some(ZoomRsError::NullPtr));
    assert_eq!(helper.release(&coordinator), vec![]);
}

#[test]
fn the_audio_helper_makes_no_request_during_teardown() {
    let mut bridge = CallbackBridge::new();
    let mut coordinator = TeardownCoordinator::new();
    let mut helper = AudioRawDataHelper::new(handle(0x30)).unwrap();
    let context = bridge.register(Handler::Audio(Box::new(Sound))).unwrap();
    let delegate = RawAudioDelegate::new(&mut bridge, context, handle(0x31)).unwrap();
    helper.subscribe_delegate(&mut bridge, delegate);
    helper.subscription_answered(0).unwrap();
    coordinator.mark_teardown_started();
    assert_eq!(helper.unsubscribe_delegate(&coordinator).err(), Some(ZoomRsError::NullPtr));
    let steps = helper.release(&coordinator);
    assert_eq!(steps, vec![TeardownStep::Release(context)]);
    assert_eq!(count_native_calls(&steps), 0);
}

#[test]
fn a_null_audio_delegate_releases_its_handler() {
    let mut bridge = CallbackBridge::new();
    let context = bridge.register(Handler::Audio(Box::new(Sound))).unwrap();
    let r = RawAudioDelegate::new(&mut bridge, context, NativeHandle::null());
    assert_eq!(r.err(), Some(ZoomRsError::NullPtr));
    assert!(!bridge.is_registered(context));
}

fn new_instance() -> Instance {
    init_sdk(SdkInitParam::default(), 0).unwrap()
}

#[test]
fn a_failed_start_gives_no_instance() {
    assert_eq!(init_sdk(SdkInitParam::default(), 4).err(), Some(ZoomRsError::Sdk(SdkError::ModuleLoadFailed)));
    assert_eq!(init_sdk(SdkInitParam::default(), 999).err(), Some(ZoomRsError::Sdk(SdkError::UnexpectedError(999))));
    let instance = new_instance();
    assert!(!instance.is_cleaned_up());
    assert!(!instance.has_meeting() && !instance.has_auth() && !instance.has_setting());
    assert!(instance.needs_meeting() && instance.needs_auth() && instance.needs_setting());
    assert_eq!(instance.can_create_network_connection_helper(), Ok(()));
}

#[test]
fn services_are_made_once_and_kept() {
    let mut instance = new_instance();
    assert_eq!(
        instance.meeting(ZoomSdkResult(2, handle(1))).err(),
        Some(ZoomRsError::Sdk(SdkError::WrongUsage))
    );
    assert!(!instance.has_meeting());
    assert_eq!(instance.meeting(ZoomSdkResult(0, NativeHandle::null())).err(), Some(ZoomRsError::NullPtr));
    assert_eq!(instance.meeting(ZoomSdkResult(0, handle(0x100))).unwrap().native(), handle(0x100));
    assert!(instance.has_meeting());
    assert_eq!(instance.meeting(ZoomSdkResult(7, handle(0x999))).unwrap().native(), handle(0x100));
    assert_eq!(instance.auth(ZoomSdkResult(0, handle(0x200))).unwrap().native(), handle(0x200));
    assert_eq!(instance.setting(ZoomSdkResult(0, handle(0x300))).unwrap().native(), handle(0x300));
    assert_eq!(instance.auth(ZoomSdkResult(0, handle(0x201))).unwrap().native(), handle(0x200));
}

#[test]
fn cleanup_before_the_session_was_active_runs_the_whole_sequence_once() {
    let mut bridge = CallbackBridge::new();
    let mut coordinator = TeardownCoordinator::new();
    let mut instance = new_instance();
    instance.meeting(ZoomSdkResult(0, handle(0x100))).unwrap();
    instance.auth(ZoomSdkResult(0, handle(0x200))).unwrap();
    instance.setting(ZoomSdkResult(0, handle(0x300))).unwrap();
    instance.create_network_connection_helper(ZoomSdkResult(0, handle(0x400))).unwrap();
    assert!(!coordinator.was_active());

    let steps = instance.cleanup(&coordinator);
    assert_eq!(
        steps,
        vec![
            call(NativeCall::DestroyMeetingService(handle(0x100))),
            call(NativeCall::DestroyAuthService(handle(0x200))),
            call(NativeCall::DestroySettingService(handle(0x300))),
            call(NativeCall::DestroyNetworkConnectionHelper(handle(0x400))),
            TeardownStep::MarkTeardownStarted,
            call(NativeCall::CleanUpSdk),
        ]
    );
    assert!(instance.is_cleaned_up());
    assert!(!coordinator.is_tearing_down());

    // The flag is set by its own step: after the helper's destroy, before
    // the release of the engine.
    let mut engine = Vec::new();
    for step in &steps {
        let before = coordinator.is_tearing_down();
        let done = perform_step(*step, &mut bridge, &mut coordinator);
        match step {
            TeardownStep::MarkTeardownStarted => {
                assert_eq!(done, Performed { call: None, wake: false });
                assert!(!before && coordinator.is_tearing_down());
                assert_eq!(engine.last(), Some(&NativeCall::DestroyNetworkConnectionHelper(handle(0x400))));
            }
            TeardownStep::Call(NativeCall::CleanUpSdk) => {
                assert!(before);
                engine.push(done.call.unwrap());
            }
            _ => {
                assert!(!before && !coordinator.is_tearing_down());
                engine.push(done.call.unwrap());
            }
        }
    }
    assert!(coordinator.is_tearing_down());
    assert_eq!(engine.len(), 5);
    assert_eq!(engine.last(), Some(&NativeCall::CleanUpSdk));

    for _ in 0..3 {
        let again = instance.cleanup(&coordinator);
        assert!(again.is_empty());
        perform(&again, &mut bridge, &mut coordinator, &mut engine).unwrap();
    }
    assert!(instance.scope_exit(&coordinator).is_empty());
    assert_eq!(engine.len(), 5);
    assert_eq!(engine.iter().filter(|c| **c == NativeCall::CleanUpSdk).count(), 1);
}

#[test]
fn cleanup_of_a_bare_instance_releases_the_engine_only() {
    let mut coordinator = TeardownCoordinator::new();
    let mut instance = new_instance();
    let steps = instance.cleanup(&coordinator);
    assert_eq!(steps, vec![TeardownStep::MarkTeardownStarted, call(NativeCall::CleanUpSdk)]);
    assert!(instance.cleanup(&coordinator).is_empty());
    let mut bridge = CallbackBridge::new();
    let mut engine = Vec::new();
    assert_eq!(perform(&steps, &mut bridge, &mut coordinator, &mut engine), Ok(()));
    assert!(coordinator.is_tearing_down());
    assert_eq!(engine, vec![NativeCall::CleanUpSdk]);
}

#[test]
fn cleanup_after_the_engine_disconnected_makes_no_request() {
    let log = new_log();
    let mut bridge = CallbackBridge::new();
    let mut coordinator = TeardownCoordinator::new();
    let mut instance = new_instance();
    let request = instance
        .meeting(ZoomSdkResult(0, handle(0x100)))
        .unwrap()
        .set_event(&mut bridge, Box::new(Meeting { log: log.clone() }))
        .unwrap();
    let context = CallbackContext { token: 1 };
    assert_eq!(request, NativeCall::SetMeetingEvent { service: handle(0x100), context });
    instance.auth(ZoomSdkResult(0, handle(0x200))).unwrap();
    instance.create_network_connection_helper(ZoomSdkResult(0, handle(0x400))).unwrap();

    assert!(!on_meeting_status_changed(&mut bridge, &mut coordinator, context, 3, 0));
    assert!(coordinator.was_active());
    assert!(!coordinator.is_tearing_down());
    assert!(!on_meeting_status_changed(&mut bridge, &mut coordinator, context, 4, 0));
    assert!(coordinator.is_tearing_down());
    assert_eq!(
        *log.lock().unwrap(),
        vec!["MeetingStatusInMeeting 0".to_string(), "MeetingStatusDisconnecting 0".to_string()]
    );

    let steps = instance.cleanup(&coordinator);
    assert_eq!(steps, vec![TeardownStep::Release(context)]);
    assert_eq!(count_native_calls(&steps), 0);
    let mut engine = Vec::new();
    perform(&steps, &mut bridge, &mut coordinator, &mut engine).unwrap();
    assert!(engine.is_empty());
    assert!(!bridge.is_registered(context));
    assert!(instance.is_cleaned_up());
    assert!(coordinator.is_tearing_down());
    assert!(instance.cleanup(&coordinator).is_empty());
}

#[test]
fn the_status_callback_wakes_a_registered_loop() {
    let mut bridge = CallbackBridge::new();
    let mut coordinator = TeardownCoordinator::new();
    coordinator.register_event_loop();
    let nobody = CallbackContext { token: 9 };
    assert!(!on_meeting_status_changed(&mut bridge, &mut coordinator, nobody, 7, 0));
    assert!(!coordinator.is_tearing_down());
    assert!(on_meeting_status_changed(&mut bridge, &mut coordinator, nobody, 4, 0));
    assert!(coordinator.is_tearing_down());
    assert!(!coordinator.was_active());
}

#[test]
fn a_cleaned_up_instance_makes_nothing() {
    let mut coordinator = TeardownCoordinator::new();
    let mut instance = new_instance();
    instance.cleanup(&coordinator);
    assert!(!instance.needs_meeting() && !instance.needs_auth() && !instance.needs_setting());
    assert_eq!(instance.can_create_network_connection_helper(), Err(ZoomRsError::NullPtr));
    assert_eq!(instance.meeting(ZoomSdkResult(0, handle(1))).err(), Some(ZoomRsError::NullPtr));
    assert_eq!(instance.auth(ZoomSdkResult(0, handle(1))).err(), Some(ZoomRsError::NullPtr));
    assert_eq!(instance.setting(ZoomSdkResult(0, handle(1))).err(), Some(ZoomRsError::NullPtr));
    assert_eq!(
        instance.create_network_connection_helper(ZoomSdkResult(0, handle(1))),
        Err(ZoomRsError::NullPtr)
    );
    assert!(!instance.has_meeting());
}

#[test]
fn there_is_one_network_connection_helper() {
    let mut coordinator = TeardownCoordinator::new();
    let mut instance = new_instance();
    assert_eq!(instance.destroy_network_connection_helper(&coordinator), Err(ZoomRsError::NullPtr));
    assert_eq!(
        instance.create_network_connection_helper(ZoomSdkResult(6, handle(1))),
        Err(ZoomRsError::Sdk(SdkError::ServiceFailed))
    );
    assert_eq!(
        instance.create_network_connection_helper(ZoomSdkResult(0, NativeHandle::null())),
        Err(ZoomRsError::NullPtr)
    );
    assert_eq!(instance.create_network_connection_helper(ZoomSdkResult(0, handle(0x400))), Ok(()));
    assert_eq!(instance.can_create_network_connection_helper(), Err(ZoomRsError::AlreadyExists));
    assert_eq!(
        instance.create_network_connection_helper(ZoomSdkResult(0, handle(0x401))),
        Err(ZoomRsError::AlreadyExists)
    );
    assert_eq!(
        instance.destroy_network_connection_helper(&coordinator),
        Ok(NativeCall::DestroyNetworkConnectionHelper(handle(0x400)))
    );
    assert_eq!(
        instance.network_connection_helper_destroyed(2),
        Err(ZoomRsError::Sdk(SdkError::WrongUsage))
    );
    assert!(instance.has_network_connection_helper());
    assert_eq!(instance.network_connection_helper_destroyed(0), Ok(()));
    assert!(!instance.has_network_connection_helper());
    assert_eq!(instance.create_network_connection_helper(ZoomSdkResult(0, handle(0x402))), Ok(()));
    coordinator.mark_teardown_started();
    assert_eq!(instance.destroy_network_connection_helper(&coordinator), Err(ZoomRsError::NullPtr));
}

#[test]
fn switching_the_domain_needs_success() {
    let mut instance = new_instance();
    assert_eq!(
        instance.switch_domain("https://zoom.us".to_string(), 3),
        Err(ZoomRsError::Sdk(SdkError::InvalidParameter))
    );
    assert_eq!(instance.switch_domain("https://zoom.us".to_string(), 0), Ok(()));
}

#[test]
fn clearing_a_service_takes_it_down_alone() {
    let mut bridge = CallbackBridge::new();
    let coordinator = TeardownCoordinator::new();
    let mut instance = new_instance();
    assert!(instance.clear_meeting(&coordinator).is_empty());
    instance.meeting(ZoomSdkResult(0, handle(0x100))).unwrap();
    instance.auth(ZoomSdkResult(0, handle(0x200))).unwrap().set_event(&mut bridge, Box::new(Quiet)).unwrap();
    instance.setting(ZoomSdkResult(0, handle(0x300))).unwrap();
    assert_eq!(instance.clear_meeting(&coordinator), vec![call(NativeCall::DestroyMeetingService(handle(0x100)))]);
    assert!(!instance.has_meeting());
    assert!(instance.has_auth());
    assert_eq!(
        instance.clear_auth(&coordinator),
        vec![call(NativeCall::DestroyAuthService(handle(0x200))), release(1)]
    );
    assert_eq!(instance.clear_setting(&coordinator), vec![call(NativeCall::DestroySettingService(handle(0x300)))]);
    assert!(instance.clear_setting(&coordinator).is_empty());
    assert_eq!(
        instance.cleanup(&coordinator),
        vec![TeardownStep::MarkTeardownStarted, call(NativeCall::CleanUpSdk)]
    );
}

#[test]
fn the_meeting_service_releases_every_handler_it_installed() {
    let mut bridge = CallbackBridge::new();
    let mut coordinator = TeardownCoordinator::new();
    let mut service = MeetingService::new(ZoomSdkResult(0, handle(0x100))).unwrap();
    service.set_event(&mut bridge, Box::new(Meeting { log: new_log() })).unwrap();
    assert!(!service.has_recording_ctrl());
    assert_eq!(service.recording_ctrl(NativeHandle::null()).err(), Some(ZoomRsError::NullPtr));
    let request = service.recording_ctrl(handle(0x110)).unwrap().set_event(&mut bridge, Box::new(Quiet)).unwrap();
    assert_eq!(
        request,
        NativeCall::SetRecordingEvent { controller: handle(0x110), context: CallbackContext { token: 2 } }
    );
    assert!(service.has_recording_ctrl());
    assert_eq!(service.recording_ctrl(NativeHandle::null()).unwrap().native(), handle(0x110));
    let request = service.sharing_ctrl(handle(0x120)).unwrap().set_event(&mut bridge, Box::new(Quiet)).unwrap();
    assert_eq!(
        request,
        NativeCall::SetSharingEvent { controller: handle(0x120), context: CallbackContext { token: 3 } }
    );
    assert_eq!(service.chat(handle(0x130)).unwrap().native(), handle(0x130));
    assert_eq!(service.participants(handle(0x140)).unwrap().native(), handle(0x140));
    assert!(service.has_chat() && service.has_participants() && service.has_sharing_ctrl());

    assert_eq!(service.set_webcam_injection(&mut bridge, None), Ok(()));
    let camera = bridge.register(Handler::Webcam(Box::new(Quiet))).unwrap();
    assert_eq!(service.set_webcam_injection(&mut bridge, Some((camera, 0))), Ok(()));
    let refused = bridge.register(Handler::Webcam(Box::new(Quiet))).unwrap();
    assert_eq!(
        service.set_webcam_injection(&mut bridge, Some((refused, 1))),
        Err(ZoomRsError::Sdk(SdkError::NoImpl))
    );
    assert!(bridge.is_registered(refused));
    assert!(!bridge.is_registered(camera));
    let unknown = bridge.register(Handler::Webcam(Box::new(Quiet))).unwrap();
    assert_eq!(
        service.set_webcam_injection(&mut bridge, Some((unknown, 500))),
        Err(ZoomRsError::Sdk(SdkError::UnexpectedError(500)))
    );
    assert!(bridge.is_registered(unknown));
    assert!(!bridge.is_registered(refused));

    let replaced = service.set_event(&mut bridge, Box::new(Meeting { log: new_log() })).unwrap();
    assert_eq!(
        replaced,
        NativeCall::SetMeetingEvent { service: handle(0x100), context: CallbackContext { token: 7 } }
    );
    assert!(!bridge.is_registered(CallbackContext { token: 1 }));

    let steps = service.release(&coordinator);
    assert_eq!(
        steps,
        vec![call(NativeCall::DestroyMeetingService(handle(0x100))), release(7), release(2), release(3), release(6)]
    );
    let mut engine = Vec::new();
    perform(&steps, &mut bridge, &mut coordinator, &mut engine).unwrap();
    assert_eq!(bridge.len(), 0);
    coordinator.mark_teardown_started();
    let service = MeetingService::new(ZoomSdkResult(0, handle(0x100))).unwrap();
    assert!(service.release(&coordinator).is_empty());
}

#[test]
fn cleanup_sdk_consumes_the_instance() {
    let mut coordinator = TeardownCoordinator::new();
    let mut instance = new_instance();
    instance.setting(ZoomSdkResult(0, handle(0x300))).unwrap();
    let steps = cleanup_sdk(instance, &coordinator);
    assert_eq!(
        steps,
        vec![
            call(NativeCall::DestroySettingService(handle(0x300))),
            TeardownStep::MarkTeardownStarted,
            call(NativeCall::CleanUpSdk),
        ]
    );
    let mut bridge = CallbackBridge::new();
    let mut report = TeardownReport::new();
    assert_eq!(report.result(), Ok(()));
    for step in &steps {
        if let Some(request) = perform_step(*step, &mut bridge, &mut coordinator).call {
            let status = if request == NativeCall::CleanUpSdk { 7 } else { 3 };
            report.record(request, status);
        }
    }
    assert!(coordinator.is_tearing_down());
    assert_eq!(report.result(), Err(ZoomRsError::Sdk(SdkError::Uninitialize)));
}

#[test]
fn an_instance_moves_forward_through_its_states() {
    let mut coordinator = TeardownCoordinator::new();
    let mut instance = new_instance();
    assert_eq!(instance.state(&coordinator), InstanceState::Created);
    coordinator.mark_entered_active_state();
    assert_eq!(instance.state(&coordinator), InstanceState::Active);
    coordinator.mark_teardown_started();
    assert_eq!(instance.state(&coordinator), InstanceState::EngineTeardown);
    instance.cleanup(&coordinator);
    assert_eq!(instance.state(&coordinator), InstanceState::CleanedUp);

    let mut coordinator = TeardownCoordinator::new();
    let mut instance = new_instance();
    instance.cleanup(&coordinator);
    assert_eq!(instance.state(&coordinator), InstanceState::CleanedUp);
    assert_eq!(instance.state(&TeardownCoordinator::new()), InstanceState::CleanedUp);
}
