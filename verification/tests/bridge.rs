use std::sync::{Arc, Mutex};

use zoom_sdk_linux_rs::bridge::{CallbackBridge, Delivery, Handler, HandlerKind};
use zoom_sdk_linux_rs::native::{CallbackContext, NativeHandle};
use zoom_sdk_linux_rs::rawdata::audio::{
    on_mic_initialize, on_mic_start_send, on_mic_stop_send, on_mic_uninitialized,
    answer_or_neutral, on_mixed_audio_raw_data, on_one_way_audio_raw_data, on_share_audio_raw_data,
    AudioRawDataSenderInterface, ExportedAudioRawData, RawAudioEvent, VirtualAudioMicEvent,
    NEUTRAL_ANSWER,
};
use zoom_sdk_linux_rs::rawdata::video::{
    on_raw_data_frame_received, on_raw_data_status_changed, on_renderer_be_destroyed,
    ExportedVideoRawData, RawVideoEvent,
};
use zoom_sdk_linux_rs::services::meeting_service::webcam_interface::{
    new_webcam_injection_boitlerplate, video_source_started, video_source_stopped, CamInterface,
    VideoToWebcam,
};
use zoom_sdk_linux_rs::{SdkError, ZoomRsError};

type Log = Arc<Mutex<Vec<String>>>;

struct Video {
    log: Log,
}

impl RawVideoEvent for Video {
    fn on_raw_data_frame_received(&mut self, data: &ExportedVideoRawData) {
        self.log.lock().unwrap().push(format!("frame {}x{} {}", data.width, data.height, data.data.len()));
    }

    fn on_raw_data_status_changed(&mut self, status: bool, time: i64) {
        self.log.lock().unwrap().push(format!("status {} {}", status, time));
    }

    fn on_renderer_be_destroyed(&mut self, time: i64) {
        self.log.lock().unwrap().push(format!("destroyed {}", time));
    }

    fn flush(&mut self) {
        self.log.lock().unwrap().push("flush".to_string());
    }
}

struct Audio {
    count: Arc<Mutex<u32>>,
    answer: i32,
}

impl RawAudioEvent for Audio {
    fn on_mixed_audio_raw_data(&mut self, _data: &ExportedAudioRawData) -> i32 {
        *self.count.lock().unwrap() += 1;
        self.answer
    }

    fn on_one_way_audio_raw_data(&mut self, _data: &ExportedAudioRawData, user_id: u32) -> i32 {
        *self.count.lock().unwrap() += 1;
        user_id as i32
    }

    fn on_share_audio_raw_data(&mut self, _data: &ExportedAudioRawData) -> i32 {
        *self.count.lock().unwrap() += 1;
        self.answer + 1
    }

    fn flush(&mut self) {
        *self.count.lock().unwrap() += 1000;
    }
}

struct Mic {
    log: Log,
}

impl VirtualAudioMicEvent for Mic {
    fn on_mic_initialize(&mut self, sender: AudioRawDataSenderInterface) {
        self.log.lock().unwrap().push(format!("init {}", sender.0.addr));
    }

    fn on_mic_start_send(&mut self) {
        self.log.lock().unwrap().push("start".to_string());
    }

    fn on_mic_stop_send(&mut self) {
        self.log.lock().unwrap().push("stop".to_string());
    }

    fn on_mic_uninitialized(&mut self) {
        self.log.lock().unwrap().push("uninit".to_string());
    }
}

struct Cam {
    log: Log,
}

impl VideoToWebcam for Cam {
    fn on_video_source_started(&mut self, interface: CamInterface) {
        self.log.lock().unwrap().push(format!("started {}", interface.0.addr));
    }

    fn on_video_source_stopped(&mut self) {
        self.log.lock().unwrap().push("stopped".to_string());
    }
}

fn new_log() -> Log {
    Arc::new(Mutex::new(Vec::new()))
}

fn frame() -> ExportedVideoRawData {
    ExportedVideoRawData { data: vec![1, 2, 3], width: 640, height: 480, time: 9 }
}

fn buffer() -> ExportedAudioRawData {
    ExportedAudioRawData { data: vec![0; 8], sample_rate: 32000, channel_num: 1 }
}

#[test]
fn tokens_rise_from_one_and_are_not_reused() {
    let mut bridge = CallbackBridge::new();
    assert_eq!(bridge.len(), 0);
    let a = bridge.register(Handler::Video(Box::new(Video { log: new_log() }))).unwrap();
    let b = bridge.register(Handler::Video(Box::new(Video { log: new_log() }))).unwrap();
    assert_eq!(a, CallbackContext { token: 1 });
    assert_eq!(b, CallbackContext { token: 2 });
    assert!(bridge.unregister(a));
    assert!(!bridge.is_registered(a));
    assert!(bridge.is_registered(b));
    let c = bridge.register(Handler::Video(Box::new(Video { log: new_log() }))).unwrap();
    assert_eq!(c, CallbackContext { token: 3 });
    assert!(!bridge.is_registered(a));
    assert_eq!(bridge.len(), 2);
}

#[test]
fn token_zero_names_nothing() {
    let mut bridge = CallbackBridge::new();
    let null = CallbackContext { token: 0 };
    assert!(!bridge.is_registered(null));
    assert!(!bridge.unregister(null));
    bridge.register(Handler::Video(Box::new(Video { log: new_log() }))).unwrap();
    assert!(!bridge.is_registered(null));
    assert_eq!(bridge.kind_of(null), None);
    assert_eq!(on_raw_data_status_changed(&mut bridge, null, true, 1), Delivery::NoHandler);
    assert_eq!(bridge.len(), 1);
}

#[test]
fn unregister_flushes_before_it_releases() {
    let log = new_log();
    let mut bridge = CallbackBridge::new();
    let a = bridge.register(Handler::Video(Box::new(Video { log: log.clone() }))).unwrap();
    assert_eq!(on_raw_data_status_changed(&mut bridge, a, true, 5), Delivery::Delivered);
    assert!(bridge.unregister(a));
    assert_eq!(*log.lock().unwrap(), vec!["status true 5".to_string(), "flush".to_string()]);
    assert!(!bridge.unregister(a));
    assert_eq!(log.lock().unwrap().len(), 2);
}

#[test]
fn a_released_token_reaches_no_handler() {
    let log = new_log();
    let mut bridge = CallbackBridge::new();
    let a = bridge.register(Handler::Video(Box::new(Video { log: log.clone() }))).unwrap();
    bridge.unregister(a);
    log.lock().unwrap().clear();
    assert_eq!(on_raw_data_frame_received(&mut bridge, a, Some(&frame())), Delivery::NoHandler);
    assert_eq!(on_raw_data_status_changed(&mut bridge, a, false, 1), Delivery::NoHandler);
    assert_eq!(on_renderer_be_destroyed(&mut bridge, a, 2), Delivery::NoHandler);
    assert!(log.lock().unwrap().is_empty());
}

#[test]
fn a_null_frame_is_not_delivered() {
    let log = new_log();
    let mut bridge = CallbackBridge::new();
    let a = bridge.register(Handler::Video(Box::new(Video { log: log.clone() }))).unwrap();
    assert_eq!(on_raw_data_frame_received(&mut bridge, a, None), Delivery::NothingToDeliver);
    assert!(log.lock().unwrap().is_empty());
    assert_eq!(on_raw_data_frame_received(&mut bridge, a, Some(&frame())), Delivery::Delivered);
    assert_eq!(*log.lock().unwrap(), vec!["frame 640x480 3".to_string()]);
    assert_eq!(on_renderer_be_destroyed(&mut bridge, a, 77), Delivery::Delivered);
    assert_eq!(log.lock().unwrap()[1], "destroyed 77");
}

#[test]
fn a_null_audio_buffer_answers_zero() {
    let count = Arc::new(Mutex::new(0u32));
    let mut bridge = CallbackBridge::new();
    let a = bridge.register(Handler::Audio(Box::new(Audio { count: count.clone(), answer: 42 }))).unwrap();
    assert_eq!(on_mixed_audio_raw_data(&mut bridge, a, None), (0, Delivery::NothingToDeliver));
    assert_eq!(on_one_way_audio_raw_data(&mut bridge, a, None, 5), (0, Delivery::NothingToDeliver));
    assert_eq!(on_share_audio_raw_data(&mut bridge, a, None), (0, Delivery::NothingToDeliver));
    assert_eq!(*count.lock().unwrap(), 0);
    assert_eq!(on_mixed_audio_raw_data(&mut bridge, a, Some(&buffer())), (42, Delivery::Delivered));
    assert_eq!(on_one_way_audio_raw_data(&mut bridge, a, Some(&buffer()), 5), (5, Delivery::Delivered));
    assert_eq!(on_share_audio_raw_data(&mut bridge, a, Some(&buffer())), (43, Delivery::Delivered));
    assert_eq!(*count.lock().unwrap(), 3);
    bridge.unregister(a);
    assert_eq!(on_mixed_audio_raw_data(&mut bridge, a, Some(&buffer())), (0, Delivery::NoHandler));
    assert_eq!(on_mixed_audio_raw_data(&mut bridge, a, None), (0, Delivery::NothingToDeliver));
}

#[test]
fn a_handler_of_another_kind_is_not_called() {
    let log = new_log();
    let count = Arc::new(Mutex::new(0u32));
    let mut bridge = CallbackBridge::new();
    let v = bridge.register(Handler::Video(Box::new(Video { log: log.clone() }))).unwrap();
    let a = bridge.register(Handler::Audio(Box::new(Audio { count: count.clone(), answer: 1 }))).unwrap();
    assert_eq!(bridge.kind_of(v), Some(HandlerKind::Video));
    assert_eq!(bridge.kind_of(a), Some(HandlerKind::Audio));
    assert_eq!(on_mixed_audio_raw_data(&mut bridge, v, Some(&buffer())), (0, Delivery::NoHandler));
    assert_eq!(on_raw_data_status_changed(&mut bridge, a, true, 1), Delivery::NoHandler);
    assert!(log.lock().unwrap().is_empty());
    assert_eq!(*count.lock().unwrap(), 0);
}

#[test]
fn callbacks_of_two_registrations_do_not_mix() {
    let first = Arc::new(Mutex::new(0u32));
    let second = Arc::new(Mutex::new(0u32));
    let mut bridge = CallbackBridge::new();
    let a = bridge.register(Handler::Audio(Box::new(Audio { count: first.clone(), answer: 1 }))).unwrap();
    let b = bridge.register(Handler::Audio(Box::new(Audio { count: second.clone(), answer: 2 }))).unwrap();
    for i in 0..1000u32 {
        assert_eq!(on_mixed_audio_raw_data(&mut bridge, a, Some(&buffer())), (1, Delivery::Delivered));
        if i % 2 == 0 {
            assert_eq!(on_mixed_audio_raw_data(&mut bridge, b, Some(&buffer())), (2, Delivery::Delivered));
        }
    }
    assert_eq!(*first.lock().unwrap(), 1000);
    assert_eq!(*second.lock().unwrap(), 500);
}

#[test]
fn a_null_sender_is_not_handed_to_the_microphone() {
    let log = new_log();
    let mut bridge = CallbackBridge::new();
    let m = bridge.register(Handler::Microphone(Box::new(Mic { log: log.clone() }))).unwrap();
    assert_eq!(on_mic_initialize(&mut bridge, m, NativeHandle::null()), Delivery::NothingToDeliver);
    assert!(log.lock().unwrap().is_empty());
    assert_eq!(on_mic_initialize(&mut bridge, m, NativeHandle { addr: 64 }), Delivery::Delivered);
    assert_eq!(on_mic_start_send(&mut bridge, m), Delivery::Delivered);
    assert_eq!(on_mic_stop_send(&mut bridge, m), Delivery::Delivered);
    assert_eq!(on_mic_uninitialized(&mut bridge, m), Delivery::Delivered);
    assert_eq!(on_mic_start_send(&mut bridge, CallbackContext { token: 9 }), Delivery::NoHandler);
    assert_eq!(*log.lock().unwrap(), vec!["init 64", "start", "stop", "uninit"]);
}

#[test]
fn replace_releases_the_earlier_registration() {
    let old_log = new_log();
    let mut bridge = CallbackBridge::new();
    let a = bridge.register(Handler::Video(Box::new(Video { log: old_log.clone() }))).unwrap();
    let b = bridge.replace(Some(a), Handler::Video(Box::new(Video { log: new_log() }))).unwrap();
    assert_eq!(b, CallbackContext { token: 2 });
    assert!(!bridge.is_registered(a));
    assert!(bridge.is_registered(b));
    assert_eq!(*old_log.lock().unwrap(), vec!["flush".to_string()]);
    let c = bridge.replace(None, Handler::Video(Box::new(Video { log: new_log() }))).unwrap();
    assert_eq!(c, CallbackContext { token: 3 });
    assert_eq!(bridge.len(), 2);
}

#[test]
fn a_refused_webcam_keeps_its_registration() {
    let log = new_log();
    let mut bridge = CallbackBridge::new();
    let c = bridge.register(Handler::Webcam(Box::new(Cam { log: log.clone() }))).unwrap();
    assert_eq!(new_webcam_injection_boitlerplate(c, 0), Ok(c));
    assert_eq!(video_source_started(&mut bridge, c, NativeHandle::null()), Delivery::NothingToDeliver);
    assert!(log.lock().unwrap().is_empty());
    assert_eq!(video_source_started(&mut bridge, c, NativeHandle { addr: 8 }), Delivery::Delivered);
    assert_eq!(video_source_stopped(&mut bridge, c), Delivery::Delivered);
    assert_eq!(*log.lock().unwrap(), vec!["started 8", "stopped"]);
    assert_eq!(new_webcam_injection_boitlerplate(c, 2), Err(ZoomRsError::Sdk(SdkError::WrongUsage)));
    assert_eq!(
        new_webcam_injection_boitlerplate(c, 4000),
        Err(ZoomRsError::Sdk(SdkError::UnexpectedError(4000)))
    );
    assert!(bridge.is_registered(c));
}

fn must_be_send<T: Send>(_value: &T) {}

#[test]
fn the_bridge_can_be_handed_to_another_thread() {
    let mut bridge = CallbackBridge::new();
    bridge.register(Handler::Video(Box::new(Video { log: new_log() }))).unwrap();
    must_be_send(&bridge);
    let shared = Mutex::new(bridge);
    let a = CallbackContext { token: 1 };
    on_raw_data_status_changed(&mut shared.lock().unwrap(), a, true, 3);
    assert_eq!(shared.lock().unwrap().len(), 1);
}

#[test]
fn a_table_stays_well_formed() {
    let mut bridge = CallbackBridge::new();
    assert!(bridge.is_well_formed());
    let a = bridge.register(Handler::Video(Box::new(Video { log: new_log() }))).unwrap();
    let b = bridge.register(Handler::Audio(Box::new(Audio { count: Arc::new(Mutex::new(0)), answer: 0 }))).unwrap();
    let c = bridge.register(Handler::Microphone(Box::new(Mic { log: new_log() }))).unwrap();
    assert!(bridge.is_well_formed());
    bridge.unregister(b);
    assert!(bridge.is_well_formed());
    bridge.replace(Some(a), Handler::Webcam(Box::new(Cam { log: new_log() }))).unwrap();
    assert!(bridge.is_well_formed());
    assert_eq!(bridge.kind_of(c), Some(HandlerKind::Microphone));
    assert_eq!(bridge.kind_of(CallbackContext { token: 4 }), Some(HandlerKind::Webcam));
    assert_eq!(bridge.len(), 2);
}

#[test]
fn a_handler_is_flushed_by_its_kind() {
    let log = new_log();
    let count = Arc::new(Mutex::new(0u32));
    let mut video = Handler::Video(Box::new(Video { log: log.clone() }));
    let mut audio = Handler::Audio(Box::new(Audio { count: count.clone(), answer: 0 }));
    let mut mic = Handler::Microphone(Box::new(Mic { log: log.clone() }));
    video.flush();
    audio.flush();
    mic.flush();
    assert_eq!(*log.lock().unwrap(), vec!["flush".to_string()]);
    assert_eq!(*count.lock().unwrap(), 1000);
    assert_eq!(video.kind(), HandlerKind::Video);
    assert_eq!(audio.kind(), HandlerKind::Audio);
    assert_eq!(mic.kind(), HandlerKind::Microphone);
}

#[test]
fn the_neutral_answer_is_zero() {
    assert_eq!(NEUTRAL_ANSWER, 0);
    assert_eq!(answer_or_neutral(None), 0);
    assert_eq!(answer_or_neutral(Some(-7)), -7);
    assert_eq!(answer_or_neutral(Some(i32::MAX)), i32::MAX);
}
