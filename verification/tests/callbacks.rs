use std::sync::{Arc, Mutex};

use zoom_sdk_linux_rs::bridge::{CallbackBridge, Delivery, Handler};
use zoom_sdk_linux_rs::native::{CallbackContext, NativeHandle};
use zoom_sdk_linux_rs::services::auth_service::{
    account_info_from_ptr_accountinfo, auth_on_authentification_return, auth_on_login_return_with_reason,
    auth_on_logout, auth_on_zoom_auth_identity_expired, auth_on_zoom_identity_expired, AccountInfo,
    AuthResult, AuthServiceEvent, LoginFailReason, LoginStatus,
};
use zoom_sdk_linux_rs::services::meeting_service::recording_controller::{
    on_recording_privilege_changed, on_recording_privilege_request_status, on_recording_status,
    RecordingControllerEvent, RecordingStatus, RequestLocalRecordingStatus,
};
use zoom_sdk_linux_rs::services::meeting_service::sharing_controller::{
    on_lock_share_status, on_multi_share_switch_to_single_share_need_confirm,
    on_share_content_notification, on_share_setting_type_changed_notification, on_shared_video_ended,
    on_sharing_status, on_video_file_share_play_error, ShareInfo, ShareSwitchMultitoSingleConfirmHandler,
    SharingControllerEvent, SharingPlayError, SharingSettingType, SharingStatus,
};
use zoom_sdk_linux_rs::services::meeting_service::{
    on_ai_companion_active_change_notice, on_meeting_full_to_watch_live_stream,
    on_meeting_parameter_notification, on_meeting_statistics_warning_notification,
    on_meeting_topic_changed, on_suspend_participants_activities, MeetingParameter, MeetingServiceEvent,
    StatisticsWarningType,
};

type Log = Arc<Mutex<Vec<String>>>;

struct Listener {
    log: Log,
}

impl Listener {
    fn boxed(log: &Log) -> Box<Listener> {
        Box::new(Listener { log: log.clone() })
    }

    fn say(&self, what: String) {
        self.log.lock().unwrap().push(what);
    }
}

impl MeetingServiceEvent for Listener {
    fn on_meeting_statistics_warning_notification(&mut self, warn_type: StatisticsWarningType) {
        self.say(format!("warning {:?}", warn_type));
    }

    fn on_meeting_parameter_notification(&mut self, meeting_param: &MeetingParameter) {
        self.say(format!("parameter {} {:?}", meeting_param.meeting_number, meeting_param.meeting_topic));
    }

    fn on_suspend_participants_activities(&mut self) {
        self.say("suspended".to_string());
    }

    fn on_ai_companion_active_change_notice(&mut self, active: bool) {
        self.say(format!("companion {}", active));
    }

    fn on_meeting_topic_changed(&mut self, topic: &str) {
        self.say(format!("topic {}", topic));
    }

    fn on_meeting_full_to_watch_live_stream(&mut self, url: &str) {
        self.say(format!("full {}", url));
    }
}

impl AuthServiceEvent for Listener {
    fn on_authentification_return(&mut self, ret: AuthResult) {
        self.say(format!("auth {:?}", ret));
    }

    fn on_login_return_with_reason(
        &mut self,
        ret: LoginStatus,
        account_info: Option<AccountInfo>,
        reason: Option<LoginFailReason>,
    ) {
        let name = account_info.and_then(|a| a.get_display_name().map(|n| n.to_string()));
        self.say(format!("login {:?} {:?} {:?}", ret, name, reason));
    }

    fn on_logout(&mut self) {
        self.say("logout".to_string());
    }

    fn on_zoom_identity_expired(&mut self) {
        self.say("identity expired".to_string());
    }

    fn on_zoom_auth_identity_expired(&mut self) {
        self.say("auth expires".to_string());
    }
}

impl RecordingControllerEvent for Listener {
    fn on_recording_privilege_request_status(&mut self, status: RequestLocalRecordingStatus) {
        self.say(format!("request {:?}", status));
    }

    fn on_recording_status(&mut self, status: RecordingStatus, time: i64) {
        self.say(format!("recording {:?} {}", status, time));
    }

    fn on_recording_privilege_changed(&mut self, can_rec: bool) {
        self.say(format!("privilege {}", can_rec));
    }
}

impl SharingControllerEvent for Listener {
    fn on_sharing_status(&mut self, status: SharingStatus, user_id: u32) {
        self.say(format!("sharing {:?} {}", status, user_id));
    }

    fn on_lock_share_status(&mut self, locked: bool) {
        self.say(format!("locked {}", locked));
    }

    fn on_share_content_notification(&mut self, share_info: &ShareInfo) {
        self.say(format!("content {} {}", share_info.share_source_id, share_info.user_id));
    }

    fn on_multi_share_switch_to_single_share_need_confirm(
        &mut self,
        handler: &ShareSwitchMultitoSingleConfirmHandler,
    ) {
        self.say(format!("confirm {}", handler.0.addr));
    }

    fn on_share_setting_type_changed_notification(&mut self, kind: SharingSettingType) {
        self.say(format!("setting {:?}", kind));
    }

    fn on_shared_video_ended(&mut self) {
        self.say("video ended".to_string());
    }

    fn on_video_file_share_play_error(&mut self, error: SharingPlayError) {
        self.say(format!("play error {:?}", error));
    }
}

fn new_log() -> Log {
    Arc::new(Mutex::new(Vec::new()))
}

fn nobody() -> CallbackContext {
    CallbackContext { token: 77 }
}

#[test]
fn meeting_callbacks_reach_the_meeting_handler() {
    let log = new_log();
    let mut bridge = CallbackBridge::new();
    let c = bridge.register(Handler::Meeting(Listener::boxed(&log))).unwrap();
    let param = MeetingParameter {
        meeting_type: 1,
        is_view_only: false,
        is_auto_recording_local: false,
        is_auto_recording_cloud: true,
        meeting_number: 815,
        meeting_topic: Some("plans"),
        meeting_host: None,
    };
    assert_eq!(on_meeting_statistics_warning_notification(&mut bridge, c, 1), Delivery::Delivered);
    assert_eq!(on_meeting_statistics_warning_notification(&mut bridge, c, 9), Delivery::Delivered);
    assert_eq!(on_meeting_parameter_notification(&mut bridge, c, Some(&param)), Delivery::Delivered);
    assert_eq!(on_meeting_parameter_notification(&mut bridge, c, None), Delivery::NothingToDeliver);
    assert_eq!(on_suspend_participants_activities(&mut bridge, c), Delivery::Delivered);
    assert_eq!(on_ai_companion_active_change_notice(&mut bridge, c, 0), Delivery::Delivered);
    assert_eq!(on_ai_companion_active_change_notice(&mut bridge, c, -3), Delivery::Delivered);
    assert_eq!(on_meeting_topic_changed(&mut bridge, c, Some("new")), Delivery::Delivered);
    assert_eq!(on_meeting_topic_changed(&mut bridge, c, None), Delivery::NothingToDeliver);
    assert_eq!(on_meeting_full_to_watch_live_stream(&mut bridge, c, Some("https://live")), Delivery::Delivered);
    assert_eq!(on_meeting_full_to_watch_live_stream(&mut bridge, c, None), Delivery::NothingToDeliver);
    assert_eq!(
        *log.lock().unwrap(),
        vec![
            "warning WarningNetworkQualityBad",
            "warning Unexpected",
            "parameter 815 Some(\"plans\")",
            "suspended",
            "companion false",
            "companion true",
            "topic new",
            "full https://live",
        ]
    );
    assert_eq!(on_suspend_participants_activities(&mut bridge, nobody()), Delivery::NoHandler);
    assert_eq!(on_meeting_topic_changed(&mut bridge, nobody(), Some("x")), Delivery::NoHandler);
    assert_eq!(on_meeting_topic_changed(&mut bridge, nobody(), None), Delivery::NothingToDeliver);
    assert_eq!(log.lock().unwrap().len(), 8);
}

#[test]
fn auth_callbacks_reach_the_auth_handler() {
    let log = new_log();
    let mut bridge = CallbackBridge::new();
    let c = bridge.register(Handler::Auth(Listener::boxed(&log))).unwrap();
    let account = || account_info_from_ptr_accountinfo(NativeHandle { addr: 1 }, Some("Ann".to_string()), 1);
    assert_eq!(auth_on_authentification_return(&mut bridge, c, 0), Delivery::Delivered);
    assert_eq!(auth_on_authentification_return(&mut bridge, c, 11), Delivery::Delivered);
    assert_eq!(auth_on_login_return_with_reason(&mut bridge, c, 2, account(), 3), Delivery::Delivered);
    assert_eq!(auth_on_login_return_with_reason(&mut bridge, c, 3, account(), 3), Delivery::Delivered);
    assert_eq!(auth_on_login_return_with_reason(&mut bridge, c, 0, None, 0), Delivery::Delivered);
    assert_eq!(auth_on_logout(&mut bridge, c), Delivery::Delivered);
    assert_eq!(auth_on_zoom_identity_expired(&mut bridge, c), Delivery::Delivered);
    assert_eq!(auth_on_zoom_auth_identity_expired(&mut bridge, c), Delivery::Delivered);
    assert_eq!(
        *log.lock().unwrap(),
        vec![
            "auth AuthretSuccess",
            "auth AuthretJwtTokenWrong",
            "login LoginSuccess Some(\"Ann\") None",
            "login LoginFailed None Some(LoginFailWrongPassword)",
            "login LoginIdle None None",
            "logout",
            "identity expired",
            "auth expires",
        ]
    );
    assert_eq!(auth_on_logout(&mut bridge, nobody()), Delivery::NoHandler);
    assert_eq!(auth_on_login_return_with_reason(&mut bridge, nobody(), 2, account(), 0), Delivery::NoHandler);
    bridge.unregister(c);
    assert_eq!(auth_on_authentification_return(&mut bridge, c, 0), Delivery::NoHandler);
    assert_eq!(auth_on_zoom_identity_expired(&mut bridge, c), Delivery::NoHandler);
    assert_eq!(auth_on_zoom_auth_identity_expired(&mut bridge, c), Delivery::NoHandler);
    assert_eq!(log.lock().unwrap().len(), 8);
}

#[test]
fn recording_callbacks_reach_the_recording_handler() {
    let log = new_log();
    let mut bridge = CallbackBridge::new();
    let other = bridge.register(Handler::Sharing(Listener::boxed(&log))).unwrap();
    let c = bridge.register(Handler::Recording(Listener::boxed(&log))).unwrap();
    assert_eq!(on_recording_privilege_request_status(&mut bridge, c, 1), Delivery::Delivered);
    assert_eq!(on_recording_status(&mut bridge, c, 2, 99), Delivery::Delivered);
    assert_eq!(on_recording_privilege_changed(&mut bridge, c, true), Delivery::Delivered);
    assert_eq!(
        *log.lock().unwrap(),
        vec!["request RequestLocalRecordingDenied", "recording RecordingDiskFull 99", "privilege true"]
    );
    assert_eq!(on_recording_privilege_request_status(&mut bridge, other, 1), Delivery::NoHandler);
    assert_eq!(on_recording_status(&mut bridge, other, 2, 99), Delivery::NoHandler);
    assert_eq!(on_recording_privilege_changed(&mut bridge, nobody(), true), Delivery::NoHandler);
    assert_eq!(log.lock().unwrap().len(), 3);
}

#[test]
fn sharing_callbacks_reach_the_sharing_handler() {
    let log = new_log();
    let mut bridge = CallbackBridge::new();
    let c = bridge.register(Handler::Sharing(Listener::boxed(&log))).unwrap();
    let info = ShareInfo { share_source_id: 4, user_id: 12 };
    assert_eq!(on_sharing_status(&mut bridge, c, 9, 12), Delivery::Delivered);
    assert_eq!(on_lock_share_status(&mut bridge, c, true), Delivery::Delivered);
    assert_eq!(on_share_content_notification(&mut bridge, c, Some(&info)), Delivery::Delivered);
    assert_eq!(on_share_content_notification(&mut bridge, c, None), Delivery::NothingToDeliver);
    assert_eq!(
        on_multi_share_switch_to_single_share_need_confirm(&mut bridge, c, NativeHandle { addr: 5 }),
        Delivery::Delivered
    );
    assert_eq!(
        on_multi_share_switch_to_single_share_need_confirm(&mut bridge, c, NativeHandle::null()),
        Delivery::NothingToDeliver
    );
    assert_eq!(on_share_setting_type_changed_notification(&mut bridge, c, 2), Delivery::Delivered);
    assert_eq!(on_shared_video_ended(&mut bridge, c), Delivery::Delivered);
    assert_eq!(on_video_file_share_play_error(&mut bridge, c, 3), Delivery::Delivered);
    assert_eq!(
        *log.lock().unwrap(),
        vec![
            "sharing SharingPause 12",
            "locked true",
            "content 4 12",
            "confirm 5",
            "setting AnyoneGrab",
            "video ended",
            "play error OpenFail",
        ]
    );
    assert_eq!(on_sharing_status(&mut bridge, nobody(), 9, 12), Delivery::NoHandler);
    assert_eq!(on_lock_share_status(&mut bridge, nobody(), true), Delivery::NoHandler);
    assert_eq!(on_share_content_notification(&mut bridge, nobody(), Some(&info)), Delivery::NoHandler);
    assert_eq!(on_share_setting_type_changed_notification(&mut bridge, nobody(), 2), Delivery::NoHandler);
    assert_eq!(on_shared_video_ended(&mut bridge, nobody()), Delivery::NoHandler);
    assert_eq!(on_video_file_share_play_error(&mut bridge, nobody(), 3), Delivery::NoHandler);
    assert_eq!(log.lock().unwrap().len(), 7);
}
