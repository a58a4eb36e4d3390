use zoom_sdk_linux_rs::native::NativeHandle;
use zoom_sdk_linux_rs::rawdata::video::{RawDataType, VideoResolution};
use zoom_sdk_linux_rs::services::setting_service::audio_context::SupressBackgroundNoiseLevel;
use zoom_sdk_linux_rs::services::auth_service::{AuthResult, LoginFailReason, LoginStatus, LoginType};
use zoom_sdk_linux_rs::services::meeting_service::recording_controller::{
    RecordingStatus, RequestLocalRecordingStatus,
};
use zoom_sdk_linux_rs::services::meeting_service::sharing_controller::{
    SharingPlayError, SharingSettingType, SharingStatus,
};
use zoom_sdk_linux_rs::services::meeting_service::{LeaveMeetingCmd, MeetingStatus, StatisticsWarningType};
use zoom_sdk_linux_rs::{
    check_status, SdkError, SdkInitParam, SdkLanguageId, SdkRawDataMemoryMode, SdkRawDataOptions,
    SdkResult, ZoomRsError, ZoomSdkResult, LAST_KNOWN_STATUS, UNDEFINED_STATUS,
};

#[test]
fn status_zero_is_success() {
    let r: SdkResult<u8> = ZoomSdkResult(0, 7u8).into();
    assert_eq!(r, Ok(7u8));
    assert_eq!(check_status(0), Ok(()));
}

#[test]
fn status_in_range_is_its_error() {
    let r: SdkResult<u8> = ZoomSdkResult(3, 7u8).into();
    assert_eq!(r, Err(ZoomRsError::Sdk(SdkError::InvalidParameter)));
    assert_eq!(check_status(1), Err(ZoomRsError::Sdk(SdkError::NoImpl)));
    assert_eq!(check_status(13), Err(ZoomRsError::Sdk(SdkError::Unknown)));
    assert_eq!(check_status(36), Err(ZoomRsError::Sdk(SdkError::FileTransferError)));
}

#[test]
fn status_out_of_range_is_unexpected() {
    assert_eq!(check_status(37), Err(ZoomRsError::Sdk(SdkError::UnexpectedError(37))));
    assert_eq!(check_status(38), Err(ZoomRsError::Sdk(SdkError::UnexpectedError(38))));
    assert_eq!(check_status(u32::MAX), Err(ZoomRsError::Sdk(SdkError::UnexpectedError(u32::MAX))));
    assert_ne!(check_status(37), check_status(38));
}

#[test]
fn sdk_error_codes_round_trip() {
    for code in 0u32..=37 {
        assert_eq!(SdkError::from(code).code(), code);
    }
    for code in [38u32, 100, 4096, u32::MAX - 1, u32::MAX] {
        assert_eq!(SdkError::from(code).code(), code);
        assert_eq!(SdkError::from(code), SdkError::UnexpectedError(code));
    }
    assert_eq!(SdkError::Success.code(), 0);
    assert_eq!(SdkError::NotInMeeting.code(), 31);
    assert_eq!(SdkError::UnexpectedError(UNDEFINED_STATUS).code(), 37);
    assert_eq!(SdkError::from(1000), SdkError::UnexpectedError(1000));
    assert_eq!(SdkError::from(LAST_KNOWN_STATUS), SdkError::FileTransferError);
}

#[test]
fn login_fail_reason_has_a_gap() {
    assert_eq!(LoginFailReason::from(0), LoginFailReason::LoginFailNone);
    assert_eq!(LoginFailReason::from(13), LoginFailReason::LoginFailNeedBirthdayAsk);
    assert_eq!(LoginFailReason::from(14), LoginFailReason::Unexpected);
    assert_eq!(LoginFailReason::from(99), LoginFailReason::Unexpected);
    assert_eq!(LoginFailReason::from(100), LoginFailReason::LoginFailOtherIssue);
    assert_eq!(LoginFailReason::from(101), LoginFailReason::Unexpected);
    assert_eq!(LoginFailReason::LoginFailOtherIssue.code(), 100);
    assert_eq!(LoginFailReason::Unexpected.code(), 14);
}

#[test]
fn every_enum_maps_its_last_code_and_the_next() {
    assert_eq!(AuthResult::from(12), AuthResult::AuthretLimitExceededException);
    assert_eq!(AuthResult::from(13), AuthResult::Unexpected);
    assert_eq!(LoginStatus::from(2), LoginStatus::LoginSuccess);
    assert_eq!(LoginStatus::from(3), LoginStatus::LoginFailed);
    assert_eq!(LoginStatus::from(4), LoginStatus::Unexpected);
    assert_eq!(LoginType::from(0), LoginType::Unknown);
    assert_eq!(LoginType::from(1), LoginType::SSO);
    assert_eq!(LoginType::from(2), LoginType::Unexpected);
    assert_eq!(MeetingStatus::from(3), MeetingStatus::MeetingStatusInMeeting);
    assert_eq!(MeetingStatus::from(4), MeetingStatus::MeetingStatusDisconnecting);
    assert_eq!(MeetingStatus::from(15), MeetingStatus::MeetingStatusLeaveBreakoutRoom);
    assert_eq!(MeetingStatus::from(16), MeetingStatus::Unexpected);
    assert_eq!(StatisticsWarningType::from(2), StatisticsWarningType::WarningBusySystem);
    assert_eq!(StatisticsWarningType::from(3), StatisticsWarningType::Unexpected);
    assert_eq!(LeaveMeetingCmd::from(1), LeaveMeetingCmd::EndMeeting);
    assert_eq!(LeaveMeetingCmd::from(2), LeaveMeetingCmd::Unexpected);
    assert_eq!(RequestLocalRecordingStatus::from(2), RequestLocalRecordingStatus::RequestLocalRecordingTimeout);
    assert_eq!(RequestLocalRecordingStatus::from(3), RequestLocalRecordingStatus::Unexpected);
    assert_eq!(RecordingStatus::from(5), RecordingStatus::RecordingFail);
    assert_eq!(RecordingStatus::from(6), RecordingStatus::Unexpected);
    assert_eq!(SharingStatus::from(10), SharingStatus::SharingResume);
    assert_eq!(SharingStatus::from(11), SharingStatus::Unexpected);
    assert_eq!(SharingSettingType::from(3), SharingSettingType::MultiShare);
    assert_eq!(SharingSettingType::from(4), SharingSettingType::Unexpected);
    assert_eq!(SharingPlayError::from(0), SharingPlayError::NoError);
    assert_eq!(SharingPlayError::from(5), SharingPlayError::SeekFail);
    assert_eq!(SharingPlayError::from(6), SharingPlayError::Unexpected);
}

#[test]
fn defaults_are_english_and_stack() {
    let p = SdkInitParam::default();
    assert_eq!(p.em_language_id, SdkLanguageId::English);
    assert_eq!(p.str_web_domain, "");
    assert_eq!(p.ui_log_file_size, 0);
    assert!(!p.enable_generate_dump);
    assert_eq!(p.rawdata_opts, SdkRawDataOptions::default());
    assert_eq!(p.rawdata_opts.video_rawdata_memory_mode, SdkRawDataMemoryMode::Stack);
    assert!(!p.rawdata_opts.enable_rawdata_intermediate_mode);
    assert_eq!(SdkLanguageId::French.code(), 7);
    assert_eq!(SdkLanguageId::Swedish.code(), 17);
    assert_eq!(SdkRawDataMemoryMode::Heap.code(), 1);
}

#[test]
fn null_handle_is_refused() {
    assert!(NativeHandle::null().is_null());
    assert_eq!(NativeHandle::null().require(), Err(ZoomRsError::NullPtr));
    let h = NativeHandle { addr: 0x1000 };
    assert!(!h.is_null());
    assert_eq!(h.require(), Ok(h));
}

#[test]
fn the_engine_numbers_of_the_plain_enums() {
    assert_eq!(RawDataType::Video.code(), 0);
    assert_eq!(RawDataType::Share.code(), 1);
    assert_eq!(VideoResolution::R90P.code(), 0);
    assert_eq!(VideoResolution::R360P.code(), 2);
    assert_eq!(VideoResolution::R1080P.code(), 4);
    assert_eq!(SupressBackgroundNoiseLevel::NoSuppression.code(), 0);
    assert_eq!(SupressBackgroundNoiseLevel::Heigh.code(), 4);
    assert_eq!(MeetingStatus::MeetingStatusDisconnecting.code(), 4);
    assert_eq!(LeaveMeetingCmd::EndMeeting.code(), 1);
}

#[test]
fn an_error_gives_the_engines_status_back() {
    for status in [1u32, 5, 36, 37, 38, 999, u32::MAX] {
        let r: SdkResult<u8> = ZoomSdkResult(status, 0u8).into();
        assert_eq!(r.unwrap_err().status(), Some(status));
        assert_eq!(check_status(status).unwrap_err().status(), Some(status));
    }
    assert_eq!(ZoomRsError::NullPtr.status(), None);
    assert_eq!(ZoomRsError::AlreadyExists.status(), None);
}
