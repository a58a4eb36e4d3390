//! The types that every part of the library shares: the error type, the
//! translation of the engine's status numbers, and the start-up parameters.
use vstd::prelude::*;
use vstd::std_specs::convert::FromSpecImpl;

verus! {

/// Main error type.
#[derive(Debug, Clone, Copy, PartialEq, Eq, Structural)]
pub enum ZoomRsError {
    /// The engine answered with a status other than success.
    Sdk(SdkError),
    /// A handle that the operation needs is null or no longer available.
    NullPtr,
    /// A resource of which there is at most one was asked for a second time.
    AlreadyExists,
}

impl ZoomRsError {
    /// The engine's status that the error carries, if it is the engine's.
    pub open spec fn spec_status(self) -> Option<u32> {
        match self {
            ZoomRsError::Sdk(e) => Some(e.spec_code()),
            _ => None,
        }
    }

    /// The engine's status that the error carries: the status that the
    /// engine answered with, where the error is the engine's, and `None`
    /// for an error that the library found itself.
    #[verifier::when_used_as_spec(spec_status)]
    pub fn status(self) -> (r: Option<u32>)
        ensures
            r == self.spec_status(),
    {
        match self {
            ZoomRsError::Sdk(e) => Some(e.code()),
            _ => None,
        }
    }
}

/// What an operation of this library returns.
pub type SdkResult<T> = Result<T, ZoomRsError>;

/// The engine's answer to one call: its status number, and the value that
/// the caller gets if that number says success.
pub struct ZoomSdkResult<T>(pub u32, pub T);

/// What a status number and a value translate to: the value for status 0,
/// else the error that the number stands for.
pub open spec fn translated<T>(status: u32, value: T) -> SdkResult<T> {
    if status == 0 {
        Ok(value)
    } else {
        Err(ZoomRsError::Sdk(SdkError::of_code(status)))
    }
}

impl<T> From<ZoomSdkResult<T>> for Result<T, ZoomRsError> {
    #[inline]
    fn from(answer: ZoomSdkResult<T>) -> (r: Self) {
        let ZoomSdkResult(status, value) = answer;
        if status == 0 {
            Ok(value)
        } else {
            Err(ZoomRsError::Sdk(SdkError::from(status)))
        }
    }
}

impl<T> FromSpecImpl<ZoomSdkResult<T>> for Result<T, ZoomRsError> {
    open spec fn obeys_from_spec() -> bool {
        true
    }

    open spec fn from_spec(answer: ZoomSdkResult<T>) -> Self {
        translated(answer.0, answer.1)
    }
}

/// Translates a bare status number: `Ok(())` for 0, else the error that the
/// number stands for.
pub fn check_status(status: u32) -> (r: SdkResult<()>)
    ensures
        r == translated(status, ()),
        status != 0 ==> r is Err && r->Err_0 is Sdk && r->Err_0->Sdk_0.spec_code() == status,
{
    ZoomSdkResult(status, ()).into()
}

/// The last status that the engine defines.
pub const LAST_KNOWN_STATUS: u32 = 36;

/// The status that stands for an error which the library itself found and
/// the engine has no number for: the first that the engine does not define.
pub const UNDEFINED_STATUS: u32 = 37;

/// Whatever status the engine gives, the error that it stands for gives the
/// same status back: no status is lost in an error. For a status other than
/// 0, the translation is that error.
pub proof fn lemma_error_keeps_status<T>(status: u32, value: T)
    ensures
        SdkError::of_code(status).spec_code() == status,
        status != 0 ==> translated(status, value) == Err::<T, ZoomRsError>(
            ZoomRsError::Sdk(SdkError::of_code(status)),
        ),
        status > LAST_KNOWN_STATUS <==> SdkError::of_code(status) is UnexpectedError,
{
}

/// Represents the possible SDK errors in the Zoom SDK.
#[derive(Debug, Clone, Copy, PartialEq, Eq, Structural)]
pub enum SdkError {
    /// Success.
    Success,
    /// This feature is currently invalid.
    NoImpl,
    /// Incorrect usage of the feature.
    WrongUsage,
    /// Wrong parameter.
    InvalidParameter,
    /// Loading module failed.
    ModuleLoadFailed,
    /// No memory is allocated.
    MemoryFailed,
    /// Internal service error.
    ServiceFailed,
    /// Not initialized before the usage.
    Uninitialize,
    /// Not authorized before the usage.
    Unauthentication,
    /// No recording in process.
    NoRecordingInProcess,
    /// Transcoder module is not found.
    TranscoderNotFound,
    /// The video service is not ready.
    VideoNotReady,
    /// No permission.
    NoPermission,
    /// Unknown error.
    Unknown,
    /// The other instance of the SDK is in process.
    OtherSdkInstanceRunning,
    /// SDK internal error.
    InternalError,
    /// No audio device found.
    NoAudioDeviceFound,
    /// No video device found.
    NoVideoDeviceFound,
    /// API calls too frequently.
    TooFrequentCall,
    /// User can't be assigned with new privilege.
    FailAssignUserPrivilege,
    /// The current meeting doesn't support the feature.
    MeetingDontSupportFeature,
    /// The current user is not the presenter.
    MeetingNotShareSender,
    /// There is no sharing.
    MeetingNoShare,
    /// Incorrect ViewType parameters.
    MeetingViewTypeParameterIsWrong,
    /// Annotation is disabled.
    MeetingAnnotationIsOff,
    /// Current OS doesn't support the setting.
    SettingOsDontSupport,
    /// Email login is disabled.
    EmailLoginIsDisabled,
    /// Computer doesn't meet the minimum requirements to use virtual background feature.
    HardwareNotMeetForVb,
    /// Need process disclaimer.
    NeedUserConfirmRecordDisclaimer,
    /// There is no raw data of sharing.
    NoShareData,
    /// Cannot subscribe to your own share.
    ShareCannotSubscribeMyself,
    /// Not in a meeting.
    NotInMeeting,
    /// Audio not joined.
    NotJoinAudio,
    /// The current device doesn't support the feature.
    HardwareDontSupport,
    /// Domain doesn't support the feature.
    DomainDontSupport,
    /// Remote control is disabled.
    MeetingRemoteControlIsOff,
    /// File transfer error.
    FileTransferError,
    /// A status that the engine does not define, with the status as the
    /// engine gave it.
    UnexpectedError(u32),
}

impl SdkError {
    /// The number by which the engine knows this error.
    pub open spec fn spec_code(self) -> u32 {
        match self {
            SdkError::Success => 0u32,
            SdkError::NoImpl => 1u32,
            SdkError::WrongUsage => 2u32,
            SdkError::InvalidParameter => 3u32,
            SdkError::ModuleLoadFailed => 4u32,
            SdkError::MemoryFailed => 5u32,
            SdkError::ServiceFailed => 6u32,
            SdkError::Uninitialize => 7u32,
            SdkError::Unauthentication => 8u32,
            SdkError::NoRecordingInProcess => 9u32,
            SdkError::TranscoderNotFound => 10u32,
            SdkError::VideoNotReady => 11u32,
            SdkError::NoPermission => 12u32,
            SdkError::Unknown => 13u32,
            SdkError::OtherSdkInstanceRunning => 14u32,
            SdkError::InternalError => 15u32,
            SdkError::NoAudioDeviceFound => 16u32,
            SdkError::NoVideoDeviceFound => 17u32,
            SdkError::TooFrequentCall => 18u32,
            SdkError::FailAssignUserPrivilege => 19u32,
            SdkError::MeetingDontSupportFeature => 20u32,
            SdkError::MeetingNotShareSender => 21u32,
            SdkError::MeetingNoShare => 22u32,
            SdkError::MeetingViewTypeParameterIsWrong => 23u32,
            SdkError::MeetingAnnotationIsOff => 24u32,
            SdkError::SettingOsDontSupport => 25u32,
            SdkError::EmailLoginIsDisabled => 26u32,
            SdkError::HardwareNotMeetForVb => 27u32,
            SdkError::NeedUserConfirmRecordDisclaimer => 28u32,
            SdkError::NoShareData => 29u32,
            SdkError::ShareCannotSubscribeMyself => 30u32,
            SdkError::NotInMeeting => 31u32,
            SdkError::NotJoinAudio => 32u32,
            SdkError::HardwareDontSupport => 33u32,
            SdkError::DomainDontSupport => 34u32,
            SdkError::MeetingRemoteControlIsOff => 35u32,
            SdkError::FileTransferError => 36u32,
            SdkError::UnexpectedError(code) => code,
        }
    }

    /// The error that the engine's number `code` stands for; a number that
    /// the engine does not define stands for [`SdkError::UnexpectedError`],
    /// which keeps it.
    pub open spec fn of_code(code: u32) -> Self {
        if code == 0u32 {
            SdkError::Success
        } else if code == 1u32 {
            SdkError::NoImpl
        } else if code == 2u32 {
            SdkError::WrongUsage
        } else if code == 3u32 {
            SdkError::InvalidParameter
        } else if code == 4u32 {
            SdkError::ModuleLoadFailed
        } else if code == 5u32 {
            SdkError::MemoryFailed
        } else if code == 6u32 {
            SdkError::ServiceFailed
        } else if code == 7u32 {
            SdkError::Uninitialize
        } else if code == 8u32 {
            SdkError::Unauthentication
        } else if code == 9u32 {
            SdkError::NoRecordingInProcess
        } else if code == 10u32 {
            SdkError::TranscoderNotFound
        } else if code == 11u32 {
            SdkError::VideoNotReady
        } else if code == 12u32 {
            SdkError::NoPermission
        } else if code == 13u32 {
            SdkError::Unknown
        } else if code == 14u32 {
            SdkError::OtherSdkInstanceRunning
        } else if code == 15u32 {
            SdkError::InternalError
        } else if code == 16u32 {
            SdkError::NoAudioDeviceFound
        } else if code == 17u32 {
            SdkError::NoVideoDeviceFound
        } else if code == 18u32 {
            SdkError::TooFrequentCall
        } else if code == 19u32 {
            SdkError::FailAssignUserPrivilege
        } else if code == 20u32 {
            SdkError::MeetingDontSupportFeature
        } else if code == 21u32 {
            SdkError::MeetingNotShareSender
        } else if code == 22u32 {
            SdkError::MeetingNoShare
        } else if code == 23u32 {
            SdkError::MeetingViewTypeParameterIsWrong
        } else if code == 24u32 {
            SdkError::MeetingAnnotationIsOff
        } else if code == 25u32 {
            SdkError::SettingOsDontSupport
        } else if code == 26u32 {
            SdkError::EmailLoginIsDisabled
        } else if code == 27u32 {
            SdkError::HardwareNotMeetForVb
        } else if code == 28u32 {
            SdkError::NeedUserConfirmRecordDisclaimer
        } else if code == 29u32 {
            SdkError::NoShareData
        } else if code == 30u32 {
            SdkError::ShareCannotSubscribeMyself
        } else if code == 31u32 {
            SdkError::NotInMeeting
        } else if code == 32u32 {
            SdkError::NotJoinAudio
        } else if code == 33u32 {
            SdkError::HardwareDontSupport
        } else if code == 34u32 {
            SdkError::DomainDontSupport
        } else if code == 35u32 {
            SdkError::MeetingRemoteControlIsOff
        } else if code == 36u32 {
            SdkError::FileTransferError
        } else {
            SdkError::UnexpectedError(code)
        }
    }

    /// The number by which the engine knows this error.
    #[verifier::when_used_as_spec(spec_code)]
    pub fn code(self) -> (c: u32)
        ensures
            c == self.spec_code(),
            !(self is UnexpectedError) || c > LAST_KNOWN_STATUS ==> Self::of_code(c) == self,
    {
        match self {
            SdkError::Success => 0u32,
            SdkError::NoImpl => 1u32,
            SdkError::WrongUsage => 2u32,
            SdkError::InvalidParameter => 3u32,
            SdkError::ModuleLoadFailed => 4u32,
            SdkError::MemoryFailed => 5u32,
            SdkError::ServiceFailed => 6u32,
            SdkError::Uninitialize => 7u32,
            SdkError::Unauthentication => 8u32,
            SdkError::NoRecordingInProcess => 9u32,
            SdkError::TranscoderNotFound => 10u32,
            SdkError::VideoNotReady => 11u32,
            SdkError::NoPermission => 12u32,
            SdkError::Unknown => 13u32,
            SdkError::OtherSdkInstanceRunning => 14u32,
            SdkError::InternalError => 15u32,
            SdkError::NoAudioDeviceFound => 16u32,
            SdkError::NoVideoDeviceFound => 17u32,
            SdkError::TooFrequentCall => 18u32,
            SdkError::FailAssignUserPrivilege => 19u32,
            SdkError::MeetingDontSupportFeature => 20u32,
            SdkError::MeetingNotShareSender => 21u32,
            SdkError::MeetingNoShare => 22u32,
            SdkError::MeetingViewTypeParameterIsWrong => 23u32,
            SdkError::MeetingAnnotationIsOff => 24u32,
            SdkError::SettingOsDontSupport => 25u32,
            SdkError::EmailLoginIsDisabled => 26u32,
            SdkError::HardwareNotMeetForVb => 27u32,
            SdkError::NeedUserConfirmRecordDisclaimer => 28u32,
            SdkError::NoShareData => 29u32,
            SdkError::ShareCannotSubscribeMyself => 30u32,
            SdkError::NotInMeeting => 31u32,
            SdkError::NotJoinAudio => 32u32,
            SdkError::HardwareDontSupport => 33u32,
            SdkError::DomainDontSupport => 34u32,
            SdkError::MeetingRemoteControlIsOff => 35u32,
            SdkError::FileTransferError => 36u32,
            SdkError::UnexpectedError(code) => code,
        }
    }
}

impl From<u32> for SdkError {
    fn from(code: u32) -> (r: Self) {
        match code {
            0u32 => SdkError::Success,
            1u32 => SdkError::NoImpl,
            2u32 => SdkError::WrongUsage,
            3u32 => SdkError::InvalidParameter,
            4u32 => SdkError::ModuleLoadFailed,
            5u32 => SdkError::MemoryFailed,
            6u32 => SdkError::ServiceFailed,
            7u32 => SdkError::Uninitialize,
            8u32 => SdkError::Unauthentication,
            9u32 => SdkError::NoRecordingInProcess,
            10u32 => SdkError::TranscoderNotFound,
            11u32 => SdkError::VideoNotReady,
            12u32 => SdkError::NoPermission,
            13u32 => SdkError::Unknown,
            14u32 => SdkError::OtherSdkInstanceRunning,
            15u32 => SdkError::InternalError,
            16u32 => SdkError::NoAudioDeviceFound,
            17u32 => SdkError::NoVideoDeviceFound,
            18u32 => SdkError::TooFrequentCall,
            19u32 => SdkError::FailAssignUserPrivilege,
            20u32 => SdkError::MeetingDontSupportFeature,
            21u32 => SdkError::MeetingNotShareSender,
            22u32 => SdkError::MeetingNoShare,
            23u32 => SdkError::MeetingViewTypeParameterIsWrong,
            24u32 => SdkError::MeetingAnnotationIsOff,
            25u32 => SdkError::SettingOsDontSupport,
            26u32 => SdkError::EmailLoginIsDisabled,
            27u32 => SdkError::HardwareNotMeetForVb,
            28u32 => SdkError::NeedUserConfirmRecordDisclaimer,
            29u32 => SdkError::NoShareData,
            30u32 => SdkError::ShareCannotSubscribeMyself,
            31u32 => SdkError::NotInMeeting,
            32u32 => SdkError::NotJoinAudio,
            33u32 => SdkError::HardwareDontSupport,
            34u32 => SdkError::DomainDontSupport,
            35u32 => SdkError::MeetingRemoteControlIsOff,
            36u32 => SdkError::FileTransferError,
            _ => SdkError::UnexpectedError(code),
        }
    }
}

impl FromSpecImpl<u32> for SdkError {
    open spec fn obeys_from_spec() -> bool {
        true
    }

    open spec fn from_spec(code: u32) -> Self {
        Self::of_code(code)
    }
}

/// Zoom initialization parameters.
#[derive(Clone)]
pub struct SdkInitParam {
    /// Web domain.
    pub str_web_domain: String,
    /// Branding name.
    pub str_branding_name: String,
    /// Support URL.
    pub str_support_url: String,
    /// The ID of the SDK language.
    pub em_language_id: SdkLanguageId,
    /// Enable generate dump file if the app crashes.
    pub enable_generate_dump: bool,
    /// Enable log feature.
    pub enable_log_by_default: bool,
    /// Size of a log file in megabytes (M). The default size is 5M.
    /// There are 5 log files in total, and the file size varies from 1M to 50M.
    pub ui_log_file_size: u32,
    /// Raw data options.
    pub rawdata_opts: SdkRawDataOptions,
    /// Wrapper type.
    pub wrapper_type: u32,
}

impl Default for SdkInitParam {
    fn default() -> (r: Self)
        ensures
            r.str_web_domain@.len() == 0,
            r.str_branding_name@.len() == 0,
            r.str_support_url@.len() == 0,
            r.em_language_id == SdkLanguageId::English,
            !r.enable_generate_dump,
            !r.enable_log_by_default,
            r.ui_log_file_size == 0,
            r.rawdata_opts == SdkRawDataOptions::spec_default(),
            r.wrapper_type == 0,
    {
        SdkInitParam {
            str_web_domain: String::new(),
            str_branding_name: String::new(),
            str_support_url: String::new(),
            em_language_id: SdkLanguageId::default(),
            enable_generate_dump: false,
            enable_log_by_default: false,
            ui_log_file_size: 0,
            rawdata_opts: SdkRawDataOptions::default(),
            wrapper_type: 0,
        }
    }
}

/// Raw data options.
#[derive(Debug, Clone, Copy, PartialEq, Eq, Structural)]
pub struct SdkRawDataOptions {
    /// false -- YUV420data, true -- intermediate data
    pub enable_rawdata_intermediate_mode: bool,
    /// Where video frames are kept.
    pub video_rawdata_memory_mode: SdkRawDataMemoryMode,
    /// Where frames of a shared screen are kept.
    pub share_rawdata_memory_mode: SdkRawDataMemoryMode,
    /// Where audio frames are kept.
    pub audio_rawdata_memory_mode: SdkRawDataMemoryMode,
}

impl SdkRawDataOptions {
    /// The options that [`Default`] gives: YUV420 data, everything on the stack.
    pub open spec fn spec_default() -> Self {
        SdkRawDataOptions {
            enable_rawdata_intermediate_mode: false,
            video_rawdata_memory_mode: SdkRawDataMemoryMode::Stack,
            share_rawdata_memory_mode: SdkRawDataMemoryMode::Stack,
            audio_rawdata_memory_mode: SdkRawDataMemoryMode::Stack,
        }
    }
}

impl Default for SdkRawDataOptions {
    fn default() -> (r: Self)
        ensures
            r == Self::spec_default(),
    {
        SdkRawDataOptions {
            enable_rawdata_intermediate_mode: false,
            video_rawdata_memory_mode: SdkRawDataMemoryMode::default(),
            share_rawdata_memory_mode: SdkRawDataMemoryMode::default(),
            audio_rawdata_memory_mode: SdkRawDataMemoryMode::default(),
        }
    }
}

/// Memory mode for RawData.
#[derive(Debug, Clone, Copy, PartialEq, Eq, Structural)]
pub enum SdkRawDataMemoryMode {
    /// Frames are handed over on the engine's stack.
    Stack,
    /// Frames are handed over on the heap.
    Heap,
}

impl SdkRawDataMemoryMode {
    /// The number by which the engine knows this mode.
    pub open spec fn spec_code(self) -> u32 {
        match self {
            SdkRawDataMemoryMode::Stack => 0u32,
            SdkRawDataMemoryMode::Heap => 1u32,
        }
    }

    /// The number by which the engine knows this mode.
    #[verifier::when_used_as_spec(spec_code)]
    pub fn code(self) -> (c: u32)
        ensures
            c == self.spec_code(),
    {
        match self {
            SdkRawDataMemoryMode::Stack => 0u32,
            SdkRawDataMemoryMode::Heap => 1u32,
        }
    }
}

impl Default for SdkRawDataMemoryMode {
    fn default() -> (r: Self)
        ensures
            r == SdkRawDataMemoryMode::Stack,
    {
        SdkRawDataMemoryMode::Stack
    }
}

/// Represents the possible language IDs in the Zoom SDK.
#[derive(Debug, Clone, Copy, PartialEq, Eq, Structural)]
pub enum SdkLanguageId {
    /// For initialization.
    Unknown,
    /// In English.
    English,
    /// In simplified Chinese.
    ChineseSimplified,
    /// In traditional Chinese.
    ChineseTraditional,
    /// In Japanese.
    Japanese,
    /// In Spanish.
    Spanish,
    /// In German.
    German,
    /// In French.
    French,
    /// In Portuguese.
    Portuguese,
    /// In Russian.
    Russian,
    /// In Korean.
    Korean,
    /// In Vietnamese.
    Vietnamese,
    /// In Italian.
    Italian,
    /// In Polish.
    Polish,
    /// In Turkish.
    Turkish,
    /// In Indonesian.
    Indonesian,
    /// In Dutch.
    Dutch,
    /// In Swedish.
    Swedish,
}

impl SdkLanguageId {
    /// The number by which the engine knows this language.
    pub open spec fn spec_code(self) -> u32 {
        match self {
            SdkLanguageId::Unknown => 0u32,
            SdkLanguageId::English => 1u32,
            SdkLanguageId::ChineseSimplified => 2u32,
            SdkLanguageId::ChineseTraditional => 3u32,
            SdkLanguageId::Japanese => 4u32,
            SdkLanguageId::Spanish => 5u32,
            SdkLanguageId::German => 6u32,
            SdkLanguageId::French => 7u32,
            SdkLanguageId::Portuguese => 8u32,
            SdkLanguageId::Russian => 9u32,
            SdkLanguageId::Korean => 10u32,
            SdkLanguageId::Vietnamese => 11u32,
            SdkLanguageId::Italian => 12u32,
            SdkLanguageId::Polish => 13u32,
            SdkLanguageId::Turkish => 14u32,
            SdkLanguageId::Indonesian => 15u32,
            SdkLanguageId::Dutch => 16u32,
            SdkLanguageId::Swedish => 17u32,
        }
    }

    /// The number by which the engine knows this language.
    #[verifier::when_used_as_spec(spec_code)]
    pub fn code(self) -> (c: u32)
        ensures
            c == self.spec_code(),
    {
        match self {
            SdkLanguageId::Unknown => 0u32,
            SdkLanguageId::English => 1u32,
            SdkLanguageId::ChineseSimplified => 2u32,
            SdkLanguageId::ChineseTraditional => 3u32,
            SdkLanguageId::Japanese => 4u32,
            SdkLanguageId::Spanish => 5u32,
            SdkLanguageId::German => 6u32,
            SdkLanguageId::French => 7u32,
            SdkLanguageId::Portuguese => 8u32,
            SdkLanguageId::Russian => 9u32,
            SdkLanguageId::Korean => 10u32,
            SdkLanguageId::Vietnamese => 11u32,
            SdkLanguageId::Italian => 12u32,
            SdkLanguageId::Polish => 13u32,
            SdkLanguageId::Turkish => 14u32,
            SdkLanguageId::Indonesian => 15u32,
            SdkLanguageId::Dutch => 16u32,
            SdkLanguageId::Swedish => 17u32,
        }
    }
}

impl Default for SdkLanguageId {
    fn default() -> (r: Self)
        ensures
            r == SdkLanguageId::English,
    {
        SdkLanguageId::English
    }
}

} // verus!
