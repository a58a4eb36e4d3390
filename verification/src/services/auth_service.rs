//! The authentication service.
use vstd::prelude::*;
use vstd::std_specs::convert::FromSpecImpl;

use crate::bridge::{
    after_callback, delivery_of, replaced, CallbackBridge, Delivery, Handler, HandlerKind,
};
use crate::native::{host_only, CallbackContext, NativeCall, NativeHandle, TeardownStep};
use crate::public_types::{SdkError, SdkResult, ZoomRsError, ZoomSdkResult};
use crate::teardown::TeardownCoordinator;

verus! {

/// What the authentication service reports.
pub trait AuthServiceEvent: Send {
    /// Authentication result callback.
    /// - [AuthResult] Authentication result value.
    fn on_authentification_return(&mut self, _ret: AuthResult) {
    }

    /// Callback of login result with fail reason.
    /// - [LoginStatus] Login status.
    /// - [AccountInfo] Valid when the ret is [LoginStatus::LoginSuccess]. Otherwise None.
    /// - [LoginFailReason] Login fail reason. Valid when the ret is [LoginStatus::LoginFailed]. Otherwise None.
    fn on_login_return_with_reason(
        &mut self,
        _ret: LoginStatus,
        _account_info: Option<AccountInfo>,
        _log_fail_reason: Option<LoginFailReason>,
    ) {
    }

    /// Logout result callback.
    fn on_logout(&mut self) {
    }

    /// Zoom identity has expired, please re-login or generate a new zoom access token via REST Api.
    fn on_zoom_identity_expired(&mut self) {
    }

    /// Zoom authentication identity will be expired in 10 minutes, please re-auth.
    fn on_zoom_auth_identity_expired(&mut self) {
    }
}

/// The authentication service.
///
/// The host destroys the service, and only while the engine has not begun
/// its own teardown.
#[derive(Debug)]
pub struct AuthService {
    evt: Option<CallbackContext>,
    ptr_auth_service: NativeHandle,
}

impl AuthService {
    /// The engine's authentication service.
    pub closed spec fn handle(&self) -> NativeHandle {
        self.ptr_auth_service
    }

    /// The token of the installed handler, if there is one.
    pub closed spec fn event(&self) -> Option<CallbackContext> {
        self.evt
    }

    /// What taking the service down consists of: while the engine has not
    /// begun its teardown, the service is destroyed; then its handler is
    /// released, if it has one.
    pub open spec fn teardown_plan(&self, tearing_down: bool) -> Seq<TeardownStep> {
        let own = match self.event() {
            Some(c) => seq![TeardownStep::Release(c)],
            None => Seq::<TeardownStep>::empty(),
        };
        if tearing_down {
            own
        } else {
            seq![TeardownStep::Call(NativeCall::DestroyAuthService(self.handle()))] + own
        }
    }

    /// Create auth service interface from the engine's answer to the request
    /// for one: a status other than success gives its error, and a null
    /// service with the status of success gives [`ZoomRsError::NullPtr`].
    pub fn new(created: ZoomSdkResult<NativeHandle>) -> (r: SdkResult<Self>)
        ensures
            created.0 != 0 ==> r is Err && r->Err_0 == ZoomRsError::Sdk(SdkError::of_code(created.0)),
            created.0 == 0 && created.1.is_null() ==> r is Err && r->Err_0 == ZoomRsError::NullPtr,
            created.0 == 0 && !created.1.is_null() ==> r is Ok && r->Ok_0.handle() == created.1
                && r->Ok_0.event() is None,
    {
        let ZoomSdkResult(status, service) = created;
        if status != 0 {
            return Err(ZoomRsError::Sdk(SdkError::from(status)));
        }
        if service.is_null() {
            return Err(ZoomRsError::NullPtr);
        }
        Ok(AuthService { evt: None, ptr_auth_service: service })
    }

    /// The engine's authentication service.
    pub fn native(&self) -> (r: NativeHandle)
        ensures
            r == self.handle(),
    {
        self.ptr_auth_service
    }

    /// Set the authentication service callback event handler: registers the
    /// handler, in the place of an earlier one, and returns the request that
    /// installs it. The registration stands whatever the engine answers to
    /// that request. Where the table has no token left the service is left
    /// without a handler and the result is [`ZoomRsError::NullPtr`].
    pub fn set_event(&mut self, bridge: &mut CallbackBridge, ctx: Box<dyn AuthServiceEvent>) -> (r:
        SdkResult<NativeCall>)
        requires
            old(bridge).wf(),
        ensures
            final(bridge).wf(),
            final(self).handle() == old(self).handle(),
            old(bridge).issued() == u64::MAX ==> r is Err && r->Err_0 == ZoomRsError::NullPtr
                && final(self).event() is None && final(bridge).issued() == old(bridge).issued(),
            old(bridge).issued() < u64::MAX ==> {
                let context = CallbackContext { token: (old(bridge).issued() + 1) as u64 };
                &&& r == Ok::<NativeCall, ZoomRsError>(
                    NativeCall::SetAuthEvent { service: old(self).handle(), context },
                )
                &&& final(self).event() == Some(context)
                &&& final(bridge).issued() == context.token
                &&& final(bridge).serves(context, HandlerKind::Auth)
            },
            old(self).event() is Some && old(bridge).is_live(old(self).event()->0)
                ==> !final(bridge).is_live(old(self).event()->0),
            replaced(
                final(bridge)@,
                old(bridge)@,
                old(self).event(),
                final(self).event(),
                Handler::Auth(ctx),
            ),
    {
        let registered = bridge.replace(self.evt, Handler::Auth(ctx));
        match registered {
            Ok(context) => {
                self.evt = Some(context);
                Ok(NativeCall::SetAuthEvent { service: self.ptr_auth_service, context })
            },
            Err(e) => {
                self.evt = None;
                Err(e)
            },
        }
    }

    /// Takes the service down: the steps to perform, in their order. They
    /// make no request of the engine once it has begun its teardown.
    pub fn release(self, coordinator: &TeardownCoordinator) -> (steps: Vec<TeardownStep>)
        ensures
            steps@ == self.teardown_plan(coordinator.started()),
            coordinator.started() ==> host_only(steps@),
    {
        let mut steps: Vec<TeardownStep> = Vec::new();
        if !coordinator.is_tearing_down() {
            steps.push(TeardownStep::Call(NativeCall::DestroyAuthService(self.ptr_auth_service)));
        }
        match self.evt {
            Some(c) => {
                steps.push(TeardownStep::Release(c));
            },
            None => {},
        }
        proof {
            assert(steps@ =~= self.teardown_plan(coordinator.started()));
        }
        steps
    }
}

/// Account information interface.
#[derive(Debug, Clone)]
pub struct AccountInfo {
    display_name: Option<String>,
    login_type: LoginType,
}

impl AccountInfo {
    /// The screen name of the user, if there is one.
    pub closed spec fn display_name(&self) -> Option<Seq<char>> {
        match self.display_name {
            Some(name) => Some(name@),
            None => None,
        }
    }

    /// How the user logged in.
    pub closed spec fn login_type(&self) -> LoginType {
        self.login_type
    }

    /// Get the screen name of user.
    /// The return value is the displayed username.
    /// If there is no screen name of user, the return value is None.
    pub fn get_display_name(&self) -> (r: Option<&str>)
        ensures
            match r {
                Some(name) => self.display_name() == Some(name@),
                None => self.display_name() is None,
            },
    {
        match &self.display_name {
            Some(name) => Some(name.as_str()),
            None => None,
        }
    }

    /// Get login type.
    /// The return value is the account [LoginType].
    pub fn get_login_type(&self) -> (r: LoginType)
        ensures
            r == self.login_type(),
    {
        self.login_type
    }
}

/// The account information that the engine holds under `info`: none for the
/// null handle, else the screen name that the engine gave, if any, and the
/// login type that its number `login_type` stands for.
pub fn account_info_from_ptr_accountinfo(
    info: NativeHandle,
    display_name: Option<String>,
    login_type: u32,
) -> (r: Option<AccountInfo>)
    ensures
        info.is_null() ==> r is None,
        !info.is_null() ==> {
            &&& r is Some
            &&& r->0.login_type() == LoginType::of_code(login_type)
            &&& r->0.display_name() == match display_name {
                Some(name) => Some(name@),
                None => None,
            }
        },
{
    if info.is_null() {
        None
    } else {
        Some(AccountInfo { display_name, login_type: LoginType::from(login_type) })
    }
}

/// Whether the account of a login is to be read from the engine: only with
/// [`LoginStatus::LoginSuccess`] is it handed on.
pub fn needs_account_info(ret: u32) -> (r: bool)
    ensures
        r == (LoginStatus::of_code(ret) == LoginStatus::LoginSuccess),
{
    match LoginStatus::from(ret) {
        LoginStatus::LoginSuccess => true,
        _ => false,
    }
}

/// What the handler is told of a login: the status that the engine's number
/// stands for, the account only with [`LoginStatus::LoginSuccess`], and the
/// reason only with [`LoginStatus::LoginFailed`].
pub fn login_return_arguments(ret: u32, account_info: Option<AccountInfo>, reason: u32) -> (r: (
    LoginStatus,
    Option<AccountInfo>,
    Option<LoginFailReason>,
))
    ensures
        r.0 == LoginStatus::of_code(ret),
        r.1 == (if r.0 == LoginStatus::LoginSuccess {
            account_info
        } else {
            None
        }),
        r.2 == (if r.0 == LoginStatus::LoginFailed {
            Some(LoginFailReason::of_code(reason))
        } else {
            None
        }),
{
    let status = LoginStatus::from(ret);
    let account = match status {
        LoginStatus::LoginSuccess => account_info,
        _ => None,
    };
    let why = match status {
        LoginStatus::LoginFailed => Some(LoginFailReason::from(reason)),
        _ => None,
    };
    (status, account, why)
}

/// The engine reports the result of the authentication.
/// The result says what became of the callback.
pub fn auth_on_authentification_return(
    bridge: &mut CallbackBridge,
    context: CallbackContext,
    ret: u32,
) -> (delivery: Delivery)
    requires
        old(bridge).wf(),
    ensures
        after_callback(final(bridge), old(bridge), context, HandlerKind::Auth, true),
        delivery == delivery_of(old(bridge), context, HandlerKind::Auth, true),
{
    match bridge.handler_of_kind(context, HandlerKind::Auth) {
        Some(Handler::Auth(h)) => {
            h.on_authentification_return(AuthResult::from(ret));
            Delivery::Delivered
        },
        _ => Delivery::NoHandler,
    }
}

/// The engine reports the result of a login; the handler that `context`
/// names is told what [`login_return_arguments`] makes of it.
/// The result says what became of the callback.
pub fn auth_on_login_return_with_reason(
    bridge: &mut CallbackBridge,
    context: CallbackContext,
    ret: u32,
    account_info: Option<AccountInfo>,
    reason: u32,
) -> (delivery: Delivery)
    requires
        old(bridge).wf(),
    ensures
        after_callback(final(bridge), old(bridge), context, HandlerKind::Auth, true),
        delivery == delivery_of(old(bridge), context, HandlerKind::Auth, true),
{
    let (status, account, why) = login_return_arguments(ret, account_info, reason);
    match bridge.handler_of_kind(context, HandlerKind::Auth) {
        Some(Handler::Auth(h)) => {
            h.on_login_return_with_reason(status, account, why);
            Delivery::Delivered
        },
        _ => Delivery::NoHandler,
    }
}

/// The engine reports a logout.
/// The result says what became of the callback.
pub fn auth_on_logout(bridge: &mut CallbackBridge, context: CallbackContext) -> (delivery: Delivery)
    requires
        old(bridge).wf(),
    ensures
        after_callback(final(bridge), old(bridge), context, HandlerKind::Auth, true),
        delivery == delivery_of(old(bridge), context, HandlerKind::Auth, true),
{
    match bridge.handler_of_kind(context, HandlerKind::Auth) {
        Some(Handler::Auth(h)) => {
            h.on_logout();
            Delivery::Delivered
        },
        _ => Delivery::NoHandler,
    }
}

/// The engine reports that the Zoom identity has expired.
/// The result says what became of the callback.
pub fn auth_on_zoom_identity_expired(bridge: &mut CallbackBridge, context: CallbackContext) -> (delivery: Delivery)
    requires
        old(bridge).wf(),
    ensures
        after_callback(final(bridge), old(bridge), context, HandlerKind::Auth, true),
        delivery == delivery_of(old(bridge), context, HandlerKind::Auth, true),
{
    match bridge.handler_of_kind(context, HandlerKind::Auth) {
        Some(Handler::Auth(h)) => {
            h.on_zoom_identity_expired();
            Delivery::Delivered
        },
        _ => Delivery::NoHandler,
    }
}

/// The engine reports that the authentication will expire in ten minutes.
/// The result says what became of the callback.
pub fn auth_on_zoom_auth_identity_expired(bridge: &mut CallbackBridge, context: CallbackContext) -> (delivery: Delivery)
    requires
        old(bridge).wf(),
    ensures
        after_callback(final(bridge), old(bridge), context, HandlerKind::Auth, true),
        delivery == delivery_of(old(bridge), context, HandlerKind::Auth, true),
{
    match bridge.handler_of_kind(context, HandlerKind::Auth) {
        Some(Handler::Auth(h)) => {
            h.on_zoom_auth_identity_expired();
            Delivery::Delivered
        },
        _ => Delivery::NoHandler,
    }
}

/// !JWT token. You may generate your JWT token using the online tool.
pub struct JwtToken(pub String);

/// SDK Authentication Result.
///
/// This enumeration represents the different SDK auth messages.
#[derive(Debug, Clone, Copy, PartialEq, Eq, Structural)]
pub enum AuthResult {
    /// Authentication is successful.
    AuthretSuccess,
    /// The key or secret to authenticate is empty.
    AuthretKeyOrSecretEmpty,
    /// The key or secret to authenticate is wrong.
    AuthretKeyOrSecretWrong,
    /// The user account does not support.
    AuthretAccountNotSupport,
    /// The user account is not enabled for SDK.
    AuthretAccountNotEnableSDK,
    /// Unknown error.
    AuthretUnknown,
    /// Service is busy.
    AuthretServiceBusy,
    /// Initial status.
    AuthretNone,
    /// Time out.
    AuthretOvertime,
    /// Network issues.
    AuthretNetworkIssue,
    /// Client is incompatible.
    AuthretClientIncompatible,
    /// The jwt token to authenticate is wrong.
    AuthretJwtTokenWrong,
    /// The authentication rate limit is exceeded.
    AuthretLimitExceededException,
    /// Unexpected result from SDK
    Unexpected,
}

impl AuthResult {
    /// The number by which the engine knows this result.
    pub open spec fn spec_code(self) -> u32 {
        match self {
            AuthResult::AuthretSuccess => 0u32,
            AuthResult::AuthretKeyOrSecretEmpty => 1u32,
            AuthResult::AuthretKeyOrSecretWrong => 2u32,
            AuthResult::AuthretAccountNotSupport => 3u32,
            AuthResult::AuthretAccountNotEnableSDK => 4u32,
            AuthResult::AuthretUnknown => 5u32,
            AuthResult::AuthretServiceBusy => 6u32,
            AuthResult::AuthretNone => 7u32,
            AuthResult::AuthretOvertime => 8u32,
            AuthResult::AuthretNetworkIssue => 9u32,
            AuthResult::AuthretClientIncompatible => 10u32,
            AuthResult::AuthretJwtTokenWrong => 11u32,
            AuthResult::AuthretLimitExceededException => 12u32,
            AuthResult::Unexpected => 13u32,
        }
    }

    /// The result that the engine's number `code` stands for; every number
    /// that the engine does not define stands for [`AuthResult::Unexpected`].
    pub open spec fn of_code(code: u32) -> Self {
        if code == 0u32 {
            AuthResult::AuthretSuccess
        } else if code == 1u32 {
            AuthResult::AuthretKeyOrSecretEmpty
        } else if code == 2u32 {
            AuthResult::AuthretKeyOrSecretWrong
        } else if code == 3u32 {
            AuthResult::AuthretAccountNotSupport
        } else if code == 4u32 {
            AuthResult::AuthretAccountNotEnableSDK
        } else if code == 5u32 {
            AuthResult::AuthretUnknown
        } else if code == 6u32 {
            AuthResult::AuthretServiceBusy
        } else if code == 7u32 {
            AuthResult::AuthretNone
        } else if code == 8u32 {
            AuthResult::AuthretOvertime
        } else if code == 9u32 {
            AuthResult::AuthretNetworkIssue
        } else if code == 10u32 {
            AuthResult::AuthretClientIncompatible
        } else if code == 11u32 {
            AuthResult::AuthretJwtTokenWrong
        } else if code == 12u32 {
            AuthResult::AuthretLimitExceededException
        } else {
            AuthResult::Unexpected
        }
    }

    /// The number by which the engine knows this result.
    #[verifier::when_used_as_spec(spec_code)]
    pub fn code(self) -> (c: u32)
        ensures
            c == self.spec_code(),
            Self::of_code(c) == self,
    {
        match self {
            AuthResult::AuthretSuccess => 0u32,
            AuthResult::AuthretKeyOrSecretEmpty => 1u32,
            AuthResult::AuthretKeyOrSecretWrong => 2u32,
            AuthResult::AuthretAccountNotSupport => 3u32,
            AuthResult::AuthretAccountNotEnableSDK => 4u32,
            AuthResult::AuthretUnknown => 5u32,
            AuthResult::AuthretServiceBusy => 6u32,
            AuthResult::AuthretNone => 7u32,
            AuthResult::AuthretOvertime => 8u32,
            AuthResult::AuthretNetworkIssue => 9u32,
            AuthResult::AuthretClientIncompatible => 10u32,
            AuthResult::AuthretJwtTokenWrong => 11u32,
            AuthResult::AuthretLimitExceededException => 12u32,
            AuthResult::Unexpected => 13u32,
        }
    }
}

impl From<u32> for AuthResult {
    fn from(code: u32) -> (r: Self) {
        match code {
            0u32 => AuthResult::AuthretSuccess,
            1u32 => AuthResult::AuthretKeyOrSecretEmpty,
            2u32 => AuthResult::AuthretKeyOrSecretWrong,
            3u32 => AuthResult::AuthretAccountNotSupport,
            4u32 => AuthResult::AuthretAccountNotEnableSDK,
            5u32 => AuthResult::AuthretUnknown,
            6u32 => AuthResult::AuthretServiceBusy,
            7u32 => AuthResult::AuthretNone,
            8u32 => AuthResult::AuthretOvertime,
            9u32 => AuthResult::AuthretNetworkIssue,
            10u32 => AuthResult::AuthretClientIncompatible,
            11u32 => AuthResult::AuthretJwtTokenWrong,
            12u32 => AuthResult::AuthretLimitExceededException,
            _ => AuthResult::Unexpected,
        }
    }
}

impl FromSpecImpl<u32> for AuthResult {
    open spec fn obeys_from_spec() -> bool {
        true
    }

    open spec fn from_spec(code: u32) -> Self {
        Self::of_code(code)
    }
}

/// SDK Login Failure Reasons.
///
/// This enumeration represents the different reasons for SDK login failure.
#[derive(Debug, Clone, Copy, PartialEq, Eq, Structural)]
pub enum LoginFailReason {
    /// No login failure.
    LoginFailNone,
    /// Email login is disabled.
    LoginFailEmailLoginDisable,
    /// User does not exist.
    LoginFailUserNotExist,
    /// Incorrect password.
    LoginFailWrongPassword,
    /// Account is locked.
    LoginFailAccountLocked,
    /// SDK requires an update.
    LoginFailSdkNeedUpdate,
    /// Too many failed attempts.
    LoginFailTooManyFailedAttempts,
    /// SMS code error.
    LoginFailSmsCodeError,
    /// SMS code has expired.
    LoginFailSmsCodeExpired,
    /// Phone number format is invalid.
    LoginFailPhoneNumberFormatInvalid,
    /// Login token is invalid.
    LoginFailLoginTokenInvalid,
    /// User disagrees with the login disclaimer.
    LoginFailUserDisagreeLoginDisclaimer,
    /// Multi-factor authentication required.
    LoginFailMfaRequired,
    /// Need to ask for the user's birthday.
    LoginFailNeedBirthdayAsk,
    /// Other issue.
    LoginFailOtherIssue,
    /// Unexpected result from SDK
    Unexpected,
}

impl LoginFailReason {
    /// The number by which the engine knows this reason.
    pub open spec fn spec_code(self) -> u32 {
        match self {
            LoginFailReason::LoginFailNone => 0u32,
            LoginFailReason::LoginFailEmailLoginDisable => 1u32,
            LoginFailReason::LoginFailUserNotExist => 2u32,
            LoginFailReason::LoginFailWrongPassword => 3u32,
            LoginFailReason::LoginFailAccountLocked => 4u32,
            LoginFailReason::LoginFailSdkNeedUpdate => 5u32,
            LoginFailReason::LoginFailTooManyFailedAttempts => 6u32,
            LoginFailReason::LoginFailSmsCodeError => 7u32,
            LoginFailReason::LoginFailSmsCodeExpired => 8u32,
            LoginFailReason::LoginFailPhoneNumberFormatInvalid => 9u32,
            LoginFailReason::LoginFailLoginTokenInvalid => 10u32,
            LoginFailReason::LoginFailUserDisagreeLoginDisclaimer => 11u32,
            LoginFailReason::LoginFailMfaRequired => 12u32,
            LoginFailReason::LoginFailNeedBirthdayAsk => 13u32,
            LoginFailReason::LoginFailOtherIssue => 100u32,
            LoginFailReason::Unexpected => 14u32,
        }
    }

    /// The reason that the engine's number `code` stands for; every number
    /// that the engine does not define stands for [`LoginFailReason::Unexpected`].
    pub open spec fn of_code(code: u32) -> Self {
        if code == 0u32 {
            LoginFailReason::LoginFailNone
        } else if code == 1u32 {
            LoginFailReason::LoginFailEmailLoginDisable
        } else if code == 2u32 {
            LoginFailReason::LoginFailUserNotExist
        } else if code == 3u32 {
            LoginFailReason::LoginFailWrongPassword
        } else if code == 4u32 {
            LoginFailReason::LoginFailAccountLocked
        } else if code == 5u32 {
            LoginFailReason::LoginFailSdkNeedUpdate
        } else if code == 6u32 {
            LoginFailReason::LoginFailTooManyFailedAttempts
        } else if code == 7u32 {
            LoginFailReason::LoginFailSmsCodeError
        } else if code == 8u32 {
            LoginFailReason::LoginFailSmsCodeExpired
        } else if code == 9u32 {
            LoginFailReason::LoginFailPhoneNumberFormatInvalid
        } else if code == 10u32 {
            LoginFailReason::LoginFailLoginTokenInvalid
        } else if code == 11u32 {
            LoginFailReason::LoginFailUserDisagreeLoginDisclaimer
        } else if code == 12u32 {
            LoginFailReason::LoginFailMfaRequired
        } else if code == 13u32 {
            LoginFailReason::LoginFailNeedBirthdayAsk
        } else if code == 100u32 {
            LoginFailReason::LoginFailOtherIssue
        } else {
            LoginFailReason::Unexpected
        }
    }

    /// The number by which the engine knows this reason.
    #[verifier::when_used_as_spec(spec_code)]
    pub fn code(self) -> (c: u32)
        ensures
            c == self.spec_code(),
            Self::of_code(c) == self,
    {
        match self {
            LoginFailReason::LoginFailNone => 0u32,
            LoginFailReason::LoginFailEmailLoginDisable => 1u32,
            LoginFailReason::LoginFailUserNotExist => 2u32,
            LoginFailReason::LoginFailWrongPassword => 3u32,
            LoginFailReason::LoginFailAccountLocked => 4u32,
            LoginFailReason::LoginFailSdkNeedUpdate => 5u32,
            LoginFailReason::LoginFailTooManyFailedAttempts => 6u32,
            LoginFailReason::LoginFailSmsCodeError => 7u32,
            LoginFailReason::LoginFailSmsCodeExpired => 8u32,
            LoginFailReason::LoginFailPhoneNumberFormatInvalid => 9u32,
            LoginFailReason::LoginFailLoginTokenInvalid => 10u32,
            LoginFailReason::LoginFailUserDisagreeLoginDisclaimer => 11u32,
            LoginFailReason::LoginFailMfaRequired => 12u32,
            LoginFailReason::LoginFailNeedBirthdayAsk => 13u32,
            LoginFailReason::LoginFailOtherIssue => 100u32,
            LoginFailReason::Unexpected => 14u32,
        }
    }
}

impl From<u32> for LoginFailReason {
    fn from(code: u32) -> (r: Self) {
        match code {
            0u32 => LoginFailReason::LoginFailNone,
            1u32 => LoginFailReason::LoginFailEmailLoginDisable,
            2u32 => LoginFailReason::LoginFailUserNotExist,
            3u32 => LoginFailReason::LoginFailWrongPassword,
            4u32 => LoginFailReason::LoginFailAccountLocked,
            5u32 => LoginFailReason::LoginFailSdkNeedUpdate,
            6u32 => LoginFailReason::LoginFailTooManyFailedAttempts,
            7u32 => LoginFailReason::LoginFailSmsCodeError,
            8u32 => LoginFailReason::LoginFailSmsCodeExpired,
            9u32 => LoginFailReason::LoginFailPhoneNumberFormatInvalid,
            10u32 => LoginFailReason::LoginFailLoginTokenInvalid,
            11u32 => LoginFailReason::LoginFailUserDisagreeLoginDisclaimer,
            12u32 => LoginFailReason::LoginFailMfaRequired,
            13u32 => LoginFailReason::LoginFailNeedBirthdayAsk,
            100u32 => LoginFailReason::LoginFailOtherIssue,
            _ => LoginFailReason::Unexpected,
        }
    }
}

impl FromSpecImpl<u32> for LoginFailReason {
    open spec fn obeys_from_spec() -> bool {
        true
    }

    open spec fn from_spec(code: u32) -> Self {
        Self::of_code(code)
    }
}

/// SDK Login Status.
///
/// This enumeration represents the different statuses of the SDK login process.
#[derive(Debug, Clone, Copy, PartialEq, Eq, Structural)]
pub enum LoginStatus {
    /// Unlogged in.
    LoginIdle,
    /// In process of login.
    LoginProcessing,
    /// Login successful.
    LoginSuccess,
    /// Login failed.
    LoginFailed,
    /// Unexpected result from SDK
    Unexpected,
}

impl LoginStatus {
    /// The number by which the engine knows this status.
    pub open spec fn spec_code(self) -> u32 {
        match self {
            LoginStatus::LoginIdle => 0u32,
            LoginStatus::LoginProcessing => 1u32,
            LoginStatus::LoginSuccess => 2u32,
            LoginStatus::LoginFailed => 3u32,
            LoginStatus::Unexpected => 4u32,
        }
    }

    /// The status that the engine's number `code` stands for; every number
    /// that the engine does not define stands for [`LoginStatus::Unexpected`].
    pub open spec fn of_code(code: u32) -> Self {
        if code == 0u32 {
            LoginStatus::LoginIdle
        } else if code == 1u32 {
            LoginStatus::LoginProcessing
        } else if code == 2u32 {
            LoginStatus::LoginSuccess
        } else if code == 3u32 {
            LoginStatus::LoginFailed
        } else {
            LoginStatus::Unexpected
        }
    }

    /// The number by which the engine knows this status.
    #[verifier::when_used_as_spec(spec_code)]
    pub fn code(self) -> (c: u32)
        ensures
            c == self.spec_code(),
            Self::of_code(c) == self,
    {
        match self {
            LoginStatus::LoginIdle => 0u32,
            LoginStatus::LoginProcessing => 1u32,
            LoginStatus::LoginSuccess => 2u32,
            LoginStatus::LoginFailed => 3u32,
            LoginStatus::Unexpected => 4u32,
        }
    }
}

impl From<u32> for LoginStatus {
    fn from(code: u32) -> (r: Self) {
        match code {
            0u32 => LoginStatus::LoginIdle,
            1u32 => LoginStatus::LoginProcessing,
            2u32 => LoginStatus::LoginSuccess,
            3u32 => LoginStatus::LoginFailed,
            _ => LoginStatus::Unexpected,
        }
    }
}

impl FromSpecImpl<u32> for LoginStatus {
    open spec fn obeys_from_spec() -> bool {
        true
    }

    open spec fn from_spec(code: u32) -> Self {
        Self::of_code(code)
    }
}

/// SDK Login Type.
///
/// This enumeration represents the different types of user login.
#[derive(Debug, Clone, Copy, PartialEq, Eq, Structural)]
pub enum LoginType {
    /// Unknown type.
    Unknown,
    /// Login with SSO token.
    SSO,
    /// Unexpected result from SDK
    Unexpected,
}

impl LoginType {
    /// The number by which the engine knows this type.
    pub open spec fn spec_code(self) -> u32 {
        match self {
            LoginType::Unknown => 0u32,
            LoginType::SSO => 1u32,
            LoginType::Unexpected => 2u32,
        }
    }

    /// The type that the engine's number `code` stands for; every number
    /// that the engine does not define stands for [`LoginType::Unexpected`].
    pub open spec fn of_code(code: u32) -> Self {
        if code == 0u32 {
            LoginType::Unknown
        } else if code == 1u32 {
            LoginType::SSO
        } else {
            LoginType::Unexpected
        }
    }

    /// The number by which the engine knows this type.
    #[verifier::when_used_as_spec(spec_code)]
    pub fn code(self) -> (c: u32)
        ensures
            c == self.spec_code(),
            Self::of_code(c) == self,
    {
        match self {
            LoginType::Unknown => 0u32,
            LoginType::SSO => 1u32,
            LoginType::Unexpected => 2u32,
        }
    }
}

impl From<u32> for LoginType {
    fn from(code: u32) -> (r: Self) {
        match code {
            0u32 => LoginType::Unknown,
            1u32 => LoginType::SSO,
            _ => LoginType::Unexpected,
        }
    }
}

impl FromSpecImpl<u32> for LoginType {
    open spec fn obeys_from_spec() -> bool {
        true
    }

    open spec fn from_spec(code: u32) -> Self {
        Self::of_code(code)
    }
}

} // verus!
