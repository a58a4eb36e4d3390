//! The instance: the root that owns the services and takes everything down
//! once, in a fixed order.
use vstd::prelude::*;

use crate::native::{
    host_only, marks_nothing, started_after, NativeCall, NativeHandle, TeardownStep,
};
use crate::public_types::{
    check_status, translated, SdkError, SdkInitParam, SdkResult, ZoomRsError, ZoomSdkResult,
};
use crate::services::auth_service::AuthService;
use crate::services::meeting_service::MeetingService;
use crate::services::setting_service::SettingService;
use crate::teardown::TeardownCoordinator;

verus! {

/// Main Zoom instance.
///
/// It holds at most one service of each kind, made when first asked for, and
/// at most one network connection helper. [`Instance::cleanup`] takes all of
/// it down; an instance that was cleaned up holds nothing and makes nothing
/// any more.
pub struct Instance {
    init_param: SdkInitParam,
    meeting_service: Option<MeetingService>,
    auth_service: Option<AuthService>,
    setting_service: Option<SettingService>,
    network_conn_helper: Option<NativeHandle>,
    new_domain: Option<String>,
    cleaned_up: bool,
}

/// Where an instance stands in its life. An instance only ever moves
/// forward through these states.
#[derive(Debug, Clone, Copy, PartialEq, Eq, Structural)]
pub enum InstanceState {
    /// The engine runs; the session has not been active.
    Created,
    /// The session has reached its active state.
    Active,
    /// The engine has begun its teardown; what the instance holds is the
    /// engine's to free.
    EngineTeardown,
    /// The instance was cleaned up.
    CleanedUp,
}

impl InstanceState {
    /// How far in its life an instance in this state is.
    pub open spec fn rank(self) -> nat {
        match self {
            InstanceState::Created => 0,
            InstanceState::Active => 1,
            InstanceState::EngineTeardown => 2,
            InstanceState::CleanedUp => 3,
        }
    }
}

/// The steps that take an optional meeting service down.
pub open spec fn meeting_steps(service: Option<MeetingService>, tearing_down: bool) -> Seq<
    TeardownStep,
> {
    match service {
        Some(s) => s.teardown_plan(tearing_down),
        None => Seq::<TeardownStep>::empty(),
    }
}

/// The steps that take an optional authentication service down.
pub open spec fn auth_steps(service: Option<AuthService>, tearing_down: bool) -> Seq<TeardownStep> {
    match service {
        Some(s) => s.teardown_plan(tearing_down),
        None => Seq::<TeardownStep>::empty(),
    }
}

/// The steps that take an optional setting service down.
pub open spec fn setting_steps(service: Option<SettingService>, tearing_down: bool) -> Seq<
    TeardownStep,
> {
    match service {
        Some(s) => s.teardown_plan(tearing_down),
        None => Seq::<TeardownStep>::empty(),
    }
}

/// The steps that take the engine's root down, after the services: the
/// network connection helper is destroyed, if there is one; then the start
/// of the teardown is recorded, so that whatever is taken down afterwards
/// leaves the engine alone; and then the engine as a whole is released. None
/// of it once the engine has begun its teardown.
pub open spec fn root_steps(helper: Option<NativeHandle>, tearing_down: bool) -> Seq<TeardownStep> {
    if tearing_down {
        Seq::<TeardownStep>::empty()
    } else {
        match helper {
            Some(h) => seq![
                TeardownStep::Call(NativeCall::DestroyNetworkConnectionHelper(h)),
                TeardownStep::MarkTeardownStarted,
                TeardownStep::Call(NativeCall::CleanUpSdk),
            ],
            None => seq![
                TeardownStep::MarkTeardownStarted,
                TeardownStep::Call(NativeCall::CleanUpSdk),
            ],
        }
    }
}

impl Instance {
    /// The parameters that the engine was started with.
    pub closed spec fn init_param(&self) -> SdkInitParam {
        self.init_param
    }

    /// The meeting service, once it was asked for.
    pub closed spec fn meeting_service(&self) -> Option<MeetingService> {
        self.meeting_service
    }

    /// The authentication service, once it was asked for.
    pub closed spec fn auth_service(&self) -> Option<AuthService> {
        self.auth_service
    }

    /// The setting service, once it was asked for.
    pub closed spec fn setting_service(&self) -> Option<SettingService> {
        self.setting_service
    }

    /// The network connection helper, if one was created.
    pub closed spec fn network_helper(&self) -> Option<NativeHandle> {
        self.network_conn_helper
    }

    /// The domain that the engine was switched to, if it was.
    pub closed spec fn domain(&self) -> Option<String> {
        self.new_domain
    }

    /// Whether the instance was cleaned up.
    pub closed spec fn cleaned_up(&self) -> bool {
        self.cleaned_up
    }

    /// Whether the instance holds nothing of the engine: no service and no
    /// network connection helper.
    pub open spec fn is_bare(&self) -> bool {
        &&& self.meeting_service() is None
        &&& self.auth_service() is None
        &&& self.setting_service() is None
        &&& self.network_helper() is None
    }

    /// The rule that every instance keeps: once cleaned up it holds nothing,
    /// and the helper it holds is never the null handle.
    pub open spec fn wf(&self) -> bool {
        &&& self.cleaned_up() ==> self.is_bare()
        &&& self.network_helper() is Some ==> !self.network_helper()->0.is_null()
    }

    /// Where the instance stands in its life, given what the coordinator
    /// has recorded.
    pub open spec fn spec_state(&self, coordinator: &TeardownCoordinator) -> InstanceState {
        if self.cleaned_up() {
            InstanceState::CleanedUp
        } else if coordinator.started() {
            InstanceState::EngineTeardown
        } else if coordinator.active() {
            InstanceState::Active
        } else {
            InstanceState::Created
        }
    }

    /// What taking down everything that the instance holds consists of, in
    /// this order: the meeting service, the authentication service, the
    /// setting service, the network connection helper, the record that the
    /// teardown has started, the engine itself.
    pub open spec fn teardown_plan(&self, tearing_down: bool) -> Seq<TeardownStep> {
        meeting_steps(self.meeting_service(), tearing_down) + auth_steps(
            self.auth_service(),
            tearing_down,
        ) + setting_steps(self.setting_service(), tearing_down) + root_steps(
            self.network_helper(),
            tearing_down,
        )
    }

    /// The steps of a cleanup: none for an instance that was cleaned up, else
    /// all of [`Instance::teardown_plan`].
    pub open spec fn cleanup_plan(&self, tearing_down: bool) -> Seq<TeardownStep> {
        if self.cleaned_up() {
            Seq::<TeardownStep>::empty()
        } else {
            self.teardown_plan(tearing_down)
        }
    }

    /// The instance after a cleanup. An instance that was cleaned up stays
    /// as it is; any other holds nothing afterwards and is marked as cleaned
    /// up, and its parameters and its domain stay.
    pub closed spec fn cleaned(&self) -> Instance {
        if self.cleaned_up {
            *self
        } else {
            Instance {
                init_param: self.init_param,
                meeting_service: None,
                auth_service: None,
                setting_service: None,
                network_conn_helper: None,
                new_domain: self.new_domain,
                cleaned_up: true,
            }
        }
    }

    /// The instance after `n` cleanups in a row.
    pub open spec fn cleaned_times(&self, n: nat) -> Instance
        decreases n,
    {
        if n == 0 {
            *self
        } else {
            self.cleaned_times((n - 1) as nat).cleaned()
        }
    }

    /// Whether the meeting service stands ready, so that [`Instance::meeting`]
    /// needs nothing from the engine.
    pub fn has_meeting(&self) -> (r: bool)
        ensures
            r == self.meeting_service() is Some,
    {
        self.meeting_service.is_some()
    }

    /// Whether the authentication service stands ready, so that
    /// [`Instance::auth`] needs nothing from the engine.
    pub fn has_auth(&self) -> (r: bool)
        ensures
            r == self.auth_service() is Some,
    {
        self.auth_service.is_some()
    }

    /// Whether the setting service stands ready, so that
    /// [`Instance::setting`] needs nothing from the engine.
    pub fn has_setting(&self) -> (r: bool)
        ensures
            r == self.setting_service() is Some,
    {
        self.setting_service.is_some()
    }

    /// Whether a call of [`Instance::meeting`] would make the service, so
    /// that the engine must be asked for one first: the instance was not
    /// cleaned up and holds no meeting service.
    pub fn needs_meeting(&self) -> (r: bool)
        ensures
            r == (!self.cleaned_up() && self.meeting_service() is None),
    {
        !self.cleaned_up && self.meeting_service.is_none()
    }

    /// Whether a call of [`Instance::auth`] would make the service, so that
    /// the engine must be asked for one first.
    pub fn needs_auth(&self) -> (r: bool)
        ensures
            r == (!self.cleaned_up() && self.auth_service() is None),
    {
        !self.cleaned_up && self.auth_service.is_none()
    }

    /// Whether a call of [`Instance::setting`] would make the service, so
    /// that the engine must be asked for one first.
    pub fn needs_setting(&self) -> (r: bool)
        ensures
            r == (!self.cleaned_up() && self.setting_service() is None),
    {
        !self.cleaned_up && self.setting_service.is_none()
    }

    /// Whether a network connection helper can be created now: it is
    /// [`ZoomRsError::AlreadyExists`] where the instance holds one, and
    /// [`ZoomRsError::NullPtr`] where the instance was cleaned up. Only on
    /// `Ok(())` is the engine to be asked for a helper.
    pub fn can_create_network_connection_helper(&self) -> (r: SdkResult<()>)
        ensures
            r == if self.network_helper() is Some {
                Err::<(), ZoomRsError>(ZoomRsError::AlreadyExists)
            } else if self.cleaned_up() {
                Err::<(), ZoomRsError>(ZoomRsError::NullPtr)
            } else {
                Ok::<(), ZoomRsError>(())
            },
    {
        if self.network_conn_helper.is_some() {
            Err(ZoomRsError::AlreadyExists)
        } else if self.cleaned_up {
            Err(ZoomRsError::NullPtr)
        } else {
            Ok(())
        }
    }

    /// Whether a network connection helper was created and not destroyed.
    pub fn has_network_connection_helper(&self) -> (r: bool)
        ensures
            r == self.network_helper() is Some,
    {
        self.network_conn_helper.is_some()
    }

    /// Where the instance stands in its life.
    #[verifier::when_used_as_spec(spec_state)]
    pub fn state(&self, coordinator: &TeardownCoordinator) -> (r: InstanceState)
        ensures
            r == self.spec_state(coordinator),
    {
        if self.cleaned_up {
            InstanceState::CleanedUp
        } else if coordinator.is_tearing_down() {
            InstanceState::EngineTeardown
        } else if coordinator.was_active() {
            InstanceState::Active
        } else {
            InstanceState::Created
        }
    }

    /// Whether the instance was cleaned up.
    pub fn is_cleaned_up(&self) -> (r: bool)
        ensures
            r == self.cleaned_up(),
    {
        self.cleaned_up
    }

    /// Get meeting service interface.
    ///
    /// The first call makes the service from `created`, the engine's answer
    /// to the request for one, and keeps it; later calls return what was
    /// kept and do not look at `created`. Where the service cannot be made
    /// nothing changes and the result is the error of [`MeetingService::new`]. An
    /// instance that was cleaned up makes no service: the result is
    /// [`ZoomRsError::NullPtr`].
    pub fn meeting(&mut self, created: ZoomSdkResult<NativeHandle>) -> (r: SdkResult<&mut MeetingService>)
        ensures
            old(self).wf() ==> final(self).wf(),
            final(self).init_param() == old(self).init_param(),
            final(self).auth_service() == old(self).auth_service(),
            final(self).setting_service() == old(self).setting_service(),
            final(self).network_helper() == old(self).network_helper(),
            final(self).domain() == old(self).domain(),
            final(self).cleaned_up() == old(self).cleaned_up(),
            old(self).cleaned_up() ==> r is Err && r->Err_0 == ZoomRsError::NullPtr,
            !old(self).cleaned_up() && old(self).meeting_service() is Some ==> r is Ok && *r->Ok_0 == old(
                self,
            ).meeting_service()->0,
            !old(self).cleaned_up() && old(self).meeting_service() is None ==> {
                &&& created.0 != 0 ==> r is Err && r->Err_0 == ZoomRsError::Sdk(
                    SdkError::of_code(created.0),
                )
                &&& created.0 == 0 && created.1.is_null() ==> r is Err && r->Err_0
                    == ZoomRsError::NullPtr
                &&& created.0 == 0 && !created.1.is_null() ==> r is Ok && r->Ok_0.handle()
                    == created.1
            },
            r is Err ==> final(self).meeting_service() == old(self).meeting_service(),
            r is Ok ==> final(self).meeting_service() == Some(*final(r->Ok_0)),
    {
        if self.cleaned_up {
            return Err(ZoomRsError::NullPtr);
        }
        if self.meeting_service.is_none() {
            match MeetingService::new(created) {
                Ok(made) => {
                    self.meeting_service = Some(made);
                },
                Err(e) => {
                    return Err(e);
                },
            }
        }
        match &mut self.meeting_service {
            Some(kept) => Ok(kept),
            None => Err(ZoomRsError::NullPtr),
        }
    }

    /// Destroy the meeting service Interface: the steps that take it down, and
    /// none where the instance holds no such service. They make no request
    /// of the engine once it has begun its teardown.
    pub fn clear_meeting(&mut self, coordinator: &TeardownCoordinator) -> (steps: Vec<TeardownStep>)
        ensures
            old(self).wf() ==> final(self).wf(),
            final(self).init_param() == old(self).init_param(),
            final(self).auth_service() == old(self).auth_service(),
            final(self).setting_service() == old(self).setting_service(),
            final(self).network_helper() == old(self).network_helper(),
            final(self).domain() == old(self).domain(),
            final(self).cleaned_up() == old(self).cleaned_up(),
            final(self).meeting_service() is None,
            steps@ == meeting_steps(old(self).meeting_service(), coordinator.started()),
            coordinator.started() ==> host_only(steps@),
    {
        match self.meeting_service.take() {
            Some(service) => service.release(coordinator),
            None => Vec::new(),
        }
    }

    /// Get authentication service interface.
    ///
    /// The first call makes the service from `created`, the engine's answer
    /// to the request for one, and keeps it; later calls return what was
    /// kept and do not look at `created`. Where the service cannot be made
    /// nothing changes and the result is the error of [`AuthService::new`]. An
    /// instance that was cleaned up makes no service: the result is
    /// [`ZoomRsError::NullPtr`].
    pub fn auth(&mut self, created: ZoomSdkResult<NativeHandle>) -> (r: SdkResult<&mut AuthService>)
        ensures
            old(self).wf() ==> final(self).wf(),
            final(self).init_param() == old(self).init_param(),
            final(self).meeting_service() == old(self).meeting_service(),
            final(self).setting_service() == old(self).setting_service(),
            final(self).network_helper() == old(self).network_helper(),
            final(self).domain() == old(self).domain(),
            final(self).cleaned_up() == old(self).cleaned_up(),
            old(self).cleaned_up() ==> r is Err && r->Err_0 == ZoomRsError::NullPtr,
            !old(self).cleaned_up() && old(self).auth_service() is Some ==> r is Ok && *r->Ok_0 == old(
                self,
            ).auth_service()->0,
            !old(self).cleaned_up() && old(self).auth_service() is None ==> {
                &&& created.0 != 0 ==> r is Err && r->Err_0 == ZoomRsError::Sdk(
                    SdkError::of_code(created.0),
                )
                &&& created.0 == 0 && created.1.is_null() ==> r is Err && r->Err_0
                    == ZoomRsError::NullPtr
                &&& created.0 == 0 && !created.1.is_null() ==> r is Ok && r->Ok_0.handle()
                    == created.1
            },
            r is Err ==> final(self).auth_service() == old(self).auth_service(),
            r is Ok ==> final(self).auth_service() == Some(*final(r->Ok_0)),
    {
        if self.cleaned_up {
            return Err(ZoomRsError::NullPtr);
        }
        if self.auth_service.is_none() {
            match AuthService::new(created) {
                Ok(made) => {
                    self.auth_service = Some(made);
                },
                Err(e) => {
                    return Err(e);
                },
            }
        }
        match &mut self.auth_service {
            Some(kept) => Ok(kept),
            None => Err(ZoomRsError::NullPtr),
        }
    }

    /// Destroy the authentication service Interface: the steps that take it down, and
    /// none where the instance holds no such service. They make no request
    /// of the engine once it has begun its teardown.
    pub fn clear_auth(&mut self, coordinator: &TeardownCoordinator) -> (steps: Vec<TeardownStep>)
        ensures
            old(self).wf() ==> final(self).wf(),
            final(self).init_param() == old(self).init_param(),
            final(self).meeting_service() == old(self).meeting_service(),
            final(self).setting_service() == old(self).setting_service(),
            final(self).network_helper() == old(self).network_helper(),
            final(self).domain() == old(self).domain(),
            final(self).cleaned_up() == old(self).cleaned_up(),
            final(self).auth_service() is None,
            steps@ == auth_steps(old(self).auth_service(), coordinator.started()),
            coordinator.started() ==> host_only(steps@),
    {
        match self.auth_service.take() {
            Some(service) => service.release(coordinator),
            None => Vec::new(),
        }
    }

    /// Get setting service interface.
    ///
    /// The first call makes the service from `created`, the engine's answer
    /// to the request for one, and keeps it; later calls return what was
    /// kept and do not look at `created`. Where the service cannot be made
    /// nothing changes and the result is the error of [`SettingService::new`]. An
    /// instance that was cleaned up makes no service: the result is
    /// [`ZoomRsError::NullPtr`].
    pub fn setting(&mut self, created: ZoomSdkResult<NativeHandle>) -> (r: SdkResult<&mut SettingService>)
        ensures
            old(self).wf() ==> final(self).wf(),
            final(self).init_param() == old(self).init_param(),
            final(self).meeting_service() == old(self).meeting_service(),
            final(self).auth_service() == old(self).auth_service(),
            final(self).network_helper() == old(self).network_helper(),
            final(self).domain() == old(self).domain(),
            final(self).cleaned_up() == old(self).cleaned_up(),
            old(self).cleaned_up() ==> r is Err && r->Err_0 == ZoomRsError::NullPtr,
            !old(self).cleaned_up() && old(self).setting_service() is Some ==> r is Ok && *r->Ok_0 == old(
                self,
            ).setting_service()->0,
            !old(self).cleaned_up() && old(self).setting_service() is None ==> {
                &&& created.0 != 0 ==> r is Err && r->Err_0 == ZoomRsError::Sdk(
                    SdkError::of_code(created.0),
                )
                &&& created.0 == 0 && created.1.is_null() ==> r is Err && r->Err_0
                    == ZoomRsError::NullPtr
                &&& created.0 == 0 && !created.1.is_null() ==> r is Ok && r->Ok_0.handle()
                    == created.1
            },
            r is Err ==> final(self).setting_service() == old(self).setting_service(),
            r is Ok ==> final(self).setting_service() == Some(*final(r->Ok_0)),
    {
        if self.cleaned_up {
            return Err(ZoomRsError::NullPtr);
        }
        if self.setting_service.is_none() {
            match SettingService::new(created) {
                Ok(made) => {
                    self.setting_service = Some(made);
                },
                Err(e) => {
                    return Err(e);
                },
            }
        }
        match &mut self.setting_service {
            Some(kept) => Ok(kept),
            None => Err(ZoomRsError::NullPtr),
        }
    }

    /// Destroy the setting service Interface: the steps that take it down, and
    /// none where the instance holds no such service. They make no request
    /// of the engine once it has begun its teardown.
    pub fn clear_setting(&mut self, coordinator: &TeardownCoordinator) -> (steps: Vec<TeardownStep>)
        ensures
            old(self).wf() ==> final(self).wf(),
            final(self).init_param() == old(self).init_param(),
            final(self).meeting_service() == old(self).meeting_service(),
            final(self).auth_service() == old(self).auth_service(),
            final(self).network_helper() == old(self).network_helper(),
            final(self).domain() == old(self).domain(),
            final(self).cleaned_up() == old(self).cleaned_up(),
            final(self).setting_service() is None,
            steps@ == setting_steps(old(self).setting_service(), coordinator.started()),
            coordinator.started() ==> host_only(steps@),
    {
        match self.setting_service.take() {
            Some(service) => service.release(coordinator),
            None => Vec::new(),
        }
    }

    /// Create network connection helper interface, from the engine's answer
    /// to the request for one.
    ///
    /// There is at most one helper: where the instance holds one already the
    /// result is [`ZoomRsError::AlreadyExists`], whatever `created` holds. An
    /// instance that was cleaned up makes none: [`ZoomRsError::NullPtr`].
    /// Else a status other than success gives its error, and a null helper
    /// gives [`ZoomRsError::NullPtr`]. Only on `Ok(())` does anything change:
    /// the instance then holds the helper.
    pub fn create_network_connection_helper(&mut self, created: ZoomSdkResult<NativeHandle>) -> (r:
        SdkResult<()>)
        ensures
            old(self).wf() ==> final(self).wf(),
            final(self).init_param() == old(self).init_param(),
            final(self).meeting_service() == old(self).meeting_service(),
            final(self).auth_service() == old(self).auth_service(),
            final(self).setting_service() == old(self).setting_service(),
            final(self).domain() == old(self).domain(),
            final(self).cleaned_up() == old(self).cleaned_up(),
            r == if old(self).network_helper() is Some {
                Err::<(), ZoomRsError>(ZoomRsError::AlreadyExists)
            } else if old(self).cleaned_up() {
                Err::<(), ZoomRsError>(ZoomRsError::NullPtr)
            } else if created.0 != 0 {
                Err::<(), ZoomRsError>(ZoomRsError::Sdk(SdkError::of_code(created.0)))
            } else if created.1.is_null() {
                Err::<(), ZoomRsError>(ZoomRsError::NullPtr)
            } else {
                Ok::<(), ZoomRsError>(())
            },
            r is Ok ==> final(self).network_helper() == Some(created.1),
            r is Err ==> final(self).network_helper() == old(self).network_helper(),
    {
        if self.network_conn_helper.is_some() {
            return Err(ZoomRsError::AlreadyExists);
        }
        if self.cleaned_up {
            return Err(ZoomRsError::NullPtr);
        }
        let ZoomSdkResult(status, helper) = created;
        if status != 0 {
            return Err(ZoomRsError::Sdk(SdkError::from(status)));
        }
        if helper.is_null() {
            return Err(ZoomRsError::NullPtr);
        }
        self.network_conn_helper = Some(helper);
        Ok(())
    }

    /// Destroy the specified network connection helper interface: the
    /// request to make of the engine. The instance keeps the helper until
    /// the engine's answer comes
    /// ([`Instance::network_connection_helper_destroyed`]).
    ///
    /// It is [`ZoomRsError::NullPtr`] where the instance holds no helper,
    /// and where the engine has begun its teardown and frees the helper
    /// itself.
    pub fn destroy_network_connection_helper(&self, coordinator: &TeardownCoordinator) -> (r:
        SdkResult<NativeCall>)
        ensures
            self.network_helper() is None || coordinator.started() ==> r == Err::<
                NativeCall,
                ZoomRsError,
            >(ZoomRsError::NullPtr),
            self.network_helper() is Some && !coordinator.started() ==> r == Ok::<
                NativeCall,
                ZoomRsError,
            >(NativeCall::DestroyNetworkConnectionHelper(self.network_helper()->0)),
    {
        if coordinator.is_tearing_down() {
            return Err(ZoomRsError::NullPtr);
        }
        match self.network_conn_helper {
            Some(helper) => Ok(NativeCall::DestroyNetworkConnectionHelper(helper)),
            None => Err(ZoomRsError::NullPtr),
        }
    }

    /// Takes the engine's answer to the request that destroys the network
    /// connection helper: on success the instance holds the helper no more;
    /// any other status is returned as its error and the helper stays.
    pub fn network_connection_helper_destroyed(&mut self, status: u32) -> (r: SdkResult<()>)
        ensures
            old(self).wf() ==> final(self).wf(),
            final(self).init_param() == old(self).init_param(),
            final(self).meeting_service() == old(self).meeting_service(),
            final(self).auth_service() == old(self).auth_service(),
            final(self).setting_service() == old(self).setting_service(),
            final(self).domain() == old(self).domain(),
            final(self).cleaned_up() == old(self).cleaned_up(),
            r == translated(status, ()),
            final(self).network_helper() == if status == 0 {
                None
            } else {
                old(self).network_helper()
            },
    {
        if status == 0 {
            self.network_conn_helper = None;
        }
        check_status(status)
    }

    /// Call the method to switch sdk domain: takes the engine's answer to
    /// the request. On success the instance keeps the new domain; any other
    /// status is returned as its error and nothing changes.
    pub fn switch_domain(&mut self, new_domain: String, status: u32) -> (r: SdkResult<()>)
        ensures
            old(self).wf() ==> final(self).wf(),
            final(self).init_param() == old(self).init_param(),
            final(self).meeting_service() == old(self).meeting_service(),
            final(self).auth_service() == old(self).auth_service(),
            final(self).setting_service() == old(self).setting_service(),
            final(self).network_helper() == old(self).network_helper(),
            final(self).cleaned_up() == old(self).cleaned_up(),
            r == translated(status, ()),
            final(self).domain() == if status == 0 {
                Some(new_domain)
            } else {
                old(self).domain()
            },
    {
        if status == 0 {
            self.new_domain = Some(new_domain);
        }
        check_status(status)
    }

    /// Takes down everything that the instance holds, once: the steps to
    /// perform, in their order.
    ///
    /// The first call returns the steps of [`Instance::teardown_plan`]: the
    /// services in their order, then the network connection helper, then the
    /// record that the teardown has started, then the engine itself. Where
    /// the engine had begun its teardown before, no step makes a request of
    /// it: only the handlers of the host are released.
    ///
    /// Every later call returns no step and changes nothing.
    pub fn cleanup(&mut self, coordinator: &TeardownCoordinator) -> (steps: Vec<TeardownStep>)
        ensures
            old(self).wf() ==> final(self).wf(),
            steps@ == old(self).cleanup_plan(coordinator.started()),
            *final(self) == old(self).cleaned(),
            final(self).cleaned_up(),
            final(self).init_param() == old(self).init_param(),
            final(self).domain() == old(self).domain(),
            !old(self).cleaned_up() || old(self).wf() ==> final(self).is_bare(),
            old(self).cleaned_up() ==> steps@.len() == 0 && *final(self) == *old(self),
            coordinator.started() ==> host_only(steps@),
    {
        let mut steps: Vec<TeardownStep> = Vec::new();
        if self.cleaned_up {
            return steps;
        }
        let tearing_down = coordinator.is_tearing_down();
        match self.meeting_service.take() {
            Some(service) => {
                let mut more = service.release(coordinator);
                steps.append(&mut more);
            },
            None => {},
        }
        match self.auth_service.take() {
            Some(service) => {
                let mut more = service.release(coordinator);
                steps.append(&mut more);
            },
            None => {},
        }
        match self.setting_service.take() {
            Some(service) => {
                let mut more = service.release(coordinator);
                steps.append(&mut more);
            },
            None => {},
        }
        match self.network_conn_helper.take() {
            Some(helper) => {
                if !tearing_down {
                    steps.push(TeardownStep::Call(NativeCall::DestroyNetworkConnectionHelper(helper)));
                }
            },
            None => {},
        }
        if !tearing_down {
            steps.push(TeardownStep::MarkTeardownStarted);
            steps.push(TeardownStep::Call(NativeCall::CleanUpSdk));
        }
        self.cleaned_up = true;
        proof {
            assert(steps@ =~= old(self).teardown_plan(coordinator.started()));
        }
        steps
    }

    /// What is left to do when the instance goes out of use: the steps of
    /// [`Instance::cleanup`], and none if it was cleaned up before.
    pub fn scope_exit(&mut self, coordinator: &TeardownCoordinator) -> (steps: Vec<TeardownStep>)
        ensures
            old(self).wf() ==> final(self).wf(),
            steps@ == old(self).cleanup_plan(coordinator.started()),
            *final(self) == old(self).cleaned(),
            final(self).cleaned_up(),
            final(self).init_param() == old(self).init_param(),
            final(self).domain() == old(self).domain(),
            old(self).cleaned_up() ==> steps@.len() == 0 && *final(self) == *old(self),
            coordinator.started() ==> host_only(steps@),
    {
        if self.cleaned_up {
            Vec::new()
        } else {
            self.cleanup(coordinator)
        }
    }

    /// In the steps of a first cleanup, while the engine has not begun its
    /// teardown, the start of the teardown is recorded exactly once: right
    /// before the engine as a whole is released, which is the last step, and
    /// after everything else. So the teardown has started once the steps
    /// are performed. Where the engine had begun its teardown before, no
    /// step records it again.
    pub proof fn lemma_mark_stands_before_the_release_of_the_engine(self)
        requires
            !self.cleaned_up(),
        ensures
            ({
                let plan = self.cleanup_plan(false);
                &&& plan.len() >= 2
                &&& plan[plan.len() - 1] == TeardownStep::Call(NativeCall::CleanUpSdk)
                &&& plan[plan.len() - 2] == TeardownStep::MarkTeardownStarted
                &&& marks_nothing(plan.take(plan.len() - 2))
                &&& forall|i: int|
                    0 <= i < plan.len() - 2 ==> (#[trigger] plan[i]) != TeardownStep::Call(
                        NativeCall::CleanUpSdk,
                    )
            }),
            marks_nothing(self.cleanup_plan(true)),
            started_after(false, self.cleanup_plan(false)),
    {
        let m = meeting_steps(self.meeting_service(), false);
        let a = auth_steps(self.auth_service(), false);
        let s = setting_steps(self.setting_service(), false);
        let r = root_steps(self.network_helper(), false);
        let plan = self.cleanup_plan(false);
        if self.meeting_service() is Some {
            self.meeting_service()->0.lemma_plan_only_destroys_and_releases();
        }
        assert(plan =~= m + a + s + r);
        assert forall|i: int| 0 <= i < plan.len() - 2 implies (#[trigger] plan[i])
            != TeardownStep::MarkTeardownStarted && plan[i] != TeardownStep::Call(
            NativeCall::CleanUpSdk,
        ) by {
            if i < m.len() {
                assert(plan[i] == m[i]);
            } else if i < m.len() + a.len() {
                assert(plan[i] == a[i - m.len()]);
            } else if i < m.len() + a.len() + s.len() {
                assert(plan[i] == s[i - m.len() - a.len()]);
            } else {
                assert(plan[i] == r[i - m.len() - a.len() - s.len()]);
            }
        }
        assert(plan[plan.len() - 2] == TeardownStep::MarkTeardownStarted);
        let front = plan.take(plan.len() - 2);
        assert forall|i: int| 0 <= i < front.len() implies (#[trigger] front[i])
            != TeardownStep::MarkTeardownStarted by {
            assert(front[i] == plan[i]);
        }
        let quiet = self.cleanup_plan(true);
        let mq = meeting_steps(self.meeting_service(), true);
        let aq = auth_steps(self.auth_service(), true);
        assert forall|i: int| 0 <= i < quiet.len() implies (#[trigger] quiet[i])
            != TeardownStep::MarkTeardownStarted by {
            assert(setting_steps(self.setting_service(), true).len() == 0);
            assert(root_steps(self.network_helper(), true).len() == 0);
            if i < mq.len() {
                assert(quiet[i] == mq[i]);
            } else {
                assert(quiet[i] == aq[i - mq.len()]);
            }
        }
    }

    /// A cleanup leaves an instance that is cleaned up and holds nothing;
    /// cleaning such an instance up again consists of no step and leaves it
    /// as it is, whether or not the engine has begun its teardown. So of any
    /// number of cleanups in a row only the first does anything.
    pub proof fn lemma_cleanup_happens_once(self, n: nat, tearing_down: bool)
        requires
            self.wf(),
            n >= 1,
        ensures
            self.cleaned_times(n) == self.cleaned(),
            self.cleaned_times(n).cleaned_up(),
            self.cleaned_times(n).is_bare(),
            self.cleaned_times(n).cleanup_plan(tearing_down) == Seq::<TeardownStep>::empty(),
        decreases n,
    {
        if n > 1 {
            self.lemma_cleanup_happens_once((n - 1) as nat, tearing_down);
        } else {
            assert(self.cleaned_times(0) == self);
        }
    }

    /// An instance never goes back in its life: where the coordinator has
    /// only gone on and a cleanup has not been undone, the state is the
    /// same or a later one. And a cleanup always ends in
    /// [`InstanceState::CleanedUp`].
    pub proof fn lemma_state_never_goes_back(
        before: Instance,
        earlier: TeardownCoordinator,
        after: Instance,
        later: TeardownCoordinator,
    )
        requires
            later.follows(earlier),
            before.cleaned_up() ==> after.cleaned_up(),
        ensures
            before.spec_state(&earlier).rank() <= after.spec_state(&later).rank(),
            before.cleaned().spec_state(&later) == InstanceState::CleanedUp,
    {
    }

    /// Once the engine has begun its teardown, taking an instance down
    /// makes no request of the engine, whatever the instance holds.
    pub proof fn lemma_no_native_call_after_teardown(self)
        ensures
            host_only(self.teardown_plan(true)),
            host_only(self.cleanup_plan(true)),
    {
        let plan = self.teardown_plan(true);
        assert forall|i: int| 0 <= i < plan.len() implies !(#[trigger] plan[i]).spec_is_native() by {
            let m = meeting_steps(self.meeting_service(), true);
            let a = auth_steps(self.auth_service(), true);
            let s = setting_steps(self.setting_service(), true);
            if self.meeting_service() is Some {
                self.meeting_service()->0.lemma_releases_are_host_only();
            }
            assert(root_steps(self.network_helper(), true).len() == 0);
            assert(s.len() == 0);
            if i < m.len() {
                assert(plan[i] == m[i]);
            } else {
                assert(plan[i] == a[i - m.len()]);
            }
        }
    }
}

/// Initialize ZOOM SDK: takes the engine's answer to the request that
/// starts it with `init_param`. On success the result is the instance, which
/// holds nothing yet; any other status is returned as its error.
pub fn init_sdk(init_param: SdkInitParam, status: u32) -> (r: SdkResult<Instance>)
    ensures
        status != 0 ==> r is Err && r->Err_0 == ZoomRsError::Sdk(SdkError::of_code(status)),
        status == 0 ==> {
            &&& r is Ok
            &&& r->Ok_0.wf()
            &&& r->Ok_0.init_param() == init_param
            &&& r->Ok_0.is_bare()
            &&& r->Ok_0.domain() is None
            &&& !r->Ok_0.cleaned_up()
        },
{
    if status != 0 {
        return Err(ZoomRsError::Sdk(SdkError::from(status)));
    }
    Ok(
        Instance {
            init_param,
            meeting_service: None,
            auth_service: None,
            setting_service: None,
            network_conn_helper: None,
            new_domain: None,
            cleaned_up: false,
        },
    )
}

/// Clean up ZOOM SDK: takes the instance and returns the steps of its
/// cleanup ([`Instance::cleanup`]). What the cleanup reports is what the
/// engine answers to its release
/// ([`TeardownReport`](crate::teardown::TeardownReport)).
pub fn cleanup_sdk(this: Instance, coordinator: &TeardownCoordinator) -> (steps: Vec<TeardownStep>)
    ensures
        steps@ == this.cleanup_plan(coordinator.started()),
        coordinator.started() ==> host_only(steps@),
{
    let mut this = this;
    this.cleanup(coordinator)
}

} // verus!
