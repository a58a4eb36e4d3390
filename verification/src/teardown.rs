//! The teardown coordinator: the record of whether the engine has begun to
//! take its own objects down, which every path that frees a native object
//! asks before it acts.
use vstd::prelude::*;

use crate::bridge::{without, CallbackBridge};
use crate::native::{started_after, NativeCall, TeardownStep};
use crate::public_types::{translated, SdkResult, ZoomSdkResult};

verus! {

/// Two flags that only ever go from unset to set, and the note of whether an
/// event loop waits to be woken.
///
/// `started` says that the engine has begun its teardown: from then on it
/// frees its objects itself, and the host must leave them alone. `active`
/// says that the session once reached the state in which the engine holds the
/// heavy objects (renderers, audio helpers) of a running meeting; it tells a
/// teardown of live objects from a failure before any was made.
///
/// There is no way to unset a flag: one coordinator serves one session.
#[derive(Debug, PartialEq, Eq, Structural)]
pub struct TeardownCoordinator {
    started: bool,
    active: bool,
    event_loop: bool,
}

impl TeardownCoordinator {
    /// Whether the engine has begun its teardown.
    pub closed spec fn started(self) -> bool {
        self.started
    }

    /// Whether the session ever reached its active state.
    pub closed spec fn active(self) -> bool {
        self.active
    }

    /// Whether an event loop is registered to be woken.
    pub closed spec fn has_event_loop(self) -> bool {
        self.event_loop
    }

    /// Whether `self` can be a later state of `earlier`: no flag that was set
    /// is unset.
    pub open spec fn follows(self, earlier: Self) -> bool {
        &&& earlier.started() ==> self.started()
        &&& earlier.active() ==> self.active()
        &&& earlier.has_event_loop() ==> self.has_event_loop()
    }

    /// A coordinator for a new session: nothing has happened yet.
    pub fn new() -> (r: Self)
        ensures
            !r.started(),
            !r.active(),
            !r.has_event_loop(),
    {
        TeardownCoordinator { started: false, active: false, event_loop: false }
    }

    /// Notes that an event loop runs which must be woken when the teardown
    /// starts.
    pub fn register_event_loop(&mut self)
        ensures
            final(self).has_event_loop(),
            final(self).started() == old(self).started(),
            final(self).active() == old(self).active(),
            final(self).follows(*old(self)),
    {
        self.event_loop = true;
    }

    /// Records that the engine has begun its teardown. The result says
    /// whether an event loop is registered: the caller then asks that loop to
    /// end at once, before it returns to the engine.
    pub fn mark_teardown_started(&mut self) -> (wake: bool)
        ensures
            final(self).started(),
            final(self).active() == old(self).active(),
            final(self).has_event_loop() == old(self).has_event_loop(),
            final(self).follows(*old(self)),
            wake == old(self).has_event_loop(),
    {
        self.started = true;
        self.event_loop
    }

    /// Whether the engine has begun its teardown.
    pub fn is_tearing_down(&self) -> (r: bool)
        ensures
            r == self.started(),
    {
        self.started
    }

    /// Records that the session has reached its active state.
    pub fn mark_entered_active_state(&mut self)
        ensures
            final(self).active(),
            final(self).started() == old(self).started(),
            final(self).has_event_loop() == old(self).has_event_loop(),
            final(self).follows(*old(self)),
    {
        self.active = true;
    }

    /// Whether the session ever reached its active state.
    pub fn was_active(&self) -> (r: bool)
        ensures
            r == self.active(),
    {
        self.active
    }

    /// A state follows itself, and what follows a later state follows every
    /// earlier one: so `follows` holds between the states before and after
    /// any chain of calls.
    pub proof fn lemma_follows_is_preorder(first: Self, second: Self, third: Self)
        ensures
            first.follows(first),
            third.follows(second) && second.follows(first) ==> third.follows(first),
    {
    }

    /// Once the teardown has started it has started in every later state,
    /// and a session that was active stays so.
    pub proof fn lemma_flags_are_permanent(earlier: Self, later: Self)
        requires
            later.follows(earlier),
        ensures
            earlier.started() ==> later.started(),
            earlier.active() ==> later.active(),
    {
    }
}

/// What is left to do after a step was performed on the host's side.
#[derive(Debug, Clone, Copy, PartialEq, Eq, Structural)]
pub struct Performed {
    /// The request to make of the engine, where the step is one.
    pub call: Option<NativeCall>,
    /// Whether an event loop is to be ended at once.
    pub wake: bool,
}

/// Performs the host's side of one step of a teardown.
///
/// A request of the engine is handed back to be made, and nothing changes.
/// A release takes the handler out of the table
/// ([`CallbackBridge::unregister`]). The mark records with the coordinator
/// that the teardown has started ([`TeardownCoordinator::mark_teardown_started`]).
pub fn perform_step(
    step: TeardownStep,
    bridge: &mut CallbackBridge,
    coordinator: &mut TeardownCoordinator,
) -> (r: Performed)
    requires
        old(bridge).wf(),
    ensures
        final(bridge).wf(),
        final(bridge).issued() == old(bridge).issued(),
        final(coordinator).follows(*old(coordinator)),
        final(coordinator).active() == old(coordinator).active(),
        final(coordinator).has_event_loop() == old(coordinator).has_event_loop(),
        final(coordinator).started() == started_after(old(coordinator).started(), seq![step]),
        match step {
            TeardownStep::Call(call) => {
                &&& r == Performed { call: Some(call), wake: false }
                &&& *final(bridge) == *old(bridge)
                &&& *final(coordinator) == *old(coordinator)
            },
            TeardownStep::Release(context) => {
                &&& r == Performed { call: None, wake: false }
                &&& final(bridge)@ == without(old(bridge)@, context)
                &&& *final(coordinator) == *old(coordinator)
            },
            TeardownStep::MarkTeardownStarted => {
                &&& r == Performed { call: None, wake: old(coordinator).has_event_loop() }
                &&& *final(bridge) == *old(bridge)
                &&& final(coordinator).started()
            },
        },
{
    proof {
        assert(seq![step][0] == step);
    }
    match step {
        TeardownStep::Call(call) => Performed { call: Some(call), wake: false },
        TeardownStep::Release(context) => {
            bridge.unregister(context);
            Performed { call: None, wake: false }
        },
        TeardownStep::MarkTeardownStarted => {
            let wake = coordinator.mark_teardown_started();
            Performed { call: None, wake }
        },
    }
}

/// What the engine answered to the steps of a teardown, as far as the
/// caller is told: the answer to the last request that was made. In a
/// cleanup that is the release of the engine as a whole; the requests before
/// it are made at best effort.
#[derive(Debug, Clone, Copy)]
pub struct TeardownReport {
    last: Option<(NativeCall, u32)>,
}

impl TeardownReport {
    /// The last request that was answered, with the engine's status.
    pub closed spec fn last(self) -> Option<(NativeCall, u32)> {
        self.last
    }

    /// What the teardown reports: success where no request was made, else
    /// what the status of the last request translates to.
    pub open spec fn outcome(self) -> SdkResult<()> {
        match self.last() {
            Some((_, status)) => translated(status, ()),
            None => Ok(()),
        }
    }

    /// A report of a teardown in which nothing was answered yet.
    pub fn new() -> (r: Self)
        ensures
            r.last() is None,
    {
        TeardownReport { last: None }
    }

    /// Takes the engine's answer to one request of a teardown.
    pub fn record(&mut self, call: NativeCall, status: u32)
        ensures
            final(self).last() == Some((call, status)),
    {
        self.last = Some((call, status));
    }

    /// What the teardown reports.
    pub fn result(&self) -> (r: SdkResult<()>)
        ensures
            r == self.outcome(),
    {
        match self.last {
            Some((_, status)) => ZoomSdkResult(status, ()).into(),
            None => Ok(()),
        }
    }
}

} // verus!
