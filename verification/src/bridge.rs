//! The callback bridge: the table through which the engine reaches the
//! host's handlers.
//!
//! The engine is never given the address of a handler. It is given a
//! [`CallbackContext`], a token that names one registration in this table,
//! and every callback looks its handler up by that token. A token whose
//! registration has been released finds nothing, and the callback does
//! nothing: the engine may call as late as it likes.
use vstd::prelude::*;

use crate::native::CallbackContext;
use crate::public_types::{SdkResult, ZoomRsError};
use crate::rawdata::audio::{RawAudioEvent, VirtualAudioMicEvent};
use crate::rawdata::video::RawVideoEvent;
use crate::services::auth_service::AuthServiceEvent;
use crate::services::meeting_service::recording_controller::RecordingControllerEvent;
use crate::services::meeting_service::sharing_controller::SharingControllerEvent;
use crate::services::meeting_service::webcam_interface::VideoToWebcam;
use crate::services::meeting_service::MeetingServiceEvent;

verus! {

/// Which of the engine's delegates a handler serves.
#[derive(Debug, Clone, Copy, PartialEq, Eq, Structural)]
pub enum HandlerKind {
    /// The meeting service.
    Meeting,
    /// The authentication service.
    Auth,
    /// The recording controller.
    Recording,
    /// The sharing controller.
    Sharing,
    /// A video renderer.
    Video,
    /// The audio helper.
    Audio,
    /// The virtual microphone.
    Microphone,
    /// The virtual webcam.
    Webcam,
}

/// A handler of the host, of one of the kinds that the engine calls.
pub enum Handler {
    /// Serves the meeting service.
    Meeting(Box<dyn MeetingServiceEvent>),
    /// Serves the authentication service.
    Auth(Box<dyn AuthServiceEvent>),
    /// Serves the recording controller.
    Recording(Box<dyn RecordingControllerEvent>),
    /// Serves the sharing controller.
    Sharing(Box<dyn SharingControllerEvent>),
    /// Serves a video renderer.
    Video(Box<dyn RawVideoEvent>),
    /// Serves the audio helper.
    Audio(Box<dyn RawAudioEvent>),
    /// Serves the virtual microphone.
    Microphone(Box<dyn VirtualAudioMicEvent>),
    /// Serves the virtual webcam.
    Webcam(Box<dyn VideoToWebcam>),
}

impl Handler {
    /// Which delegate the handler serves.
    pub open spec fn spec_kind(&self) -> HandlerKind {
        match self {
            Handler::Meeting(_) => HandlerKind::Meeting,
            Handler::Auth(_) => HandlerKind::Auth,
            Handler::Recording(_) => HandlerKind::Recording,
            Handler::Sharing(_) => HandlerKind::Sharing,
            Handler::Video(_) => HandlerKind::Video,
            Handler::Audio(_) => HandlerKind::Audio,
            Handler::Microphone(_) => HandlerKind::Microphone,
            Handler::Webcam(_) => HandlerKind::Webcam,
        }
    }

    /// Which delegate the handler serves.
    #[verifier::when_used_as_spec(spec_kind)]
    pub fn kind(&self) -> (k: HandlerKind)
        ensures
            k == self.spec_kind(),
    {
        match self {
            Handler::Meeting(_) => HandlerKind::Meeting,
            Handler::Auth(_) => HandlerKind::Auth,
            Handler::Recording(_) => HandlerKind::Recording,
            Handler::Sharing(_) => HandlerKind::Sharing,
            Handler::Video(_) => HandlerKind::Video,
            Handler::Audio(_) => HandlerKind::Audio,
            Handler::Microphone(_) => HandlerKind::Microphone,
            Handler::Webcam(_) => HandlerKind::Webcam,
        }
    }

    /// Lets the handler do its last work: a handler of raw video or raw audio
    /// is asked to flush what it has buffered; the other kinds buffer nothing.
    pub fn flush(&mut self)
        ensures
            final(self).kind() == old(self).kind(),
            old(self).kind() != HandlerKind::Video && old(self).kind() != HandlerKind::Audio
                ==> *final(self) == *old(self),
    {
        match self {
            Handler::Video(h) => {
                h.flush();
            },
            Handler::Audio(h) => {
                h.flush();
            },
            _ => {},
        }
    }
}

/// One handler together with the token that names it.
pub struct Registration {
    /// The token that the engine holds for the handler.
    pub context: CallbackContext,
    /// The handler.
    pub handler: Handler,
}

/// The table of the registered handlers.
///
/// Tokens are issued in rising order, starting at 1, and none is issued
/// twice: a token that was released names nothing for ever. Every table that
/// [`CallbackBridge::new`] made and the functions of this library changed is
/// well formed ([`CallbackBridge::wf`]).
pub struct CallbackBridge {
    issued: u64,
    cells: Vec<Registration>,
}

impl View for CallbackBridge {
    type V = Seq<Registration>;

    /// The registrations that are live, oldest first.
    closed spec fn view(&self) -> Seq<Registration> {
        self.cells@
    }
}

/// Whether the tokens of `cells` rise strictly and lie in `1..=issued`.
pub open spec fn tokens_in_order(cells: Seq<Registration>, issued: u64) -> bool {
    &&& forall|i: int| 0 <= i < cells.len() ==> 1 <= (#[trigger] cells[i]).context.token <= issued
    &&& forall|i: int, j: int|
        0 <= i < j < cells.len() ==> (#[trigger] cells[i]).context.token < (#[trigger] cells[j]).context.token
}

/// Whether `context` names one of `cells`.
pub open spec fn names_one(cells: Seq<Registration>, context: CallbackContext) -> bool {
    exists|i: int| 0 <= i < cells.len() && (#[trigger] cells[i]).context == context
}

/// The position in `cells` of the registration that `context` names.
pub open spec fn position_of(cells: Seq<Registration>, context: CallbackContext) -> int {
    choose|i: int| 0 <= i < cells.len() && (#[trigger] cells[i]).context == context
}

/// Whether `after` is `before` but for the inner state of the handler that
/// `context` names: the same tokens in the same order, each with a handler of
/// the same kind, and every other handler untouched.
pub open spec fn delivered_to(
    after: Seq<Registration>,
    before: Seq<Registration>,
    context: CallbackContext,
) -> bool {
    &&& after.len() == before.len()
    &&& forall|i: int|
        0 <= i < before.len() ==> {
            &&& (#[trigger] after[i]).context == before[i].context
            &&& after[i].handler.kind() == before[i].handler.kind()
            &&& before[i].context != context ==> after[i] == before[i]
        }
}

/// Whether `after` is `before` with one registration more at its end: that of
/// `handler` under the token `context`.
pub open spec fn appended(
    after: Seq<Registration>,
    before: Seq<Registration>,
    context: CallbackContext,
    handler: Handler,
) -> bool {
    &&& after.len() == before.len() + 1
    &&& after[after.len() - 1].context == context
    &&& after[after.len() - 1].handler == handler
    &&& forall|i: int| 0 <= i < before.len() ==> (#[trigger] after[i]) == before[i]
}

/// `cells` without the registration that `context` names; `cells` itself
/// where it names none.
pub open spec fn without(cells: Seq<Registration>, context: CallbackContext) -> Seq<Registration> {
    if names_one(cells, context) {
        cells.remove(position_of(cells, context))
    } else {
        cells
    }
}

/// Whether `after` is what replacing leaves of `before`: the registration
/// that `previous` names is gone, if it named one, and the registration of
/// `handler` under `made` is added at the end, if a token was issued.
/// Nothing else has changed.
pub open spec fn replaced(
    after: Seq<Registration>,
    before: Seq<Registration>,
    previous: Option<CallbackContext>,
    made: Option<CallbackContext>,
    handler: Handler,
) -> bool {
    let rest = match previous {
        Some(p) => without(before, p),
        None => before,
    };
    match made {
        Some(c) => appended(after, rest, c, handler),
        None => after == rest,
    }
}

/// What became of a callback.
#[derive(Debug, Clone, Copy, PartialEq, Eq, Structural)]
pub enum Delivery {
    /// The handler that the token names was called.
    Delivered,
    /// The engine handed over nothing to deliver, a null payload: no handler
    /// was called.
    NothingToDeliver,
    /// The token names no live handler of the kind that the callback is for:
    /// no handler was called.
    NoHandler,
}

/// What becomes of a callback for `context` on the table `before`. Where
/// the engine handed over nothing (`payload` is false) nothing is
/// delivered, whatever the token names. Else the callback is delivered
/// exactly where `context` names a live handler of the kind `kind`.
pub open spec fn delivery_of(
    before: &CallbackBridge,
    context: CallbackContext,
    kind: HandlerKind,
    payload: bool,
) -> Delivery {
    if !payload {
        Delivery::NothingToDeliver
    } else if before.serves(context, kind) {
        Delivery::Delivered
    } else {
        Delivery::NoHandler
    }
}

/// What every callback leaves behind. The table `after` is the table
/// `before` but for the inner state of the handler that `context` names. And
/// it is `before` unchanged where no handler was called: where `context`
/// names no live handler of the kind `kind`, or where the engine handed over
/// nothing to deliver (`payload` is false).
pub open spec fn after_callback(
    after: &CallbackBridge,
    before: &CallbackBridge,
    context: CallbackContext,
    kind: HandlerKind,
    payload: bool,
) -> bool {
    &&& after.wf()
    &&& after.issued() == before.issued()
    &&& delivered_to(after@, before@, context)
    &&& !(payload && before.serves(context, kind)) ==> after@ =~= before@
}

impl CallbackBridge {
    /// How many tokens have been issued; also the last one issued.
    pub closed spec fn issued(&self) -> u64 {
        self.issued
    }

    /// The rule that every table keeps: its tokens rise strictly and lie in
    /// `1..=issued()`. So no two registrations share a token, and token 0
    /// names none.
    pub open spec fn wf(&self) -> bool {
        tokens_in_order(self@, self.issued())
    }

    /// Whether `context` names a live registration.
    pub open spec fn is_live(&self, context: CallbackContext) -> bool {
        names_one(self@, context)
    }

    /// Whether `context` names a live registration of the kind `kind`.
    pub open spec fn serves(&self, context: CallbackContext, kind: HandlerKind) -> bool {
        exists|i: int|
            0 <= i < self@.len() && (#[trigger] self@[i]).context == context && self@[i].handler.kind()
                == kind
    }

    /// In a well-formed table no two registrations share a token, and every
    /// live token has been issued: it is at most `issued()`. A token that
    /// is issued later is greater, so a token that was released is never
    /// issued again.
    pub proof fn lemma_tokens_are_distinct_and_issued(&self, context: CallbackContext)
        requires
            self.wf(),
        ensures
            forall|i: int, j: int|
                0 <= i < self@.len() && 0 <= j < self@.len() && i != j ==> (#[trigger] self@[i]).context
                    != (#[trigger] self@[j]).context,
            self.is_live(context) ==> 1 <= context.token <= self.issued(),
            !self.is_live(CallbackContext { token: 0 }),
    {
        assert forall|i: int, j: int|
            0 <= i < self@.len() && 0 <= j < self@.len() && i != j implies (#[trigger] self@[i]).context
            != (#[trigger] self@[j]).context by {
            if i < j {
                assert(self@[i].context.token < self@[j].context.token);
            } else {
                assert(self@[j].context.token < self@[i].context.token);
            }
        }
        if self.is_live(context) {
            let k = position_of(self@, context);
            assert(1 <= self@[k].context.token <= self.issued());
        }
        if self.is_live(CallbackContext { token: 0 }) {
            let k = position_of(self@, CallbackContext { token: 0 });
            assert(1 <= self@[k].context.token);
        }
    }

    /// An empty table.
    pub fn new() -> (r: Self)
        ensures
            r.wf(),
            r@.len() == 0,
            r.issued() == 0,
    {
        CallbackBridge { issued: 0, cells: Vec::new() }
    }

    /// Where in the table `context` stands, if it names a live registration.
    fn find(&self, context: CallbackContext) -> (r: Option<usize>)
        requires
            self.wf(),
        ensures
            match r {
                Some(i) => i < self@.len() && self@[i as int].context == context && i
                    == position_of(self@, context),
                None => !self.is_live(context),
            },
    {
        let mut i: usize = 0;
        while i < self.cells.len()
            invariant
                self.wf(),
                i <= self.cells@.len(),
                forall|j: int| 0 <= j < i ==> (#[trigger] self.cells@[j]).context != context,
            decreases self.cells@.len() - i,
        {
            if self.cells[i].context.token == context.token {
                proof {
                    assert(self@[i as int].context == context);
                    let k = position_of(self@, context);
                    if k < i {
                        assert(self@[k].context.token < self@[i as int].context.token);
                    }
                    if i < k {
                        assert(self@[i as int].context.token < self@[k].context.token);
                    }
                }
                return Some(i);
            }
            i = i + 1;
        }
        None
    }

    /// Whether `context` names a live registration.
    pub fn is_registered(&self, context: CallbackContext) -> (r: bool)
        requires
            self.wf(),
        ensures
            r == self.is_live(context),
    {
        self.find(context).is_some()
    }

    /// Checks the rule of the table. Every table that this library made and
    /// changed keeps it; the check is for callers that hold a table and
    /// cannot show that.
    pub fn is_well_formed(&self) -> (r: bool)
        ensures
            r == self.wf(),
    {
        let mut last: u64 = 0;
        let mut i: usize = 0;
        while i < self.cells.len()
            invariant
                i <= self.cells@.len(),
                last <= self.issued,
                i == 0 ==> last == 0,
                i > 0 ==> last == self.cells@[i - 1].context.token,
                tokens_in_order(self.cells@.take(i as int), self.issued),
            decreases self.cells@.len() - i,
        {
            let token = self.cells[i].context.token;
            if token <= last || token > self.issued {
                proof {
                    if self.wf() {
                        assert(1 <= self@[i as int].context.token <= self.issued());
                        if i > 0 {
                            assert(self@[i - 1].context.token < self@[i as int].context.token);
                        }
                    }
                }
                return false;
            }
            proof {
                let before = self.cells@.take(i as int);
                let now = self.cells@.take(i + 1);
                assert forall|a: int, b: int| 0 <= a < b < now.len() implies (#[trigger] now[a]).context.token
                    < (#[trigger] now[b]).context.token by {
                    if b < i {
                        assert(before[a] == now[a] && before[b] == now[b]);
                    } else if a < i - 1 {
                        assert(before[a] == now[a]);
                        assert(before[a].context.token < before[i - 1].context.token);
                    }
                }
                assert forall|a: int| 0 <= a < now.len() implies 1 <= (#[trigger] now[a]).context.token
                    <= self.issued by {
                    if a < i {
                        assert(before[a] == now[a]);
                    }
                }
            }
            last = token;
            i = i + 1;
        }
        proof {
            assert(self.cells@.take(self.cells@.len() as int) =~= self.cells@);
        }
        true
    }

    /// How many registrations are live.
    pub fn len(&self) -> (r: usize)
        ensures
            r == self@.len(),
    {
        self.cells.len()
    }

    /// Which delegate the handler that `context` names serves; `None` where
    /// the token names no live registration.
    pub fn kind_of(&self, context: CallbackContext) -> (r: Option<HandlerKind>)
        requires
            self.wf(),
        ensures
            r is None <==> !self.is_live(context),
            r is Some ==> r->0 == self@[position_of(self@, context)].handler.kind() && self.serves(
                context,
                r->0,
            ),
    {
        match self.find(context) {
            Some(i) => Some(self.cells[i].handler.kind()),
            None => None,
        }
    }

    /// Takes `handler` into the table and issues the token that names it from
    /// now on: the successor of the last token issued. Nothing else in the
    /// table changes.
    ///
    /// Tokens are not issued twice, so the table can run out of them; then
    /// the handler is dropped, the table stays as it is and the result is
    /// [`ZoomRsError::NullPtr`].
    pub fn register(&mut self, handler: Handler) -> (r: SdkResult<CallbackContext>)
        requires
            old(self).wf(),
        ensures
            final(self).wf(),
            old(self).issued() == u64::MAX ==> r == Err::<CallbackContext, ZoomRsError>(
                ZoomRsError::NullPtr,
            ) && *final(self) == *old(self),
            old(self).issued() < u64::MAX ==> r == Ok::<CallbackContext, ZoomRsError>(
                CallbackContext { token: (old(self).issued() + 1) as u64 },
            ) && final(self).issued() == old(self).issued() + 1 && final(self)@ == old(self)@.push(
                Registration { context: r->Ok_0, handler },
            ) && appended(final(self)@, old(self)@, r->Ok_0, handler) && !old(self).is_live(
                r->Ok_0,
            ) && final(self).serves(r->Ok_0, handler.kind()),
    {
        if self.issued == u64::MAX {
            return Err(ZoomRsError::NullPtr);
        }
        let context = CallbackContext { token: self.issued + 1 };
        self.issued = self.issued + 1;
        self.cells.push(Registration { context, handler });
        proof {
            let last = self@.len() - 1;
            assert(self@[last].context == context && self@[last].handler.kind() == handler.kind());
        }
        Ok(context)
    }

    /// Releases the registration that `context` names: it is taken out of
    /// the table, its handler is flushed, and only then is the handler
    /// dropped.
    /// The other registrations keep their tokens and their order. The result
    /// says whether `context` named a registration; if not, nothing changes.
    pub fn unregister(&mut self, context: CallbackContext) -> (released: bool)
        requires
            old(self).wf(),
        ensures
            final(self).wf(),
            released == old(self).is_live(context),
            !final(self).is_live(context),
            final(self).issued() == old(self).issued(),
            final(self)@ == without(old(self)@, context),
            !released ==> *final(self) == *old(self),
    {
        match self.find(context) {
            Some(i) => {
                let ghost before = self.cells@;
                let mut cell = self.cells.remove(i);
                cell.handler.flush();
                proof {
                    let after = self.cells@;
                    assert(after == before.remove(i as int));
                    assert forall|j: int| 0 <= j < after.len() implies (#[trigger] after[j]).context
                        != context by {
                        if j < i {
                            assert(after[j] == before[j]);
                            assert(before[j].context.token < before[i as int].context.token);
                        } else {
                            assert(after[j] == before[j + 1]);
                            assert(before[i as int].context.token < before[j + 1].context.token);
                        }
                    }
                }
                true
            },
            None => false,
        }
    }

    /// Registers `handler` in the place of an earlier registration: the one
    /// that `previous` names, if any, is released first
    /// ([`CallbackBridge::unregister`]), then `handler` is registered
    /// ([`CallbackBridge::register`]). Where no token is left the earlier
    /// registration is released all the same.
    pub fn replace(&mut self, previous: Option<CallbackContext>, handler: Handler) -> (r: SdkResult<
        CallbackContext,
    >)
        requires
            old(self).wf(),
        ensures
            final(self).wf(),
            old(self).issued() == u64::MAX ==> r == Err::<CallbackContext, ZoomRsError>(
                ZoomRsError::NullPtr,
            ) && final(self).issued() == old(self).issued(),
            old(self).issued() < u64::MAX ==> r == Ok::<CallbackContext, ZoomRsError>(
                CallbackContext { token: (old(self).issued() + 1) as u64 },
            ) && final(self).issued() == old(self).issued() + 1 && final(self).serves(
                r->Ok_0,
                handler.kind(),
            ) && !old(self).is_live(r->Ok_0),
            previous is Some && old(self).is_live(previous->0) ==> !final(self).is_live(previous->0),
            replaced(
                final(self)@,
                old(self)@,
                previous,
                match r {
                    Ok(c) => Some(c),
                    Err(_) => None,
                },
                handler,
            ),
    {
        match previous {
            Some(p) => {
                self.unregister(p);
            },
            None => {},
        }
        let ghost middle = *self;
        let registered = self.register(handler);
        proof {
            if registered is Ok && previous is Some && old(self).is_live(previous->0) {
                let gone = previous->0;
                let now = (*self)@;
                let k = position_of(old(self)@, gone);
                assert(old(self)@[k].context.token <= old(self).issued());
                assert forall|i: int| 0 <= i < now.len() implies (#[trigger] now[i]).context
                    != gone by {
                    if i < now.len() - 1 {
                        assert(now[i] == middle@[i]);
                    }
                }
            }
            if registered is Ok && old(self).is_live(registered->Ok_0) {
                let c = registered->Ok_0;
                let k = position_of(old(self)@, c);
                assert(old(self)@[k].context.token <= old(self).issued());
            }
        }
        registered
    }

    /// The handler that `context` names, if it is live and serves the
    /// delegate `kind`; `None` otherwise, and then nothing changes. Whatever
    /// the caller does to the handler, the table afterwards holds it in the
    /// place of the old one, under the same token.
    pub fn handler_of_kind(&mut self, context: CallbackContext, kind: HandlerKind) -> (r: Option<
        &mut Handler,
    >)
        requires
            old(self).wf(),
        ensures
            r is Some <==> old(self).serves(context, kind),
            r is None ==> *final(self) == *old(self),
            r is Some ==> {
                let i = position_of(old(self)@, context);
                &&& *r->0 == old(self)@[i].handler
                &&& r->0.kind() == kind
                &&& final(self).issued() == old(self).issued()
                &&& final(self)@ == old(self)@.update(
                    i,
                    Registration { context, handler: *final(r->0) },
                )
            },
    {
        match self.find(context) {
            Some(i) => {
                let found = self.cells[i].handler.kind();
                proof {
                    if old(self).serves(context, kind) {
                        let j = choose|j: int|
                            0 <= j < old(self)@.len() && (#[trigger] old(self)@[j]).context == context
                                && old(self)@[j].handler.kind() == kind;
                        if j < i {
                            assert(old(self)@[j].context.token < old(self)@[i as int].context.token);
                        }
                        if i < j {
                            assert(old(self)@[i as int].context.token < old(self)@[j].context.token);
                        }
                    }
                }
                if found == kind {
                    let cell = &mut self.cells[i];
                    Some(&mut cell.handler)
                } else {
                    None
                }
            },
            None => None,
        }
    }

    /// The handler that `context` names, to be called: `None` where the
    /// token names no live registration, and then nothing changes. Whatever
    /// the caller does to the handler, the table afterwards holds it in the
    /// place of the old one, under the same token.
    pub fn handler_mut(&mut self, context: CallbackContext) -> (r: Option<&mut Handler>)
        requires
            old(self).wf(),
        ensures
            r is None <==> !old(self).is_live(context),
            r is None ==> *final(self) == *old(self),
            r is Some ==> {
                let i = position_of(old(self)@, context);
                &&& *r->0 == old(self)@[i].handler
                &&& final(self).issued() == old(self).issued()
                &&& final(self)@ == old(self)@.update(
                    i,
                    Registration { context, handler: *final(r->0) },
                )
            },
    {
        match self.find(context) {
            Some(i) => {
                let cell = &mut self.cells[i];
                Some(&mut cell.handler)
            },
            None => None,
        }
    }
}

} // verus!
