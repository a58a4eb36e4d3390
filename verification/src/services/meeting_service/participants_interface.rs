//! The participants of a meeting.
use vstd::prelude::*;

use crate::native::{NativeCall, NativeHandle};
use crate::public_types::{SdkResult, ZoomRsError};

verus! {

/// Main interface to get info and to manipulate [Participant].
#[derive(Debug)]
pub struct ParticipantsInterface {
    ref_participants_controler: NativeHandle,
}

/// This struct represents a [Participant].
#[derive(Debug, Clone, Copy, PartialEq, Eq, Structural)]
pub struct Participant {
    inner: NativeHandle,
    user_id: i32,
}

impl Participant {
    /// The engine's record of the user.
    pub closed spec fn handle(&self) -> NativeHandle {
        self.inner
    }

    /// The user's ID.
    pub closed spec fn user_id(&self) -> i32 {
        self.user_id
    }

    /// A participant as the engine lists it: its record and the user's ID.
    pub fn new(inner: NativeHandle, user_id: i32) -> (r: Self)
        ensures
            r.handle() == inner,
            r.user_id() == user_id,
    {
        Participant { inner, user_id }
    }

    /// Retrieve the user ID of the participant.
    #[inline(always)]
    pub fn get_user_id(&self) -> (r: i32)
        ensures
            r == self.user_id(),
    {
        self.user_id
    }

    /// The engine's record of the user.
    pub fn native(&self) -> (r: NativeHandle)
        ensures
            r == self.handle(),
    {
        self.inner
    }
}

/// Whether the engine's record of every one of `users` is there.
pub open spec fn all_present(users: Seq<Participant>) -> bool {
    forall|i: int| 0 <= i < users.len() ==> !(#[trigger] users[i]).handle().is_null()
}

impl ParticipantsInterface {
    /// The engine's participants controller.
    pub closed spec fn handle(&self) -> NativeHandle {
        self.ref_participants_controler
    }

    /// Get the participants interface from the handle that the engine gave
    /// for a meeting service: `None` where it gave the null handle.
    pub fn new(fetched: NativeHandle) -> (r: Option<Self>)
        ensures
            fetched.is_null() ==> r is None,
            !fetched.is_null() ==> r is Some && r->0.handle() == fetched,
    {
        if fetched.is_null() {
            None
        } else {
            Some(ParticipantsInterface { ref_participants_controler: fetched })
        }
    }

    /// The engine's participants controller.
    pub fn native(&self) -> (r: NativeHandle)
        ensures
            r == self.handle(),
    {
        self.ref_participants_controler
    }

    /// Create a new [ParticipantsIterator] over the participants that the
    /// engine listed: `list` is the engine's list and `users` what it holds.
    /// A null list, and a list with a user whose record is null, give
    /// [`ZoomRsError::NullPtr`]; the list is then still the engine's to get
    /// back. Otherwise the iterator stands before the first user.
    pub fn iter(&mut self, list: NativeHandle, users: Vec<Participant>) -> (r: SdkResult<
        ParticipantsIterator,
    >)
        ensures
            final(self).handle() == old(self).handle(),
            list.is_null() || !all_present(users@) ==> r is Err && r->Err_0 == ZoomRsError::NullPtr,
            !list.is_null() && all_present(users@) ==> {
                &&& r is Ok
                &&& r->Ok_0.items() == users@
                &&& r->Ok_0.consumed() == 0
                &&& r->Ok_0.list() == list
            },
    {
        if list.is_null() {
            return Err(ZoomRsError::NullPtr);
        }
        let mut i: usize = 0;
        while i < users.len()
            invariant
                i <= users@.len(),
                forall|j: int| 0 <= j < i ==> !(#[trigger] users@[j]).handle().is_null(),
            decreases users@.len() - i,
        {
            if users[i].native().is_null() {
                return Err(ZoomRsError::NullPtr);
            }
            i = i + 1;
        }
        Ok(ParticipantsIterator { users, list, count: 0 })
    }
}

/// Walks over the [Participant]s that the engine listed, in its order.
#[derive(Debug)]
pub struct ParticipantsIterator {
    users: Vec<Participant>,
    list: NativeHandle,
    count: usize,
}

impl ParticipantsIterator {
    /// All the participants of the list, in the engine's order.
    pub closed spec fn items(&self) -> Seq<Participant> {
        self.users@
    }

    /// How many of them have been handed out.
    pub closed spec fn consumed(&self) -> nat {
        if self.count <= self.users@.len() {
            self.count as nat
        } else {
            self.users@.len()
        }
    }

    /// The engine's list.
    pub closed spec fn list(&self) -> NativeHandle {
        self.list
    }

    /// The next participant, and `None` when all have been handed out.
    pub fn next(&mut self) -> (r: Option<Participant>)
        ensures
            final(self).consumed() <= final(self).items().len(),
            final(self).items() == old(self).items(),
            final(self).list() == old(self).list(),
            old(self).consumed() < old(self).items().len() ==> r == Some(
                old(self).items()[old(self).consumed() as int],
            ) && final(self).consumed() == old(self).consumed() + 1,
            old(self).consumed() >= old(self).items().len() ==> r is None && final(self).consumed()
                == old(self).consumed(),
    {
        if self.count < self.users.len() {
            let output = self.users[self.count];
            self.count = self.count + 1;
            Some(output)
        } else {
            None
        }
    }

    /// How many participants are still to come.
    pub fn len(&self) -> (r: usize)
        ensures
            r == self.items().len() - self.consumed(),
    {
        if self.count <= self.users.len() {
            self.users.len() - self.count
        } else {
            0
        }
    }

    /// Ends the walk: the request that gives the list back to the engine.
    pub fn release(self) -> (r: NativeCall)
        ensures
            r == NativeCall::FreeParticipants(self.list()),
    {
        NativeCall::FreeParticipants(self.list)
    }
}

} // verus!
