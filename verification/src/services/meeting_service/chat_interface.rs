//! The chat of a meeting.
use vstd::prelude::*;

use crate::native::NativeHandle;

verus! {

/// Main chat interface.
#[derive(Debug)]
pub struct ChatInterface {
    ptr_chat_controler: NativeHandle,
}

impl ChatInterface {
    /// The engine's chat controller.
    pub closed spec fn handle(&self) -> NativeHandle {
        self.ptr_chat_controler
    }

    /// Wraps the chat controller that the engine gave for a meeting service:
    /// `None` where it gave the null handle.
    pub fn new(fetched: NativeHandle) -> (r: Option<Self>)
        ensures
            fetched.is_null() ==> r is None,
            !fetched.is_null() ==> r is Some && r->0.handle() == fetched,
    {
        if fetched.is_null() {
            None
        } else {
            Some(ChatInterface { ptr_chat_controler: fetched })
        }
    }

    /// The engine's chat controller.
    pub fn native(&self) -> (r: NativeHandle)
        ensures
            r == self.handle(),
    {
        self.ptr_chat_controler
    }
}

} // verus!
