//! The handle of the host.
use vstd::prelude::*;
use std::marker::PhantomData;
use std::rc::Rc;

verus! {

/// The plugin's handle of the host: the address of the structure that holds
/// the host's function table. It is made on the host's main thread and cannot
/// leave it, nor can a reference to it: to hold one shows that code runs
/// there.
#[derive(Debug, Clone, Copy, PartialEq, Eq)]
pub struct Weechat {
    ptr: usize,
    /// Keeps the handle, and every reference to it, on the thread that made
    /// it.
    thread_bound: PhantomData<Rc<()>>,
}

impl Weechat {
    /// The address of the plugin structure.
    pub closed spec fn address(self) -> usize {
        self.ptr
    }

    /// The handle for the plugin structure at `ptr`. It is for the embedding
    /// to make, on the host's main thread: a handle made elsewhere shows
    /// nothing.
    pub fn from_ptr(ptr: usize) -> (weechat: Weechat)
        ensures
            weechat.address() == ptr,
    {
        Weechat { ptr, thread_bound: PhantomData }
    }

    /// The address of the plugin structure.
    pub fn ptr(&self) -> (ptr: usize)
        ensures
            ptr == self.address(),
    {
        self.ptr
    }
}

/// What a callback of the plugin answers the host with.
#[derive(Debug, Clone, Copy, PartialEq, Eq, Structural)]
pub enum ReturnCode {
    /// The callback did its work.
    Okay,
    /// The callback did its work, and the host is to stop there: no other
    /// callback gets the event.
    OkEat,
    /// The callback failed.
    Error,
}

impl ReturnCode {
    /// The number that the host knows the answer by.
    pub open spec fn spec_code(self) -> i32 {
        match self {
            ReturnCode::Okay => 0i32,
            ReturnCode::OkEat => 1i32,
            ReturnCode::Error => -1i32,
        }
    }

    /// The number that the host knows the answer by.
    #[verifier::when_used_as_spec(spec_code)]
    pub fn code(self) -> (c: i32)
        ensures
            c == self.spec_code(),
    {
        match self {
            ReturnCode::Okay => 0i32,
            ReturnCode::OkEat => 1i32,
            ReturnCode::Error => -1i32,
        }
    }
}

} // verus!
