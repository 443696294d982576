//! Buffers of the host.
use vstd::prelude::*;
use crate::call::{Call, HostCall};
use crate::text::{without_nuls, LossyCString};

pub mod hotlist;
pub mod nick;
pub mod notify;

verus! {

/// A buffer of the host. The handle does not keep the buffer alive.
#[derive(Debug, Clone, Copy, PartialEq, Eq, Structural)]
pub struct Buffer {
    /// The plugin through which the buffer is reached.
    pub weechat: usize,
    /// The address of the buffer.
    pub ptr: usize,
}

impl Buffer {
    /// The handle of the buffer at `ptr`.
    pub fn from_ptr(weechat: usize, ptr: usize) -> (buffer: Buffer)
        ensures
            buffer == (Buffer { weechat, ptr }),
    {
        Buffer { weechat, ptr }
    }

    /// The call that [`Buffer::set`] asks for.
    pub open spec fn set_call(self, property: Seq<char>, value: Seq<char>) -> Call<Seq<char>> {
        Call::BufferSet {
            plugin: self.weechat,
            buffer: self.ptr,
            property: without_nuls(property),
            value: without_nuls(value),
        }
    }

    /// Sets a property of the buffer. Property and value cross without their
    /// NUL characters; the host gives no answer.
    pub fn set(&self, property: &str, value: &str) -> (call: HostCall)
        ensures
            call@ == self.set_call(property@, value@),
    {
        Call::BufferSet {
            plugin: self.weechat,
            buffer: self.ptr,
            property: LossyCString::new(property),
            value: LossyCString::new(value),
        }
    }
}

} // verus!
