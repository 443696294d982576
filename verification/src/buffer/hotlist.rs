//! The hotlist: the buffers with unread activity.
use vstd::prelude::*;
use crate::buffer::Buffer;
use crate::call::HostCall;

verus! {

/// The priority of a hotlist entry.
#[derive(Debug, Clone, Copy, PartialEq, Eq, Structural)]
pub enum HotlistPriority {
    Low,
    Message,
    Private,
    Highlight,
}

impl HotlistPriority {
    /// The text by which the host knows the priority.
    pub open spec fn c_rep(self) -> Seq<char> {
        match self {
            HotlistPriority::Low => "0"@,
            HotlistPriority::Message => "1"@,
            HotlistPriority::Private => "2"@,
            HotlistPriority::Highlight => "3"@,
        }
    }

    /// The text by which the host knows the priority.
    pub fn to_c_rep(&self) -> (rep: &'static str)
        ensures
            rep@ == self.c_rep(),
    {
        match self {
            HotlistPriority::Low => "0",
            HotlistPriority::Message => "1",
            HotlistPriority::Private => "2",
            HotlistPriority::Highlight => "3",
        }
    }
}

impl Buffer {
    /// Removes the buffer from the hotlist.
    pub fn clear_hotlist(&self) -> (call: HostCall)
        ensures
            call@ == self.set_call("hotlist"@, "-1"@),
    {
        self.set("hotlist", "-1")
    }

    /// Enables the hotlist.
    pub fn enable_hotlist(&self) -> (call: HostCall)
        ensures
            call@ == self.set_call("hotlist"@, "+"@),
    {
        self.set("hotlist", "+")
    }

    /// Disables the hotlist.
    pub fn disable_hotlist(&self) -> (call: HostCall)
        ensures
            call@ == self.set_call("hotlist"@, "-"@),
    {
        self.set("hotlist", "-")
    }

    /// Adds the buffer to the hotlist, with the given priority.
    pub fn set_hotlist(&self, priority: HotlistPriority) -> (call: HostCall)
        ensures
            call@ == self.set_call("hotlist"@, priority.c_rep()),
    {
        self.set("hotlist", priority.to_c_rep())
    }
}

} // verus!
