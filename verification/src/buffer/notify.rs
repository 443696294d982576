//! How much of a buffer's activity reaches the hotlist.
use vstd::prelude::*;
use crate::buffer::Buffer;
use crate::call::HostCall;

verus! {

/// The notify level of a buffer.
#[derive(Debug, Clone, Copy, PartialEq, Eq, Structural)]
pub enum NotifyLevel {
    Never,
    Highlights,
    HighlightsAndMessages,
    AllMessages,
}

impl NotifyLevel {
    /// The text by which the host knows the level.
    pub open spec fn c_rep(self) -> Seq<char> {
        match self {
            NotifyLevel::Never => "0"@,
            NotifyLevel::Highlights => "1"@,
            NotifyLevel::HighlightsAndMessages => "2"@,
            NotifyLevel::AllMessages => "3"@,
        }
    }

    /// The text by which the host knows the level.
    pub fn to_c_rep(&self) -> (rep: &'static str)
        ensures
            rep@ == self.c_rep(),
    {
        match self {
            NotifyLevel::Never => "0",
            NotifyLevel::Highlights => "1",
            NotifyLevel::HighlightsAndMessages => "2",
            NotifyLevel::AllMessages => "3",
        }
    }
}

impl Buffer {
    /// Sets the notify level of the buffer.
    pub fn set_notify(&self, level: NotifyLevel) -> (call: HostCall)
        ensures
            call@ == self.set_call("notify"@, level.c_rep()),
    {
        self.set("notify", level.to_c_rep())
    }
}

} // verus!
