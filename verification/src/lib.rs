//! The deciding half of a WeeChat plugin binding.
//!
//! WeeChat hands a plugin a table of C functions. Calling them needs raw
//! pointers, so this crate never does. Each operation is a function from its
//! arguments, and from what the host has answered so far, to a [`Step`]: the
//! next call that has to be made, with the exact arguments to hand over, or the
//! finished result. The embedding makes the call and comes back with the
//! answer. Addresses are carried as plain `usize` values.
pub mod buffer;
pub mod call;
pub mod decimal;
pub mod hashtable;
pub mod hdata;
pub mod sealed;
pub mod text;
pub mod time;
pub mod weechat;

pub use buffer::hotlist::HotlistPriority;
pub use buffer::nick::{Nick, NickArgs, NickSettings};
pub use buffer::notify::NotifyLevel;
pub use buffer::Buffer;
pub use call::{Call, HostCall, KindTag, Step};
pub use hashtable::{Hashtable, HashtableItemType};
pub use hdata::{HData, HDataPointer, HDataType, HasHData};
pub use sealed::Sealed;
pub use text::LossyCString;
pub use weechat::{ReturnCode, Weechat};
