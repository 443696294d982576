//! Hashtables of the host, in which key and value pairs are handed over.
use vstd::prelude::*;
use crate::call::{Call, HostCall, Plan, Step};
use crate::text::{without_nuls, LossyCString};
use crate::weechat::Weechat;

verus! {

/// The type of the keys, or of the values, of a hashtable.
#[derive(Debug, Clone, Copy, PartialEq, Eq, Structural)]
pub enum HashtableItemType {
    Integer,
    String,
    Pointer,
    Buffer,
    Time,
}

impl HashtableItemType {
    /// The word by which the host knows the type.
    pub open spec fn name(self) -> Seq<char> {
        match self {
            HashtableItemType::Integer => "integer"@,
            HashtableItemType::String => "string"@,
            HashtableItemType::Pointer => "pointer"@,
            HashtableItemType::Buffer => "buffer"@,
            HashtableItemType::Time => "time"@,
        }
    }

    /// The word by which the host knows the type.
    pub fn to_string(&self) -> (s: String)
        ensures
            s@ == self.name(),
    {
        match self {
            HashtableItemType::Integer => "integer".to_owned(),
            HashtableItemType::String => "string".to_owned(),
            HashtableItemType::Pointer => "pointer".to_owned(),
            HashtableItemType::Buffer => "buffer".to_owned(),
            HashtableItemType::Time => "time".to_owned(),
        }
    }
}

/// A hashtable that the host has made.
#[derive(Debug, Clone, Copy, PartialEq, Eq, Structural)]
pub struct Hashtable {
    /// The plugin that asked for the hashtable.
    pub weechat_ptr: usize,
    /// The address of the hashtable; never null.
    pub ptr: usize,
}

impl Weechat {
    /// What [`Weechat::new_hashtable`] comes to.
    pub open spec fn new_hashtable_plan(
        self,
        size: u16,
        key_type: HashtableItemType,
        value_type: HashtableItemType,
        created: Option<usize>,
    ) -> Plan<Option<Hashtable>> {
        match created {
            None => Plan::Ask(
                Call::HashtableNew {
                    plugin: self.address(),
                    size: size as i32,
                    key_type: key_type.name(),
                    value_type: value_type.name(),
                },
            ),
            Some(address) => Plan::Done(
                if address == 0 {
                    None
                } else {
                    Some(Hashtable { weechat_ptr: self.address(), ptr: address })
                },
            ),
        }
    }

    pub(crate) fn ask_new_hashtable(
        &self,
        size: u16,
        key_type: HashtableItemType,
        value_type: HashtableItemType,
    ) -> (call: HostCall)
        ensures
            self.new_hashtable_plan(size, key_type, value_type, None) == Plan::<
                Option<Hashtable>,
            >::Ask(call@),
    {
        Call::HashtableNew {
            plugin: self.ptr(),
            size: size as i32,
            key_type: key_type.to_string(),
            value_type: value_type.to_string(),
        }
    }

    /// Creates a hashtable with the given types of keys and values. `size` is
    /// the number of buckets that the host is asked for.
    ///
    /// `created` is the host's answer, once there is one. Without it the step
    /// asks for the call. With it the step is done: there is no hashtable if
    /// the host answered with a null address, and the hashtable at the address
    /// otherwise.
    pub fn new_hashtable(
        &self,
        size: u16,
        key_type: HashtableItemType,
        value_type: HashtableItemType,
        created: Option<usize>,
    ) -> (step: Step<Option<Hashtable>>)
        ensures
            step@ == self.new_hashtable_plan(size, key_type, value_type, created),
    {
        match created {
            None => Step::Ask(self.ask_new_hashtable(size, key_type, value_type)),
            Some(address) => Step::Done(
                if address == 0 {
                    None
                } else {
                    Some(Hashtable { weechat_ptr: self.ptr(), ptr: address })
                },
            ),
        }
    }
}

impl Hashtable {
    /// The call that [`Hashtable::set`] asks for.
    pub open spec fn set_call(self, key: Seq<char>, value: Seq<char>) -> Call<Seq<char>> {
        Call::HashtableSet {
            plugin: self.weechat_ptr,
            hashtable: self.ptr,
            key: without_nuls(key),
            value: without_nuls(value),
        }
    }

    /// Adds an item to the hashtable, or updates the item of that key. Key and
    /// value cross without their NUL characters. The host's answer to the call
    /// is of no use here.
    pub fn set(&self, key: &str, value: &str) -> (call: HostCall)
        ensures
            call@ == self.set_call(key@, value@),
    {
        Call::HashtableSet {
            plugin: self.weechat_ptr,
            hashtable: self.ptr,
            key: LossyCString::new(key),
            value: LossyCString::new(value),
        }
    }
}

} // verus!
