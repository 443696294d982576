//! What crosses to the host: the calls, and the steps that ask for them.
use vstd::prelude::*;

verus! {

/// The primitive kind of one field of a host table, as the host reports it.
#[derive(Debug, Clone, Copy, PartialEq, Eq, Structural)]
pub enum KindTag {
    /// A single byte.
    Char,
    /// A 32-bit integer.
    Integer32,
    /// A 64-bit integer.
    Integer64,
    /// A text.
    String,
    /// An address of another host object.
    Pointer,
    /// A point in time, in seconds since the Unix epoch.
    Time,
}

impl KindTag {
    /// The number by which the host names this kind.
    pub open spec fn spec_code(self) -> i32 {
        match self {
            KindTag::Char => 1,
            KindTag::Integer32 => 2,
            KindTag::Integer64 => 3,
            KindTag::String => 4,
            KindTag::Pointer => 5,
            KindTag::Time => 6,
        }
    }

    /// The number by which the host names this kind.
    #[verifier::when_used_as_spec(spec_code)]
    pub fn code(self) -> (c: i32)
        ensures
            c == self.spec_code(),
    {
        match self {
            KindTag::Char => 1,
            KindTag::Integer32 => 2,
            KindTag::Integer64 => 3,
            KindTag::String => 4,
            KindTag::Pointer => 5,
            KindTag::Time => 6,
        }
    }
}

/// Two kinds with the same number are the same kind.
pub proof fn lemma_code_tells_kinds_apart(a: KindTag, b: KindTag)
    requires
        a.spec_code() == b.spec_code(),
    ensures
        a == b,
{
}

/// One call of a function of the host's table, with the arguments to hand
/// over. `plugin` is the address of the table's owner, through which the
/// function is found; the other addresses are those of host objects. `S` is the
/// type of the texts: `String` in a call that is to be made, a sequence of
/// characters in the description of one.
#[derive(Debug, PartialEq, Eq)]
pub enum Call<S> {
    /// `hdata_get`: the table schema of the given name.
    HdataGet { plugin: usize, name: S },
    /// `hdata_get_var_type`: the kind of a field, as a number.
    HdataGetVarType { plugin: usize, hdata: usize, name: S },
    /// `hdata_char`, `hdata_integer`, `hdata_long`, `hdata_string`,
    /// `hdata_pointer` or `hdata_time`, as `kind` says: the value of a field.
    HdataRead { plugin: usize, kind: KindTag, hdata: usize, object: usize, name: S },
    /// `hdata_move`: the object `count` places on in its list.
    HdataMove { plugin: usize, hdata: usize, pointer: usize, count: i32 },
    /// `hdata_update`: writes the entries of a hashtable into an object.
    HdataUpdate { plugin: usize, hdata: usize, object: usize, hashtable: usize },
    /// `hashtable_new`, with no callbacks.
    HashtableNew { plugin: usize, size: i32, key_type: S, value_type: S },
    /// `hashtable_set`.
    HashtableSet { plugin: usize, hashtable: usize, key: S, value: S },
    /// `buffer_set`.
    BufferSet { plugin: usize, buffer: usize, property: S, value: S },
    /// `nicklist_nick_get_string`.
    NicklistNickGetString { plugin: usize, buffer: usize, nick: usize, property: S },
    /// `nicklist_remove_nick`.
    NicklistRemoveNick { plugin: usize, buffer: usize, nick: usize },
}

/// A call that is ready to be made.
pub type HostCall = Call<String>;

/// The description of a call.
pub type CallView = Call<Seq<char>>;

impl View for Call<String> {
    type V = Call<Seq<char>>;

    open spec fn view(&self) -> Call<Seq<char>> {
        match *self {
            Call::HdataGet { plugin, name } => Call::HdataGet { plugin, name: name@ },
            Call::HdataGetVarType { plugin, hdata, name } => Call::HdataGetVarType {
                plugin,
                hdata,
                name: name@,
            },
            Call::HdataRead { plugin, kind, hdata, object, name } => Call::HdataRead {
                plugin,
                kind,
                hdata,
                object,
                name: name@,
            },
            Call::HdataMove { plugin, hdata, pointer, count } => Call::HdataMove {
                plugin,
                hdata,
                pointer,
                count,
            },
            Call::HdataUpdate { plugin, hdata, object, hashtable } => Call::HdataUpdate {
                plugin,
                hdata,
                object,
                hashtable,
            },
            Call::HashtableNew { plugin, size, key_type, value_type } => Call::HashtableNew {
                plugin,
                size,
                key_type: key_type@,
                value_type: value_type@,
            },
            Call::HashtableSet { plugin, hashtable, key, value } => Call::HashtableSet {
                plugin,
                hashtable,
                key: key@,
                value: value@,
            },
            Call::BufferSet { plugin, buffer, property, value } => Call::BufferSet {
                plugin,
                buffer,
                property: property@,
                value: value@,
            },
            Call::NicklistNickGetString {
                plugin,
                buffer,
                nick,
                property,
            } => Call::NicklistNickGetString { plugin, buffer, nick, property: property@ },
            Call::NicklistRemoveNick { plugin, buffer, nick } => Call::NicklistRemoveNick {
                plugin,
                buffer,
                nick,
            },
        }
    }
}

impl Clone for Call<String> {
    /// A call with the same arguments.
    fn clone(&self) -> (call: Call<String>)
        ensures
            call == *self,
    {
        match self {
            Call::HdataGet { plugin, name } => Call::HdataGet {
                plugin: *plugin,
                name: name.clone(),
            },
            Call::HdataGetVarType { plugin, hdata, name } => Call::HdataGetVarType {
                plugin: *plugin,
                hdata: *hdata,
                name: name.clone(),
            },
            Call::HdataRead { plugin, kind, hdata, object, name } => Call::HdataRead {
                plugin: *plugin,
                kind: *kind,
                hdata: *hdata,
                object: *object,
                name: name.clone(),
            },
            Call::HdataMove { plugin, hdata, pointer, count } => Call::HdataMove {
                plugin: *plugin,
                hdata: *hdata,
                pointer: *pointer,
                count: *count,
            },
            Call::HdataUpdate { plugin, hdata, object, hashtable } => Call::HdataUpdate {
                plugin: *plugin,
                hdata: *hdata,
                object: *object,
                hashtable: *hashtable,
            },
            Call::HashtableNew { plugin, size, key_type, value_type } => Call::HashtableNew {
                plugin: *plugin,
                size: *size,
                key_type: key_type.clone(),
                value_type: value_type.clone(),
            },
            Call::HashtableSet { plugin, hashtable, key, value } => Call::HashtableSet {
                plugin: *plugin,
                hashtable: *hashtable,
                key: key.clone(),
                value: value.clone(),
            },
            Call::BufferSet { plugin, buffer, property, value } => Call::BufferSet {
                plugin: *plugin,
                buffer: *buffer,
                property: property.clone(),
                value: value.clone(),
            },
            Call::NicklistNickGetString {
                plugin,
                buffer,
                nick,
                property,
            } => Call::NicklistNickGetString {
                plugin: *plugin,
                buffer: *buffer,
                nick: *nick,
                property: property.clone(),
            },
            Call::NicklistRemoveNick { plugin, buffer, nick } => Call::NicklistRemoveNick {
                plugin: *plugin,
                buffer: *buffer,
                nick: *nick,
            },
        }
    }
}

/// Where an operation stands: it needs an answer of the host, or it is done.
#[derive(Debug, PartialEq, Eq)]
pub enum Step<T> {
    /// This call has to be made; the operation goes on with its answer.
    Ask(HostCall),
    /// The operation is over, with this result.
    Done(T),
}

/// The description of a step.
pub enum Plan<T> {
    /// The call that is asked for.
    Ask(CallView),
    /// The result.
    Done(T),
}

impl<T> View for Step<T> {
    type V = Plan<T>;

    open spec fn view(&self) -> Plan<T> {
        match *self {
            Step::Ask(call) => Plan::Ask(call@),
            Step::Done(result) => Plan::Done(result),
        }
    }
}

/// A count that the host gave as a C `int`, as an unsigned number of the
/// machine's width: unchanged where it is not negative, and wrapped round from
/// the top where it is.
pub open spec fn count_as_usize(count: i32) -> usize {
    if count >= 0 {
        count as usize
    } else {
        (usize::MAX + 1 + count) as usize
    }
}

/// Converts a count of the host to `usize`, as a cast does.
pub fn count_to_usize(count: i32) -> (n: usize)
    ensures
        n == count_as_usize(count),
{
    if count >= 0 {
        count as usize
    } else {
        let below: usize = (-(count + 1)) as usize;
        usize::MAX - below
    }
}

} // verus!
