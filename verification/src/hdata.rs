//! Typed access to the host's tables of named fields.
//!
//! The host describes a class of its objects by a table schema, an hdata: a
//! list of field names, each with a kind. What kind a field has is known only
//! when the host is asked. A checked read therefore asks for the kind first,
//! and reads only a field whose kind is the one that the wanted type stands
//! for.
use vstd::prelude::*;
use crate::buffer::Buffer;
use crate::call::{
    count_as_usize,
    count_to_usize,
    lemma_code_tells_kinds_apart,
    Call,
    HostCall,
    KindTag,
    Plan,
    Step,
};
use crate::hashtable::{Hashtable, HashtableItemType};
use crate::text::{without_nuls, LossyCString};
use crate::weechat::Weechat;

mod kinds;

verus! {

/// A table of the fields of one host object: a schema, bound to the object
/// whose fields are read and written through it. The table owns neither. All
/// its calls go to this one pair of schema and object.
#[derive(Debug, Clone, Copy, PartialEq, Eq, Structural)]
pub struct HData {
    /// The plugin through which the host is reached.
    pub weechat_ptr: usize,
    /// The address of the object.
    pub object: usize,
    /// The address of the schema.
    pub ptr: usize,
}

/// What a schema lookup comes to: without an answer, the call that looks the
/// schema `name` up; with the null address, no table; with any other address,
/// the table of that schema, bound to `object` and reached through `host`.
pub open spec fn get_hdata_plan(
    host: usize,
    object: usize,
    name: Seq<char>,
    found: Option<usize>,
) -> Plan<Option<HData>> {
    match found {
        None => Plan::Ask(Call::HdataGet { plugin: host, name: without_nuls(name) }),
        Some(schema) => Plan::Done(
            if schema == 0 {
                None
            } else {
                Some(HData { weechat_ptr: host, object, ptr: schema })
            },
        ),
    }
}

fn lookup(host: usize, object: usize, name: &str, found: Option<usize>) -> (step: Step<
    Option<HData>,
>)
    ensures
        step@ == get_hdata_plan(host, object, name@, found),
{
    match found {
        None => Step::Ask(Call::HdataGet { plugin: host, name: LossyCString::new(name) }),
        Some(schema) => Step::Done(
            if schema == 0 {
                None
            } else {
                Some(HData { weechat_ptr: host, object, ptr: schema })
            },
        ),
    }
}

/// What a checked read comes to, for a type that is read as `kind`.
///
/// `reported` is the host's answer to the question for the field's kind, and
/// `decoded` the typed value made of its answer to the read, each once there
/// is one. First the kind is asked for. If the host reports another kind than
/// `kind`, the read is over and has found nothing: the field is never read.
/// Otherwise the field is read as `kind`, and the value made of the answer is
/// the result.
pub open spec fn read_plan<T>(
    hdata: HData,
    name: Seq<char>,
    kind: KindTag,
    reported: Option<i32>,
    decoded: Option<Option<T>>,
) -> Plan<Option<T>> {
    match reported {
        None => Plan::Ask(hdata.kind_call(name)),
        Some(code) => if code != kind.spec_code() {
            Plan::Done(None)
        } else {
            match decoded {
                None => Plan::Ask(hdata.read_call(kind, name)),
                Some(value) => Plan::Done(value),
            }
        },
    }
}

/// What a write comes to, for a value that is staged as `text` in a hashtable
/// with values of `value_type`.
///
/// `table` is the address of the hashtable that the host made, `staged` tells
/// that the entry has been set in it, and `updated` is the host's count of the
/// fields it updated, each once it is known. First a hashtable with one
/// bucket, keys of type string and values of `value_type` is asked for. Then
/// the one entry is set: the field's name and `text`, both without their NUL
/// characters. Then the object is updated from the hashtable. The count that
/// the host reports is the result, whatever it is.
pub open spec fn write_plan(
    hdata: HData,
    name: Seq<char>,
    value_type: HashtableItemType,
    text: Seq<char>,
    table: Option<usize>,
    staged: bool,
    updated: Option<i32>,
) -> Plan<usize>
    recommends
        table != Some(0usize),
{
    match table {
        None => Plan::Ask(
            Call::HashtableNew {
                plugin: hdata.weechat_ptr,
                size: 1,
                key_type: HashtableItemType::String.name(),
                value_type: value_type.name(),
            },
        ),
        Some(address) => {
            let hashtable = Hashtable { weechat_ptr: hdata.weechat_ptr, ptr: address };
            if !staged {
                Plan::Ask(hashtable.set_call(name, text))
            } else {
                match updated {
                    None => Plan::Ask(hdata.update_call(hashtable)),
                    Some(count) => Plan::Done(count_as_usize(count)),
                }
            }
        },
    }
}

/// A type of values that a field can hold.
///
/// There is one such type for each kind of field. It says which kind it is
/// read as, what value the host's raw answer makes, and as what text a value
/// is staged for a write.
pub trait HDataType: Sized {
    /// What the host hands back when it reads a field of this kind.
    type Raw;

    /// The kind of field that holds values of this type.
    spec fn kind() -> KindTag;

    /// The value that the host's answer to a read makes, if it makes one.
    spec fn decoded(hdata: HData, raw: Self::Raw) -> Option<Self>;

    /// Whether the host's answer to a read makes a value.
    spec fn readable(raw: Self::Raw) -> bool;

    /// The type of the hashtable values among which a value is staged.
    spec fn staged_type() -> HashtableItemType;

    /// The text as which the value is staged.
    spec fn staged_text(&self) -> Seq<char>;

    /// Whether `raw` is what a field of this kind holds once the host has
    /// taken `text` for it.
    spec fn stands_for(text: Seq<char>, raw: Self::Raw) -> bool;

    /// Whether two values are the same, as far as a field can tell.
    spec fn same_value(&self, other: &Self) -> bool;

    /// Whether the value can come back from a field of a table of `hdata`'s
    /// host as it went in.
    spec fn round_trips(&self, hdata: HData) -> bool;

    /// Retrieves the value of the field `name`, checked against the kind that
    /// the host reports for it. `reported` and `raw` are the host's answers to
    /// the two calls, each once there is one. A field of the right kind that
    /// has been read gives a value exactly if the answer is a readable one.
    fn hdata_value(
        hdata: &HData,
        name: &str,
        reported: Option<i32>,
        raw: Option<Self::Raw>,
    ) -> (step: Step<Option<Self>>)
        ensures
            step@ == read_plan(
                *hdata,
                name@,
                Self::kind(),
                reported,
                match raw {
                    Some(raw) => Some(Self::decoded(*hdata, raw)),
                    None => None,
                },
            ),
            reported == Some(Self::kind().spec_code()) && raw is Some ==> (step matches Step::Done(
                read,
            ) && (read is Some <==> Self::readable(raw->0))),
    ;

    /// Sets the field `name` to `value`, through a hashtable of one entry.
    /// `table`, `staged` and `updated` tell how far the write has come. A null
    /// address for the hashtable is not provided for: the host makes a
    /// hashtable of one bucket whenever it has the memory.
    fn hdata_set_value(
        hdata: &HData,
        name: &str,
        value: &Self,
        table: Option<usize>,
        staged: bool,
        updated: Option<i32>,
    ) -> (step: Step<usize>)
        requires
            table != Some(0usize),
        ensures
            step@ == write_plan(
                *hdata,
                name@,
                Self::staged_type(),
                value.staged_text(),
                table,
                staged,
                updated,
            ),
    ;

    /// A value that round-trips is read back as it was written: if the field
    /// holds what the staged text stands for, the answer to a read of it makes
    /// the same value.
    proof fn lemma_round_trip(hdata: HData, value: Self, raw: Self::Raw)
        requires
            value.round_trips(hdata),
            Self::stands_for(without_nuls(value.staged_text()), raw),
        ensures
            Self::decoded(hdata, raw) matches Some(read) && read.same_value(&value),
    ;
}

impl HData {
    /// The call that asks for the kind of the field `name`.
    pub open spec fn kind_call(self, name: Seq<char>) -> Call<Seq<char>> {
        Call::HdataGetVarType {
            plugin: self.weechat_ptr,
            hdata: self.ptr,
            name: without_nuls(name),
        }
    }

    /// The call that reads the field `name` as a field of `kind`.
    pub open spec fn read_call(self, kind: KindTag, name: Seq<char>) -> Call<Seq<char>> {
        Call::HdataRead {
            plugin: self.weechat_ptr,
            kind,
            hdata: self.ptr,
            object: self.object,
            name: without_nuls(name),
        }
    }

    /// The call that updates the object from a hashtable.
    pub open spec fn update_call(self, hashtable: Hashtable) -> Call<Seq<char>> {
        Call::HdataUpdate {
            plugin: self.weechat_ptr,
            hdata: self.ptr,
            object: self.object,
            hashtable: hashtable.ptr,
        }
    }

    /// What an unchecked read comes to: the call, and then the host's answer
    /// as it is.
    pub open spec fn unchecked_plan<R>(self, kind: KindTag, name: Seq<char>, answer: Option<R>) -> Plan<
        R,
    > {
        match answer {
            None => Plan::Ask(self.read_call(kind, name)),
            Some(value) => Plan::Done(value),
        }
    }

    /// What [`HData::get_var`] comes to.
    pub open spec fn get_var_plan<T: HDataType>(
        self,
        name: Seq<char>,
        reported: Option<i32>,
        raw: Option<T::Raw>,
    ) -> Plan<Option<T>> {
        read_plan(
            self,
            name,
            T::kind(),
            reported,
            match raw {
                Some(raw) => Some(T::decoded(self, raw)),
                None => None,
            },
        )
    }

    /// What [`HData::update_var`] comes to.
    pub open spec fn update_var_plan<T: HDataType>(
        self,
        name: Seq<char>,
        value: T,
        table: Option<usize>,
        staged: bool,
        updated: Option<i32>,
    ) -> Plan<usize>
        recommends
            table != Some(0usize),
    {
        write_plan(self, name, T::staged_type(), value.staged_text(), table, staged, updated)
    }

    fn ask_kind(&self, name: &str) -> (call: HostCall)
        ensures
            call@ == self.kind_call(name@),
    {
        Call::HdataGetVarType {
            plugin: self.weechat_ptr,
            hdata: self.ptr,
            name: LossyCString::new(name),
        }
    }

    fn ask_read(&self, kind: KindTag, name: &str) -> (call: HostCall)
        ensures
            call@ == self.read_call(kind, name@),
    {
        Call::HdataRead {
            plugin: self.weechat_ptr,
            kind,
            hdata: self.ptr,
            object: self.object,
            name: LossyCString::new(name),
        }
    }

    /// The part of a checked read that is the same for every type: the two
    /// calls, and the end of a read whose kind does not match. Where the host
    /// has reported the right kind and has answered the read, nothing is
    /// returned, and the caller makes the value.
    pub(crate) fn check_kind<T>(&self, name: &str, kind: KindTag, reported: Option<i32>, answered: bool) -> (step:
        Option<Step<Option<T>>>)
        ensures
            match step {
                Some(step) => !(reported == Some(kind.spec_code()) && answered) && step@
                    == read_plan::<T>(*self, name@, kind, reported, None),
                None => reported == Some(kind.spec_code()) && answered,
            },
    {
        match reported {
            None => Some(Step::Ask(self.ask_kind(name))),
            Some(code) => if code != kind.code() {
                Some(Step::Done(None))
            } else if answered {
                None
            } else {
                Some(Step::Ask(self.ask_read(kind, name)))
            },
        }
    }

    /// The steps of a write, for a value that is staged as `text` among values
    /// of `value_type`.
    pub(crate) fn stage(
        &self,
        name: &str,
        value_type: HashtableItemType,
        text: &str,
        table: Option<usize>,
        staged: bool,
        updated: Option<i32>,
    ) -> (step: Step<usize>)
        requires
            table != Some(0usize),
        ensures
            step@ == write_plan(*self, name@, value_type, text@, table, staged, updated),
    {
        match table {
            None => Step::Ask(
                Weechat::from_ptr(self.weechat_ptr).ask_new_hashtable(
                    1,
                    HashtableItemType::String,
                    value_type,
                ),
            ),
            Some(address) => {
                let hashtable = Hashtable { weechat_ptr: self.weechat_ptr, ptr: address };
                if !staged {
                    Step::Ask(hashtable.set(name, text))
                } else {
                    match updated {
                        None => Step::Ask(
                            Call::HdataUpdate {
                                plugin: self.weechat_ptr,
                                hdata: self.ptr,
                                object: self.object,
                                hashtable: hashtable.ptr,
                            },
                        ),
                        Some(count) => Step::Done(count_to_usize(count)),
                    }
                }
            },
        }
    }

    /// Retrieves the value of a field, as a value of the type `T`.
    ///
    /// `reported` is the host's answer to the question for the field's kind,
    /// `raw` its answer to the read, each once there is one. The result is
    /// nothing where the host reports another kind than that of `T`, which is
    /// also what it does for a name that the schema does not have.
    pub fn get_var<T: HDataType>(&self, name: &str, reported: Option<i32>, raw: Option<T::Raw>) -> (step:
        Step<Option<T>>)
        ensures
            step@ == self.get_var_plan::<T>(name@, reported, raw),
            reported == Some(T::kind().spec_code()) && raw is Some ==> (step matches Step::Done(
                read,
            ) && (read is Some <==> T::readable(raw->0))),
    {
        T::hdata_value(self, name, reported, raw)
    }

    /// Updates the value of a field. The result is the number of fields that
    /// the host reports as updated.
    pub fn update_var<T: HDataType>(
        &self,
        name: &str,
        value: &T,
        table: Option<usize>,
        staged: bool,
        updated: Option<i32>,
    ) -> (step: Step<usize>)
        requires
            table != Some(0usize),
        ensures
            step@ == self.update_var_plan(name@, *value, table, staged, updated),
    {
        T::hdata_set_value(self, name, value, table, staged, updated)
    }

    /// Retrieves a field as a string, without asking for its kind. What the
    /// host does for a field of another kind is not defined. The answer is no
    /// text where the host gave a null pointer.
    pub fn get_string_unchecked(&self, name: &str, answer: Option<Option<String>>) -> (step: Step<
        Option<String>,
    >)
        ensures
            step@ == self.unchecked_plan(KindTag::String, name@, answer),
    {
        match answer {
            None => Step::Ask(self.ask_read(KindTag::String, name)),
            Some(text) => Step::Done(text),
        }
    }

    /// Retrieves a field as an integer, without asking for its kind. What the
    /// host does for a field of another kind is not defined.
    pub fn get_i32_unchecked(&self, name: &str, answer: Option<i32>) -> (step: Step<i32>)
        ensures
            step@ == self.unchecked_plan(KindTag::Integer32, name@, answer),
    {
        match answer {
            None => Step::Ask(self.ask_read(KindTag::Integer32, name)),
            Some(value) => Step::Done(value),
        }
    }

    /// Retrieves a field as a long integer, without asking for its kind. What
    /// the host does for a field of another kind is not defined.
    pub fn get_i64_unchecked(&self, name: &str, answer: Option<i64>) -> (step: Step<i64>)
        ensures
            step@ == self.unchecked_plan(KindTag::Integer64, name@, answer),
    {
        match answer {
            None => Step::Ask(self.ask_read(KindTag::Integer64, name)),
            Some(value) => Step::Done(value),
        }
    }
}

/// A host object that has a table of fields.
pub trait HasHData {
    /// The plugin through which the object is reached.
    spec fn host(&self) -> usize;

    /// The address of the object.
    spec fn object(&self) -> usize;

    /// Retrieves the table of the schema `name`, bound to this object. `found`
    /// is the host's answer to the lookup, once there is one. There is no
    /// table where the host does not know the name.
    fn get_hdata(&self, name: &str, found: Option<usize>) -> (step: Step<Option<HData>>)
        ensures
            step@ == get_hdata_plan(self.host(), self.object(), name@, found),
    ;
}

impl HasHData for Buffer {
    open spec fn host(&self) -> usize {
        self.weechat
    }

    open spec fn object(&self) -> usize {
        self.ptr
    }

    fn get_hdata(&self, name: &str, found: Option<usize>) -> (step: Step<Option<HData>>) {
        lookup(self.weechat, self.ptr, name, found)
    }
}

/// A reference to a host object, as a field of kind pointer holds it. It does
/// not keep the object alive, and nothing here tells whether the object still
/// exists.
#[derive(Debug, Clone, Copy, PartialEq, Eq, Structural)]
pub struct HDataPointer {
    /// The address of the object.
    pub ptr: usize,
    /// The plugin through which the object is reached.
    pub weechat: usize,
}

impl HDataPointer {
    /// What [`HDataPointer::advance`] comes to.
    pub open spec fn advance_plan(self, hdata: HData, count: i32, moved: Option<usize>) -> Plan<
        Option<HDataPointer>,
    > {
        match moved {
            None => Plan::Ask(
                Call::HdataMove {
                    plugin: hdata.weechat_ptr,
                    hdata: hdata.ptr,
                    pointer: self.ptr,
                    count,
                },
            ),
            Some(address) => Plan::Done(
                if address == 0 {
                    None
                } else {
                    Some(HDataPointer { ptr: address, weechat: self.weechat })
                },
            ),
        }
    }

    /// Moves the reference `count` places on in the list that `hdata`
    /// describes, back where `count` is negative.
    ///
    /// `moved` is the host's answer, once there is one. The result is a new
    /// reference to the object at the address that the host gives, reached
    /// through the same plugin as this one, and nothing where the host gives
    /// the null address, as it does past the ends of the list.
    pub fn advance(&self, hdata: &HData, count: i32, moved: Option<usize>) -> (step: Step<
        Option<HDataPointer>,
    >)
        ensures
            step@ == self.advance_plan(*hdata, count, moved),
    {
        match moved {
            None => Step::Ask(
                Call::HdataMove {
                    plugin: hdata.weechat_ptr,
                    hdata: hdata.ptr,
                    pointer: self.ptr,
                    count,
                },
            ),
            Some(address) => Step::Done(
                if address == 0 {
                    None
                } else {
                    Some(HDataPointer { ptr: address, weechat: self.weechat })
                },
            ),
        }
    }
}

impl HasHData for HDataPointer {
    open spec fn host(&self) -> usize {
        self.weechat
    }

    open spec fn object(&self) -> usize {
        self.ptr
    }

    fn get_hdata(&self, name: &str, found: Option<usize>) -> (step: Step<Option<HData>>) {
        lookup(self.weechat, self.ptr, name, found)
    }
}

/// A read of a field whose kind the host reports as another than that of the
/// wanted type finds nothing, whatever the host would answer to a read of the
/// field; and as long as there is no such answer, it does not ask for one.
pub proof fn lemma_other_kind_reads_nothing<T: HDataType>(
    hdata: HData,
    name: Seq<char>,
    reported: i32,
    raw: Option<T::Raw>,
)
    requires
        reported != T::kind().spec_code(),
    ensures
        hdata.get_var_plan::<T>(name, Some(reported), raw) == Plan::<Option<T>>::Done(None),
{
}

/// A field that holds another kind than that of the wanted type is never
/// read as that type: each of the six types finds nothing in a field of each
/// of the five other kinds.
pub proof fn lemma_other_kind_is_absent<T: HDataType>(
    hdata: HData,
    name: Seq<char>,
    held: KindTag,
    raw: Option<T::Raw>,
)
    requires
        held != T::kind(),
    ensures
        hdata.get_var_plan::<T>(name, Some(held.spec_code()), raw) == Plan::<Option<T>>::Done(None),
{
    if held.spec_code() == T::kind().spec_code() {
        lemma_code_tells_kinds_apart(held, T::kind());
    }
}

/// A field is read only as the kind that the host has reported for it: a
/// checked read asks for the value exactly when the reported kind is that of
/// the wanted type, and then as a field of that kind, of the table's own
/// schema and object.
pub proof fn lemma_read_follows_reported_kind<T: HDataType>(
    hdata: HData,
    name: Seq<char>,
    reported: i32,
)
    ensures
        hdata.get_var_plan::<T>(name, Some(reported), None) is Ask <==> reported
            == T::kind().spec_code(),
        reported == T::kind().spec_code() ==> hdata.get_var_plan::<T>(name, Some(reported), None)
            == Plan::<Option<T>>::Ask(hdata.read_call(T::kind(), name)),
{
}

/// A table stays on its schema and its object: every call that a checked read
/// asks for is one of the two that a read is made of, and goes through the
/// table's plugin to the table's schema and, where it reads, to the table's
/// object, as a field of the type's own kind.
pub proof fn lemma_read_stays_on_table<T: HDataType>(
    hdata: HData,
    name: Seq<char>,
    reported: Option<i32>,
    raw: Option<T::Raw>,
)
    ensures
        match hdata.get_var_plan::<T>(name, reported, raw) {
            Plan::Ask(call) => call == hdata.kind_call(name) || call == hdata.read_call(
                T::kind(),
                name,
            ),
            Plan::Done(_) => true,
        },
{
}

/// A write stays on its table too: it asks for a hashtable from the table's
/// plugin, sets the one entry in the hashtable that the host made, and updates
/// the table's object, by the table's schema, from that hashtable.
pub proof fn lemma_write_stays_on_table<T: HDataType>(
    hdata: HData,
    name: Seq<char>,
    value: T,
    table: Option<usize>,
    staged: bool,
    updated: Option<i32>,
)
    requires
        table != Some(0usize),
    ensures
        match hdata.update_var_plan(name, value, table, staged, updated) {
            Plan::Ask(Call::HashtableNew { plugin, size, .. }) => table is None && plugin
                == hdata.weechat_ptr && size == 1,
            Plan::Ask(Call::HashtableSet { plugin, hashtable, key, .. }) => table == Some(hashtable)
                && plugin == hdata.weechat_ptr && key == without_nuls(name),
            Plan::Ask(Call::HdataUpdate { plugin, hdata: schema, object, hashtable }) => table
                == Some(hashtable) && plugin == hdata.weechat_ptr && schema == hdata.ptr && object
                == hdata.object,
            Plan::Ask(_) => false,
            Plan::Done(count) => updated is Some && count == count_as_usize(updated->0),
        },
{
}

/// Write, then read: a write stages the field's name and the value's text,
/// and if the host takes the text, so that the field then holds what the text
/// stands for, a read of the field makes the value that was written. This
/// holds of every value that round-trips.
pub proof fn lemma_write_then_read<T: HDataType>(
    hdata: HData,
    name: Seq<char>,
    value: T,
    table: usize,
    raw: T::Raw,
)
    requires
        table != 0,
        value.round_trips(hdata),
        T::stands_for(without_nuls(value.staged_text()), raw),
    ensures
        hdata.update_var_plan(name, value, Some(table), false, None) == Plan::<usize>::Ask(
            Call::HashtableSet {
                plugin: hdata.weechat_ptr,
                hashtable: table,
                key: without_nuls(name),
                value: without_nuls(value.staged_text()),
            },
        ),
        hdata.get_var_plan::<T>(name, Some(T::kind().spec_code()), Some(raw)) matches Plan::Done(
            Some(read),
        ) && read.same_value(&value),
{
    T::lemma_round_trip(hdata, value, raw);
}

/// A move by no places: where the host answers it with the reference's own
/// address, the new reference is equal to the old one, and so is every step
/// that is taken from it.
pub proof fn lemma_advance_by_zero(pointer: HDataPointer, hdata: HData)
    requires
        pointer.ptr != 0,
    ensures
        pointer.advance_plan(hdata, 0, Some(pointer.ptr)) == Plan::Done(Some(pointer)),
{
}

/// There and back: where the host answers a move by `count` places with the
/// address `there`, and the move by `-count` places from `there` with the
/// first address again, the second move ends in a reference equal to the
/// first one.
pub proof fn lemma_advance_and_back(pointer: HDataPointer, hdata: HData, count: i32, there: usize)
    requires
        pointer.ptr != 0,
        there != 0,
        count != i32::MIN,
    ensures
        pointer.advance_plan(hdata, count, Some(there)) matches Plan::Done(Some(moved))
            && moved.advance_plan(hdata, (-count) as i32, None) == Plan::<
            Option<HDataPointer>,
        >::Ask(
            Call::HdataMove {
                plugin: hdata.weechat_ptr,
                hdata: hdata.ptr,
                pointer: there,
                count: (-count) as i32,
            },
        ) && moved.advance_plan(hdata, (-count) as i32, Some(pointer.ptr)) == Plan::Done(
            Some(pointer),
        ),
{
}

} // verus!
