//! The six types of values: one for each kind of field.
use vstd::prelude::*;
use chrono::NaiveDateTime;
use crate::call::{KindTag, Step};
use crate::decimal::{
    decimal_i64,
    decimal_text,
    decimal_u64,
    decimal_value,
    lemma_decimal_nul_free,
    lemma_decimal_round_trip,
};
use crate::hashtable::HashtableItemType;
use crate::hdata::{HData, HDataPointer, HDataType};
use crate::text::{lemma_nul_free_kept, nul_free};
use crate::time::{from_timestamp, representable, timestamp, unix_seconds, utc_at};

verus! {

impl HDataType for String {
    type Raw = Option<String>;

    open spec fn kind() -> KindTag {
        KindTag::String
    }

    /// The text that the host gave, if it gave one.
    open spec fn decoded(hdata: HData, raw: Option<String>) -> Option<String> {
        raw
    }

    /// The host gave a text, not a null pointer.
    open spec fn readable(raw: Option<String>) -> bool {
        raw is Some
    }

    open spec fn staged_type() -> HashtableItemType {
        HashtableItemType::String
    }

    /// The text itself.
    open spec fn staged_text(&self) -> Seq<char> {
        self@
    }

    /// The field holds a text of the same characters.
    open spec fn stands_for(text: Seq<char>, raw: Option<String>) -> bool {
        raw matches Some(held) && held@ == text
    }

    /// The two texts have the same characters.
    open spec fn same_value(&self, other: &String) -> bool {
        self@ == other@
    }

    /// A text comes back as it went in if it holds no NUL.
    open spec fn round_trips(&self, hdata: HData) -> bool {
        nul_free(self@)
    }

    fn hdata_value(hdata: &HData, name: &str, reported: Option<i32>, raw: Option<Option<String>>) -> (step:
        Step<Option<String>>) {
        match hdata.check_kind(name, KindTag::String, reported, raw.is_some()) {
            Some(step) => step,
            None => Step::Done(raw.unwrap()),
        }
    }

    fn hdata_set_value(
        hdata: &HData,
        name: &str,
        value: &String,
        table: Option<usize>,
        staged: bool,
        updated: Option<i32>,
    ) -> (step: Step<usize>) {
        hdata.stage(name, HashtableItemType::String, value.as_str(), table, staged, updated)
    }

    proof fn lemma_round_trip(hdata: HData, value: String, raw: Option<String>) {
        lemma_nul_free_kept(value@);
    }
}

impl HDataType for char {
    type Raw = i8;

    open spec fn kind() -> KindTag {
        KindTag::Char
    }

    /// The character of the byte, for a byte that is not negative.
    open spec fn decoded(hdata: HData, raw: i8) -> Option<char> {
        if raw >= 0 {
            Some(raw as u8 as char)
        } else {
            None
        }
    }

    /// The byte is not negative.
    open spec fn readable(raw: i8) -> bool {
        raw >= 0
    }

    open spec fn staged_type() -> HashtableItemType {
        HashtableItemType::String
    }

    /// The text of the one character.
    open spec fn staged_text(&self) -> Seq<char> {
        seq![*self]
    }

    /// The text is one character of a single byte, and the field holds that
    /// byte.
    open spec fn stands_for(text: Seq<char>, raw: i8) -> bool {
        text.len() == 1 && text[0] as int <= 127 && raw as int == text[0] as int
    }

    open spec fn same_value(&self, other: &char) -> bool {
        *self == *other
    }

    /// A character comes back as it went in if it takes a single byte and is
    /// not NUL.
    open spec fn round_trips(&self, hdata: HData) -> bool {
        1 <= *self as int <= 127
    }

    fn hdata_value(hdata: &HData, name: &str, reported: Option<i32>, raw: Option<i8>) -> (step:
        Step<Option<char>>) {
        match hdata.check_kind(name, KindTag::Char, reported, raw.is_some()) {
            Some(step) => step,
            None => {
                let byte = raw.unwrap();
                Step::Done(
                    if byte >= 0 {
                        Some(byte as u8 as char)
                    } else {
                        None
                    },
                )
            },
        }
    }

    fn hdata_set_value(
        hdata: &HData,
        name: &str,
        value: &char,
        table: Option<usize>,
        staged: bool,
        updated: Option<i32>,
    ) -> (step: Step<usize>) {
        let mut text = String::new();
        text.push(*value);
        assert(text@ =~= seq![*value]);
        hdata.stage(name, HashtableItemType::String, text.as_str(), table, staged, updated)
    }

    proof fn lemma_round_trip(hdata: HData, value: char, raw: i8) {
        lemma_nul_free_kept(seq![value]);
    }
}

impl HDataType for i64 {
    type Raw = i64;

    open spec fn kind() -> KindTag {
        KindTag::Integer64
    }

    /// The number that the host gave.
    open spec fn decoded(hdata: HData, raw: i64) -> Option<i64> {
        Some(raw)
    }

    /// Every number is a value.
    open spec fn readable(raw: i64) -> bool {
        true
    }

    open spec fn staged_type() -> HashtableItemType {
        HashtableItemType::Integer
    }

    /// The number in decimal.
    open spec fn staged_text(&self) -> Seq<char> {
        decimal_text(*self as int)
    }

    /// The field holds the number that the text is the decimal form of.
    open spec fn stands_for(text: Seq<char>, raw: i64) -> bool {
        raw as int == decimal_value(text)
    }

    open spec fn same_value(&self, other: &i64) -> bool {
        *self == *other
    }

    /// Every number comes back as it went in.
    open spec fn round_trips(&self, hdata: HData) -> bool {
        true
    }

    fn hdata_value(hdata: &HData, name: &str, reported: Option<i32>, raw: Option<i64>) -> (step:
        Step<Option<i64>>) {
        match hdata.check_kind(name, KindTag::Integer64, reported, raw.is_some()) {
            Some(step) => step,
            None => Step::Done(Some(raw.unwrap())),
        }
    }

    fn hdata_set_value(
        hdata: &HData,
        name: &str,
        value: &i64,
        table: Option<usize>,
        staged: bool,
        updated: Option<i32>,
    ) -> (step: Step<usize>) {
        let text = decimal_i64(*value);
        hdata.stage(name, HashtableItemType::Integer, text.as_str(), table, staged, updated)
    }

    proof fn lemma_round_trip(hdata: HData, value: i64, raw: i64) {
        lemma_decimal_nul_free(value as int);
        lemma_nul_free_kept(decimal_text(value as int));
        lemma_decimal_round_trip(value as int);
    }
}

impl HDataType for i32 {
    type Raw = i32;

    open spec fn kind() -> KindTag {
        KindTag::Integer32
    }

    /// The number that the host gave.
    open spec fn decoded(hdata: HData, raw: i32) -> Option<i32> {
        Some(raw)
    }

    /// Every number is a value.
    open spec fn readable(raw: i32) -> bool {
        true
    }

    open spec fn staged_type() -> HashtableItemType {
        HashtableItemType::Integer
    }

    /// The number in decimal.
    open spec fn staged_text(&self) -> Seq<char> {
        decimal_text(*self as int)
    }

    /// The field holds the number that the text is the decimal form of.
    open spec fn stands_for(text: Seq<char>, raw: i32) -> bool {
        raw as int == decimal_value(text)
    }

    open spec fn same_value(&self, other: &i32) -> bool {
        *self == *other
    }

    /// Every number comes back as it went in.
    open spec fn round_trips(&self, hdata: HData) -> bool {
        true
    }

    fn hdata_value(hdata: &HData, name: &str, reported: Option<i32>, raw: Option<i32>) -> (step:
        Step<Option<i32>>) {
        match hdata.check_kind(name, KindTag::Integer32, reported, raw.is_some()) {
            Some(step) => step,
            None => Step::Done(Some(raw.unwrap())),
        }
    }

    fn hdata_set_value(
        hdata: &HData,
        name: &str,
        value: &i32,
        table: Option<usize>,
        staged: bool,
        updated: Option<i32>,
    ) -> (step: Step<usize>) {
        let text = decimal_i64(*value as i64);
        hdata.stage(name, HashtableItemType::Integer, text.as_str(), table, staged, updated)
    }

    proof fn lemma_round_trip(hdata: HData, value: i32, raw: i32) {
        lemma_decimal_nul_free(value as int);
        lemma_nul_free_kept(decimal_text(value as int));
        lemma_decimal_round_trip(value as int);
    }
}

impl HDataType for NaiveDateTime {
    type Raw = i64;

    open spec fn kind() -> KindTag {
        KindTag::Time
    }

    /// The time in UTC that lies the given number of seconds from the Unix
    /// epoch, if chrono can hold it.
    open spec fn decoded(hdata: HData, raw: i64) -> Option<NaiveDateTime> {
        utc_at(raw)
    }

    /// The seconds are among those that chrono can turn into a time.
    open spec fn readable(raw: i64) -> bool {
        representable(raw)
    }

    open spec fn staged_type() -> HashtableItemType {
        HashtableItemType::Integer
    }

    /// The whole seconds from the Unix epoch to the time, in decimal.
    open spec fn staged_text(&self) -> Seq<char> {
        decimal_text(unix_seconds(*self) as int)
    }

    /// The field holds the number that the text is the decimal form of.
    open spec fn stands_for(text: Seq<char>, raw: i64) -> bool {
        raw as int == decimal_value(text)
    }

    /// The two times lie in the same second.
    open spec fn same_value(&self, other: &NaiveDateTime) -> bool {
        unix_seconds(*self) == unix_seconds(*other)
    }

    /// A time comes back, to the second, if chrono makes a time of the
    /// time's own seconds again, and one of those seconds.
    open spec fn round_trips(&self, hdata: HData) -> bool {
        utc_at(unix_seconds(*self)) matches Some(again) && unix_seconds(again) == unix_seconds(
            *self,
        )
    }

    /// The time that is read lies as many seconds from the Unix epoch as the
    /// host gave.
    fn hdata_value(hdata: &HData, name: &str, reported: Option<i32>, raw: Option<i64>) -> (step:
        Step<Option<NaiveDateTime>>)
        ensures
            step matches Step::Done(Some(time)) ==> raw is Some && unix_seconds(time) == raw->0,
    {
        match hdata.check_kind(name, KindTag::Time, reported, raw.is_some()) {
            Some(step) => step,
            None => Step::Done(from_timestamp(raw.unwrap())),
        }
    }

    /// Every time that is written round-trips.
    fn hdata_set_value(
        hdata: &HData,
        name: &str,
        value: &NaiveDateTime,
        table: Option<usize>,
        staged: bool,
        updated: Option<i32>,
    ) -> (step: Step<usize>)
        ensures
            value.round_trips(*hdata),
    {
        let text = decimal_i64(timestamp(value));
        hdata.stage(name, HashtableItemType::Integer, text.as_str(), table, staged, updated)
    }

    proof fn lemma_round_trip(hdata: HData, value: NaiveDateTime, raw: i64) {
        lemma_decimal_nul_free(unix_seconds(value) as int);
        lemma_nul_free_kept(decimal_text(unix_seconds(value) as int));
        lemma_decimal_round_trip(unix_seconds(value) as int);
    }
}

impl HDataType for HDataPointer {
    type Raw = usize;

    open spec fn kind() -> KindTag {
        KindTag::Pointer
    }

    /// A reference to the object at the address, reached through the plugin
    /// of the table. A null address makes a reference too.
    open spec fn decoded(hdata: HData, raw: usize) -> Option<HDataPointer> {
        Some(HDataPointer { ptr: raw, weechat: hdata.weechat_ptr })
    }

    /// Every address makes a reference.
    open spec fn readable(raw: usize) -> bool {
        true
    }

    open spec fn staged_type() -> HashtableItemType {
        HashtableItemType::Integer
    }

    /// The address in decimal.
    open spec fn staged_text(&self) -> Seq<char> {
        decimal_text(self.ptr as int)
    }

    /// The field holds the address that the text is the decimal form of.
    open spec fn stands_for(text: Seq<char>, raw: usize) -> bool {
        raw as int == decimal_value(text)
    }

    open spec fn same_value(&self, other: &HDataPointer) -> bool {
        *self == *other
    }

    /// A reference comes back as it went in if it is reached through the
    /// plugin of the table.
    open spec fn round_trips(&self, hdata: HData) -> bool {
        self.weechat == hdata.weechat_ptr
    }

    fn hdata_value(hdata: &HData, name: &str, reported: Option<i32>, raw: Option<usize>) -> (step:
        Step<Option<HDataPointer>>) {
        match hdata.check_kind(name, KindTag::Pointer, reported, raw.is_some()) {
            Some(step) => step,
            None => Step::Done(Some(HDataPointer { ptr: raw.unwrap(), weechat: hdata.weechat_ptr })),
        }
    }

    fn hdata_set_value(
        hdata: &HData,
        name: &str,
        value: &HDataPointer,
        table: Option<usize>,
        staged: bool,
        updated: Option<i32>,
    ) -> (step: Step<usize>) {
        let text = decimal_u64(value.ptr as u64);
        hdata.stage(name, HashtableItemType::Integer, text.as_str(), table, staged, updated)
    }

    proof fn lemma_round_trip(hdata: HData, value: HDataPointer, raw: usize) {
        lemma_decimal_nul_free(value.ptr as int);
        lemma_nul_free_kept(decimal_text(value.ptr as int));
        lemma_decimal_round_trip(value.ptr as int);
    }
}

} // verus!
