//! The steps of each operation, answer by answer.

use chrono::{DateTime, NaiveDate, NaiveDateTime};
use weechat::{
    Buffer, Call, HData, HDataPointer, HDataType, HasHData, HashtableItemType, KindTag, Step,
    Weechat,
};

fn table() -> HData {
    HData { weechat_ptr: 0x1000, object: 0x3000, ptr: 0x2000 }
}

fn kind_call(name: &str) -> Step<Option<i32>> {
    Step::Ask(Call::HdataGetVarType { plugin: 0x1000, hdata: 0x2000, name: name.to_string() })
}

#[test]
fn kinds_have_the_numbers_of_the_host() {
    assert_eq!(KindTag::Char.code(), 1);
    assert_eq!(KindTag::Integer32.code(), 2);
    assert_eq!(KindTag::Integer64.code(), 3);
    assert_eq!(KindTag::String.code(), 4);
    assert_eq!(KindTag::Pointer.code(), 5);
    assert_eq!(KindTag::Time.code(), 6);
}

#[test]
fn checked_read_asks_for_the_kind_first() {
    assert_eq!(i32::hdata_value(&table(), "number", None, None), kind_call("number"));
    assert_eq!(table().get_var::<i32>("number", None, None), kind_call("number"));
}

#[test]
fn checked_read_ignores_a_value_before_the_kind_is_known() {
    assert_eq!(table().get_var::<i32>("number", None, Some(7)), kind_call("number"));
}

#[test]
fn checked_read_asks_for_the_value_of_a_matching_kind() {
    assert_eq!(
        table().get_var::<i32>("number", Some(2), None),
        Step::Ask(Call::HdataRead {
            plugin: 0x1000,
            kind: KindTag::Integer32,
            hdata: 0x2000,
            object: 0x3000,
            name: "number".to_string(),
        })
    );
    assert_eq!(
        table().get_var::<String>("name", Some(4), None),
        Step::Ask(Call::HdataRead {
            plugin: 0x1000,
            kind: KindTag::String,
            hdata: 0x2000,
            object: 0x3000,
            name: "name".to_string(),
        })
    );
}

#[test]
fn checked_read_ends_on_another_kind() {
    for code in [-1, 0, 1, 3, 4, 5, 6, 7, 8, i32::MAX, i32::MIN] {
        assert_eq!(table().get_var::<i32>("number", Some(code), None), Step::Done(None));
        assert_eq!(table().get_var::<i32>("number", Some(code), Some(42)), Step::Done(None));
    }
    assert_eq!(
        table().get_var::<String>("name", Some(2), Some(Some("core".to_string()))),
        Step::Done(None)
    );
    assert_eq!(table().get_var::<i64>("number", Some(2), Some(1)), Step::Done(None));
    assert_eq!(table().get_var::<char>("number", Some(2), Some(65)), Step::Done(None));
    assert_eq!(table().get_var::<HDataPointer>("number", Some(2), Some(64)), Step::Done(None));
    assert_eq!(table().get_var::<NaiveDateTime>("number", Some(2), Some(0)), Step::Done(None));
}

#[test]
fn checked_read_makes_the_value_of_the_answer() {
    assert_eq!(table().get_var::<i32>("number", Some(2), Some(-3)), Step::Done(Some(-3)));
    assert_eq!(table().get_var::<i64>("bytes", Some(3), Some(i64::MIN)), Step::Done(Some(i64::MIN)));
    assert_eq!(
        table().get_var::<String>("name", Some(4), Some(Some("core".to_string()))),
        Step::Done(Some("core".to_string()))
    );
    assert_eq!(table().get_var::<String>("name", Some(4), Some(None)), Step::Done(None));
    assert_eq!(
        table().get_var::<HDataPointer>("lines", Some(5), Some(0x4000)),
        Step::Done(Some(HDataPointer { ptr: 0x4000, weechat: 0x1000 }))
    );
}

#[test]
fn null_pointer_field_makes_a_reference() {
    assert_eq!(
        table().get_var::<HDataPointer>("lines", Some(5), Some(0)),
        Step::Done(Some(HDataPointer { ptr: 0, weechat: 0x1000 }))
    );
}

#[test]
fn char_is_made_of_a_byte_that_is_not_negative() {
    assert_eq!(table().get_var::<char>("mark", Some(1), Some(65)), Step::Done(Some('A')));
    assert_eq!(table().get_var::<char>("mark", Some(1), Some(0)), Step::Done(Some('\0')));
    assert_eq!(table().get_var::<char>("mark", Some(1), Some(127)), Step::Done(Some('\u{7f}')));
    assert_eq!(table().get_var::<char>("mark", Some(1), Some(-1)), Step::Done(None));
    assert_eq!(table().get_var::<char>("mark", Some(1), Some(i8::MIN)), Step::Done(None));
}

#[test]
fn time_is_made_by_chrono() {
    let at = |seconds| table().get_var::<NaiveDateTime>("created", Some(6), Some(seconds));
    assert_eq!(
        at(1_431_648_000),
        Step::Done(Some(NaiveDate::from_ymd_opt(2015, 5, 15).unwrap().and_hms_opt(0, 0, 0).unwrap()))
    );
    assert_eq!(
        at(-1),
        Step::Done(Some(NaiveDate::from_ymd_opt(1969, 12, 31).unwrap().and_hms_opt(23, 59, 59).unwrap()))
    );
    for seconds in [0, 61, -86_400, 1_000_000_000] {
        match at(seconds) {
            Step::Done(Some(time)) => assert_eq!(time.and_utc().timestamp(), seconds),
            other => panic!("no time: {:?}", other),
        }
    }
}

#[test]
fn time_out_of_chronos_range_is_absent() {
    let at = |seconds| table().get_var::<NaiveDateTime>("created", Some(6), Some(seconds));
    assert_eq!(at(8_210_266_876_799), Step::Done(Some(NaiveDateTime::MAX.with_nanosecond_zero())));
    assert_eq!(at(8_210_266_876_800), Step::Done(None));
    assert_eq!(at(-8_334_601_228_800), Step::Done(Some(NaiveDateTime::MIN)));
    assert_eq!(at(-8_334_601_228_801), Step::Done(None));
    assert_eq!(at(i64::MAX), Step::Done(None));
    assert_eq!(at(i64::MIN), Step::Done(None));
    assert_eq!(DateTime::from_timestamp(8_210_266_876_800, 0), None);
    assert_eq!(DateTime::from_timestamp(-8_334_601_228_801, 0), None);
}

trait WithNanosecondZero {
    fn with_nanosecond_zero(self) -> NaiveDateTime;
}

impl WithNanosecondZero for NaiveDateTime {
    fn with_nanosecond_zero(self) -> NaiveDateTime {
        DateTime::from_timestamp(self.and_utc().timestamp(), 0).unwrap().naive_utc()
    }
}

#[test]
fn field_name_crosses_without_nul() {
    assert_eq!(table().get_var::<i32>("num\0ber", None, None), kind_call("number"));
    assert_eq!(
        table().get_var::<i32>("\0number\0", Some(2), None),
        Step::Ask(Call::HdataRead {
            plugin: 0x1000,
            kind: KindTag::Integer32,
            hdata: 0x2000,
            object: 0x3000,
            name: "number".to_string(),
        })
    );
}

#[test]
fn write_asks_for_a_hashtable_of_one_bucket() {
    let new = |value_type: &str| {
        Step::Ask(Call::HashtableNew {
            plugin: 0x1000,
            size: 1,
            key_type: "string".to_string(),
            value_type: value_type.to_string(),
        })
    };
    let t = table();
    assert_eq!(t.update_var("f", &"text".to_string(), None, false, None), new("string"));
    assert_eq!(t.update_var("f", &'c', None, false, None), new("string"));
    assert_eq!(t.update_var("f", &1i32, None, false, None), new("integer"));
    assert_eq!(t.update_var("f", &1i64, None, false, None), new("integer"));
    assert_eq!(
        t.update_var("f", &HDataPointer { ptr: 1, weechat: 0x1000 }, None, false, None),
        new("integer")
    );
    assert_eq!(t.update_var("f", &NaiveDateTime::MIN, None, false, None), new("integer"));
    assert_eq!(t.update_var("f", &1i32, None, true, Some(1)), new("integer"));
}

#[test]
fn write_stages_the_decimal_text() {
    let set = |value: &str| {
        Step::Ask(Call::HashtableSet {
            plugin: 0x1000,
            hashtable: 0x9000,
            key: "f".to_string(),
            value: value.to_string(),
        })
    };
    let t = table();
    assert_eq!(t.update_var("f", &42i32, Some(0x9000), false, None), set("42"));
    assert_eq!(t.update_var("f", &i32::MIN, Some(0x9000), false, None), set("-2147483648"));
    assert_eq!(t.update_var("f", &i64::MAX, Some(0x9000), false, None), set("9223372036854775807"));
    assert_eq!(t.update_var("f", &i64::MIN, Some(0x9000), false, None), set("-9223372036854775808"));
    assert_eq!(
        t.update_var("f", &HDataPointer { ptr: 0xffff, weechat: 7 }, Some(0x9000), false, None),
        set("65535")
    );
    assert_eq!(
        t.update_var("f", &HDataPointer { ptr: usize::MAX, weechat: 7 }, Some(0x9000), false, None),
        set(&usize::MAX.to_string())
    );
    assert_eq!(
        i32::hdata_set_value(&t, "f", &0, Some(0x9000), false, Some(1)),
        set("0")
    );
}

#[test]
fn write_stages_text_and_char_as_they_are() {
    let set = |value: &str| {
        Step::Ask(Call::HashtableSet {
            plugin: 0x1000,
            hashtable: 0x9000,
            key: "f".to_string(),
            value: value.to_string(),
        })
    };
    let t = table();
    assert_eq!(t.update_var("f", &"a b".to_string(), Some(0x9000), false, None), set("a b"));
    assert_eq!(t.update_var("f", &String::new(), Some(0x9000), false, None), set(""));
    assert_eq!(t.update_var("f", &"a\0b\0".to_string(), Some(0x9000), false, None), set("ab"));
    assert_eq!(t.update_var("\0f", &'x', Some(0x9000), false, None), set("x"));
    assert_eq!(t.update_var("f", &'é', Some(0x9000), false, None), set("é"));
    assert_eq!(t.update_var("f", &'\0', Some(0x9000), false, None), set(""));
}

#[test]
fn write_stages_the_timestamp_of_a_time() {
    let t = table();
    let time = NaiveDate::from_ymd_opt(2015, 5, 15).unwrap().and_hms_milli_opt(0, 0, 0, 999).unwrap();
    assert_eq!(
        t.update_var("created", &time, Some(0x9000), false, None),
        Step::Ask(Call::HashtableSet {
            plugin: 0x1000,
            hashtable: 0x9000,
            key: "created".to_string(),
            value: "1431648000".to_string(),
        })
    );
    let before = NaiveDate::from_ymd_opt(1969, 12, 31).unwrap().and_hms_opt(23, 59, 59).unwrap();
    assert_eq!(
        t.update_var("created", &before, Some(0x9000), false, None),
        Step::Ask(Call::HashtableSet {
            plugin: 0x1000,
            hashtable: 0x9000,
            key: "created".to_string(),
            value: "-1".to_string(),
        })
    );
}

#[test]
fn write_updates_the_object_of_the_table() {
    assert_eq!(
        table().update_var("f", &1i32, Some(0x9000), true, None),
        Step::Ask(Call::HdataUpdate {
            plugin: 0x1000,
            hdata: 0x2000,
            object: 0x3000,
            hashtable: 0x9000,
        })
    );
}

#[test]
fn write_ends_with_the_count_of_the_host() {
    let t = table();
    assert_eq!(t.update_var("f", &1i32, Some(0x9000), true, Some(1)), Step::Done(1));
    assert_eq!(t.update_var("f", &1i32, Some(0x9000), true, Some(0)), Step::Done(0));
    assert_eq!(t.update_var("f", &1i32, Some(0x9000), true, Some(3)), Step::Done(3));
    assert_eq!(
        t.update_var("f", &1i32, Some(0x9000), true, Some(i32::MAX)),
        Step::Done(i32::MAX as usize)
    );
}

#[test]
fn negative_count_wraps_as_a_cast_does() {
    let t = table();
    assert_eq!(t.update_var("f", &1i32, Some(0x9000), true, Some(-1)), Step::Done(usize::MAX));
    assert_eq!(t.update_var("f", &1i32, Some(0x9000), true, Some(-1)), Step::Done(-1i32 as usize));
    assert_eq!(
        t.update_var("f", &1i32, Some(0x9000), true, Some(i32::MIN)),
        Step::Done(i32::MIN as usize)
    );
    assert_eq!(weechat::call::count_to_usize(-2), -2i32 as usize);
    assert_eq!(weechat::call::count_to_usize(5), 5);
}

#[test]
fn unchecked_reads_ask_without_a_kind_check() {
    let read = |kind, name: &str| Call::HdataRead {
        plugin: 0x1000,
        kind,
        hdata: 0x2000,
        object: 0x3000,
        name: name.to_string(),
    };
    let t = table();
    assert_eq!(t.get_string_unchecked("na\0me", None), Step::Ask(read(KindTag::String, "name")));
    assert_eq!(t.get_i32_unchecked("number", None), Step::Ask(read(KindTag::Integer32, "number")));
    assert_eq!(t.get_i64_unchecked("bytes", None), Step::Ask(read(KindTag::Integer64, "bytes")));
}

#[test]
fn unchecked_reads_hand_the_answer_on() {
    let t = table();
    assert_eq!(
        t.get_string_unchecked("name", Some(Some("core".to_string()))),
        Step::Done(Some("core".to_string()))
    );
    assert_eq!(t.get_string_unchecked("name", Some(None)), Step::Done(None));
    assert_eq!(t.get_i32_unchecked("number", Some(-5)), Step::Done(-5));
    assert_eq!(t.get_i64_unchecked("bytes", Some(i64::MAX)), Step::Done(i64::MAX));
}

#[test]
fn schema_lookup_step_by_step() {
    let buffer = Buffer::from_ptr(0x1000, 0x3000);
    assert_eq!(
        buffer.get_hdata("buf\0fer", None),
        Step::Ask(Call::HdataGet { plugin: 0x1000, name: "buffer".to_string() })
    );
    assert_eq!(buffer.get_hdata("buffer", Some(0)), Step::Done(None));
    assert_eq!(
        buffer.get_hdata("buffer", Some(0x2000)),
        Step::Done(Some(HData { weechat_ptr: 0x1000, object: 0x3000, ptr: 0x2000 }))
    );
    let pointer = HDataPointer { ptr: 0x4000, weechat: 0x1100 };
    assert_eq!(
        pointer.get_hdata("line", None),
        Step::Ask(Call::HdataGet { plugin: 0x1100, name: "line".to_string() })
    );
    assert_eq!(pointer.get_hdata("line", Some(0)), Step::Done(None));
    assert_eq!(
        pointer.get_hdata("line", Some(0x2100)),
        Step::Done(Some(HData { weechat_ptr: 0x1100, object: 0x4000, ptr: 0x2100 }))
    );
}

#[test]
fn advance_step_by_step() {
    let pointer = HDataPointer { ptr: 0x4000, weechat: 0x1100 };
    assert_eq!(
        pointer.advance(&table(), -2, None),
        Step::Ask(Call::HdataMove { plugin: 0x1000, hdata: 0x2000, pointer: 0x4000, count: -2 })
    );
    assert_eq!(pointer.advance(&table(), -2, Some(0)), Step::Done(None));
    assert_eq!(
        pointer.advance(&table(), -2, Some(0x4020)),
        Step::Done(Some(HDataPointer { ptr: 0x4020, weechat: 0x1100 }))
    );
}

#[test]
fn advance_by_zero_keeps_a_reference_that_the_host_keeps() {
    let pointer = HDataPointer { ptr: 0x4000, weechat: 0x1100 };
    assert_eq!(
        pointer.advance(&table(), 0, None),
        Step::Ask(Call::HdataMove { plugin: 0x1000, hdata: 0x2000, pointer: 0x4000, count: 0 })
    );
    assert_eq!(pointer.advance(&table(), 0, Some(0x4000)), Step::Done(Some(pointer)));
}

#[test]
fn new_hashtable_step_by_step() {
    let weechat = Weechat::from_ptr(0x1000);
    assert_eq!(weechat.ptr(), 0x1000);
    assert_eq!(
        weechat.new_hashtable(u16::MAX, HashtableItemType::Pointer, HashtableItemType::Buffer, None),
        Step::Ask(Call::HashtableNew {
            plugin: 0x1000,
            size: 65535,
            key_type: "pointer".to_string(),
            value_type: "buffer".to_string(),
        })
    );
    let kind = HashtableItemType::Integer;
    assert_eq!(weechat.new_hashtable(1, kind, kind, Some(0)), Step::Done(None));
    assert_eq!(
        weechat.new_hashtable(1, kind, kind, Some(0x9000)),
        Step::Done(Some(weechat::Hashtable { weechat_ptr: 0x1000, ptr: 0x9000 }))
    );
}

#[test]
fn hashtable_item_types_have_the_words_of_the_host() {
    assert_eq!(HashtableItemType::Integer.to_string(), "integer");
    assert_eq!(HashtableItemType::String.to_string(), "string");
    assert_eq!(HashtableItemType::Pointer.to_string(), "pointer");
    assert_eq!(HashtableItemType::Buffer.to_string(), "buffer");
    assert_eq!(HashtableItemType::Time.to_string(), "time");
}

#[test]
fn hashtable_set_strips_nul_from_key_and_value() {
    let table = weechat::Hashtable { weechat_ptr: 0x1000, ptr: 0x9000 };
    assert_eq!(
        table.set("k\0ey", "\0value"),
        Call::HashtableSet {
            plugin: 0x1000,
            hashtable: 0x9000,
            key: "key".to_string(),
            value: "value".to_string(),
        }
    );
}

#[test]
fn return_codes_have_the_numbers_of_the_host() {
    assert_eq!(weechat::ReturnCode::Okay.code(), 0);
    assert_eq!(weechat::ReturnCode::OkEat.code(), 1);
    assert_eq!(weechat::ReturnCode::Error.code(), -1);
}
