use evtdecode::ident::{Guid, Sid};
use evtdecode::time::ticks_to_timestamp;
use evtdecode::variant::EventVariantValue;

#[test]
fn scalars_display_their_labels_and_payloads() {
    assert_eq!(EventVariantValue::Null.describe(), "Null");
    assert_eq!(EventVariantValue::Bool(true).describe(), "Bool(true)");
    assert_eq!(EventVariantValue::SByte(-5).describe(), "SByte(-5)");
    assert_eq!(EventVariantValue::Int64(i64::MIN).describe(), "Int64(-9223372036854775808)");
    assert_eq!(EventVariantValue::UInt32(4624).describe(), "UInt32(4624)");
    assert_eq!(EventVariantValue::Single(0x3F80_0000).describe(), "Single(0x3F800000)");
    assert_eq!(EventVariantValue::HexInt32(0xAB).describe(), "HexInt32(0x000000AB)");
    assert_eq!(
        EventVariantValue::HexInt64(0x8020000000000000).describe(),
        "HexInt64(0x8020000000000000)"
    );
    assert_eq!(
        EventVariantValue::String("hello".to_string()).describe(),
        "String(\"hello\")"
    );
    assert_eq!(
        EventVariantValue::Binary(vec![0x01, 0xAB, 0xFF]).describe(),
        "Binary(\"01 AB FF\")"
    );
    assert_eq!(EventVariantValue::UnknownType(23).describe(), "UnknownType(23)");
}

#[test]
fn identifiers_display_canonically() {
    let g = Guid {
        data1: 0x000102A3,
        data2: 0x04B5,
        data3: 0x06C7,
        data4: [0x08, 0xD9, 0x0A, 0xEB, 0x0C, 0xFD, 0x0E, 0x0F],
    };
    assert_eq!(
        EventVariantValue::Guid(g).describe(),
        "Guid({000102a3-04b5-06c7-08d9-0aeb0cfd0e0f})"
    );
    let s = Sid { revision: 1, authority: 5, sub_authorities: vec![18] };
    assert_eq!(EventVariantValue::Sid(s).describe(), "Sid(S-1-5-18)");
}

#[test]
fn times_display_in_calendar_form() {
    let ts = ticks_to_timestamp(133_257_918_056_136_704).unwrap();
    assert_eq!(
        EventVariantValue::FileTime(ts).describe(),
        "FileTime(2023-04-12T16:50:05.613670400Z)"
    );
    let whole = ticks_to_timestamp(evtdecode::time::EPOCH_DELTA_TICKS).unwrap();
    assert_eq!(
        EventVariantValue::SysTime(whole).describe(),
        "SysTime(1970-01-01T00:00:00Z)"
    );
}

#[test]
fn arrays_display_bracketed_and_comma_separated() {
    assert_eq!(
        EventVariantValue::Int32Arr(vec![-1, 0, 7]).describe(),
        "Int32Arr([-1, 0, 7])"
    );
    assert_eq!(EventVariantValue::ByteArr(vec![]).describe(), "ByteArr([])");
    assert_eq!(
        EventVariantValue::BoolArr(vec![true, false]).describe(),
        "BoolArr([true, false])"
    );
    assert_eq!(
        EventVariantValue::HexInt32Arr(vec![1, 2]).describe(),
        "HexInt32Arr([\"0x00000001\", \"0x00000002\"])"
    );
    assert_eq!(
        EventVariantValue::StringArr(vec!["a".to_string(), "b".to_string()]).describe(),
        "StringArr([\"a\", \"b\"])"
    );
}
