use evtdecode::variant::{
    decode_slot, DecodeError, EventVariantValue, RawPayload, RawSlot, TAG_ARRAY_FLAG,
};
use evtdecode::text::TextError;
use evtdecode::time::TimeError;

fn imm(tag: u32, u: u64) -> RawSlot {
    RawSlot { tag, count: 1, payload: RawPayload::Immediate(u) }
}

fn data(tag: u32, count: u32, bytes: Vec<u8>) -> RawSlot {
    RawSlot { tag, count, payload: RawPayload::Data(bytes) }
}

fn wide(s: &str) -> Vec<u8> {
    let mut v = Vec::new();
    for u in s.encode_utf16() {
        v.extend_from_slice(&u.to_le_bytes());
    }
    v
}

#[test]
fn scalar_kinds_decode_to_their_typed_cases() {
    assert_eq!(
        decode_slot(&RawSlot { tag: 0, count: 0, payload: RawPayload::Null }),
        Ok(EventVariantValue::Null)
    );
    assert_eq!(
        decode_slot(&data(1, 0, wide("hello"))),
        Ok(EventVariantValue::String("hello".to_string()))
    );
    assert_eq!(
        decode_slot(&data(2, 0, b"ansi".to_vec())),
        Ok(EventVariantValue::AnsiString("ansi".to_string()))
    );
    assert_eq!(decode_slot(&imm(3, 0xFF)), Ok(EventVariantValue::SByte(-1)));
    assert_eq!(decode_slot(&imm(4, 0x1FF)), Ok(EventVariantValue::Byte(0xFF)));
    assert_eq!(decode_slot(&imm(5, 0xFFFF)), Ok(EventVariantValue::Int16(-1)));
    assert_eq!(decode_slot(&imm(6, 0xBEEF)), Ok(EventVariantValue::UInt16(0xBEEF)));
    assert_eq!(
        decode_slot(&imm(7, 0xFFFF_FFFF)),
        Ok(EventVariantValue::Int32(-1))
    );
    assert_eq!(
        decode_slot(&imm(8, 0xDEAD_BEEF)),
        Ok(EventVariantValue::UInt32(0xDEAD_BEEF))
    );
    assert_eq!(
        decode_slot(&imm(9, u64::MAX)),
        Ok(EventVariantValue::Int64(-1))
    );
    assert_eq!(decode_slot(&imm(10, 42)), Ok(EventVariantValue::UInt64(42)));
    assert_eq!(
        decode_slot(&imm(11, 0x3F80_0000)),
        Ok(EventVariantValue::Single(0x3F80_0000))
    );
    assert_eq!(
        decode_slot(&imm(12, 0x3FF0_0000_0000_0000)),
        Ok(EventVariantValue::Double(0x3FF0_0000_0000_0000))
    );
    assert_eq!(decode_slot(&imm(13, 1)), Ok(EventVariantValue::Bool(true)));
    assert_eq!(decode_slot(&imm(13, 0)), Ok(EventVariantValue::Bool(false)));
    assert_eq!(
        decode_slot(&data(14, 3, vec![1, 2, 3])),
        Ok(EventVariantValue::Binary(vec![1, 2, 3]))
    );
    match decode_slot(&data(15, 1, vec![0; 16])).unwrap() {
        EventVariantValue::Guid(g) => assert_eq!(g.data1, 0),
        v => panic!("expected a GUID, got {:?}", v),
    }
    assert_eq!(decode_slot(&imm(16, 99)), Ok(EventVariantValue::SizeT(99)));
    match decode_slot(&imm(17, 133_257_918_056_136_704)).unwrap() {
        EventVariantValue::FileTime(ts) => assert_eq!((ts.year, ts.month, ts.day), (2023, 4, 12)),
        v => panic!("expected a tick time, got {:?}", v),
    }
    let mut st = Vec::new();
    for f in [2024u16, 12, 1, 16, 12, 30, 45, 123] {
        st.extend_from_slice(&f.to_le_bytes());
    }
    match decode_slot(&data(18, 1, st)).unwrap() {
        EventVariantValue::SysTime(ts) => {
            assert_eq!((ts.year, ts.month, ts.day, ts.nanosecond), (2024, 12, 16, 123_000_000))
        }
        v => panic!("expected a system time, got {:?}", v),
    }
    let sid_bytes = vec![1u8, 1, 0, 0, 0, 0, 0, 5, 18, 0, 0, 0];
    match decode_slot(&data(19, 1, sid_bytes)).unwrap() {
        EventVariantValue::Sid(s) => assert_eq!(s.sub_authorities, vec![18]),
        v => panic!("expected a security identifier, got {:?}", v),
    }
    assert_eq!(
        decode_slot(&imm(20, 0xAB)),
        Ok(EventVariantValue::HexInt32(0xAB))
    );
    assert_eq!(
        decode_slot(&imm(21, 0xCD)),
        Ok(EventVariantValue::HexInt64(0xCD))
    );
    assert_eq!(decode_slot(&imm(32, 7)), Ok(EventVariantValue::EvtHandle(7)));
    assert_eq!(
        decode_slot(&data(35, 0, wide("<Event/>"))),
        Ok(EventVariantValue::Xml("<Event/>".to_string()))
    );
}

#[test]
fn undefined_tags_decode_to_the_unknown_marker_never_an_error() {
    for tag in 0u32..=35 {
        let defined = tag <= 21 || tag == 32 || tag == 35;
        if !defined {
            for payload in [
                RawPayload::Immediate(7),
                RawPayload::Data(vec![1, 2, 3]),
                RawPayload::DataList(vec![vec![1]]),
                RawPayload::Null,
            ] {
                let slot = RawSlot { tag, count: 9, payload };
                assert_eq!(
                    decode_slot(&slot),
                    Ok(EventVariantValue::UnknownType(tag))
                );
            }
        }
    }
    for tag in 36u32..64 {
        let slot = RawSlot { tag, count: 0, payload: RawPayload::Immediate(0) };
        assert_eq!(decode_slot(&slot), Ok(EventVariantValue::UnknownType(tag)));
    }
}

#[test]
fn array_kinds_decode_to_their_typed_cases() {
    let mk = |tag: u32, count: u32, bytes: Vec<u8>| {
        decode_slot(&data(tag | TAG_ARRAY_FLAG, count, bytes)).unwrap()
    };
    assert_eq!(
        mk(3, 2, vec![0xFF, 1]),
        EventVariantValue::SByteArr(vec![-1, 1])
    );
    assert_eq!(mk(4, 2, vec![7, 8]), EventVariantValue::ByteArr(vec![7, 8]));
    assert_eq!(
        mk(5, 2, vec![0xFF, 0xFF, 2, 0]),
        EventVariantValue::Int16Arr(vec![-1, 2])
    );
    assert_eq!(
        mk(6, 1, vec![0x34, 0x12]),
        EventVariantValue::UInt16Arr(vec![0x1234])
    );
    assert_eq!(
        mk(7, 1, vec![0xFF, 0xFF, 0xFF, 0xFF]),
        EventVariantValue::Int32Arr(vec![-1])
    );
    assert_eq!(
        mk(8, 1, vec![0x78, 0x56, 0x34, 0x12]),
        EventVariantValue::UInt32Arr(vec![0x12345678])
    );
    assert_eq!(
        mk(9, 1, vec![0xFF; 8]),
        EventVariantValue::Int64Arr(vec![-1])
    );
    assert_eq!(
        mk(10, 1, vec![1, 0, 0, 0, 0, 0, 0, 0]),
        EventVariantValue::UInt64Arr(vec![1])
    );
    assert_eq!(
        mk(11, 1, vec![0, 0, 0x80, 0x3F]),
        EventVariantValue::SingleArr(vec![0x3F80_0000])
    );
    assert_eq!(
        mk(13, 2, vec![1, 0, 0, 0, 0, 0, 0, 0]),
        EventVariantValue::BoolArr(vec![true, false])
    );
    assert_eq!(
        mk(20, 1, vec![0xAB, 0, 0, 0]),
        EventVariantValue::HexInt32Arr(vec![0xAB])
    );
    let list = RawSlot {
        tag: 1 | TAG_ARRAY_FLAG,
        count: 2,
        payload: RawPayload::DataList(vec![wide("ab"), wide("cd")]),
    };
    assert_eq!(
        decode_slot(&list),
        Ok(EventVariantValue::StringArr(vec![
            "ab".to_string(),
            "cd".to_string()
        ]))
    );
    assert_eq!(
        mk(12, 1, vec![0, 0, 0, 0, 0, 0, 0xF0, 0x3F]),
        EventVariantValue::DoubleArr(vec![0x3FF0_0000_0000_0000])
    );
    assert_eq!(
        mk(16, 1, vec![9, 0, 0, 0, 0, 0, 0, 0]),
        EventVariantValue::SizeTArr(vec![9])
    );
    assert_eq!(
        mk(21, 1, vec![0xCD, 0, 0, 0, 0, 0, 0, 0]),
        EventVariantValue::HexInt64Arr(vec![0xCD])
    );
    match mk(17, 1, 133_257_918_056_136_704u64.to_le_bytes().to_vec()) {
        EventVariantValue::FileTimeArr(ts) => {
            assert_eq!((ts[0].year, ts[0].month, ts[0].day), (2023, 4, 12))
        }
        v => panic!("expected a tick-time array, got {:?}", v),
    }
    let mut st = Vec::new();
    for f in [2024u16, 12, 1, 16, 12, 30, 45, 123] {
        st.extend_from_slice(&f.to_le_bytes());
    }
    match mk(18, 1, st) {
        EventVariantValue::SysTimeArr(ts) => assert_eq!(ts[0].year, 2024),
        v => panic!("expected a system-time array, got {:?}", v),
    }
    match mk(15, 1, vec![0xA3, 0x02, 0x01, 0x00, 0xB5, 0x04, 0xC7, 0x06, 0, 0, 0, 0, 0, 0, 0, 0])
    {
        EventVariantValue::GuidArr(gs) => assert_eq!(gs[0].data1, 0x000102A3),
        v => panic!("expected a GUID array, got {:?}", v),
    }
    let sids = RawSlot {
        tag: 19 | TAG_ARRAY_FLAG,
        count: 1,
        payload: RawPayload::DataList(vec![vec![1, 1, 0, 0, 0, 0, 0, 5, 18, 0, 0, 0]]),
    };
    match decode_slot(&sids).unwrap() {
        EventVariantValue::SidArr(ss) => assert_eq!(ss[0].sub_authorities, vec![18]),
        v => panic!("expected an identifier array, got {:?}", v),
    }
    let ansi = RawSlot {
        tag: 2 | TAG_ARRAY_FLAG,
        count: 2,
        payload: RawPayload::DataList(vec![b"ab".to_vec(), b"cd".to_vec()]),
    };
    assert_eq!(
        decode_slot(&ansi),
        Ok(EventVariantValue::AnsiStringArr(vec!["ab".to_string(), "cd".to_string()]))
    );
    let xml = RawSlot {
        tag: 35 | TAG_ARRAY_FLAG,
        count: 1,
        payload: RawPayload::DataList(vec![wide("<a/>")]),
    };
    assert_eq!(
        decode_slot(&xml),
        Ok(EventVariantValue::XmlArr(vec!["<a/>".to_string()]))
    );
    // kinds with no array form read back as unknown
    for tag in [0u32, 14, 32] {
        let slot = RawSlot {
            tag: tag | TAG_ARRAY_FLAG,
            count: 1,
            payload: RawPayload::Data(vec![0; 8]),
        };
        assert_eq!(
            decode_slot(&slot),
            Ok(EventVariantValue::UnknownTypeArr(tag))
        );
    }
}

#[test]
fn absent_payload_pointers_decode_to_null() {
    for tag in [1u32, 2, 14, 15, 18, 19, 35] {
        let slot = RawSlot { tag, count: 4, payload: RawPayload::Null };
        assert_eq!(decode_slot(&slot), Ok(EventVariantValue::Null));
    }
    let arr = RawSlot { tag: 8 | TAG_ARRAY_FLAG, count: 4, payload: RawPayload::Null };
    assert_eq!(decode_slot(&arr), Ok(EventVariantValue::Null));
}

#[test]
fn length_mismatches_are_refused() {
    assert_eq!(
        decode_slot(&data(8 | TAG_ARRAY_FLAG, 3, vec![0; 8])),
        Err(DecodeError::LengthMismatch { expected: 12, actual: 8 })
    );
    assert_eq!(
        decode_slot(&data(14, 4, vec![0; 3])),
        Err(DecodeError::LengthMismatch { expected: 4, actual: 3 })
    );
    assert_eq!(
        decode_slot(&data(15, 1, vec![0; 15])),
        Err(DecodeError::LengthMismatch { expected: 16, actual: 15 })
    );
}

#[test]
fn wrong_payload_forms_are_refused() {
    assert_eq!(
        decode_slot(&imm(1, 7)),
        Err(DecodeError::PayloadShape)
    );
    assert_eq!(
        decode_slot(&data(8, 1, vec![0; 4])),
        Err(DecodeError::PayloadShape)
    );
}

#[test]
fn invalid_string_encodings_are_refused() {
    // a lone high surrogate
    let bad_utf16 = vec![0x00, 0xD8];
    assert_eq!(
        decode_slot(&data(1, 0, bad_utf16)),
        Err(DecodeError::Text(TextError::InvalidUtf16))
    );
    let odd = vec![0x61];
    assert_eq!(
        decode_slot(&data(1, 0, odd)),
        Err(DecodeError::Text(TextError::OddWideLength))
    );
    let bad_utf8 = vec![0xC0, 0xAF];
    assert_eq!(
        decode_slot(&data(2, 0, bad_utf8)),
        Err(DecodeError::Text(TextError::InvalidUtf8))
    );
}

#[test]
fn surrogate_pairs_decode_to_supplementary_characters() {
    let mut payload = wide("a");
    payload.extend_from_slice(&0xD83Du16.to_le_bytes());
    payload.extend_from_slice(&0xDE00u16.to_le_bytes());
    assert_eq!(
        decode_slot(&data(1, 0, payload)),
        Ok(EventVariantValue::String("a\u{1F600}".to_string()))
    );
}

#[test]
fn pre_epoch_tick_payloads_are_refused() {
    assert_eq!(
        decode_slot(&imm(17, 0)),
        Err(DecodeError::Time(TimeError::BeforeUnixEpoch))
    );
}
