use evtdecode::buffer::EventVariantBuffer;
use evtdecode::system::{ContextError, EventSystemContext, POS_PROVIDER_NAME};
use evtdecode::variant::{EventVariantValue, RawPayload, RawSlot};

fn wide(s: &str) -> Vec<u8> {
    let mut v = Vec::new();
    for u in s.encode_utf16() {
        v.extend_from_slice(&u.to_le_bytes());
    }
    v
}

fn system_slots() -> Vec<RawSlot> {
    let string = |s: &str| RawSlot { tag: 1, count: 0, payload: RawPayload::Data(wide(s)) };
    let null = || RawSlot { tag: 0, count: 0, payload: RawPayload::Null };
    let u16v = |x: u16| RawSlot {
        tag: 6,
        count: 1,
        payload: RawPayload::Immediate(x as u64),
    };
    let byte = |x: u8| RawSlot { tag: 4, count: 1, payload: RawPayload::Immediate(x as u64) };
    let u32v = |x: u32| RawSlot {
        tag: 8,
        count: 1,
        payload: RawPayload::Immediate(x as u64),
    };
    let u64v = |x: u64| RawSlot { tag: 10, count: 1, payload: RawPayload::Immediate(x) };
    let hex64 = |x: u64| RawSlot { tag: 21, count: 1, payload: RawPayload::Immediate(x) };
    let filetime = |x: u64| RawSlot { tag: 17, count: 1, payload: RawPayload::Immediate(x) };
    let guid = RawSlot {
        tag: 15,
        count: 1,
        payload: RawPayload::Data(vec![
            0xA3, 0x02, 0x01, 0x00, 0xB5, 0x04, 0xC7, 0x06, 0x08, 0xD9, 0x0A, 0xEB, 0x0C, 0xFD,
            0x0E, 0x0F,
        ]),
    };
    let sid = RawSlot {
        tag: 19,
        count: 1,
        payload: RawPayload::Data(vec![1, 1, 0, 0, 0, 0, 0, 5, 18, 0, 0, 0]),
    };
    vec![
        string("TestProvider"),        // provider name
        guid,                          // provider guid
        u16v(4624),                    // event id
        null(),                        // qualifiers
        byte(4),                       // level
        u16v(12544),                   // task
        byte(0),                       // opcode
        hex64(0x8020000000000000),     // keywords
        filetime(133_257_918_056_136_704), // time created
        u64v(987654),                  // record id
        null(),                        // activity id
        null(),                        // related activity id
        u32v(712),                     // process id
        u32v(3004),                    // thread id
        string("Security"),            // channel
        string("HOST01"),              // computer
        sid,                           // user id
        byte(2),                       // version
    ]
}

#[test]
fn system_context_extracts_all_fields_by_position() {
    let slots = system_slots();
    let n = slots.len() as u32;
    let buffer = EventVariantBuffer::from_raw_buffer(slots, n);
    let ctx = EventSystemContext::from_variant_buffer(&buffer).unwrap();
    assert_eq!(ctx.provider_name, "TestProvider");
    assert_eq!(ctx.provider_guid.unwrap().data1, 0x000102A3);
    assert_eq!(ctx.event_id, 4624);
    assert_eq!(ctx.qualifiers, 0);
    assert_eq!(ctx.level, 4);
    assert_eq!(ctx.task, 12544);
    assert_eq!(ctx.opcode, 0);
    assert_eq!(ctx.keywords as u64, 0x8020000000000000);
    assert_eq!(ctx.time_created, 133_257_918_056_136_704);
    assert_eq!(ctx.event_record_id, 987654);
    assert!(ctx.activity_id.is_none());
    assert!(ctx.related_activity_id.is_none());
    assert_eq!(ctx.process_id, 712);
    assert_eq!(ctx.thread_id, 3004);
    assert_eq!(ctx.channel, "Security");
    assert_eq!(ctx.computer, "HOST01");
    assert_eq!(ctx.user_id.unwrap().sub_authorities, vec![18]);
    assert_eq!(ctx.version, 2);
}

#[test]
fn a_short_buffer_is_a_missing_slot() {
    let mut slots = system_slots();
    slots.truncate(10);
    let buffer = EventVariantBuffer::from_raw_buffer(slots, 10);
    assert_eq!(
        EventSystemContext::from_variant_buffer(&buffer),
        Err(ContextError::MissingSlot { slot: 10 })
    );
}

#[test]
fn a_wrong_kind_is_a_schema_violation_with_diagnostics() {
    let mut slots = system_slots();
    // an integer where the provider name is declared
    slots[0] = RawSlot { tag: 8, count: 1, payload: RawPayload::Immediate(7) };
    let n = slots.len() as u32;
    let buffer = EventVariantBuffer::from_raw_buffer(slots, n);
    assert_eq!(
        EventSystemContext::from_variant_buffer(&buffer),
        Err(ContextError::UnexpectedKind {
            slot: POS_PROVIDER_NAME,
            expected: 1,
            actual: 8,
        })
    );
}

#[test]
fn buffer_indexing_is_bounded_and_ordered() {
    let slots = system_slots();
    let n = slots.len() as u32;
    let buffer = EventVariantBuffer::from_raw_buffer(slots, n);
    assert_eq!(buffer.property_count(), 18);
    assert!(buffer.get_property_value(18).is_none());
    match buffer.get_property_value(2) {
        Some(Ok(EventVariantValue::UInt16(x))) => assert_eq!(x, 4624),
        other => panic!("unexpected slot value: {:?}", other),
    }
    let values = buffer.values().unwrap();
    assert_eq!(values.len(), 18);
    assert_eq!(values[13], EventVariantValue::UInt32(3004));
}
