//! The fixed-schema system context: the standard metadata record of an
//! event, extracted from a values-mode buffer by position.
//!
//! The positional contract with the external source is the constant table
//! below: slot `i` of a system-context render always carries field `i` of
//! the shared enumeration. The extractor indexes by that table, never by
//! search, and refuses a slot whose decoded kind is not the declared one.

use vstd::prelude::*;

use crate::buffer::EventVariantBuffer;
use crate::ident::{Guid, Sid};
use crate::time::{timestamp_unix_nanos, timestamp_valid, EPOCH_DELTA_TICKS};
use crate::variant::{
    decode_ok, decoded_matches, spec_value_kind_tag, value_kind_tag, DecodeError,
    EventVariantValue, RawSlot,
};

verus! {

/// The shared positional enumeration: which slot carries which field in a
/// system-context render.
pub const POS_PROVIDER_NAME: u32 = 0;

pub const POS_PROVIDER_GUID: u32 = 1;

pub const POS_EVENT_ID: u32 = 2;

pub const POS_QUALIFIERS: u32 = 3;

pub const POS_LEVEL: u32 = 4;

pub const POS_TASK: u32 = 5;

pub const POS_OPCODE: u32 = 6;

pub const POS_KEYWORDS: u32 = 7;

pub const POS_TIME_CREATED: u32 = 8;

pub const POS_EVENT_RECORD_ID: u32 = 9;

pub const POS_ACTIVITY_ID: u32 = 10;

pub const POS_RELATED_ACTIVITY_ID: u32 = 11;

pub const POS_PROCESS_ID: u32 = 12;

pub const POS_THREAD_ID: u32 = 13;

pub const POS_CHANNEL: u32 = 14;

pub const POS_COMPUTER: u32 = 15;

pub const POS_USER_ID: u32 = 16;

pub const POS_VERSION: u32 = 17;

/// How many slots a system-context render carries.
pub const SYSTEM_PROPERTY_COUNT: u32 = 18;

/// The standard metadata fields of one record.
#[derive(Clone, PartialEq, Eq, Debug)]
pub struct EventSystemContext {
    pub provider_name: String,
    pub provider_guid: Option<Guid>,
    pub event_id: u16,
    pub qualifiers: u16,
    pub level: u8,
    pub task: u16,
    pub opcode: u8,
    pub keywords: i64,
    pub time_created: u64,
    pub event_record_id: u64,
    pub activity_id: Option<Guid>,
    pub related_activity_id: Option<Guid>,
    pub process_id: u32,
    pub thread_id: u32,
    pub channel: String,
    pub computer: String,
    pub user_id: Option<Sid>,
    pub version: u8,
}

/// Why extraction was refused: the positional contract with the source was
/// broken, a defect rather than a recoverable input.
#[derive(Clone, Copy, PartialEq, Eq, Structural, Debug)]
pub enum ContextError {
    /// The buffer holds fewer slots than the schema declares.
    MissingSlot { slot: u32 },
    /// A slot's payload was refused by the variant decoder.
    Decode { slot: u32, error: DecodeError },
    /// A slot decoded to a kind other than the declared one.
    UnexpectedKind { slot: u32, expected: u32, actual: u32 },
}

/// The kind the schema declares for slot `i`, as a tag value, for
/// diagnostics.
pub open spec fn spec_expected_tag(i: int) -> u32 {
    if i == 0 || i == 14 || i == 15 {
        crate::variant::TAG_STRING
    } else if i == 1 || i == 10 || i == 11 {
        crate::variant::TAG_GUID
    } else if i == 2 || i == 3 || i == 5 {
        crate::variant::TAG_UINT16
    } else if i == 4 || i == 6 || i == 17 {
        crate::variant::TAG_BYTE
    } else if i == 7 {
        crate::variant::TAG_HEX_INT64
    } else if i == 8 {
        crate::variant::TAG_FILETIME
    } else if i == 9 {
        crate::variant::TAG_UINT64
    } else if i == 12 || i == 13 {
        crate::variant::TAG_UINT32
    } else {
        crate::variant::TAG_SID
    }
}

/// Slot `i` carries the kind the schema declares there: a string where a
/// string is declared; a GUID, security identifier, or the absent value
/// where one may be absent; an integer, possibly absent, where the source
/// zeroes missing fields; and a convertible creation time.
pub open spec fn context_slot_ok(vals: Seq<EventVariantValue>, i: int) -> bool {
    if i == 0 || i == 14 || i == 15 {
        vals[i] is String
    } else if i == 1 || i == 10 || i == 11 {
        vals[i] is Guid || vals[i] is Null
    } else if i == 2 || i == 3 || i == 5 {
        vals[i] is UInt16 || vals[i] is Null
    } else if i == 4 || i == 6 || i == 17 {
        vals[i] is Byte || vals[i] is Null
    } else if i == 7 {
        vals[i] is HexInt64 || vals[i] is Int64 || vals[i] is Null
    } else if i == 8 {
        match vals[8] {
            EventVariantValue::FileTime(ts) => timestamp_valid(ts) && ts.year >= 1970
                && EPOCH_DELTA_TICKS + timestamp_unix_nanos(ts) / 100 <= u64::MAX,
            EventVariantValue::UInt64(..) => true,
            EventVariantValue::Null => true,
            _ => false,
        }
    } else if i == 9 {
        vals[i] is UInt64 || vals[i] is Null
    } else if i == 12 || i == 13 {
        vals[i] is UInt32 || vals[i] is Null
    } else if i == 16 {
        vals[i] is Sid || vals[i] is Null
    } else {
        true
    }
}

/// Every slot carries its declared kind.
pub open spec fn context_vals_ok(vals: Seq<EventVariantValue>) -> bool {
    &&& vals.len() >= 18
    &&& context_slot_ok(vals, 0)
    &&& context_slot_ok(vals, 1)
    &&& context_slot_ok(vals, 2)
    &&& context_slot_ok(vals, 3)
    &&& context_slot_ok(vals, 4)
    &&& context_slot_ok(vals, 5)
    &&& context_slot_ok(vals, 6)
    &&& context_slot_ok(vals, 7)
    &&& context_slot_ok(vals, 8)
    &&& context_slot_ok(vals, 9)
    &&& context_slot_ok(vals, 10)
    &&& context_slot_ok(vals, 11)
    &&& context_slot_ok(vals, 12)
    &&& context_slot_ok(vals, 13)
    &&& context_slot_ok(vals, 14)
    &&& context_slot_ok(vals, 15)
    &&& context_slot_ok(vals, 16)
    &&& context_slot_ok(vals, 17)
}

/// The extracted record carries exactly what the decoded slots carry:
/// absent identifier slots map to `None`, absent integer slots to zero, and
/// the creation time to its tick count.
pub open spec fn context_matches(vals: Seq<EventVariantValue>, ctx: EventSystemContext) -> bool {
    &&& (vals[0] matches EventVariantValue::String(s) && ctx.provider_name@ == s@)
    &&& match vals[1] {
        EventVariantValue::Guid(g) => ctx.provider_guid == Some(g),
        _ => ctx.provider_guid is None,
    }
    &&& match vals[2] {
        EventVariantValue::UInt16(x) => ctx.event_id == x,
        _ => ctx.event_id == 0,
    }
    &&& match vals[3] {
        EventVariantValue::UInt16(x) => ctx.qualifiers == x,
        _ => ctx.qualifiers == 0,
    }
    &&& match vals[4] {
        EventVariantValue::Byte(x) => ctx.level == x,
        _ => ctx.level == 0,
    }
    &&& match vals[5] {
        EventVariantValue::UInt16(x) => ctx.task == x,
        _ => ctx.task == 0,
    }
    &&& match vals[6] {
        EventVariantValue::Byte(x) => ctx.opcode == x,
        _ => ctx.opcode == 0,
    }
    &&& match vals[7] {
        EventVariantValue::HexInt64(x) => ctx.keywords as int == crate::variant::imm_signed64(x),
        EventVariantValue::Int64(x) => ctx.keywords == x,
        _ => ctx.keywords == 0,
    }
    &&& match vals[8] {
        EventVariantValue::FileTime(ts) => ctx.time_created == EPOCH_DELTA_TICKS
            + timestamp_unix_nanos(ts) / 100,
        EventVariantValue::UInt64(x) => ctx.time_created == x,
        _ => ctx.time_created == 0,
    }
    &&& match vals[9] {
        EventVariantValue::UInt64(x) => ctx.event_record_id == x,
        _ => ctx.event_record_id == 0,
    }
    &&& match vals[10] {
        EventVariantValue::Guid(g) => ctx.activity_id == Some(g),
        _ => ctx.activity_id is None,
    }
    &&& match vals[11] {
        EventVariantValue::Guid(g) => ctx.related_activity_id == Some(g),
        _ => ctx.related_activity_id is None,
    }
    &&& match vals[12] {
        EventVariantValue::UInt32(x) => ctx.process_id == x,
        _ => ctx.process_id == 0,
    }
    &&& match vals[13] {
        EventVariantValue::UInt32(x) => ctx.thread_id == x,
        _ => ctx.thread_id == 0,
    }
    &&& (vals[14] matches EventVariantValue::String(s) && ctx.channel@ == s@)
    &&& (vals[15] matches EventVariantValue::String(s) && ctx.computer@ == s@)
    &&& match vals[16] {
        EventVariantValue::Sid(s) => ctx.user_id matches Some(u) && u.revision == s.revision
            && u.authority == s.authority && u.sub_authorities@ == s.sub_authorities@,
        _ => ctx.user_id is None,
    }
    &&& match vals[17] {
        EventVariantValue::Byte(x) => ctx.version == x,
        _ => ctx.version == 0,
    }
}

/// Two values that one slot's decode can produce agree in kind, and a
/// tick-time value is pinned to the slot's instant; only a string's
/// concrete characters are left open, fixed separately through their code
/// points.
proof fn lemma_decoded_matches_same_shape(
    slot: RawSlot,
    v1: EventVariantValue,
    v2: EventVariantValue,
)
    requires
        decoded_matches(slot, v1),
        decoded_matches(slot, v2),
    ensures
        v1 is Null <==> v2 is Null,
        v1 is String <==> v2 is String,
        v1 is Guid <==> v2 is Guid,
        v1 is UInt16 <==> v2 is UInt16,
        v1 is Byte <==> v2 is Byte,
        v1 is HexInt64 <==> v2 is HexInt64,
        v1 is Int64 <==> v2 is Int64,
        v1 is UInt64 <==> v2 is UInt64,
        v1 is UInt32 <==> v2 is UInt32,
        v1 is Sid <==> v2 is Sid,
        v1 is FileTime <==> v2 is FileTime,
        v1 is FileTime ==> timestamp_valid(v1->FileTime_0) && v1->FileTime_0.year >= 1970,
        (v1 is FileTime && v2 is FileTime) ==> timestamp_unix_nanos(v1->FileTime_0)
            == timestamp_unix_nanos(v2->FileTime_0),
{
}

/// A buffer the extractor must accept: at least the eighteen schema slots,
/// each decodable, and any values their decodes pin down carry the declared
/// kinds.
pub open spec fn context_decodable(slots: Seq<RawSlot>) -> bool {
    &&& slots.len() >= 18
    &&& (forall|i: int| 0 <= i < 18 ==> decode_ok(#[trigger] slots[i]))
    &&& (forall|vals: Seq<EventVariantValue>|
        (vals.len() >= 18 && (forall|i: int|
            0 <= i < 18 ==> decoded_matches(slots[i], #[trigger] vals[i])))
            ==> #[trigger] context_vals_ok(vals))
}

impl EventSystemContext {
    /// Project the eighteen decoded slots into the typed record. Succeeds
    /// exactly when every slot carries its declared kind; a slot of any
    /// other kind is a schema violation reported with its index, the
    /// declared kind, and the kind found.
    pub fn from_values(vals: &Vec<EventVariantValue>) -> (r: Result<
        EventSystemContext,
        ContextError,
    >)
        ensures
            r is Ok <==> context_vals_ok(vals@),
            r matches Ok(ctx) ==> context_matches(vals@, ctx),
            r matches Err(e) ==> match e {
                ContextError::MissingSlot { slot } => slot == vals@.len() && vals@.len() < 18,
                ContextError::UnexpectedKind { slot, expected, actual } => {
                    &&& vals@.len() >= 18
                    &&& 0 <= slot < 18
                    &&& !context_slot_ok(vals@, slot as int)
                    &&& expected == spec_expected_tag(slot as int)
                    &&& actual == spec_value_kind_tag(vals@[slot as int])
                },
                ContextError::Decode { .. } => false,
            },
    {
        if vals.len() < 18 {
            return Err(ContextError::MissingSlot { slot: vals.len() as u32 });
        }
        let provider_name = match &vals[0] {
            EventVariantValue::String(s) => clone_string(s),
            v => {
                return Err(
                    ContextError::UnexpectedKind {
                        slot: POS_PROVIDER_NAME,
                        expected: crate::variant::TAG_STRING,
                        actual: value_kind_tag(v),
                    },
                );
            },
        };
        let provider_guid = match &vals[1] {
            EventVariantValue::Guid(g) => Some(*g),
            EventVariantValue::Null => None,
            v => {
                return Err(
                    ContextError::UnexpectedKind {
                        slot: POS_PROVIDER_GUID,
                        expected: crate::variant::TAG_GUID,
                        actual: value_kind_tag(v),
                    },
                );
            },
        };
        let event_id = match &vals[2] {
            EventVariantValue::UInt16(x) => *x,
            EventVariantValue::Null => 0,
            v => {
                return Err(
                    ContextError::UnexpectedKind {
                        slot: POS_EVENT_ID,
                        expected: crate::variant::TAG_UINT16,
                        actual: value_kind_tag(v),
                    },
                );
            },
        };
        let qualifiers = match &vals[3] {
            EventVariantValue::UInt16(x) => *x,
            EventVariantValue::Null => 0,
            v => {
                return Err(
                    ContextError::UnexpectedKind {
                        slot: POS_QUALIFIERS,
                        expected: crate::variant::TAG_UINT16,
                        actual: value_kind_tag(v),
                    },
                );
            },
        };
        let level = match &vals[4] {
            EventVariantValue::Byte(x) => *x,
            EventVariantValue::Null => 0,
            v => {
                return Err(
                    ContextError::UnexpectedKind {
                        slot: POS_LEVEL,
                        expected: crate::variant::TAG_BYTE,
                        actual: value_kind_tag(v),
                    },
                );
            },
        };
        let task = match &vals[5] {
            EventVariantValue::UInt16(x) => *x,
            EventVariantValue::Null => 0,
            v => {
                return Err(
                    ContextError::UnexpectedKind {
                        slot: POS_TASK,
                        expected: crate::variant::TAG_UINT16,
                        actual: value_kind_tag(v),
                    },
                );
            },
        };
        let opcode = match &vals[6] {
            EventVariantValue::Byte(x) => *x,
            EventVariantValue::Null => 0,
            v => {
                return Err(
                    ContextError::UnexpectedKind {
                        slot: POS_OPCODE,
                        expected: crate::variant::TAG_BYTE,
                        actual: value_kind_tag(v),
                    },
                );
            },
        };
        let keywords = match &vals[7] {
            EventVariantValue::HexInt64(x) => crate::variant::hex64_as_signed(*x),
            EventVariantValue::Int64(x) => *x,
            EventVariantValue::Null => 0,
            v => {
                return Err(
                    ContextError::UnexpectedKind {
                        slot: POS_KEYWORDS,
                        expected: crate::variant::TAG_HEX_INT64,
                        actual: value_kind_tag(v),
                    },
                );
            },
        };
        let time_created = match &vals[8] {
            EventVariantValue::FileTime(ts) => {
                if !ts.is_valid() || ts.year < 1970 {
                    return Err(
                        ContextError::UnexpectedKind {
                            slot: POS_TIME_CREATED,
                            expected: crate::variant::TAG_FILETIME,
                            actual: crate::variant::TAG_FILETIME,
                        },
                    );
                }
                proof {
                    crate::time::lemma_unix_nanos_nonneg(*ts);
                }
                match crate::time::timestamp_to_ticks(ts) {
                    Ok(t) => t,
                    Err(_) => {
                        return Err(
                            ContextError::UnexpectedKind {
                                slot: POS_TIME_CREATED,
                                expected: crate::variant::TAG_FILETIME,
                                actual: crate::variant::TAG_FILETIME,
                            },
                        );
                    },
                }
            },
            EventVariantValue::UInt64(x) => *x,
            EventVariantValue::Null => 0,
            v => {
                return Err(
                    ContextError::UnexpectedKind {
                        slot: POS_TIME_CREATED,
                        expected: crate::variant::TAG_FILETIME,
                        actual: value_kind_tag(v),
                    },
                );
            },
        };
        let event_record_id = match &vals[9] {
            EventVariantValue::UInt64(x) => *x,
            EventVariantValue::Null => 0,
            v => {
                return Err(
                    ContextError::UnexpectedKind {
                        slot: POS_EVENT_RECORD_ID,
                        expected: crate::variant::TAG_UINT64,
                        actual: value_kind_tag(v),
                    },
                );
            },
        };
        let activity_id = match &vals[10] {
            EventVariantValue::Guid(g) => Some(*g),
            EventVariantValue::Null => None,
            v => {
                return Err(
                    ContextError::UnexpectedKind {
                        slot: POS_ACTIVITY_ID,
                        expected: crate::variant::TAG_GUID,
                        actual: value_kind_tag(v),
                    },
                );
            },
        };
        let related_activity_id = match &vals[11] {
            EventVariantValue::Guid(g) => Some(*g),
            EventVariantValue::Null => None,
            v => {
                return Err(
                    ContextError::UnexpectedKind {
                        slot: POS_RELATED_ACTIVITY_ID,
                        expected: crate::variant::TAG_GUID,
                        actual: value_kind_tag(v),
                    },
                );
            },
        };
        let process_id = match &vals[12] {
            EventVariantValue::UInt32(x) => *x,
            EventVariantValue::Null => 0,
            v => {
                return Err(
                    ContextError::UnexpectedKind {
                        slot: POS_PROCESS_ID,
                        expected: crate::variant::TAG_UINT32,
                        actual: value_kind_tag(v),
                    },
                );
            },
        };
        let thread_id = match &vals[13] {
            EventVariantValue::UInt32(x) => *x,
            EventVariantValue::Null => 0,
            v => {
                return Err(
                    ContextError::UnexpectedKind {
                        slot: POS_THREAD_ID,
                        expected: crate::variant::TAG_UINT32,
                        actual: value_kind_tag(v),
                    },
                );
            },
        };
        let channel = match &vals[14] {
            EventVariantValue::String(s) => clone_string(s),
            v => {
                return Err(
                    ContextError::UnexpectedKind {
                        slot: POS_CHANNEL,
                        expected: crate::variant::TAG_STRING,
                        actual: value_kind_tag(v),
                    },
                );
            },
        };
        let computer = match &vals[15] {
            EventVariantValue::String(s) => clone_string(s),
            v => {
                return Err(
                    ContextError::UnexpectedKind {
                        slot: POS_COMPUTER,
                        expected: crate::variant::TAG_STRING,
                        actual: value_kind_tag(v),
                    },
                );
            },
        };
        let user_id = match &vals[16] {
            EventVariantValue::Sid(s) => Some(s.duplicate()),
            EventVariantValue::Null => None,
            v => {
                return Err(
                    ContextError::UnexpectedKind {
                        slot: POS_USER_ID,
                        expected: crate::variant::TAG_SID,
                        actual: value_kind_tag(v),
                    },
                );
            },
        };
        let version = match &vals[17] {
            EventVariantValue::Byte(x) => *x,
            EventVariantValue::Null => 0,
            v => {
                return Err(
                    ContextError::UnexpectedKind {
                        slot: POS_VERSION,
                        expected: crate::variant::TAG_BYTE,
                        actual: value_kind_tag(v),
                    },
                );
            },
        };
        Ok(
            EventSystemContext {
                provider_name,
                provider_guid,
                event_id,
                qualifiers,
                level,
                task,
                opcode,
                keywords,
                time_created,
                event_record_id,
                activity_id,
                related_activity_id,
                process_id,
                thread_id,
                channel,
                computer,
                user_id,
                version,
            },
        )
    }

    /// Extract the system context out of a system-context render: decode
    /// the eighteen fixed positions and project each into its typed field.
    /// Succeeds exactly on a buffer the schema admits; a missing slot, a
    /// refused payload, or a slot of the wrong kind is reported with its
    /// index and, for a kind mismatch, the declared and found kinds.
    pub fn from_variant_buffer(buffer: &EventVariantBuffer) -> (r: Result<
        EventSystemContext,
        ContextError,
    >)
        ensures
            r is Ok <==> context_decodable(buffer@),
            r matches Ok(ctx) ==> context_extracted(buffer@, ctx),
            r matches Err(e) ==> match e {
                ContextError::MissingSlot { slot } => slot == buffer@.len() && buffer@.len() < 18,
                ContextError::Decode { slot, error } => 0 <= slot < 18 && slot < buffer@.len()
                    && !decode_ok(buffer@[slot as int]),
                ContextError::UnexpectedKind { slot, expected, actual } => {
                    &&& 0 <= slot < 18
                    &&& expected == spec_expected_tag(slot as int)
                    &&& exists|vals: Seq<EventVariantValue>|
                        vals.len() >= 18 && (forall|i: int|
                            0 <= i < 18 ==> decoded_matches(buffer@[i], #[trigger] vals[i])) && !(
                        #[trigger] context_slot_ok(vals, slot as int)) && actual
                            == spec_value_kind_tag(vals[slot as int])
                },
            },
    {
        let mut vals: Vec<EventVariantValue> = Vec::new();
        let mut i: u32 = 0;
        while i < SYSTEM_PROPERTY_COUNT
            invariant
                i <= 18,
                vals@.len() == i,
                buffer@.len() >= i,
                forall|j: int| 0 <= j < i ==> decode_ok(#[trigger] buffer@[j]),
                forall|j: int| 0 <= j < i ==> decoded_matches(buffer@[j], #[trigger] vals@[j]),
            decreases 18 - i,
        {
            match buffer.get_property_value(i) {
                None => {
                    return Err(ContextError::MissingSlot { slot: i });
                },
                Some(Err(e)) => {
                    return Err(ContextError::Decode { slot: i, error: e });
                },
                Some(Ok(v)) => {
                    vals.push(v);
                },
            }
            i = i + 1;
        }
        let r = Self::from_values(&vals);
        proof {
            if r is Ok {
                let ctx = r->Ok_0;
                assert(context_matches(vals@, ctx) && vals@.len() >= 18 && (forall|i: int|
                    0 <= i < 18 ==> decoded_matches(buffer@[i], #[trigger] vals@[i])));
                assert forall|vals2: Seq<EventVariantValue>|
                    (vals2.len() >= 18 && (forall|i: int|
                        0 <= i < 18 ==> decoded_matches(buffer@[i], #[trigger] vals2[i])))
                        implies #[trigger] context_vals_ok(vals2) by {
                    lemma_decoded_matches_same_shape(buffer@[0], vals@[0], vals2[0]);
                    lemma_decoded_matches_same_shape(buffer@[1], vals@[1], vals2[1]);
                    lemma_decoded_matches_same_shape(buffer@[2], vals@[2], vals2[2]);
                    lemma_decoded_matches_same_shape(buffer@[3], vals@[3], vals2[3]);
                    lemma_decoded_matches_same_shape(buffer@[4], vals@[4], vals2[4]);
                    lemma_decoded_matches_same_shape(buffer@[5], vals@[5], vals2[5]);
                    lemma_decoded_matches_same_shape(buffer@[6], vals@[6], vals2[6]);
                    lemma_decoded_matches_same_shape(buffer@[7], vals@[7], vals2[7]);
                    lemma_decoded_matches_same_shape(buffer@[8], vals@[8], vals2[8]);
                    lemma_decoded_matches_same_shape(buffer@[9], vals@[9], vals2[9]);
                    lemma_decoded_matches_same_shape(buffer@[10], vals@[10], vals2[10]);
                    lemma_decoded_matches_same_shape(buffer@[11], vals@[11], vals2[11]);
                    lemma_decoded_matches_same_shape(buffer@[12], vals@[12], vals2[12]);
                    lemma_decoded_matches_same_shape(buffer@[13], vals@[13], vals2[13]);
                    lemma_decoded_matches_same_shape(buffer@[14], vals@[14], vals2[14]);
                    lemma_decoded_matches_same_shape(buffer@[15], vals@[15], vals2[15]);
                    lemma_decoded_matches_same_shape(buffer@[16], vals@[16], vals2[16]);
                    lemma_decoded_matches_same_shape(buffer@[17], vals@[17], vals2[17]);
                }
            } else {
                if context_decodable(buffer@) {
                    assert(context_vals_ok(vals@));
                    assert(false);
                }
            }
        }
        r
    }
}

/// The record was projected from values that each slot's decode pins down.
pub open spec fn context_extracted(slots: Seq<RawSlot>, ctx: EventSystemContext) -> bool {
    exists|vals: Seq<EventVariantValue>|
        #[trigger] context_matches(vals, ctx) && vals.len() >= 18 && (forall|i: int|
            0 <= i < 18 ==> decoded_matches(slots[i], #[trigger] vals[i]))
}

fn clone_string(s: &String) -> (r: String)
    ensures
        r@ == s@,
{
    s.clone()
}

} // verus!
