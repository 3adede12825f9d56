//! The tagged-variant decoder: one raw slot of a rendered buffer, as the
//! external source lays it out, to one owned typed value.
//!
//! A slot carries a type tag, an element count, and a payload: either the
//! eight immediate bytes of the value union, or the bytes behind a payload
//! pointer, gathered per element for arrays of pointers. Decoding is total
//! over the tag space: unknown tags become an explicit marker carrying the
//! raw tag, never an error. Errors are reserved for known tags whose
//! payload breaks a hard precondition: a length that disagrees with the
//! count, an invalid string encoding, an unrepresentable time.

use vstd::prelude::*;

use crate::bytes::{le_signed, le_value};
use crate::ident::{sid_bytes_ok, sid_matches_bytes, Guid, Sid};
use crate::text::{
    chars_to_code_points, narrow_code_points, narrow_ok, wide_code_points, wide_ok, TextError,
};
use crate::time::{
    systemtime_in_range, spec_systemtime_timestamp, SystemTime, TimeError, Timestamp,
    timestamp_unix_nanos, timestamp_valid, EPOCH_DELTA_TICKS, MAX_UNIX_TICKS,
};

verus! {

/// The scalar type tags of the external variant layout, the shared
/// enumeration of value kinds.
pub const TAG_NULL: u32 = 0;

pub const TAG_STRING: u32 = 1;

pub const TAG_ANSI_STRING: u32 = 2;

pub const TAG_SBYTE: u32 = 3;

pub const TAG_BYTE: u32 = 4;

pub const TAG_INT16: u32 = 5;

pub const TAG_UINT16: u32 = 6;

pub const TAG_INT32: u32 = 7;

pub const TAG_UINT32: u32 = 8;

pub const TAG_INT64: u32 = 9;

pub const TAG_UINT64: u32 = 10;

pub const TAG_SINGLE: u32 = 11;

pub const TAG_DOUBLE: u32 = 12;

pub const TAG_BOOLEAN: u32 = 13;

pub const TAG_BINARY: u32 = 14;

pub const TAG_GUID: u32 = 15;

pub const TAG_SIZE_T: u32 = 16;

pub const TAG_FILETIME: u32 = 17;

pub const TAG_SYSTIME: u32 = 18;

pub const TAG_SID: u32 = 19;

pub const TAG_HEX_INT32: u32 = 20;

pub const TAG_HEX_INT64: u32 = 21;

pub const TAG_EVT_HANDLE: u32 = 32;

pub const TAG_EVT_XML: u32 = 35;

/// Set on a tag whose slot carries `count` elements of the scalar kind.
pub const TAG_ARRAY_FLAG: u32 = 128;

/// Masks the scalar kind out of a tag.
pub const TAG_MASK: u32 = 127;

/// The payload of one raw slot.
#[derive(Clone, PartialEq, Eq, Debug)]
pub enum RawPayload {
    /// The eight bytes of the value union, little-endian, for kinds the
    /// union holds by value.
    Immediate(u64),
    /// The bytes behind the payload pointer, for kinds the union holds by
    /// reference, and for arrays of by-value elements.
    Data(Vec<u8>),
    /// One byte block per element, for arrays whose elements sit behind
    /// their own pointers.
    DataList(Vec<Vec<u8>>),
    /// A null payload pointer: the value is absent.
    Null,
}

/// One raw tagged slot: type tag, element count, payload.
#[derive(Clone, PartialEq, Eq, Debug)]
pub struct RawSlot {
    pub tag: u32,
    pub count: u32,
    pub payload: RawPayload,
}

/// One decoded, fully owned value. Floating-point kinds carry their IEEE 754
/// bit patterns, so that decoding stays exact and comparable.
#[derive(Clone, PartialEq, Eq, Debug)]
pub enum EventVariantValue {
    Null,
    Bool(bool),
    SByte(i8),
    Int16(i16),
    Int32(i32),
    Int64(i64),
    Byte(u8),
    UInt16(u16),
    UInt32(u32),
    UInt64(u64),
    Single(u32),
    Double(u64),
    FileTime(Timestamp),
    SysTime(Timestamp),
    Guid(Guid),
    HexInt32(u32),
    HexInt64(u64),
    String(String),
    AnsiString(String),
    Binary(Vec<u8>),
    Sid(Sid),
    SizeT(u64),
    BoolArr(Vec<bool>),
    SByteArr(Vec<i8>),
    Int16Arr(Vec<i16>),
    Int32Arr(Vec<i32>),
    Int64Arr(Vec<i64>),
    ByteArr(Vec<u8>),
    UInt16Arr(Vec<u16>),
    UInt32Arr(Vec<u32>),
    UInt64Arr(Vec<u64>),
    SingleArr(Vec<u32>),
    DoubleArr(Vec<u64>),
    FileTimeArr(Vec<Timestamp>),
    SysTimeArr(Vec<Timestamp>),
    GuidArr(Vec<Guid>),
    HexInt32Arr(Vec<u32>),
    HexInt64Arr(Vec<u64>),
    StringArr(Vec<String>),
    AnsiStringArr(Vec<String>),
    SidArr(Vec<Sid>),
    SizeTArr(Vec<u64>),
    EvtHandle(u64),
    Xml(String),
    XmlArr(Vec<String>),
    UnknownType(u32),
    UnknownTypeArr(u32),
}

/// Why a known tag's payload was refused.
#[derive(Clone, Copy, PartialEq, Eq, Structural, Debug)]
pub enum DecodeError {
    /// The payload form does not fit the tag (an immediate where bytes are
    /// needed, or the reverse).
    PayloadShape,
    /// The payload length disagrees with the declared element count.
    LengthMismatch { expected: u64, actual: u64 },
    /// A string payload with an invalid encoding.
    Text(TextError),
    /// A time payload outside the representable range.
    Time(TimeError),
    /// A security-identifier payload shorter than its declared count.
    MalformedSid,
}

/// The low eight bits of the immediate union, as an unsigned value.
pub open spec fn imm_low8(u: u64) -> u64 {
    u & 0xFF
}

pub open spec fn imm_low16(u: u64) -> u64 {
    u & 0xFFFF
}

pub open spec fn imm_low32(u: u64) -> u64 {
    u & 0xFFFFFFFF
}

/// The low bytes of the immediate union read as two's-complement.
pub open spec fn imm_signed8(u: u64) -> int {
    if imm_low8(u) < 0x80 {
        imm_low8(u) as int
    } else {
        imm_low8(u) - 0x100
    }
}

pub open spec fn imm_signed16(u: u64) -> int {
    if imm_low16(u) < 0x8000 {
        imm_low16(u) as int
    } else {
        imm_low16(u) - 0x10000
    }
}

pub open spec fn imm_signed32(u: u64) -> int {
    if imm_low32(u) < 0x80000000 {
        imm_low32(u) as int
    } else {
        imm_low32(u) - 0x100000000
    }
}

pub open spec fn imm_signed64(u: u64) -> int {
    if u < 0x8000000000000000 {
        u as int
    } else {
        u - 0x10000000000000000
    }
}

fn imm_u8(u: u64) -> (r: u8)
    ensures
        r == imm_low8(u),
{
    proof {
        assert(u & 0xFF <= 0xFF) by (bit_vector);
    }
    (u & 0xFF) as u8
}

fn imm_u16(u: u64) -> (r: u16)
    ensures
        r == imm_low16(u),
{
    proof {
        assert(u & 0xFFFF <= 0xFFFF) by (bit_vector);
    }
    (u & 0xFFFF) as u16
}

fn imm_u32(u: u64) -> (r: u32)
    ensures
        r == imm_low32(u),
{
    proof {
        assert(u & 0xFFFFFFFF <= 0xFFFFFFFF) by (bit_vector);
    }
    (u & 0xFFFFFFFF) as u32
}

fn imm_i8(u: u64) -> (r: i8)
    ensures
        r as int == imm_signed8(u),
{
    let t = imm_u8(u);
    if t >= 0x80 {
        ((t as i64) - 0x100) as i8
    } else {
        t as i8
    }
}

fn imm_i16(u: u64) -> (r: i16)
    ensures
        r as int == imm_signed16(u),
{
    let t = imm_u16(u);
    if t >= 0x8000 {
        ((t as i64) - 0x10000) as i16
    } else {
        t as i16
    }
}

fn imm_i32(u: u64) -> (r: i32)
    ensures
        r as int == imm_signed32(u),
{
    let t = imm_u32(u);
    if t >= 0x80000000 {
        ((t as i64) - 0x100000000) as i32
    } else {
        t as i32
    }
}

/// The 64-bit immediate read as two's-complement, as a keywords mask is.
pub fn hex64_as_signed(u: u64) -> (r: i64)
    ensures
        r as int == imm_signed64(u),
{
    imm_i64(u)
}

fn imm_i64(u: u64) -> (r: i64)
    ensures
        r as int == imm_signed64(u),
{
    if u >= 0x8000000000000000 {
        ((u as i128) - 0x10000000000000000i128) as i64
    } else {
        u as i64
    }
}

fn decode_u8_elems(data: &Vec<u8>, count: u32) -> (r: Result<Vec<u8>, DecodeError>)
    ensures
        r is Ok <==> data@.len() == 1 * count,
        r matches Ok(v) ==> v@.len() == count && (forall|i: int| 0 <= i < count ==> v@[i] == data@[i]),
        r matches Err(e) ==> e == (DecodeError::LengthMismatch {
            expected: (1 * count as int) as u64,
            actual: data@.len() as u64,
        }),
{
    let n = data.len();
    if (n as u64) != 1u64 * (count as u64) {
        return Err(
            DecodeError::LengthMismatch { expected: 1u64 * (count as u64), actual: n as u64 },
        );
    }
    let mut v: Vec<u8> = Vec::new();
    let mut i: usize = 0;
    while i < count as usize
        invariant
            i <= count,
            n == data@.len() == 1 * count,
            v@.len() == i,
            forall|j: int| 0 <= j < i ==> v@[j] == data@[j],
        decreases count as int - i,
    {
        let e = data[i];
        v.push(e);
        i = i + 1;
    }
    Ok(v)
}

fn decode_i8_elems(data: &Vec<u8>, count: u32) -> (r: Result<Vec<i8>, DecodeError>)
    ensures
        r is Ok <==> data@.len() == 1 * count,
        r matches Ok(v) ==> v@.len() == count && (forall|i: int| 0 <= i < count ==> v@[i] as int == le_signed(data@, i, 1)),
        r matches Err(e) ==> e == (DecodeError::LengthMismatch {
            expected: (1 * count as int) as u64,
            actual: data@.len() as u64,
        }),
{
    let n = data.len();
    if (n as u64) != 1u64 * (count as u64) {
        return Err(
            DecodeError::LengthMismatch { expected: 1u64 * (count as u64), actual: n as u64 },
        );
    }
    let mut v: Vec<i8> = Vec::new();
    let mut i: usize = 0;
    while i < count as usize
        invariant
            i <= count,
            n == data@.len() == 1 * count,
            v@.len() == i,
            forall|j: int| 0 <= j < i ==> v@[j] as int == le_signed(data@, j, 1),
        decreases count as int - i,
    {
        let e = crate::bytes::read_le_i8(data, i);
        v.push(e);
        i = i + 1;
    }
    Ok(v)
}

fn decode_u16_elems(data: &Vec<u8>, count: u32) -> (r: Result<Vec<u16>, DecodeError>)
    ensures
        r is Ok <==> data@.len() == 2 * count,
        r matches Ok(v) ==> v@.len() == count && (forall|i: int| 0 <= i < count ==> v@[i] == le_value(data@, 2 * i, 2)),
        r matches Err(e) ==> e == (DecodeError::LengthMismatch {
            expected: (2 * count as int) as u64,
            actual: data@.len() as u64,
        }),
{
    let n = data.len();
    if (n as u64) != 2u64 * (count as u64) {
        return Err(
            DecodeError::LengthMismatch { expected: 2u64 * (count as u64), actual: n as u64 },
        );
    }
    let mut v: Vec<u16> = Vec::new();
    let mut i: usize = 0;
    while i < count as usize
        invariant
            i <= count,
            n == data@.len() == 2 * count,
            v@.len() == i,
            forall|j: int| 0 <= j < i ==> v@[j] == le_value(data@, 2 * j, 2),
        decreases count as int - i,
    {
        let e = crate::bytes::read_le_u16(data, 2 * i);
        v.push(e);
        i = i + 1;
    }
    Ok(v)
}

fn decode_i16_elems(data: &Vec<u8>, count: u32) -> (r: Result<Vec<i16>, DecodeError>)
    ensures
        r is Ok <==> data@.len() == 2 * count,
        r matches Ok(v) ==> v@.len() == count && (forall|i: int| 0 <= i < count ==> v@[i] as int == le_signed(data@, 2 * i, 2)),
        r matches Err(e) ==> e == (DecodeError::LengthMismatch {
            expected: (2 * count as int) as u64,
            actual: data@.len() as u64,
        }),
{
    let n = data.len();
    if (n as u64) != 2u64 * (count as u64) {
        return Err(
            DecodeError::LengthMismatch { expected: 2u64 * (count as u64), actual: n as u64 },
        );
    }
    let mut v: Vec<i16> = Vec::new();
    let mut i: usize = 0;
    while i < count as usize
        invariant
            i <= count,
            n == data@.len() == 2 * count,
            v@.len() == i,
            forall|j: int| 0 <= j < i ==> v@[j] as int == le_signed(data@, 2 * j, 2),
        decreases count as int - i,
    {
        let e = crate::bytes::read_le_i16(data, 2 * i);
        v.push(e);
        i = i + 1;
    }
    Ok(v)
}

fn decode_u32_elems(data: &Vec<u8>, count: u32) -> (r: Result<Vec<u32>, DecodeError>)
    ensures
        r is Ok <==> data@.len() == 4 * count,
        r matches Ok(v) ==> v@.len() == count && (forall|i: int| 0 <= i < count ==> v@[i] == le_value(data@, 4 * i, 4)),
        r matches Err(e) ==> e == (DecodeError::LengthMismatch {
            expected: (4 * count as int) as u64,
            actual: data@.len() as u64,
        }),
{
    let n = data.len();
    if (n as u64) != 4u64 * (count as u64) {
        return Err(
            DecodeError::LengthMismatch { expected: 4u64 * (count as u64), actual: n as u64 },
        );
    }
    let mut v: Vec<u32> = Vec::new();
    let mut i: usize = 0;
    while i < count as usize
        invariant
            i <= count,
            n == data@.len() == 4 * count,
            v@.len() == i,
            forall|j: int| 0 <= j < i ==> v@[j] == le_value(data@, 4 * j, 4),
        decreases count as int - i,
    {
        let e = crate::bytes::read_le_u32(data, 4 * i);
        v.push(e);
        i = i + 1;
    }
    Ok(v)
}

fn decode_i32_elems(data: &Vec<u8>, count: u32) -> (r: Result<Vec<i32>, DecodeError>)
    ensures
        r is Ok <==> data@.len() == 4 * count,
        r matches Ok(v) ==> v@.len() == count && (forall|i: int| 0 <= i < count ==> v@[i] as int == le_signed(data@, 4 * i, 4)),
        r matches Err(e) ==> e == (DecodeError::LengthMismatch {
            expected: (4 * count as int) as u64,
            actual: data@.len() as u64,
        }),
{
    let n = data.len();
    if (n as u64) != 4u64 * (count as u64) {
        return Err(
            DecodeError::LengthMismatch { expected: 4u64 * (count as u64), actual: n as u64 },
        );
    }
    let mut v: Vec<i32> = Vec::new();
    let mut i: usize = 0;
    while i < count as usize
        invariant
            i <= count,
            n == data@.len() == 4 * count,
            v@.len() == i,
            forall|j: int| 0 <= j < i ==> v@[j] as int == le_signed(data@, 4 * j, 4),
        decreases count as int - i,
    {
        let e = crate::bytes::read_le_i32(data, 4 * i);
        v.push(e);
        i = i + 1;
    }
    Ok(v)
}

fn decode_u64_elems(data: &Vec<u8>, count: u32) -> (r: Result<Vec<u64>, DecodeError>)
    ensures
        r is Ok <==> data@.len() == 8 * count,
        r matches Ok(v) ==> v@.len() == count && (forall|i: int| 0 <= i < count ==> v@[i] == le_value(data@, 8 * i, 8)),
        r matches Err(e) ==> e == (DecodeError::LengthMismatch {
            expected: (8 * count as int) as u64,
            actual: data@.len() as u64,
        }),
{
    let n = data.len();
    if (n as u64) != 8u64 * (count as u64) {
        return Err(
            DecodeError::LengthMismatch { expected: 8u64 * (count as u64), actual: n as u64 },
        );
    }
    let mut v: Vec<u64> = Vec::new();
    let mut i: usize = 0;
    while i < count as usize
        invariant
            i <= count,
            n == data@.len() == 8 * count,
            v@.len() == i,
            forall|j: int| 0 <= j < i ==> v@[j] == le_value(data@, 8 * j, 8),
        decreases count as int - i,
    {
        let e = crate::bytes::read_le_u64(data, 8 * i);
        v.push(e);
        i = i + 1;
    }
    Ok(v)
}

fn decode_i64_elems(data: &Vec<u8>, count: u32) -> (r: Result<Vec<i64>, DecodeError>)
    ensures
        r is Ok <==> data@.len() == 8 * count,
        r matches Ok(v) ==> v@.len() == count && (forall|i: int| 0 <= i < count ==> v@[i] as int == le_signed(data@, 8 * i, 8)),
        r matches Err(e) ==> e == (DecodeError::LengthMismatch {
            expected: (8 * count as int) as u64,
            actual: data@.len() as u64,
        }),
{
    let n = data.len();
    if (n as u64) != 8u64 * (count as u64) {
        return Err(
            DecodeError::LengthMismatch { expected: 8u64 * (count as u64), actual: n as u64 },
        );
    }
    let mut v: Vec<i64> = Vec::new();
    let mut i: usize = 0;
    while i < count as usize
        invariant
            i <= count,
            n == data@.len() == 8 * count,
            v@.len() == i,
            forall|j: int| 0 <= j < i ==> v@[j] as int == le_signed(data@, 8 * j, 8),
        decreases count as int - i,
    {
        let e = crate::bytes::read_le_i64(data, 8 * i);
        v.push(e);
        i = i + 1;
    }
    Ok(v)
}

fn decode_bool_elems(data: &Vec<u8>, count: u32) -> (r: Result<Vec<bool>, DecodeError>)
    ensures
        r is Ok <==> data@.len() == 4 * count,
        r matches Ok(v) ==> v@.len() == count && (forall|i: int| 0 <= i < count ==> v@[i] == (le_value(data@, 4 * i, 4) != 0)),
        r matches Err(e) ==> e == (DecodeError::LengthMismatch {
            expected: (4 * count as int) as u64,
            actual: data@.len() as u64,
        }),
{
    let n = data.len();
    if (n as u64) != 4u64 * (count as u64) {
        return Err(
            DecodeError::LengthMismatch { expected: 4u64 * (count as u64), actual: n as u64 },
        );
    }
    let mut v: Vec<bool> = Vec::new();
    let mut i: usize = 0;
    while i < count as usize
        invariant
            i <= count,
            n == data@.len() == 4 * count,
            v@.len() == i,
            forall|j: int| 0 <= j < i ==> v@[j] == (le_value(data@, 4 * j, 4) != 0),
        decreases count as int - i,
    {
        let e = crate::bytes::read_le_u32(data, 4 * i) != 0;
        v.push(e);
        i = i + 1;
    }
    Ok(v)
}

/// The broken-down time fields laid out little-endian at `off`.
pub open spec fn spec_systemtime_at(data: Seq<u8>, off: int) -> SystemTime {
    SystemTime {
        year: le_value(data, off, 2) as u16,
        month: le_value(data, off + 2, 2) as u16,
        day_of_week: le_value(data, off + 4, 2) as u16,
        day: le_value(data, off + 6, 2) as u16,
        hour: le_value(data, off + 8, 2) as u16,
        minute: le_value(data, off + 10, 2) as u16,
        second: le_value(data, off + 12, 2) as u16,
        millisecond: le_value(data, off + 14, 2) as u16,
    }
}

fn parse_systemtime(data: &Vec<u8>, off: usize) -> (r: SystemTime)
    requires
        off + 16 <= data@.len(),
    ensures
        r == spec_systemtime_at(data@, off as int),
{
    // binds the buffer length, bounding the offsets below
    let _n = data.len();
    SystemTime {
        year: crate::bytes::read_le_u16(data, off),
        month: crate::bytes::read_le_u16(data, off + 2),
        day_of_week: crate::bytes::read_le_u16(data, off + 4),
        day: crate::bytes::read_le_u16(data, off + 6),
        hour: crate::bytes::read_le_u16(data, off + 8),
        minute: crate::bytes::read_le_u16(data, off + 10),
        second: crate::bytes::read_le_u16(data, off + 12),
        millisecond: crate::bytes::read_le_u16(data, off + 14),
    }
}

fn decode_filetime_elems(data: &Vec<u8>, count: u32) -> (r: Result<Vec<Timestamp>, DecodeError>)
    ensures
        r is Ok <==> (data@.len() == 8 * count && (forall|i: int|
            0 <= i < count ==> EPOCH_DELTA_TICKS <= #[trigger] le_value(data@, 8 * i, 8)
                <= EPOCH_DELTA_TICKS + MAX_UNIX_TICKS)),
        r matches Ok(v) ==> v@.len() == count && (forall|i: int|
            0 <= i < count ==> timestamp_valid(#[trigger] v@[i]) && v@[i].year >= 1970
                && timestamp_unix_nanos(v@[i]) == (le_value(data@, 8 * i, 8)
                - EPOCH_DELTA_TICKS) * 100),
        r matches Err(e) ==> (e is LengthMismatch || e is Time),
        data@.len() != 8 * count ==> r == Err::<Vec<Timestamp>, DecodeError>(
            DecodeError::LengthMismatch {
                expected: (8 * count as int) as u64,
                actual: data@.len() as u64,
            },
        ),
{
    let n = data.len();
    if (n as u64) != 8u64 * (count as u64) {
        return Err(
            DecodeError::LengthMismatch { expected: 8u64 * (count as u64), actual: n as u64 },
        );
    }
    let mut v: Vec<Timestamp> = Vec::new();
    let mut i: usize = 0;
    while i < count as usize
        invariant
            i <= count,
            n == data@.len() == 8 * count,
            v@.len() == i,
            forall|j: int|
                0 <= j < i ==> EPOCH_DELTA_TICKS <= #[trigger] le_value(data@, 8 * j, 8)
                    <= EPOCH_DELTA_TICKS + MAX_UNIX_TICKS,
            forall|j: int|
                0 <= j < i ==> timestamp_valid(#[trigger] v@[j]) && v@[j].year >= 1970
                    && timestamp_unix_nanos(v@[j]) == (le_value(data@, 8 * j, 8)
                    - EPOCH_DELTA_TICKS) * 100,
        decreases count as int - i,
    {
        let t = crate::bytes::read_le_u64(data, 8 * i);
        match crate::time::ticks_to_timestamp(t) {
            Ok(ts) => {
                v.push(ts);
            },
            Err(e) => {
                return Err(DecodeError::Time(e));
            },
        }
        i = i + 1;
    }
    Ok(v)
}

fn decode_systime_elems(data: &Vec<u8>, count: u32) -> (r: Result<Vec<Timestamp>, DecodeError>)
    ensures
        r is Ok <==> (data@.len() == 16 * count && (forall|i: int|
            0 <= i < count ==> systemtime_in_range(#[trigger] spec_systemtime_at(data@, 16 * i)))),
        r matches Ok(v) ==> v@.len() == count && (forall|i: int|
            0 <= i < count ==> #[trigger] v@[i] == spec_systemtime_timestamp(
                spec_systemtime_at(data@, 16 * i),
            )),
        r matches Err(e) ==> (e is LengthMismatch || e is Time),
        data@.len() != 16 * count ==> r == Err::<Vec<Timestamp>, DecodeError>(
            DecodeError::LengthMismatch {
                expected: (16 * count as int) as u64,
                actual: data@.len() as u64,
            },
        ),
{
    let n = data.len();
    if (n as u64) != 16u64 * (count as u64) {
        return Err(
            DecodeError::LengthMismatch { expected: 16u64 * (count as u64), actual: n as u64 },
        );
    }
    let mut v: Vec<Timestamp> = Vec::new();
    let mut i: usize = 0;
    while i < count as usize
        invariant
            i <= count,
            n == data@.len() == 16 * count,
            v@.len() == i,
            forall|j: int|
                0 <= j < i ==> systemtime_in_range(#[trigger] spec_systemtime_at(data@, 16 * j)),
            forall|j: int|
                0 <= j < i ==> #[trigger] v@[j] == spec_systemtime_timestamp(
                    spec_systemtime_at(data@, 16 * j),
                ),
        decreases count as int - i,
    {
        let st = parse_systemtime(data, 16 * i);
        match crate::time::systemtime_to_timestamp(&st) {
            Ok(ts) => {
                v.push(ts);
            },
            Err(e) => {
                return Err(DecodeError::Time(e));
            },
        }
        i = i + 1;
    }
    Ok(v)
}

/// The GUID fields laid out at `off`.
pub open spec fn guid_matches_bytes(g: Guid, data: Seq<u8>, off: int) -> bool {
    &&& g.data1 == le_value(data, off, 4)
    &&& g.data2 == le_value(data, off + 4, 2)
    &&& g.data3 == le_value(data, off + 6, 2)
    &&& forall|j: int| 0 <= j < 8 ==> g.data4@[j] == data[off + 8 + j]
}

fn decode_guid_elems(data: &Vec<u8>, count: u32) -> (r: Result<Vec<Guid>, DecodeError>)
    ensures
        r is Ok <==> data@.len() == 16 * count,
        r matches Ok(v) ==> v@.len() == count && (forall|i: int|
            0 <= i < count ==> guid_matches_bytes(#[trigger] v@[i], data@, 16 * i)),
        r matches Err(e) ==> e == (DecodeError::LengthMismatch {
            expected: (16 * count as int) as u64,
            actual: data@.len() as u64,
        }),
{
    let n = data.len();
    if (n as u64) != 16u64 * (count as u64) {
        return Err(
            DecodeError::LengthMismatch { expected: 16u64 * (count as u64), actual: n as u64 },
        );
    }
    let mut v: Vec<Guid> = Vec::new();
    let mut i: usize = 0;
    while i < count as usize
        invariant
            i <= count,
            n == data@.len() == 16 * count,
            v@.len() == i,
            forall|j: int| 0 <= j < i ==> guid_matches_bytes(#[trigger] v@[j], data@, 16 * j),
        decreases count as int - i,
    {
        let g = crate::ident::parse_guid(data, 16 * i);
        v.push(g);
        i = i + 1;
    }
    Ok(v)
}

fn decode_wide_list(list: &Vec<Vec<u8>>, count: u32) -> (r: Result<Vec<String>, DecodeError>)
    ensures
        r is Ok <==> (list@.len() == count && (forall|i: int|
            0 <= i < count ==> wide_ok(#[trigger] list@[i]@))),
        r matches Ok(v) ==> v@.len() == count && (forall|i: int|
            0 <= i < count ==> chars_to_code_points(#[trigger] v@[i]@) == wide_code_points(
                list@[i]@,
            )),
        r matches Err(e) ==> (e is LengthMismatch || e is Text),
        list@.len() != count ==> r == Err::<Vec<String>, DecodeError>(
            DecodeError::LengthMismatch { expected: count as u64, actual: list@.len() as u64 },
        ),
{
    let n = list.len();
    if (n as u64) != count as u64 {
        return Err(DecodeError::LengthMismatch { expected: count as u64, actual: n as u64 });
    }
    let mut v: Vec<String> = Vec::new();
    let mut i: usize = 0;
    while i < count as usize
        invariant
            i <= count,
            n == list@.len() == count,
            v@.len() == i,
            forall|j: int| 0 <= j < i ==> wide_ok(#[trigger] list@[j]@),
            forall|j: int|
                0 <= j < i ==> chars_to_code_points(#[trigger] v@[j]@) == wide_code_points(
                    list@[j]@,
                ),
        decreases count as int - i,
    {
        match crate::text::decode_wide(&list[i]) {
            Ok(s) => {
                v.push(s);
            },
            Err(e) => {
                return Err(DecodeError::Text(e));
            },
        }
        i = i + 1;
    }
    Ok(v)
}

fn decode_narrow_list(list: &Vec<Vec<u8>>, count: u32) -> (r: Result<Vec<String>, DecodeError>)
    ensures
        r is Ok <==> (list@.len() == count && (forall|i: int|
            0 <= i < count ==> narrow_ok(#[trigger] list@[i]@))),
        r matches Ok(v) ==> v@.len() == count && (forall|i: int|
            0 <= i < count ==> chars_to_code_points(#[trigger] v@[i]@) == narrow_code_points(
                list@[i]@,
            )),
        r matches Err(e) ==> (e is LengthMismatch || e is Text),
        list@.len() != count ==> r == Err::<Vec<String>, DecodeError>(
            DecodeError::LengthMismatch { expected: count as u64, actual: list@.len() as u64 },
        ),
{
    let n = list.len();
    if (n as u64) != count as u64 {
        return Err(DecodeError::LengthMismatch { expected: count as u64, actual: n as u64 });
    }
    let mut v: Vec<String> = Vec::new();
    let mut i: usize = 0;
    while i < count as usize
        invariant
            i <= count,
            n == list@.len() == count,
            v@.len() == i,
            forall|j: int| 0 <= j < i ==> narrow_ok(#[trigger] list@[j]@),
            forall|j: int|
                0 <= j < i ==> chars_to_code_points(#[trigger] v@[j]@) == narrow_code_points(
                    list@[j]@,
                ),
        decreases count as int - i,
    {
        match crate::text::decode_narrow(&list[i]) {
            Ok(s) => {
                v.push(s);
            },
            Err(e) => {
                return Err(DecodeError::Text(e));
            },
        }
        i = i + 1;
    }
    Ok(v)
}

fn decode_sid_list(list: &Vec<Vec<u8>>, count: u32) -> (r: Result<Vec<Sid>, DecodeError>)
    ensures
        r is Ok <==> (list@.len() == count && (forall|i: int|
            0 <= i < count ==> sid_bytes_ok(#[trigger] list@[i]@))),
        r matches Ok(v) ==> v@.len() == count && (forall|i: int|
            0 <= i < count ==> sid_matches_bytes(#[trigger] v@[i], list@[i]@)),
        r matches Err(e) ==> (e is LengthMismatch || e == DecodeError::MalformedSid),
        list@.len() != count ==> r == Err::<Vec<Sid>, DecodeError>(
            DecodeError::LengthMismatch { expected: count as u64, actual: list@.len() as u64 },
        ),
{
    let n = list.len();
    if (n as u64) != count as u64 {
        return Err(DecodeError::LengthMismatch { expected: count as u64, actual: n as u64 });
    }
    let mut v: Vec<Sid> = Vec::new();
    let mut i: usize = 0;
    while i < count as usize
        invariant
            i <= count,
            n == list@.len() == count,
            v@.len() == i,
            forall|j: int| 0 <= j < i ==> sid_bytes_ok(#[trigger] list@[j]@),
            forall|j: int| 0 <= j < i ==> sid_matches_bytes(#[trigger] v@[j], list@[j]@),
        decreases count as int - i,
    {
        match crate::ident::parse_sid(&list[i]) {
            Some(s) => {
                v.push(s);
            },
            None => {
                return Err(DecodeError::MalformedSid);
            },
        }
        i = i + 1;
    }
    Ok(v)
}

/// The slot describes an array of its scalar kind.
pub open spec fn spec_is_array(tag: u32) -> bool {
    tag & TAG_ARRAY_FLAG != 0
}

/// The scalar kind of a tag.
pub open spec fn spec_kind(tag: u32) -> u32 {
    tag & TAG_MASK
}

/// Scalar kinds the value union holds immediately, with no payload pointer
/// and no validity condition of their own.
pub open spec fn imm_scalar_kind(t: u32) -> bool {
    t == TAG_SBYTE || t == TAG_BYTE || t == TAG_INT16 || t == TAG_UINT16 || t == TAG_INT32
        || t == TAG_UINT32 || t == TAG_INT64 || t == TAG_UINT64 || t == TAG_SINGLE
        || t == TAG_DOUBLE || t == TAG_BOOLEAN || t == TAG_SIZE_T || t == TAG_HEX_INT32
        || t == TAG_HEX_INT64 || t == TAG_EVT_HANDLE
}

/// Array kinds whose elements lie consecutively behind one pointer, with
/// the element width in bytes.
pub open spec fn array_elem_width(t: u32) -> int {
    if t == TAG_SBYTE || t == TAG_BYTE {
        1
    } else if t == TAG_INT16 || t == TAG_UINT16 {
        2
    } else if t == TAG_INT32 || t == TAG_UINT32 || t == TAG_SINGLE || t == TAG_BOOLEAN
        || t == TAG_HEX_INT32 {
        4
    } else if t == TAG_INT64 || t == TAG_UINT64 || t == TAG_DOUBLE || t == TAG_SIZE_T
        || t == TAG_FILETIME || t == TAG_HEX_INT64 {
        8
    } else {
        16
    }
}

/// Array kinds decoded out of one consecutive byte block.
pub open spec fn block_array_kind(t: u32) -> bool {
    t == TAG_SBYTE || t == TAG_BYTE || t == TAG_INT16 || t == TAG_UINT16 || t == TAG_INT32
        || t == TAG_UINT32 || t == TAG_INT64 || t == TAG_UINT64 || t == TAG_SINGLE
        || t == TAG_DOUBLE || t == TAG_BOOLEAN || t == TAG_SIZE_T || t == TAG_HEX_INT32
        || t == TAG_HEX_INT64 || t == TAG_GUID || t == TAG_FILETIME || t == TAG_SYSTIME
}

/// Array kinds whose elements sit behind per-element pointers.
pub open spec fn list_array_kind(t: u32) -> bool {
    t == TAG_STRING || t == TAG_ANSI_STRING || t == TAG_EVT_XML || t == TAG_SID
}

/// The payload fits the tag, so decoding succeeds. Unknown kinds always
/// decode (to the explicit unknown marker), and a null payload pointer
/// always decodes to the absent value.
pub open spec fn decode_ok(slot: RawSlot) -> bool {
    let t = spec_kind(slot.tag);
    if !spec_is_array(slot.tag) {
        if t == TAG_NULL {
            true
        } else if t == TAG_STRING || t == TAG_EVT_XML {
            match slot.payload {
                RawPayload::Data(d) => wide_ok(d@),
                RawPayload::Null => true,
                _ => false,
            }
        } else if t == TAG_ANSI_STRING {
            match slot.payload {
                RawPayload::Data(d) => narrow_ok(d@),
                RawPayload::Null => true,
                _ => false,
            }
        } else if t == TAG_FILETIME {
            match slot.payload {
                RawPayload::Immediate(u) => EPOCH_DELTA_TICKS <= u <= EPOCH_DELTA_TICKS
                    + MAX_UNIX_TICKS,
                _ => false,
            }
        } else if imm_scalar_kind(t) {
            slot.payload is Immediate
        } else if t == TAG_GUID {
            match slot.payload {
                RawPayload::Data(d) => d@.len() == 16,
                RawPayload::Null => true,
                _ => false,
            }
        } else if t == TAG_SYSTIME {
            match slot.payload {
                RawPayload::Data(d) => d@.len() == 16 && systemtime_in_range(
                    spec_systemtime_at(d@, 0),
                ),
                RawPayload::Null => true,
                _ => false,
            }
        } else if t == TAG_SID {
            match slot.payload {
                RawPayload::Data(d) => sid_bytes_ok(d@),
                RawPayload::Null => true,
                _ => false,
            }
        } else if t == TAG_BINARY {
            match slot.payload {
                RawPayload::Data(d) => d@.len() == slot.count,
                RawPayload::Null => true,
                _ => false,
            }
        } else {
            true
        }
    } else {
        if t == TAG_STRING || t == TAG_EVT_XML {
            match slot.payload {
                RawPayload::DataList(l) => l@.len() == slot.count && (forall|i: int|
                    0 <= i < l@.len() ==> wide_ok(#[trigger] l@[i]@)),
                RawPayload::Null => true,
                _ => false,
            }
        } else if t == TAG_ANSI_STRING {
            match slot.payload {
                RawPayload::DataList(l) => l@.len() == slot.count && (forall|i: int|
                    0 <= i < l@.len() ==> narrow_ok(#[trigger] l@[i]@)),
                RawPayload::Null => true,
                _ => false,
            }
        } else if t == TAG_SID {
            match slot.payload {
                RawPayload::DataList(l) => l@.len() == slot.count && (forall|i: int|
                    0 <= i < l@.len() ==> sid_bytes_ok(#[trigger] l@[i]@)),
                RawPayload::Null => true,
                _ => false,
            }
        } else if t == TAG_FILETIME {
            match slot.payload {
                RawPayload::Data(d) => d@.len() == 8 * slot.count && (forall|i: int|
                    0 <= i < slot.count ==> EPOCH_DELTA_TICKS <= #[trigger] le_value(d@, 8 * i, 8)
                        <= EPOCH_DELTA_TICKS + MAX_UNIX_TICKS),
                RawPayload::Null => true,
                _ => false,
            }
        } else if t == TAG_SYSTIME {
            match slot.payload {
                RawPayload::Data(d) => d@.len() == 16 * slot.count && (forall|i: int|
                    0 <= i < slot.count ==> systemtime_in_range(
                        #[trigger] spec_systemtime_at(d@, 16 * i),
                    )),
                RawPayload::Null => true,
                _ => false,
            }
        } else if block_array_kind(t) {
            match slot.payload {
                RawPayload::Data(d) => d@.len() == array_elem_width(t) * slot.count,
                RawPayload::Null => true,
                _ => false,
            }
        } else {
            true
        }
    }
}

/// The value that decoding a well-shaped slot must produce. For strings the
/// characters are pinned through their code points; every other kind is
/// pinned directly.
pub open spec fn decoded_matches(slot: RawSlot, v: EventVariantValue) -> bool {
    let t = spec_kind(slot.tag);
    if !spec_is_array(slot.tag) {
        if t == TAG_NULL {
            v == EventVariantValue::Null
        } else if t == TAG_STRING {
            match slot.payload {
                RawPayload::Data(d) => v matches EventVariantValue::String(s)
                    && chars_to_code_points(s@) == wide_code_points(d@),
                _ => v == EventVariantValue::Null,
            }
        } else if t == TAG_EVT_XML {
            match slot.payload {
                RawPayload::Data(d) => v matches EventVariantValue::Xml(s)
                    && chars_to_code_points(s@) == wide_code_points(d@),
                _ => v == EventVariantValue::Null,
            }
        } else if t == TAG_ANSI_STRING {
            match slot.payload {
                RawPayload::Data(d) => v matches EventVariantValue::AnsiString(s)
                    && chars_to_code_points(s@) == narrow_code_points(d@),
                _ => v == EventVariantValue::Null,
            }
        } else if imm_scalar_kind(t) || t == TAG_FILETIME {
            match slot.payload {
                RawPayload::Immediate(u) => {
                    if t == TAG_SBYTE {
                        v matches EventVariantValue::SByte(x) && x as int == imm_signed8(u)
                    } else if t == TAG_BYTE {
                        v == EventVariantValue::Byte(imm_low8(u) as u8)
                    } else if t == TAG_INT16 {
                        v matches EventVariantValue::Int16(x) && x as int == imm_signed16(u)
                    } else if t == TAG_UINT16 {
                        v == EventVariantValue::UInt16(imm_low16(u) as u16)
                    } else if t == TAG_INT32 {
                        v matches EventVariantValue::Int32(x) && x as int == imm_signed32(u)
                    } else if t == TAG_UINT32 {
                        v == EventVariantValue::UInt32(imm_low32(u) as u32)
                    } else if t == TAG_INT64 {
                        v matches EventVariantValue::Int64(x) && x as int == imm_signed64(u)
                    } else if t == TAG_UINT64 {
                        v == EventVariantValue::UInt64(u)
                    } else if t == TAG_SINGLE {
                        v == EventVariantValue::Single(imm_low32(u) as u32)
                    } else if t == TAG_DOUBLE {
                        v == EventVariantValue::Double(u)
                    } else if t == TAG_BOOLEAN {
                        v == EventVariantValue::Bool(imm_low32(u) != 0)
                    } else if t == TAG_SIZE_T {
                        v == EventVariantValue::SizeT(u)
                    } else if t == TAG_HEX_INT32 {
                        v == EventVariantValue::HexInt32(imm_low32(u) as u32)
                    } else if t == TAG_HEX_INT64 {
                        v == EventVariantValue::HexInt64(u)
                    } else if t == TAG_EVT_HANDLE {
                        v == EventVariantValue::EvtHandle(u)
                    } else {
                        v matches EventVariantValue::FileTime(ts) && timestamp_valid(ts)
                            && ts.year >= 1970 && timestamp_unix_nanos(ts) == (u
                            - EPOCH_DELTA_TICKS) * 100
                    }
                },
                _ => false,
            }
        } else if t == TAG_GUID {
            match slot.payload {
                RawPayload::Data(d) => v matches EventVariantValue::Guid(g) && guid_matches_bytes(
                    g,
                    d@,
                    0,
                ),
                _ => v == EventVariantValue::Null,
            }
        } else if t == TAG_SYSTIME {
            match slot.payload {
                RawPayload::Data(d) => v == EventVariantValue::SysTime(
                    spec_systemtime_timestamp(spec_systemtime_at(d@, 0)),
                ),
                _ => v == EventVariantValue::Null,
            }
        } else if t == TAG_SID {
            match slot.payload {
                RawPayload::Data(d) => v matches EventVariantValue::Sid(s) && sid_matches_bytes(
                    s,
                    d@,
                ),
                _ => v == EventVariantValue::Null,
            }
        } else if t == TAG_BINARY {
            match slot.payload {
                RawPayload::Data(d) => v matches EventVariantValue::Binary(b) && b@ == d@,
                _ => v == EventVariantValue::Null,
            }
        } else {
            v == EventVariantValue::UnknownType(t)
        }
    } else {
        if t == TAG_STRING {
            match slot.payload {
                RawPayload::DataList(l) => v matches EventVariantValue::StringArr(ss) && ss@.len()
                    == l@.len() && (forall|i: int|
                    0 <= i < l@.len() ==> chars_to_code_points(#[trigger] ss@[i]@)
                        == wide_code_points(l@[i]@)),
                _ => v == EventVariantValue::Null,
            }
        } else if t == TAG_EVT_XML {
            match slot.payload {
                RawPayload::DataList(l) => v matches EventVariantValue::XmlArr(ss) && ss@.len()
                    == l@.len() && (forall|i: int|
                    0 <= i < l@.len() ==> chars_to_code_points(#[trigger] ss@[i]@)
                        == wide_code_points(l@[i]@)),
                _ => v == EventVariantValue::Null,
            }
        } else if t == TAG_ANSI_STRING {
            match slot.payload {
                RawPayload::DataList(l) => v matches EventVariantValue::AnsiStringArr(ss)
                    && ss@.len() == l@.len() && (forall|i: int|
                    0 <= i < l@.len() ==> chars_to_code_points(#[trigger] ss@[i]@)
                        == narrow_code_points(l@[i]@)),
                _ => v == EventVariantValue::Null,
            }
        } else if t == TAG_SID {
            match slot.payload {
                RawPayload::DataList(l) => v matches EventVariantValue::SidArr(ss) && ss@.len()
                    == l@.len() && (forall|i: int|
                    0 <= i < l@.len() ==> sid_matches_bytes(#[trigger] ss@[i], l@[i]@)),
                _ => v == EventVariantValue::Null,
            }
        } else if block_array_kind(t) {
            match slot.payload {
                RawPayload::Data(d) => {
                    let c = slot.count as int;
                    if t == TAG_SBYTE {
                        v matches EventVariantValue::SByteArr(xs) && xs@.len() == c && (forall|
                            i: int,
                        |
                            0 <= i < c ==> #[trigger] xs@[i] as int == le_signed(d@, i, 1))
                    } else if t == TAG_BYTE {
                        v matches EventVariantValue::ByteArr(xs) && xs@.len() == c && (forall|
                            i: int,
                        |
                            0 <= i < c ==> #[trigger] xs@[i] == d@[i])
                    } else if t == TAG_INT16 {
                        v matches EventVariantValue::Int16Arr(xs) && xs@.len() == c && (forall|
                            i: int,
                        |
                            0 <= i < c ==> #[trigger] xs@[i] as int == le_signed(d@, 2 * i, 2))
                    } else if t == TAG_UINT16 {
                        v matches EventVariantValue::UInt16Arr(xs) && xs@.len() == c && (forall|
                            i: int,
                        |
                            0 <= i < c ==> #[trigger] xs@[i] == le_value(d@, 2 * i, 2))
                    } else if t == TAG_INT32 {
                        v matches EventVariantValue::Int32Arr(xs) && xs@.len() == c && (forall|
                            i: int,
                        |
                            0 <= i < c ==> #[trigger] xs@[i] as int == le_signed(d@, 4 * i, 4))
                    } else if t == TAG_UINT32 {
                        v matches EventVariantValue::UInt32Arr(xs) && xs@.len() == c && (forall|
                            i: int,
                        |
                            0 <= i < c ==> #[trigger] xs@[i] == le_value(d@, 4 * i, 4))
                    } else if t == TAG_INT64 {
                        v matches EventVariantValue::Int64Arr(xs) && xs@.len() == c && (forall|
                            i: int,
                        |
                            0 <= i < c ==> #[trigger] xs@[i] as int == le_signed(d@, 8 * i, 8))
                    } else if t == TAG_UINT64 {
                        v matches EventVariantValue::UInt64Arr(xs) && xs@.len() == c && (forall|
                            i: int,
                        |
                            0 <= i < c ==> #[trigger] xs@[i] == le_value(d@, 8 * i, 8))
                    } else if t == TAG_SINGLE {
                        v matches EventVariantValue::SingleArr(xs) && xs@.len() == c && (forall|
                            i: int,
                        |
                            0 <= i < c ==> #[trigger] xs@[i] == le_value(d@, 4 * i, 4))
                    } else if t == TAG_DOUBLE {
                        v matches EventVariantValue::DoubleArr(xs) && xs@.len() == c && (forall|
                            i: int,
                        |
                            0 <= i < c ==> #[trigger] xs@[i] == le_value(d@, 8 * i, 8))
                    } else if t == TAG_BOOLEAN {
                        v matches EventVariantValue::BoolArr(xs) && xs@.len() == c && (forall|
                            i: int,
                        |
                            0 <= i < c ==> #[trigger] xs@[i] == (le_value(d@, 4 * i, 4) != 0))
                    } else if t == TAG_SIZE_T {
                        v matches EventVariantValue::SizeTArr(xs) && xs@.len() == c && (forall|
                            i: int,
                        |
                            0 <= i < c ==> #[trigger] xs@[i] == le_value(d@, 8 * i, 8))
                    } else if t == TAG_HEX_INT32 {
                        v matches EventVariantValue::HexInt32Arr(xs) && xs@.len() == c && (forall|
                            i: int,
                        |
                            0 <= i < c ==> #[trigger] xs@[i] == le_value(d@, 4 * i, 4))
                    } else if t == TAG_HEX_INT64 {
                        v matches EventVariantValue::HexInt64Arr(xs) && xs@.len() == c && (forall|
                            i: int,
                        |
                            0 <= i < c ==> #[trigger] xs@[i] == le_value(d@, 8 * i, 8))
                    } else if t == TAG_GUID {
                        v matches EventVariantValue::GuidArr(xs) && xs@.len() == c && (forall|
                            i: int,
                        |
                            0 <= i < c ==> guid_matches_bytes(#[trigger] xs@[i], d@, 16 * i))
                    } else if t == TAG_FILETIME {
                        v matches EventVariantValue::FileTimeArr(xs) && xs@.len() == c && (forall|
                            i: int,
                        |
                            0 <= i < c ==> timestamp_valid(#[trigger] xs@[i]) && xs@[i].year
                                >= 1970 && timestamp_unix_nanos(xs@[i]) == (le_value(d@, 8 * i, 8)
                                - EPOCH_DELTA_TICKS) * 100)
                    } else {
                        v matches EventVariantValue::SysTimeArr(xs) && xs@.len() == c && (forall|
                            i: int,
                        |
                            0 <= i < c ==> #[trigger] xs@[i] == spec_systemtime_timestamp(
                                spec_systemtime_at(d@, 16 * i),
                            ))
                    }
                },
                _ => v == EventVariantValue::Null,
            }
        } else {
            v == EventVariantValue::UnknownTypeArr(t)
        }
    }
}

fn copy_bytes(data: &Vec<u8>) -> (r: Vec<u8>)
    ensures
        r@ == data@,
{
    let mut v: Vec<u8> = Vec::new();
    let mut i: usize = 0;
    while i < data.len()
        invariant
            i <= data@.len(),
            v@.len() == i,
            forall|j: int| 0 <= j < i ==> v@[j] == data@[j],
        decreases data@.len() - i,
    {
        v.push(data[i]);
        i = i + 1;
    }
    proof {
        assert(v@ =~= data@);
    }
    v
}

/// Decode one raw tagged slot into exactly one owned value.
///
/// Total over the tag space: every defined kind maps to its typed case, any
/// other kind to the explicit unknown marker carrying the raw kind value,
/// and a null payload pointer to the absent value. An error comes exactly
/// when a known kind's payload violates its shape: a wrong payload form, a
/// length that disagrees with the count, an invalid string encoding, an
/// unrepresentable time, or a truncated security identifier.
pub fn decode_slot(slot: &RawSlot) -> (r: Result<EventVariantValue, DecodeError>)
    ensures
        r is Ok <==> decode_ok(*slot),
        r matches Ok(v) ==> decoded_matches(*slot, v),
{
    let t = slot.tag & TAG_MASK;
    let is_array = (slot.tag & TAG_ARRAY_FLAG) != 0;
    if !is_array {
        if t == TAG_NULL {
            return Ok(EventVariantValue::Null);
        }
        if t == TAG_STRING || t == TAG_EVT_XML {
            return match &slot.payload {
                RawPayload::Data(d) => match crate::text::decode_wide(d) {
                    Ok(s) => {
                        if t == TAG_STRING {
                            Ok(EventVariantValue::String(s))
                        } else {
                            Ok(EventVariantValue::Xml(s))
                        }
                    },
                    Err(e) => Err(DecodeError::Text(e)),
                },
                RawPayload::Null => Ok(EventVariantValue::Null),
                _ => Err(DecodeError::PayloadShape),
            };
        }
        if t == TAG_ANSI_STRING {
            return match &slot.payload {
                RawPayload::Data(d) => match crate::text::decode_narrow(d) {
                    Ok(s) => Ok(EventVariantValue::AnsiString(s)),
                    Err(e) => Err(DecodeError::Text(e)),
                },
                RawPayload::Null => Ok(EventVariantValue::Null),
                _ => Err(DecodeError::PayloadShape),
            };
        }
        if t == TAG_GUID {
            return match &slot.payload {
                RawPayload::Data(d) => {
                    if d.len() == 16 {
                        Ok(EventVariantValue::Guid(crate::ident::parse_guid(d, 0)))
                    } else {
                        Err(DecodeError::LengthMismatch { expected: 16, actual: d.len() as u64 })
                    }
                },
                RawPayload::Null => Ok(EventVariantValue::Null),
                _ => Err(DecodeError::PayloadShape),
            };
        }
        if t == TAG_SYSTIME {
            return match &slot.payload {
                RawPayload::Data(d) => {
                    if d.len() == 16 {
                        let st = parse_systemtime(d, 0);
                        match crate::time::systemtime_to_timestamp(&st) {
                            Ok(ts) => Ok(EventVariantValue::SysTime(ts)),
                            Err(e) => Err(DecodeError::Time(e)),
                        }
                    } else {
                        Err(DecodeError::LengthMismatch { expected: 16, actual: d.len() as u64 })
                    }
                },
                RawPayload::Null => Ok(EventVariantValue::Null),
                _ => Err(DecodeError::PayloadShape),
            };
        }
        if t == TAG_SID {
            return match &slot.payload {
                RawPayload::Data(d) => match crate::ident::parse_sid(d) {
                    Some(s) => Ok(EventVariantValue::Sid(s)),
                    None => Err(DecodeError::MalformedSid),
                },
                RawPayload::Null => Ok(EventVariantValue::Null),
                _ => Err(DecodeError::PayloadShape),
            };
        }
        if t == TAG_BINARY {
            return match &slot.payload {
                RawPayload::Data(d) => {
                    if (d.len() as u64) == slot.count as u64 {
                        Ok(EventVariantValue::Binary(copy_bytes(d)))
                    } else {
                        Err(
                            DecodeError::LengthMismatch {
                                expected: slot.count as u64,
                                actual: d.len() as u64,
                            },
                        )
                    }
                },
                RawPayload::Null => Ok(EventVariantValue::Null),
                _ => Err(DecodeError::PayloadShape),
            };
        }
        if t == TAG_SBYTE || t == TAG_BYTE || t == TAG_INT16 || t == TAG_UINT16 || t == TAG_INT32
            || t == TAG_UINT32 || t == TAG_INT64 || t == TAG_UINT64 || t == TAG_SINGLE
            || t == TAG_DOUBLE || t == TAG_BOOLEAN || t == TAG_SIZE_T || t == TAG_HEX_INT32
            || t == TAG_HEX_INT64 || t == TAG_EVT_HANDLE || t == TAG_FILETIME {
            return match &slot.payload {
                RawPayload::Immediate(u) => {
                    let u = *u;
                    if t == TAG_SBYTE {
                        Ok(EventVariantValue::SByte(imm_i8(u)))
                    } else if t == TAG_BYTE {
                        Ok(EventVariantValue::Byte(imm_u8(u)))
                    } else if t == TAG_INT16 {
                        Ok(EventVariantValue::Int16(imm_i16(u)))
                    } else if t == TAG_UINT16 {
                        Ok(EventVariantValue::UInt16(imm_u16(u)))
                    } else if t == TAG_INT32 {
                        Ok(EventVariantValue::Int32(imm_i32(u)))
                    } else if t == TAG_UINT32 {
                        Ok(EventVariantValue::UInt32(imm_u32(u)))
                    } else if t == TAG_INT64 {
                        Ok(EventVariantValue::Int64(imm_i64(u)))
                    } else if t == TAG_UINT64 {
                        Ok(EventVariantValue::UInt64(u))
                    } else if t == TAG_SINGLE {
                        Ok(EventVariantValue::Single(imm_u32(u)))
                    } else if t == TAG_DOUBLE {
                        Ok(EventVariantValue::Double(u))
                    } else if t == TAG_BOOLEAN {
                        Ok(EventVariantValue::Bool(imm_u32(u) != 0))
                    } else if t == TAG_SIZE_T {
                        Ok(EventVariantValue::SizeT(u))
                    } else if t == TAG_HEX_INT32 {
                        Ok(EventVariantValue::HexInt32(imm_u32(u)))
                    } else if t == TAG_HEX_INT64 {
                        Ok(EventVariantValue::HexInt64(u))
                    } else if t == TAG_EVT_HANDLE {
                        Ok(EventVariantValue::EvtHandle(u))
                    } else {
                        match crate::time::ticks_to_timestamp(u) {
                            Ok(ts) => Ok(EventVariantValue::FileTime(ts)),
                            Err(e) => Err(DecodeError::Time(e)),
                        }
                    }
                },
                _ => Err(DecodeError::PayloadShape),
            };
        }
        return Ok(EventVariantValue::UnknownType(t));
    }
    if t == TAG_STRING || t == TAG_EVT_XML {
        return match &slot.payload {
            RawPayload::DataList(l) => match decode_wide_list(l, slot.count) {
                Ok(ss) => {
                    if t == TAG_STRING {
                        Ok(EventVariantValue::StringArr(ss))
                    } else {
                        Ok(EventVariantValue::XmlArr(ss))
                    }
                },
                Err(e) => Err(e),
            },
            RawPayload::Null => Ok(EventVariantValue::Null),
            _ => Err(DecodeError::PayloadShape),
        };
    }
    if t == TAG_ANSI_STRING {
        return match &slot.payload {
            RawPayload::DataList(l) => match decode_narrow_list(l, slot.count) {
                Ok(ss) => Ok(EventVariantValue::AnsiStringArr(ss)),
                Err(e) => Err(e),
            },
            RawPayload::Null => Ok(EventVariantValue::Null),
            _ => Err(DecodeError::PayloadShape),
        };
    }
    if t == TAG_SID {
        return match &slot.payload {
            RawPayload::DataList(l) => match decode_sid_list(l, slot.count) {
                Ok(ss) => Ok(EventVariantValue::SidArr(ss)),
                Err(e) => Err(e),
            },
            RawPayload::Null => Ok(EventVariantValue::Null),
            _ => Err(DecodeError::PayloadShape),
        };
    }
    if t == TAG_SBYTE || t == TAG_BYTE || t == TAG_INT16 || t == TAG_UINT16 || t == TAG_INT32
        || t == TAG_UINT32 || t == TAG_INT64 || t == TAG_UINT64 || t == TAG_SINGLE
        || t == TAG_DOUBLE || t == TAG_BOOLEAN || t == TAG_SIZE_T || t == TAG_HEX_INT32
        || t == TAG_HEX_INT64 || t == TAG_GUID || t == TAG_FILETIME || t == TAG_SYSTIME {
        return match &slot.payload {
            RawPayload::Data(d) => {
                if t == TAG_SBYTE {
                    match decode_i8_elems(d, slot.count) {
                        Ok(xs) => Ok(EventVariantValue::SByteArr(xs)),
                        Err(e) => Err(e),
                    }
                } else if t == TAG_BYTE {
                    match decode_u8_elems(d, slot.count) {
                        Ok(xs) => Ok(EventVariantValue::ByteArr(xs)),
                        Err(e) => Err(e),
                    }
                } else if t == TAG_INT16 {
                    match decode_i16_elems(d, slot.count) {
                        Ok(xs) => Ok(EventVariantValue::Int16Arr(xs)),
                        Err(e) => Err(e),
                    }
                } else if t == TAG_UINT16 {
                    match decode_u16_elems(d, slot.count) {
                        Ok(xs) => Ok(EventVariantValue::UInt16Arr(xs)),
                        Err(e) => Err(e),
                    }
                } else if t == TAG_INT32 {
                    match decode_i32_elems(d, slot.count) {
                        Ok(xs) => Ok(EventVariantValue::Int32Arr(xs)),
                        Err(e) => Err(e),
                    }
                } else if t == TAG_UINT32 {
                    match decode_u32_elems(d, slot.count) {
                        Ok(xs) => Ok(EventVariantValue::UInt32Arr(xs)),
                        Err(e) => Err(e),
                    }
                } else if t == TAG_INT64 {
                    match decode_i64_elems(d, slot.count) {
                        Ok(xs) => Ok(EventVariantValue::Int64Arr(xs)),
                        Err(e) => Err(e),
                    }
                } else if t == TAG_UINT64 {
                    match decode_u64_elems(d, slot.count) {
                        Ok(xs) => Ok(EventVariantValue::UInt64Arr(xs)),
                        Err(e) => Err(e),
                    }
                } else if t == TAG_SINGLE {
                    match decode_u32_elems(d, slot.count) {
                        Ok(xs) => Ok(EventVariantValue::SingleArr(xs)),
                        Err(e) => Err(e),
                    }
                } else if t == TAG_DOUBLE {
                    match decode_u64_elems(d, slot.count) {
                        Ok(xs) => Ok(EventVariantValue::DoubleArr(xs)),
                        Err(e) => Err(e),
                    }
                } else if t == TAG_BOOLEAN {
                    match decode_bool_elems(d, slot.count) {
                        Ok(xs) => Ok(EventVariantValue::BoolArr(xs)),
                        Err(e) => Err(e),
                    }
                } else if t == TAG_SIZE_T {
                    match decode_u64_elems(d, slot.count) {
                        Ok(xs) => Ok(EventVariantValue::SizeTArr(xs)),
                        Err(e) => Err(e),
                    }
                } else if t == TAG_HEX_INT32 {
                    match decode_u32_elems(d, slot.count) {
                        Ok(xs) => Ok(EventVariantValue::HexInt32Arr(xs)),
                        Err(e) => Err(e),
                    }
                } else if t == TAG_HEX_INT64 {
                    match decode_u64_elems(d, slot.count) {
                        Ok(xs) => Ok(EventVariantValue::HexInt64Arr(xs)),
                        Err(e) => Err(e),
                    }
                } else if t == TAG_GUID {
                    match decode_guid_elems(d, slot.count) {
                        Ok(xs) => Ok(EventVariantValue::GuidArr(xs)),
                        Err(e) => Err(e),
                    }
                } else if t == TAG_FILETIME {
                    match decode_filetime_elems(d, slot.count) {
                        Ok(xs) => Ok(EventVariantValue::FileTimeArr(xs)),
                        Err(e) => Err(e),
                    }
                } else {
                    match decode_systime_elems(d, slot.count) {
                        Ok(xs) => Ok(EventVariantValue::SysTimeArr(xs)),
                        Err(e) => Err(e),
                    }
                }
            },
            RawPayload::Null => Ok(EventVariantValue::Null),
            _ => Err(DecodeError::PayloadShape),
        };
    }
    Ok(EventVariantValue::UnknownTypeArr(t))
}

/// The tag a decoded value reads back as, for diagnostics: the scalar kind,
/// with the array flag for array values.
pub open spec fn spec_value_kind_tag(v: EventVariantValue) -> u32 {
    match v {
        EventVariantValue::Null => 0,
        EventVariantValue::String(..) => 1,
        EventVariantValue::AnsiString(..) => 2,
        EventVariantValue::SByte(..) => 3,
        EventVariantValue::Byte(..) => 4,
        EventVariantValue::Int16(..) => 5,
        EventVariantValue::UInt16(..) => 6,
        EventVariantValue::Int32(..) => 7,
        EventVariantValue::UInt32(..) => 8,
        EventVariantValue::Int64(..) => 9,
        EventVariantValue::UInt64(..) => 10,
        EventVariantValue::Single(..) => 11,
        EventVariantValue::Double(..) => 12,
        EventVariantValue::Bool(..) => 13,
        EventVariantValue::Binary(..) => 14,
        EventVariantValue::Guid(..) => 15,
        EventVariantValue::SizeT(..) => 16,
        EventVariantValue::FileTime(..) => 17,
        EventVariantValue::SysTime(..) => 18,
        EventVariantValue::Sid(..) => 19,
        EventVariantValue::HexInt32(..) => 20,
        EventVariantValue::HexInt64(..) => 21,
        EventVariantValue::EvtHandle(..) => 32,
        EventVariantValue::Xml(..) => 35,
        EventVariantValue::UnknownType(t) => t,
        EventVariantValue::StringArr(..) => (1 + 128) as u32,
        EventVariantValue::AnsiStringArr(..) => (2 + 128) as u32,
        EventVariantValue::SByteArr(..) => (3 + 128) as u32,
        EventVariantValue::ByteArr(..) => (4 + 128) as u32,
        EventVariantValue::Int16Arr(..) => (5 + 128) as u32,
        EventVariantValue::UInt16Arr(..) => (6 + 128) as u32,
        EventVariantValue::Int32Arr(..) => (7 + 128) as u32,
        EventVariantValue::UInt32Arr(..) => (8 + 128) as u32,
        EventVariantValue::Int64Arr(..) => (9 + 128) as u32,
        EventVariantValue::UInt64Arr(..) => (10 + 128) as u32,
        EventVariantValue::SingleArr(..) => (11 + 128) as u32,
        EventVariantValue::DoubleArr(..) => (12 + 128) as u32,
        EventVariantValue::BoolArr(..) => (13 + 128) as u32,
        EventVariantValue::GuidArr(..) => (15 + 128) as u32,
        EventVariantValue::SizeTArr(..) => (16 + 128) as u32,
        EventVariantValue::FileTimeArr(..) => (17 + 128) as u32,
        EventVariantValue::SysTimeArr(..) => (18 + 128) as u32,
        EventVariantValue::SidArr(..) => (19 + 128) as u32,
        EventVariantValue::HexInt32Arr(..) => (20 + 128) as u32,
        EventVariantValue::HexInt64Arr(..) => (21 + 128) as u32,
        EventVariantValue::XmlArr(..) => (35 + 128) as u32,
        EventVariantValue::UnknownTypeArr(t) => (t & 127) | 128,
    }
}

pub fn value_kind_tag(v: &EventVariantValue) -> (r: u32)
    ensures
        r == spec_value_kind_tag(*v),
{
    match v {
        EventVariantValue::Null => 0,
        EventVariantValue::String(..) => 1,
        EventVariantValue::AnsiString(..) => 2,
        EventVariantValue::SByte(..) => 3,
        EventVariantValue::Byte(..) => 4,
        EventVariantValue::Int16(..) => 5,
        EventVariantValue::UInt16(..) => 6,
        EventVariantValue::Int32(..) => 7,
        EventVariantValue::UInt32(..) => 8,
        EventVariantValue::Int64(..) => 9,
        EventVariantValue::UInt64(..) => 10,
        EventVariantValue::Single(..) => 11,
        EventVariantValue::Double(..) => 12,
        EventVariantValue::Bool(..) => 13,
        EventVariantValue::Binary(..) => 14,
        EventVariantValue::Guid(..) => 15,
        EventVariantValue::SizeT(..) => 16,
        EventVariantValue::FileTime(..) => 17,
        EventVariantValue::SysTime(..) => 18,
        EventVariantValue::Sid(..) => 19,
        EventVariantValue::HexInt32(..) => 20,
        EventVariantValue::HexInt64(..) => 21,
        EventVariantValue::EvtHandle(..) => 32,
        EventVariantValue::Xml(..) => 35,
        EventVariantValue::UnknownType(t) => *t,
        EventVariantValue::StringArr(..) => 1 + 128,
        EventVariantValue::AnsiStringArr(..) => 2 + 128,
        EventVariantValue::SByteArr(..) => 3 + 128,
        EventVariantValue::ByteArr(..) => 4 + 128,
        EventVariantValue::Int16Arr(..) => 5 + 128,
        EventVariantValue::UInt16Arr(..) => 6 + 128,
        EventVariantValue::Int32Arr(..) => 7 + 128,
        EventVariantValue::UInt32Arr(..) => 8 + 128,
        EventVariantValue::Int64Arr(..) => 9 + 128,
        EventVariantValue::UInt64Arr(..) => 10 + 128,
        EventVariantValue::SingleArr(..) => 11 + 128,
        EventVariantValue::DoubleArr(..) => 12 + 128,
        EventVariantValue::BoolArr(..) => 13 + 128,
        EventVariantValue::GuidArr(..) => 15 + 128,
        EventVariantValue::SizeTArr(..) => 16 + 128,
        EventVariantValue::FileTimeArr(..) => 17 + 128,
        EventVariantValue::SysTimeArr(..) => 18 + 128,
        EventVariantValue::SidArr(..) => 19 + 128,
        EventVariantValue::HexInt32Arr(..) => 20 + 128,
        EventVariantValue::HexInt64Arr(..) => 21 + 128,
        EventVariantValue::XmlArr(..) => 35 + 128,
        EventVariantValue::UnknownTypeArr(t) => (*t & 127) | 128,
    }
}

/// For every slot whose payload pointer is present, the decoded value
/// reads back as the slot's own kind: the scalar kind for a scalar slot,
/// and the kind with the array flag for an array-flagged slot - the typed
/// array case for kinds that have one, the unknown marker otherwise. The
/// one excluded input is a slot with an absent payload pointer, which
/// decodes to the absent value instead, as the checked-absence design
/// requires.
pub proof fn lemma_decode_value_kind(slot: RawSlot, v: EventVariantValue)
    requires
        decode_ok(slot),
        decoded_matches(slot, v),
        !(slot.payload is Null),
    ensures
        !spec_is_array(slot.tag) ==> spec_value_kind_tag(v) == spec_kind(slot.tag),
        spec_is_array(slot.tag) ==> spec_value_kind_tag(v) == spec_kind(slot.tag) + 128,
{
    let tg = slot.tag;
    let t = spec_kind(tg);
    assert(t == tg & 127);
    assert(tg & 127 < 128) by (bit_vector);
    if spec_is_array(slot.tag) && !(t == TAG_STRING || t == TAG_EVT_XML || t == TAG_ANSI_STRING
        || t == TAG_SID) && !block_array_kind(t) {
        assert(v == EventVariantValue::UnknownTypeArr(t));
        assert(t & 127 == t) by (bit_vector)
            requires
                t < 128,
        ;
        assert(t | 128 == t + 128) by (bit_vector)
            requires
                t < 128,
        ;
    }
}

/// The scalar kinds the decoder maps to a typed case.
pub open spec fn scalar_tag_defined(t: u32) -> bool {
    t <= 21 || t == TAG_EVT_HANDLE || t == TAG_EVT_XML
}

/// The kinds that have an array form. The null, binary and handle kinds
/// have none: their array-flagged slots read back as unknown.
pub open spec fn array_tag_defined(t: u32) -> bool {
    (1 <= t <= 21 && t != TAG_BINARY) || t == TAG_EVT_XML
}

/// Decoding is total over the tag space: a slot whose scalar kind lies
/// outside the defined set decodes, whatever its payload and count, to the
/// unknown marker carrying the raw kind value - never to an error. The
/// same holds of an array-flagged slot of a kind with no array form.
pub proof fn lemma_decode_total_over_tags(slot: RawSlot)
    ensures
        !spec_is_array(slot.tag) && !scalar_tag_defined(spec_kind(slot.tag)) ==> decode_ok(slot)
            && decoded_matches(slot, EventVariantValue::UnknownType(spec_kind(slot.tag))),
        spec_is_array(slot.tag) && !array_tag_defined(spec_kind(slot.tag)) ==> decode_ok(slot)
            && decoded_matches(slot, EventVariantValue::UnknownTypeArr(spec_kind(slot.tag))),
{
}

} // verus!
