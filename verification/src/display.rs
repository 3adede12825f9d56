//! Display strings for decoded values, replacing the usual formatting
//! machinery with exact contracts.
//!
//! Every kind renders as its label around its payload: integers in
//! decimal, the hex kinds as fixed-width uppercase hex behind `0x`,
//! identifiers in their canonical forms, times in a calendar form, and
//! arrays bracketed with comma-separated elements. Floating-point kinds
//! render their IEEE 754 bit patterns, which keeps the output exact.
//! String payloads appear quoted but otherwise verbatim.

use vstd::prelude::*;

use vstd::string::StringExecFns;

use crate::ident::{format_guid, format_sid, spec_guid_string, spec_sid_string, Guid, Sid};
use crate::numfmt::{
    push_dec, push_dec_pad, push_dec_signed, push_hex, spec_dec, spec_dec_pad, spec_dec_signed,
    spec_hex_upper,
};
use crate::text::chars_to_string;
use crate::time::Timestamp;
use crate::variant::EventVariantValue;

verus! {

pub open spec fn spec_bool_string(b: bool) -> Seq<char> {
    if b {
        "true"@
    } else {
        "false"@
    }
}

pub open spec fn spec_hex32_string(x: u32) -> Seq<char> {
    "0x"@ + spec_hex_upper(x as int, 8)
}

pub open spec fn spec_hex64_string(x: u64) -> Seq<char> {
    "0x"@ + spec_hex_upper(x as int, 16)
}

pub open spec fn spec_quoted(s: Seq<char>) -> Seq<char> {
    "\""@ + s + "\""@
}

/// A calendar timestamp in its year-to-second form, with the nanosecond
/// part only when it is not zero.
pub open spec fn spec_timestamp_string(ts: Timestamp) -> Seq<char> {
    spec_dec(ts.year as int) + "-"@ + spec_dec_pad(ts.month as int, 2) + "-"@ + spec_dec_pad(
        ts.day as int,
        2,
    ) + "T"@ + spec_dec_pad(ts.hour as int, 2) + ":"@ + spec_dec_pad(ts.minute as int, 2) + ":"@
        + spec_dec_pad(ts.second as int, 2) + (if ts.nanosecond == 0 {
        Seq::<char>::empty()
    } else {
        "."@ + spec_dec_pad(ts.nanosecond as int, 9)
    }) + "Z"@
}

/// Byte values as space-separated uppercase hex pairs.
pub open spec fn spec_hex_pairs(bytes: Seq<u8>) -> Seq<char>
    decreases bytes.len(),
{
    if bytes.len() == 0 {
        Seq::<char>::empty()
    } else if bytes.len() == 1 {
        spec_hex_upper(bytes[0] as int, 2)
    } else {
        spec_hex_pairs(bytes.drop_last()) + " "@ + spec_hex_upper(bytes.last() as int, 2)
    }
}

/// Parts joined by a comma and a space.
pub open spec fn spec_join_comma(parts: Seq<Seq<char>>) -> Seq<char>
    decreases parts.len(),
{
    if parts.len() == 0 {
        Seq::<char>::empty()
    } else if parts.len() == 1 {
        parts[0]
    } else {
        spec_join_comma(parts.drop_last()) + ", "@ + parts.last()
    }
}

fn append_chars(s: &mut String, v: &Vec<char>)
    ensures
        final(s)@ == old(s)@ + v@,
{
    let t = chars_to_string(v);
    s.append(t.as_str());
}

fn append_dec(s: &mut String, n: u64)
    ensures
        final(s)@ == old(s)@ + spec_dec(n as int),
{
    let mut v: Vec<char> = Vec::new();
    push_dec(&mut v, n);
    append_chars(s, &v);
}

fn append_dec_signed(s: &mut String, n: i64)
    ensures
        final(s)@ == old(s)@ + spec_dec_signed(n as int),
{
    let mut v: Vec<char> = Vec::new();
    push_dec_signed(&mut v, n);
    append_chars(s, &v);
}

fn append_hex32(s: &mut String, x: u32)
    ensures
        final(s)@ == old(s)@ + spec_hex32_string(x),
{
    s.append("0x");
    let mut v: Vec<char> = Vec::new();
    push_hex(&mut v, x as u64, 8, true);
    append_chars(s, &v);
    proof {
        assert(s@ =~= old(s)@ + spec_hex32_string(x));
    }
}

fn append_hex64(s: &mut String, x: u64)
    ensures
        final(s)@ == old(s)@ + spec_hex64_string(x),
{
    s.append("0x");
    let mut v: Vec<char> = Vec::new();
    push_hex(&mut v, x, 16, true);
    append_chars(s, &v);
    proof {
        assert(s@ =~= old(s)@ + spec_hex64_string(x));
    }
}

fn append_timestamp(s: &mut String, ts: &Timestamp)
    ensures
        final(s)@ == old(s)@ + spec_timestamp_string(*ts),
{
    let mut v: Vec<char> = Vec::new();
    push_dec(&mut v, ts.year as u64);
    append_chars(s, &v);
    s.append("-");
    let mut v: Vec<char> = Vec::new();
    push_dec_pad(&mut v, ts.month as u64, 2);
    append_chars(s, &v);
    s.append("-");
    let mut v: Vec<char> = Vec::new();
    push_dec_pad(&mut v, ts.day as u64, 2);
    append_chars(s, &v);
    s.append("T");
    let mut v: Vec<char> = Vec::new();
    push_dec_pad(&mut v, ts.hour as u64, 2);
    append_chars(s, &v);
    s.append(":");
    let mut v: Vec<char> = Vec::new();
    push_dec_pad(&mut v, ts.minute as u64, 2);
    append_chars(s, &v);
    s.append(":");
    let mut v: Vec<char> = Vec::new();
    push_dec_pad(&mut v, ts.second as u64, 2);
    append_chars(s, &v);
    if ts.nanosecond != 0 {
        s.append(".");
        let mut v: Vec<char> = Vec::new();
        push_dec_pad(&mut v, ts.nanosecond as u64, 9);
        append_chars(s, &v);
    }
    s.append("Z");
    proof {
        assert(s@ =~= old(s)@ + spec_timestamp_string(*ts));
    }
}

fn str_bool(b: bool) -> (r: String)
    ensures
        r@ == spec_bool_string(b),
{
    let mut s = String::new();
    if b {
        s.append("true");
    } else {
        s.append("false");
    }
    proof {
        assert(s@ =~= spec_bool_string(b));
    }
    s
}

fn str_dec(n: u64) -> (r: String)
    ensures
        r@ == spec_dec(n as int),
{
    let mut s = String::new();
    append_dec(&mut s, n);
    proof {
        assert(s@ =~= spec_dec(n as int));
    }
    s
}

fn str_dec_signed(n: i64) -> (r: String)
    ensures
        r@ == spec_dec_signed(n as int),
{
    let mut s = String::new();
    append_dec_signed(&mut s, n);
    proof {
        assert(s@ =~= spec_dec_signed(n as int));
    }
    s
}

fn str_hex32(x: u32) -> (r: String)
    ensures
        r@ == spec_hex32_string(x),
{
    let mut s = String::new();
    append_hex32(&mut s, x);
    proof {
        assert(s@ =~= spec_hex32_string(x));
    }
    s
}

fn str_hex64(x: u64) -> (r: String)
    ensures
        r@ == spec_hex64_string(x),
{
    let mut s = String::new();
    append_hex64(&mut s, x);
    proof {
        assert(s@ =~= spec_hex64_string(x));
    }
    s
}

fn str_quoted(t: &str) -> (r: String)
    ensures
        r@ == spec_quoted(t@),
{
    let mut s = String::new();
    s.append("\"");
    s.append(t);
    s.append("\"");
    proof {
        assert(s@ =~= spec_quoted(t@));
    }
    s
}

fn str_quoted_hex32(x: u32) -> (r: String)
    ensures
        r@ == spec_quoted(spec_hex32_string(x)),
{
    let h = str_hex32(x);
    str_quoted(h.as_str())
}

fn str_quoted_hex64(x: u64) -> (r: String)
    ensures
        r@ == spec_quoted(spec_hex64_string(x)),
{
    let h = str_hex64(x);
    str_quoted(h.as_str())
}

fn str_timestamp(ts: &Timestamp) -> (r: String)
    ensures
        r@ == spec_timestamp_string(*ts),
{
    let mut s = String::new();
    append_timestamp(&mut s, ts);
    proof {
        assert(s@ =~= spec_timestamp_string(*ts));
    }
    s
}

fn str_quoted_guid(g: &Guid) -> (r: String)
    ensures
        r@ == spec_quoted(spec_guid_string(*g)),
{
    let f = format_guid(g);
    str_quoted(f.as_str())
}

fn str_quoted_sid(x: &Sid) -> (r: String)
    ensures
        r@ == spec_quoted(spec_sid_string(x.revision, x.authority, x.sub_authorities@)),
{
    let f = format_sid(x);
    str_quoted(f.as_str())
}

fn str_hex_pairs(bytes: &Vec<u8>) -> (r: String)
    ensures
        r@ == spec_hex_pairs(bytes@),
{
    let mut s = String::new();
    let mut i: usize = 0;
    proof {
        assert(s@ =~= spec_hex_pairs(bytes@.take(0)));
    }
    while i < bytes.len()
        invariant
            i <= bytes@.len(),
            s@ == spec_hex_pairs(bytes@.take(i as int)),
        decreases bytes@.len() - i,
    {
        if i > 0 {
            s.append(" ");
        }
        let mut v: Vec<char> = Vec::new();
        push_hex(&mut v, bytes[i] as u64, 2, true);
        append_chars(&mut s, &v);
        proof {
            let t = bytes@.take(i as int + 1);
            assert(t.drop_last() =~= bytes@.take(i as int));
            assert(t.last() == bytes@[i as int]);
            if i == 0 {
                assert(s@ =~= spec_hex_pairs(t));
            } else {
                assert(spec_hex_pairs(t) == spec_hex_pairs(t.drop_last()) + " "@ + spec_hex_upper(
                    t.last() as int,
                    2,
                ));
                assert(s@ =~= spec_hex_pairs(t));
            }
        }
        i = i + 1;
    }
    proof {
        assert(bytes@.take(bytes@.len() as int) =~= bytes@);
    }
    s
}

fn append_joined(s: &mut String, parts: &Vec<String>)
    ensures
        final(s)@ == old(s)@ + spec_join_comma(parts@.map_values(|p: String| p@)),
{
    let ghost all = parts@.map_values(|p: String| p@);
    let mut i: usize = 0;
    proof {
        assert(all.take(0) =~= Seq::<Seq<char>>::empty());
        assert(s@ =~= old(s)@ + spec_join_comma(all.take(0)));
    }
    while i < parts.len()
        invariant
            i <= parts@.len(),
            all == parts@.map_values(|p: String| p@),
            s@ == old(s)@ + spec_join_comma(all.take(i as int)),
        decreases parts@.len() - i,
    {
        if i > 0 {
            s.append(", ");
        }
        s.append(parts[i].as_str());
        proof {
            let t = all.take(i as int + 1);
            assert(t.drop_last() =~= all.take(i as int));
            assert(t.last() == all[i as int]);
            assert(all[i as int] == parts@[i as int]@);
            if i == 0 {
                assert(spec_join_comma(t) == t[0]);
                assert(s@ =~= old(s)@ + spec_join_comma(t));
            } else {
                assert(spec_join_comma(t) == spec_join_comma(t.drop_last()) + ", "@ + t.last());
                assert(s@ =~= old(s)@ + spec_join_comma(t));
            }
        }
        i = i + 1;
    }
    proof {
        assert(all.take(parts@.len() as int) =~= all);
    }
}

/// The display string of one decoded value.
pub open spec fn describe_spec(v: EventVariantValue) -> Seq<char> {
    match v {
        EventVariantValue::Null => "Null"@,
        EventVariantValue::Bool(b) => "Bool("@ + spec_bool_string(b) + ")"@,
        EventVariantValue::SByte(x) => "SByte("@ + spec_dec_signed(x as int) + ")"@,
        EventVariantValue::Int16(x) => "Int16("@ + spec_dec_signed(x as int) + ")"@,
        EventVariantValue::Int32(x) => "Int32("@ + spec_dec_signed(x as int) + ")"@,
        EventVariantValue::Int64(x) => "Int64("@ + spec_dec_signed(x as int) + ")"@,
        EventVariantValue::Byte(x) => "Byte("@ + spec_dec(x as int) + ")"@,
        EventVariantValue::UInt16(x) => "UInt16("@ + spec_dec(x as int) + ")"@,
        EventVariantValue::UInt32(x) => "UInt32("@ + spec_dec(x as int) + ")"@,
        EventVariantValue::UInt64(x) => "UInt64("@ + spec_dec(x as int) + ")"@,
        EventVariantValue::Single(x) => "Single("@ + spec_hex32_string(x) + ")"@,
        EventVariantValue::Double(x) => "Double("@ + spec_hex64_string(x) + ")"@,
        EventVariantValue::FileTime(ts) => "FileTime("@ + spec_timestamp_string(ts) + ")"@,
        EventVariantValue::SysTime(ts) => "SysTime("@ + spec_timestamp_string(ts) + ")"@,
        EventVariantValue::Guid(g) => "Guid("@ + spec_guid_string(g) + ")"@,
        EventVariantValue::HexInt32(x) => "HexInt32("@ + spec_hex32_string(x) + ")"@,
        EventVariantValue::HexInt64(x) => "HexInt64("@ + spec_hex64_string(x) + ")"@,
        EventVariantValue::String(t) => "String("@ + spec_quoted(t@) + ")"@,
        EventVariantValue::AnsiString(t) => "AnsiString("@ + spec_quoted(t@) + ")"@,
        EventVariantValue::Binary(bs) => "Binary("@ + spec_quoted(spec_hex_pairs(bs@)) + ")"@,
        EventVariantValue::Sid(x) => "Sid("@ + spec_sid_string(x.revision, x.authority, x.sub_authorities@) + ")"@,
        EventVariantValue::SizeT(x) => "SizeT("@ + spec_dec(x as int) + ")"@,
        EventVariantValue::EvtHandle(x) => "EvtHandle("@ + spec_dec(x as int) + ")"@,
        EventVariantValue::Xml(t) => "Xml("@ + spec_quoted(t@) + ")"@,
        EventVariantValue::UnknownType(t) => "UnknownType("@ + spec_dec(t as int) + ")"@,
        EventVariantValue::UnknownTypeArr(t) => "UnknownTypeArr("@ + spec_dec(t as int) + ")"@,
        EventVariantValue::BoolArr(xs) => "BoolArr(["@ + spec_join_comma(
            xs@.map(|j: int, x: bool| spec_bool_string(x)),
        ) + "])"@,
        EventVariantValue::SByteArr(xs) => "SByteArr(["@ + spec_join_comma(
            xs@.map(|j: int, x: i8| spec_dec_signed(x as int)),
        ) + "])"@,
        EventVariantValue::Int16Arr(xs) => "Int16Arr(["@ + spec_join_comma(
            xs@.map(|j: int, x: i16| spec_dec_signed(x as int)),
        ) + "])"@,
        EventVariantValue::Int32Arr(xs) => "Int32Arr(["@ + spec_join_comma(
            xs@.map(|j: int, x: i32| spec_dec_signed(x as int)),
        ) + "])"@,
        EventVariantValue::Int64Arr(xs) => "Int64Arr(["@ + spec_join_comma(
            xs@.map(|j: int, x: i64| spec_dec_signed(x as int)),
        ) + "])"@,
        EventVariantValue::ByteArr(xs) => "ByteArr(["@ + spec_join_comma(
            xs@.map(|j: int, x: u8| spec_dec(x as int)),
        ) + "])"@,
        EventVariantValue::UInt16Arr(xs) => "UInt16Arr(["@ + spec_join_comma(
            xs@.map(|j: int, x: u16| spec_dec(x as int)),
        ) + "])"@,
        EventVariantValue::UInt32Arr(xs) => "UInt32Arr(["@ + spec_join_comma(
            xs@.map(|j: int, x: u32| spec_dec(x as int)),
        ) + "])"@,
        EventVariantValue::UInt64Arr(xs) => "UInt64Arr(["@ + spec_join_comma(
            xs@.map(|j: int, x: u64| spec_dec(x as int)),
        ) + "])"@,
        EventVariantValue::SizeTArr(xs) => "SizeTArr(["@ + spec_join_comma(
            xs@.map(|j: int, x: u64| spec_dec(x as int)),
        ) + "])"@,
        EventVariantValue::SingleArr(xs) => "SingleArr(["@ + spec_join_comma(
            xs@.map(|j: int, x: u32| spec_hex32_string(x)),
        ) + "])"@,
        EventVariantValue::DoubleArr(xs) => "DoubleArr(["@ + spec_join_comma(
            xs@.map(|j: int, x: u64| spec_hex64_string(x)),
        ) + "])"@,
        EventVariantValue::HexInt32Arr(xs) => "HexInt32Arr(["@ + spec_join_comma(
            xs@.map(|j: int, x: u32| spec_quoted(spec_hex32_string(x))),
        ) + "])"@,
        EventVariantValue::HexInt64Arr(xs) => "HexInt64Arr(["@ + spec_join_comma(
            xs@.map(|j: int, x: u64| spec_quoted(spec_hex64_string(x))),
        ) + "])"@,
        EventVariantValue::FileTimeArr(xs) => "FileTimeArr(["@ + spec_join_comma(
            xs@.map(|j: int, x: Timestamp| spec_timestamp_string(x)),
        ) + "])"@,
        EventVariantValue::SysTimeArr(xs) => "SysTimeArr(["@ + spec_join_comma(
            xs@.map(|j: int, x: Timestamp| spec_timestamp_string(x)),
        ) + "])"@,
        EventVariantValue::GuidArr(xs) => "GuidArr(["@ + spec_join_comma(
            xs@.map(|j: int, x: Guid| spec_quoted(spec_guid_string(x))),
        ) + "])"@,
        EventVariantValue::SidArr(xs) => "SidArr(["@ + spec_join_comma(
            xs@.map(|j: int, x: Sid| spec_quoted(spec_sid_string(x.revision, x.authority, x.sub_authorities@))),
        ) + "])"@,
        EventVariantValue::StringArr(xs) => "StringArr(["@ + spec_join_comma(
            xs@.map(|j: int, x: String| spec_quoted(x@)),
        ) + "])"@,
        EventVariantValue::AnsiStringArr(xs) => "AnsiStringArr(["@ + spec_join_comma(
            xs@.map(|j: int, x: String| spec_quoted(x@)),
        ) + "])"@,
        EventVariantValue::XmlArr(xs) => "XmlArr(["@ + spec_join_comma(
            xs@.map(|j: int, x: String| spec_quoted(x@)),
        ) + "])"@,
    }
}

impl EventVariantValue {
    /// Render the value for display, as [`describe_spec`] states.
    pub fn describe(&self) -> (r: String)
        ensures
            r@ == describe_spec(*self),
    {
        let mut s = String::new();
        match self {
            EventVariantValue::Null => {
                s.append("Null");
            },
            EventVariantValue::Bool(b) => {
                s.append("Bool(");
                if *b {
                    s.append("true");
                } else {
                    s.append("false");
                }
                s.append(")");
            },
            EventVariantValue::SByte(x) => {
                s.append("SByte(");
                append_dec_signed(&mut s, *x as i64);
                s.append(")");
            },
            EventVariantValue::Int16(x) => {
                s.append("Int16(");
                append_dec_signed(&mut s, *x as i64);
                s.append(")");
            },
            EventVariantValue::Int32(x) => {
                s.append("Int32(");
                append_dec_signed(&mut s, *x as i64);
                s.append(")");
            },
            EventVariantValue::Int64(x) => {
                s.append("Int64(");
                append_dec_signed(&mut s, *x);
                s.append(")");
            },
            EventVariantValue::Byte(x) => {
                s.append("Byte(");
                append_dec(&mut s, *x as u64);
                s.append(")");
            },
            EventVariantValue::UInt16(x) => {
                s.append("UInt16(");
                append_dec(&mut s, *x as u64);
                s.append(")");
            },
            EventVariantValue::UInt32(x) => {
                s.append("UInt32(");
                append_dec(&mut s, *x as u64);
                s.append(")");
            },
            EventVariantValue::UInt64(x) => {
                s.append("UInt64(");
                append_dec(&mut s, *x);
                s.append(")");
            },
            EventVariantValue::Single(x) => {
                s.append("Single(");
                append_hex32(&mut s, *x);
                s.append(")");
            },
            EventVariantValue::Double(x) => {
                s.append("Double(");
                append_hex64(&mut s, *x);
                s.append(")");
            },
            EventVariantValue::FileTime(ts) => {
                s.append("FileTime(");
                append_timestamp(&mut s, ts);
                s.append(")");
            },
            EventVariantValue::SysTime(ts) => {
                s.append("SysTime(");
                append_timestamp(&mut s, ts);
                s.append(")");
            },
            EventVariantValue::Guid(g) => {
                s.append("Guid(");
                let f = format_guid(g);
                s.append(f.as_str());
                s.append(")");
            },
            EventVariantValue::HexInt32(x) => {
                s.append("HexInt32(");
                append_hex32(&mut s, *x);
                s.append(")");
            },
            EventVariantValue::HexInt64(x) => {
                s.append("HexInt64(");
                append_hex64(&mut s, *x);
                s.append(")");
            },
            EventVariantValue::String(t) => {
                s.append("String(");
                let q = str_quoted(t.as_str());
                s.append(q.as_str());
                s.append(")");
            },
            EventVariantValue::AnsiString(t) => {
                s.append("AnsiString(");
                let q = str_quoted(t.as_str());
                s.append(q.as_str());
                s.append(")");
            },
            EventVariantValue::Binary(bs) => {
                s.append("Binary(");
                let h = str_hex_pairs(bs);
                let q = str_quoted(h.as_str());
                s.append(q.as_str());
                s.append(")");
            },
            EventVariantValue::Sid(x) => {
                s.append("Sid(");
                let f = format_sid(x);
                s.append(f.as_str());
                s.append(")");
            },
            EventVariantValue::SizeT(x) => {
                s.append("SizeT(");
                append_dec(&mut s, *x);
                s.append(")");
            },
            EventVariantValue::EvtHandle(x) => {
                s.append("EvtHandle(");
                append_dec(&mut s, *x);
                s.append(")");
            },
            EventVariantValue::Xml(t) => {
                s.append("Xml(");
                let q = str_quoted(t.as_str());
                s.append(q.as_str());
                s.append(")");
            },
            EventVariantValue::UnknownType(t) => {
                s.append("UnknownType(");
                append_dec(&mut s, *t as u64);
                s.append(")");
            },
            EventVariantValue::UnknownTypeArr(t) => {
                s.append("UnknownTypeArr(");
                append_dec(&mut s, *t as u64);
                s.append(")");
            },
            EventVariantValue::BoolArr(xs) => {
                s.append("BoolArr([");
                let mut parts: Vec<String> = Vec::new();
                let mut i: usize = 0;
                while i < xs.len()
                    invariant
                        i <= xs@.len(),
                        parts@.len() == i,
                        forall|j: int|
                            0 <= j < i ==> (#[trigger] parts@[j])@ == xs@.map(
                                |j: int, x: bool| spec_bool_string(x),
                            )[j],
                    decreases xs@.len() - i,
                {
                    let p = str_bool(xs[i]);
                    parts.push(p);
                    i = i + 1;
                }
                proof {
                    assert(parts@.map_values(|p: String| p@) =~= xs@.map(
                        |j: int, x: bool| spec_bool_string(x),
                    ));
                }
                append_joined(&mut s, &parts);
                s.append("])");
            },
            EventVariantValue::SByteArr(xs) => {
                s.append("SByteArr([");
                let mut parts: Vec<String> = Vec::new();
                let mut i: usize = 0;
                while i < xs.len()
                    invariant
                        i <= xs@.len(),
                        parts@.len() == i,
                        forall|j: int|
                            0 <= j < i ==> (#[trigger] parts@[j])@ == xs@.map(
                                |j: int, x: i8| spec_dec_signed(x as int),
                            )[j],
                    decreases xs@.len() - i,
                {
                    let p = str_dec_signed(xs[i] as i64);
                    parts.push(p);
                    i = i + 1;
                }
                proof {
                    assert(parts@.map_values(|p: String| p@) =~= xs@.map(
                        |j: int, x: i8| spec_dec_signed(x as int),
                    ));
                }
                append_joined(&mut s, &parts);
                s.append("])");
            },
            EventVariantValue::Int16Arr(xs) => {
                s.append("Int16Arr([");
                let mut parts: Vec<String> = Vec::new();
                let mut i: usize = 0;
                while i < xs.len()
                    invariant
                        i <= xs@.len(),
                        parts@.len() == i,
                        forall|j: int|
                            0 <= j < i ==> (#[trigger] parts@[j])@ == xs@.map(
                                |j: int, x: i16| spec_dec_signed(x as int),
                            )[j],
                    decreases xs@.len() - i,
                {
                    let p = str_dec_signed(xs[i] as i64);
                    parts.push(p);
                    i = i + 1;
                }
                proof {
                    assert(parts@.map_values(|p: String| p@) =~= xs@.map(
                        |j: int, x: i16| spec_dec_signed(x as int),
                    ));
                }
                append_joined(&mut s, &parts);
                s.append("])");
            },
            EventVariantValue::Int32Arr(xs) => {
                s.append("Int32Arr([");
                let mut parts: Vec<String> = Vec::new();
                let mut i: usize = 0;
                while i < xs.len()
                    invariant
                        i <= xs@.len(),
                        parts@.len() == i,
                        forall|j: int|
                            0 <= j < i ==> (#[trigger] parts@[j])@ == xs@.map(
                                |j: int, x: i32| spec_dec_signed(x as int),
                            )[j],
                    decreases xs@.len() - i,
                {
                    let p = str_dec_signed(xs[i] as i64);
                    parts.push(p);
                    i = i + 1;
                }
                proof {
                    assert(parts@.map_values(|p: String| p@) =~= xs@.map(
                        |j: int, x: i32| spec_dec_signed(x as int),
                    ));
                }
                append_joined(&mut s, &parts);
                s.append("])");
            },
            EventVariantValue::Int64Arr(xs) => {
                s.append("Int64Arr([");
                let mut parts: Vec<String> = Vec::new();
                let mut i: usize = 0;
                while i < xs.len()
                    invariant
                        i <= xs@.len(),
                        parts@.len() == i,
                        forall|j: int|
                            0 <= j < i ==> (#[trigger] parts@[j])@ == xs@.map(
                                |j: int, x: i64| spec_dec_signed(x as int),
                            )[j],
                    decreases xs@.len() - i,
                {
                    let p = str_dec_signed(xs[i]);
                    parts.push(p);
                    i = i + 1;
                }
                proof {
                    assert(parts@.map_values(|p: String| p@) =~= xs@.map(
                        |j: int, x: i64| spec_dec_signed(x as int),
                    ));
                }
                append_joined(&mut s, &parts);
                s.append("])");
            },
            EventVariantValue::ByteArr(xs) => {
                s.append("ByteArr([");
                let mut parts: Vec<String> = Vec::new();
                let mut i: usize = 0;
                while i < xs.len()
                    invariant
                        i <= xs@.len(),
                        parts@.len() == i,
                        forall|j: int|
                            0 <= j < i ==> (#[trigger] parts@[j])@ == xs@.map(
                                |j: int, x: u8| spec_dec(x as int),
                            )[j],
                    decreases xs@.len() - i,
                {
                    let p = str_dec(xs[i] as u64);
                    parts.push(p);
                    i = i + 1;
                }
                proof {
                    assert(parts@.map_values(|p: String| p@) =~= xs@.map(
                        |j: int, x: u8| spec_dec(x as int),
                    ));
                }
                append_joined(&mut s, &parts);
                s.append("])");
            },
            EventVariantValue::UInt16Arr(xs) => {
                s.append("UInt16Arr([");
                let mut parts: Vec<String> = Vec::new();
                let mut i: usize = 0;
                while i < xs.len()
                    invariant
                        i <= xs@.len(),
                        parts@.len() == i,
                        forall|j: int|
                            0 <= j < i ==> (#[trigger] parts@[j])@ == xs@.map(
                                |j: int, x: u16| spec_dec(x as int),
                            )[j],
                    decreases xs@.len() - i,
                {
                    let p = str_dec(xs[i] as u64);
                    parts.push(p);
                    i = i + 1;
                }
                proof {
                    assert(parts@.map_values(|p: String| p@) =~= xs@.map(
                        |j: int, x: u16| spec_dec(x as int),
                    ));
                }
                append_joined(&mut s, &parts);
                s.append("])");
            },
            EventVariantValue::UInt32Arr(xs) => {
                s.append("UInt32Arr([");
                let mut parts: Vec<String> = Vec::new();
                let mut i: usize = 0;
                while i < xs.len()
                    invariant
                        i <= xs@.len(),
                        parts@.len() == i,
                        forall|j: int|
                            0 <= j < i ==> (#[trigger] parts@[j])@ == xs@.map(
                                |j: int, x: u32| spec_dec(x as int),
                            )[j],
                    decreases xs@.len() - i,
                {
                    let p = str_dec(xs[i] as u64);
                    parts.push(p);
                    i = i + 1;
                }
                proof {
                    assert(parts@.map_values(|p: String| p@) =~= xs@.map(
                        |j: int, x: u32| spec_dec(x as int),
                    ));
                }
                append_joined(&mut s, &parts);
                s.append("])");
            },
            EventVariantValue::UInt64Arr(xs) => {
                s.append("UInt64Arr([");
                let mut parts: Vec<String> = Vec::new();
                let mut i: usize = 0;
                while i < xs.len()
                    invariant
                        i <= xs@.len(),
                        parts@.len() == i,
                        forall|j: int|
                            0 <= j < i ==> (#[trigger] parts@[j])@ == xs@.map(
                                |j: int, x: u64| spec_dec(x as int),
                            )[j],
                    decreases xs@.len() - i,
                {
                    let p = str_dec(xs[i]);
                    parts.push(p);
                    i = i + 1;
                }
                proof {
                    assert(parts@.map_values(|p: String| p@) =~= xs@.map(
                        |j: int, x: u64| spec_dec(x as int),
                    ));
                }
                append_joined(&mut s, &parts);
                s.append("])");
            },
            EventVariantValue::SizeTArr(xs) => {
                s.append("SizeTArr([");
                let mut parts: Vec<String> = Vec::new();
                let mut i: usize = 0;
                while i < xs.len()
                    invariant
                        i <= xs@.len(),
                        parts@.len() == i,
                        forall|j: int|
                            0 <= j < i ==> (#[trigger] parts@[j])@ == xs@.map(
                                |j: int, x: u64| spec_dec(x as int),
                            )[j],
                    decreases xs@.len() - i,
                {
                    let p = str_dec(xs[i]);
                    parts.push(p);
                    i = i + 1;
                }
                proof {
                    assert(parts@.map_values(|p: String| p@) =~= xs@.map(
                        |j: int, x: u64| spec_dec(x as int),
                    ));
                }
                append_joined(&mut s, &parts);
                s.append("])");
            },
            EventVariantValue::SingleArr(xs) => {
                s.append("SingleArr([");
                let mut parts: Vec<String> = Vec::new();
                let mut i: usize = 0;
                while i < xs.len()
                    invariant
                        i <= xs@.len(),
                        parts@.len() == i,
                        forall|j: int|
                            0 <= j < i ==> (#[trigger] parts@[j])@ == xs@.map(
                                |j: int, x: u32| spec_hex32_string(x),
                            )[j],
                    decreases xs@.len() - i,
                {
                    let p = str_hex32(xs[i]);
                    parts.push(p);
                    i = i + 1;
                }
                proof {
                    assert(parts@.map_values(|p: String| p@) =~= xs@.map(
                        |j: int, x: u32| spec_hex32_string(x),
                    ));
                }
                append_joined(&mut s, &parts);
                s.append("])");
            },
            EventVariantValue::DoubleArr(xs) => {
                s.append("DoubleArr([");
                let mut parts: Vec<String> = Vec::new();
                let mut i: usize = 0;
                while i < xs.len()
                    invariant
                        i <= xs@.len(),
                        parts@.len() == i,
                        forall|j: int|
                            0 <= j < i ==> (#[trigger] parts@[j])@ == xs@.map(
                                |j: int, x: u64| spec_hex64_string(x),
                            )[j],
                    decreases xs@.len() - i,
                {
                    let p = str_hex64(xs[i]);
                    parts.push(p);
                    i = i + 1;
                }
                proof {
                    assert(parts@.map_values(|p: String| p@) =~= xs@.map(
                        |j: int, x: u64| spec_hex64_string(x),
                    ));
                }
                append_joined(&mut s, &parts);
                s.append("])");
            },
            EventVariantValue::HexInt32Arr(xs) => {
                s.append("HexInt32Arr([");
                let mut parts: Vec<String> = Vec::new();
                let mut i: usize = 0;
                while i < xs.len()
                    invariant
                        i <= xs@.len(),
                        parts@.len() == i,
                        forall|j: int|
                            0 <= j < i ==> (#[trigger] parts@[j])@ == xs@.map(
                                |j: int, x: u32| spec_quoted(spec_hex32_string(x)),
                            )[j],
                    decreases xs@.len() - i,
                {
                    let p = str_quoted_hex32(xs[i]);
                    parts.push(p);
                    i = i + 1;
                }
                proof {
                    assert(parts@.map_values(|p: String| p@) =~= xs@.map(
                        |j: int, x: u32| spec_quoted(spec_hex32_string(x)),
                    ));
                }
                append_joined(&mut s, &parts);
                s.append("])");
            },
            EventVariantValue::HexInt64Arr(xs) => {
                s.append("HexInt64Arr([");
                let mut parts: Vec<String> = Vec::new();
                let mut i: usize = 0;
                while i < xs.len()
                    invariant
                        i <= xs@.len(),
                        parts@.len() == i,
                        forall|j: int|
                            0 <= j < i ==> (#[trigger] parts@[j])@ == xs@.map(
                                |j: int, x: u64| spec_quoted(spec_hex64_string(x)),
                            )[j],
                    decreases xs@.len() - i,
                {
                    let p = str_quoted_hex64(xs[i]);
                    parts.push(p);
                    i = i + 1;
                }
                proof {
                    assert(parts@.map_values(|p: String| p@) =~= xs@.map(
                        |j: int, x: u64| spec_quoted(spec_hex64_string(x)),
                    ));
                }
                append_joined(&mut s, &parts);
                s.append("])");
            },
            EventVariantValue::FileTimeArr(xs) => {
                s.append("FileTimeArr([");
                let mut parts: Vec<String> = Vec::new();
                let mut i: usize = 0;
                while i < xs.len()
                    invariant
                        i <= xs@.len(),
                        parts@.len() == i,
                        forall|j: int|
                            0 <= j < i ==> (#[trigger] parts@[j])@ == xs@.map(
                                |j: int, x: Timestamp| spec_timestamp_string(x),
                            )[j],
                    decreases xs@.len() - i,
                {
                    let p = str_timestamp(&xs[i]);
                    parts.push(p);
                    i = i + 1;
                }
                proof {
                    assert(parts@.map_values(|p: String| p@) =~= xs@.map(
                        |j: int, x: Timestamp| spec_timestamp_string(x),
                    ));
                }
                append_joined(&mut s, &parts);
                s.append("])");
            },
            EventVariantValue::SysTimeArr(xs) => {
                s.append("SysTimeArr([");
                let mut parts: Vec<String> = Vec::new();
                let mut i: usize = 0;
                while i < xs.len()
                    invariant
                        i <= xs@.len(),
                        parts@.len() == i,
                        forall|j: int|
                            0 <= j < i ==> (#[trigger] parts@[j])@ == xs@.map(
                                |j: int, x: Timestamp| spec_timestamp_string(x),
                            )[j],
                    decreases xs@.len() - i,
                {
                    let p = str_timestamp(&xs[i]);
                    parts.push(p);
                    i = i + 1;
                }
                proof {
                    assert(parts@.map_values(|p: String| p@) =~= xs@.map(
                        |j: int, x: Timestamp| spec_timestamp_string(x),
                    ));
                }
                append_joined(&mut s, &parts);
                s.append("])");
            },
            EventVariantValue::GuidArr(xs) => {
                s.append("GuidArr([");
                let mut parts: Vec<String> = Vec::new();
                let mut i: usize = 0;
                while i < xs.len()
                    invariant
                        i <= xs@.len(),
                        parts@.len() == i,
                        forall|j: int|
                            0 <= j < i ==> (#[trigger] parts@[j])@ == xs@.map(
                                |j: int, x: Guid| spec_quoted(spec_guid_string(x)),
                            )[j],
                    decreases xs@.len() - i,
                {
                    let p = str_quoted_guid(&xs[i]);
                    parts.push(p);
                    i = i + 1;
                }
                proof {
                    assert(parts@.map_values(|p: String| p@) =~= xs@.map(
                        |j: int, x: Guid| spec_quoted(spec_guid_string(x)),
                    ));
                }
                append_joined(&mut s, &parts);
                s.append("])");
            },
            EventVariantValue::SidArr(xs) => {
                s.append("SidArr([");
                let mut parts: Vec<String> = Vec::new();
                let mut i: usize = 0;
                while i < xs.len()
                    invariant
                        i <= xs@.len(),
                        parts@.len() == i,
                        forall|j: int|
                            0 <= j < i ==> (#[trigger] parts@[j])@ == xs@.map(
                                |j: int, x: Sid| spec_quoted(spec_sid_string(x.revision, x.authority, x.sub_authorities@)),
                            )[j],
                    decreases xs@.len() - i,
                {
                    let p = str_quoted_sid(&xs[i]);
                    parts.push(p);
                    i = i + 1;
                }
                proof {
                    assert(parts@.map_values(|p: String| p@) =~= xs@.map(
                        |j: int, x: Sid| spec_quoted(spec_sid_string(x.revision, x.authority, x.sub_authorities@)),
                    ));
                }
                append_joined(&mut s, &parts);
                s.append("])");
            },
            EventVariantValue::StringArr(xs) => {
                s.append("StringArr([");
                let mut parts: Vec<String> = Vec::new();
                let mut i: usize = 0;
                while i < xs.len()
                    invariant
                        i <= xs@.len(),
                        parts@.len() == i,
                        forall|j: int|
                            0 <= j < i ==> (#[trigger] parts@[j])@ == xs@.map(
                                |j: int, x: String| spec_quoted(x@),
                            )[j],
                    decreases xs@.len() - i,
                {
                    let p = str_quoted(xs[i].as_str());
                    parts.push(p);
                    i = i + 1;
                }
                proof {
                    assert(parts@.map_values(|p: String| p@) =~= xs@.map(
                        |j: int, x: String| spec_quoted(x@),
                    ));
                }
                append_joined(&mut s, &parts);
                s.append("])");
            },
            EventVariantValue::AnsiStringArr(xs) => {
                s.append("AnsiStringArr([");
                let mut parts: Vec<String> = Vec::new();
                let mut i: usize = 0;
                while i < xs.len()
                    invariant
                        i <= xs@.len(),
                        parts@.len() == i,
                        forall|j: int|
                            0 <= j < i ==> (#[trigger] parts@[j])@ == xs@.map(
                                |j: int, x: String| spec_quoted(x@),
                            )[j],
                    decreases xs@.len() - i,
                {
                    let p = str_quoted(xs[i].as_str());
                    parts.push(p);
                    i = i + 1;
                }
                proof {
                    assert(parts@.map_values(|p: String| p@) =~= xs@.map(
                        |j: int, x: String| spec_quoted(x@),
                    ));
                }
                append_joined(&mut s, &parts);
                s.append("])");
            },
            EventVariantValue::XmlArr(xs) => {
                s.append("XmlArr([");
                let mut parts: Vec<String> = Vec::new();
                let mut i: usize = 0;
                while i < xs.len()
                    invariant
                        i <= xs@.len(),
                        parts@.len() == i,
                        forall|j: int|
                            0 <= j < i ==> (#[trigger] parts@[j])@ == xs@.map(
                                |j: int, x: String| spec_quoted(x@),
                            )[j],
                    decreases xs@.len() - i,
                {
                    let p = str_quoted(xs[i].as_str());
                    parts.push(p);
                    i = i + 1;
                }
                proof {
                    assert(parts@.map_values(|p: String| p@) =~= xs@.map(
                        |j: int, x: String| spec_quoted(x@),
                    ));
                }
                append_joined(&mut s, &parts);
                s.append("])");
            },
        }
        proof {
            assert(s@ =~= describe_spec(*self));
        }
        s
    }
}

} // verus!
