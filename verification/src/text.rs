//! String decoding: UTF-16 and UTF-8 payloads to owned strings.
//!
//! The spec functions define which unit sequences are well formed and which
//! Unicode code points they carry; the decoders are proved exact against
//! them, rejecting invalid encodings instead of reading past the payload.

use vstd::prelude::*;

verus! {

/// Why a string payload was refused.
#[derive(Clone, Copy, PartialEq, Eq, Structural, Debug)]
pub enum TextError {
    /// A wide payload does not split into whole 16-bit units.
    OddWideLength,
    /// Unpaired or misordered surrogate units.
    InvalidUtf16,
    /// A byte sequence that is not well-formed UTF-8.
    InvalidUtf8,
}

/// The code points carried by a sequence of 16-bit units, or `None` when a
/// surrogate is unpaired or misordered.
pub open spec fn utf16_decode(units: Seq<u16>) -> Option<Seq<u32>>
    decreases units.len(),
{
    if units.len() == 0 {
        Some(Seq::<u32>::empty())
    } else if units[0] < 0xD800 || units[0] >= 0xE000 {
        match utf16_decode(units.skip(1)) {
            Option::None => Option::<Seq<u32>>::None,
            Option::Some(rest) => Some(seq![units[0] as u32] + rest),
        }
    } else if units[0] < 0xDC00 {
        if units.len() >= 2 && 0xDC00 <= units[1] < 0xE000 {
            match utf16_decode(units.skip(2)) {
                Option::None => Option::<Seq<u32>>::None,
                Option::Some(rest) => Some(
                    seq![((0x10000 + (units[0] - 0xD800) * 0x400 + (units[1] - 0xDC00)) as u32)]
                        + rest,
                ),
            }
        } else {
            None
        }
    } else {
        None
    }
}

/// The code points of a character sequence.
pub open spec fn chars_to_code_points(cs: Seq<char>) -> Seq<u32> {
    cs.map(|i: int, c: char| c as u32)
}

/// Relies on `char::from_u32`: returns the character of a code point exactly
/// when the value is a Unicode scalar (below the surrogate range, or between
/// it and 0x110000).
pub assume_specification[ char::from_u32 ](v: u32) -> (r: Option<char>)
    ensures
        r is Some <==> (v < 0xD800 || (0xE000 <= v < 0x110000)),
        r matches Some(c) ==> c as u32 == v,
;

/// Relies on `String::push`: appending one character to a string appends
/// exactly that character to its contents.
#[verifier::external_body]
fn push_char(s: &mut String, c: char)
    ensures
        final(s)@ == old(s)@ + seq![c],
{
    s.push(c);
}

/// The string of exactly the given characters.
pub fn chars_to_string(cs: &Vec<char>) -> (r: String)
    ensures
        r@ == cs@,
{
    let mut s = String::new();
    let mut i: usize = 0;
    while i < cs.len()
        invariant
            i <= cs@.len(),
            s@ == cs@.take(i as int),
        decreases cs@.len() - i,
    {
        push_char(&mut s, cs[i]);
        proof {
            assert(cs@.take(i as int) + seq![cs@[i as int]] =~= cs@.take(i as int + 1));
        }
        i = i + 1;
    }
    proof {
        assert(cs@.take(cs@.len() as int) =~= cs@);
    }
    s
}

/// Decode a sequence of 16-bit units as UTF-16. Exact: succeeds with the
/// characters of the carried code points exactly when the sequence is well
/// formed.
pub fn utf16_to_chars(units: &Vec<u16>) -> (r: Result<Vec<char>, TextError>)
    ensures
        r matches Ok(cs) ==> utf16_decode(units@) == Some(chars_to_code_points(cs@)),
        r is Err <==> utf16_decode(units@) is None,
        r matches Err(e) ==> e == TextError::InvalidUtf16,
{
    let mut out: Vec<char> = Vec::new();
    let mut i: usize = 0;
    proof {
        assert(units@.skip(0) =~= units@);
        assert(chars_to_code_points(out@) =~= Seq::<u32>::empty());
        if utf16_decode(units@) is Some {
            let all = utf16_decode(units@)->Some_0;
            assert(chars_to_code_points(out@) + all =~= all);
        }
    }
    loop
        invariant
            i <= units.len(),
            utf16_decode(units@) == (match utf16_decode(units@.skip(i as int)) {
                Option::None => Option::<Seq<u32>>::None,
                Option::Some(rest) => Some(chars_to_code_points(out@) + rest),
            }),
        decreases units.len() - i,
    {
        if i >= units.len() {
            proof {
                assert(units@.skip(i as int) =~= Seq::<u16>::empty());
                assert(utf16_decode(units@.skip(i as int)) == Some(Seq::<u32>::empty()));
                assert(chars_to_code_points(out@) + Seq::<u32>::empty() =~= chars_to_code_points(
                    out@,
                ));
            }
            return Ok(out);
        }
        let ghost s_i = units@.skip(i as int);
        let u = units[i];
        proof {
            assert(s_i[0] == units@[i as int]);
        }
        if u < 0xD800 || u >= 0xE000 {
            let c = match char::from_u32(u as u32) {
                Some(c) => c,
                None => {
                    proof {
                        assert(false);
                    }
                    return Err(TextError::InvalidUtf16);
                },
            };
            proof {
                assert(s_i.skip(1) =~= units@.skip(i as int + 1));
                assert(utf16_decode(s_i) == (match utf16_decode(units@.skip(i as int + 1)) {
                    Option::None => Option::<Seq<u32>>::None,
                    Option::Some(rest) => Some(seq![u as u32] + rest),
                }));
            }
            out.push(c);
            proof {
                assert(chars_to_code_points(out@) =~= chars_to_code_points(out@.drop_last())
                    + seq![u as u32]);
                if utf16_decode(units@.skip(i as int + 1)) is Some {
                    let rest = utf16_decode(units@.skip(i as int + 1))->Some_0;
                    assert(chars_to_code_points(out@.drop_last()) + (seq![u as u32] + rest)
                        =~= chars_to_code_points(out@) + rest);
                }
            }
            i = i + 1;
        } else if u < 0xDC00 {
            if i + 1 < units.len() {
                let v = units[i + 1];
                proof {
                    assert(s_i[1] == units@[i as int + 1]);
                }
                if 0xDC00 <= v && v < 0xE000 {
                    let cp: u32 = 0x10000 + ((u - 0xD800) as u32) * 0x400 + ((v - 0xDC00) as u32);
                    let c = match char::from_u32(cp) {
                        Some(c) => c,
                        None => {
                            proof {
                                assert(false);
                            }
                            return Err(TextError::InvalidUtf16);
                        },
                    };
                    proof {
                        assert(s_i.skip(2) =~= units@.skip(i as int + 2));
                        assert(utf16_decode(s_i) == (match utf16_decode(
                            units@.skip(i as int + 2),
                        ) {
                            Option::None => Option::<Seq<u32>>::None,
                            Option::Some(rest) => Some(seq![cp] + rest),
                        }));
                    }
                    out.push(c);
                    proof {
                        assert(chars_to_code_points(out@) =~= chars_to_code_points(
                            out@.drop_last(),
                        ) + seq![cp]);
                        if utf16_decode(units@.skip(i as int + 2)) is Some {
                            let rest = utf16_decode(units@.skip(i as int + 2))->Some_0;
                            assert(chars_to_code_points(out@.drop_last()) + (seq![cp] + rest)
                                =~= chars_to_code_points(out@) + rest);
                        }
                    }
                    i = i + 2;
                } else {
                    return Err(TextError::InvalidUtf16);
                }
            } else {
                return Err(TextError::InvalidUtf16);
            }
        } else {
            return Err(TextError::InvalidUtf16);
        }
    }
}

/// A UTF-8 continuation byte.
pub open spec fn utf8_cont(b: u8) -> bool {
    0x80 <= b <= 0xBF
}

/// The allowed second byte of a three-byte sequence, which depends on the
/// lead byte: overlong encodings and surrogate code points are excluded.
pub open spec fn utf8_second_of_three(b0: u8, b1: u8) -> bool {
    if b0 == 0xE0 {
        0xA0 <= b1 <= 0xBF
    } else if b0 == 0xED {
        0x80 <= b1 <= 0x9F
    } else {
        utf8_cont(b1)
    }
}

/// The allowed second byte of a four-byte sequence: overlong encodings and
/// code points past 0x10FFFF are excluded.
pub open spec fn utf8_second_of_four(b0: u8, b1: u8) -> bool {
    if b0 == 0xF0 {
        0x90 <= b1 <= 0xBF
    } else if b0 == 0xF4 {
        0x80 <= b1 <= 0x8F
    } else {
        utf8_cont(b1)
    }
}

/// The code points carried by a well-formed UTF-8 byte sequence, or `None`
/// when the sequence is ill-formed.
pub open spec fn utf8_decode(bytes: Seq<u8>) -> Option<Seq<u32>>
    decreases bytes.len(),
{
    if bytes.len() == 0 {
        Some(Seq::<u32>::empty())
    } else if bytes[0] < 0x80 {
        match utf8_decode(bytes.skip(1)) {
            Option::None => Option::<Seq<u32>>::None,
            Option::Some(rest) => Some(seq![bytes[0] as u32] + rest),
        }
    } else if 0xC2 <= bytes[0] <= 0xDF {
        if bytes.len() >= 2 && utf8_cont(bytes[1]) {
            match utf8_decode(bytes.skip(2)) {
                Option::None => Option::<Seq<u32>>::None,
                Option::Some(rest) => Some(
                    seq![(((bytes[0] - 0xC2 + 2) * 0x40 + (bytes[1] - 0x80)) as u32)] + rest,
                ),
            }
        } else {
            None
        }
    } else if 0xE0 <= bytes[0] <= 0xEF {
        if bytes.len() >= 3 && utf8_second_of_three(bytes[0], bytes[1]) && utf8_cont(bytes[2]) {
            match utf8_decode(bytes.skip(3)) {
                Option::None => Option::<Seq<u32>>::None,
                Option::Some(rest) => Some(
                    seq![(((bytes[0] - 0xE0) * 0x1000 + (bytes[1] - 0x80) * 0x40 + (bytes[2]
                        - 0x80)) as u32)] + rest,
                ),
            }
        } else {
            None
        }
    } else if 0xF0 <= bytes[0] <= 0xF4 {
        if bytes.len() >= 4 && utf8_second_of_four(bytes[0], bytes[1]) && utf8_cont(bytes[2])
            && utf8_cont(bytes[3]) {
            match utf8_decode(bytes.skip(4)) {
                Option::None => Option::<Seq<u32>>::None,
                Option::Some(rest) => Some(
                    seq![(((bytes[0] - 0xF0) * 0x40000 + (bytes[1] - 0x80) * 0x1000 + (bytes[2]
                        - 0x80) * 0x40 + (bytes[3] - 0x80)) as u32)] + rest,
                ),
            }
        } else {
            None
        }
    } else {
        None
    }
}

/// Decode a byte sequence as UTF-8. Exact: succeeds with the characters of
/// the carried code points exactly when the sequence is well formed.
pub fn utf8_to_chars(bytes: &Vec<u8>) -> (r: Result<Vec<char>, TextError>)
    ensures
        r matches Ok(cs) ==> utf8_decode(bytes@) == Some(chars_to_code_points(cs@)),
        r is Err <==> utf8_decode(bytes@) is None,
        r matches Err(e) ==> e == TextError::InvalidUtf8,
{
    let mut out: Vec<char> = Vec::new();
    let mut i: usize = 0;
    proof {
        assert(bytes@.skip(0) =~= bytes@);
        assert(chars_to_code_points(out@) =~= Seq::<u32>::empty());
        if utf8_decode(bytes@) is Some {
            let all = utf8_decode(bytes@)->Some_0;
            assert(chars_to_code_points(out@) + all =~= all);
        }
    }
    loop
        invariant
            i <= bytes.len(),
            utf8_decode(bytes@) == (match utf8_decode(bytes@.skip(i as int)) {
                Option::None => Option::<Seq<u32>>::None,
                Option::Some(rest) => Some(chars_to_code_points(out@) + rest),
            }),
        decreases bytes.len() - i,
    {
        if i >= bytes.len() {
            proof {
                assert(bytes@.skip(i as int) =~= Seq::<u8>::empty());
                assert(chars_to_code_points(out@) + Seq::<u32>::empty() =~= chars_to_code_points(
                    out@,
                ));
            }
            return Ok(out);
        }
        let ghost s_i = bytes@.skip(i as int);
        let b0 = bytes[i];
        proof {
            assert(s_i[0] == bytes@[i as int]);
        }
        let step: usize;
        let cp: u32;
        if b0 < 0x80 {
            step = 1;
            cp = b0 as u32;
        } else if 0xC2 <= b0 && b0 <= 0xDF {
            if bytes.len() - i < 2 {
                return Err(TextError::InvalidUtf8);
            }
            let b1 = bytes[i + 1];
            proof {
                assert(s_i[1] == bytes@[i as int + 1]);
            }
            if !(0x80 <= b1 && b1 <= 0xBF) {
                return Err(TextError::InvalidUtf8);
            }
            step = 2;
            cp = ((b0 - 0xC2 + 2) as u32) * 0x40 + ((b1 - 0x80) as u32);
        } else if 0xE0 <= b0 && b0 <= 0xEF {
            if bytes.len() - i < 3 {
                return Err(TextError::InvalidUtf8);
            }
            let b1 = bytes[i + 1];
            let b2 = bytes[i + 2];
            proof {
                assert(s_i[1] == bytes@[i as int + 1]);
                assert(s_i[2] == bytes@[i as int + 2]);
            }
            let b1_ok = if b0 == 0xE0 {
                0xA0 <= b1 && b1 <= 0xBF
            } else if b0 == 0xED {
                0x80 <= b1 && b1 <= 0x9F
            } else {
                0x80 <= b1 && b1 <= 0xBF
            };
            if !b1_ok || !(0x80 <= b2 && b2 <= 0xBF) {
                return Err(TextError::InvalidUtf8);
            }
            step = 3;
            cp = ((b0 - 0xE0) as u32) * 0x1000 + ((b1 - 0x80) as u32) * 0x40 + ((b2 - 0x80) as u32);
        } else if 0xF0 <= b0 && b0 <= 0xF4 {
            if bytes.len() - i < 4 {
                return Err(TextError::InvalidUtf8);
            }
            let b1 = bytes[i + 1];
            let b2 = bytes[i + 2];
            let b3 = bytes[i + 3];
            proof {
                assert(s_i[1] == bytes@[i as int + 1]);
                assert(s_i[2] == bytes@[i as int + 2]);
                assert(s_i[3] == bytes@[i as int + 3]);
            }
            let b1_ok = if b0 == 0xF0 {
                0x90 <= b1 && b1 <= 0xBF
            } else if b0 == 0xF4 {
                0x80 <= b1 && b1 <= 0x8F
            } else {
                0x80 <= b1 && b1 <= 0xBF
            };
            if !b1_ok || !(0x80 <= b2 && b2 <= 0xBF) || !(0x80 <= b3 && b3 <= 0xBF) {
                return Err(TextError::InvalidUtf8);
            }
            step = 4;
            cp = ((b0 - 0xF0) as u32) * 0x40000 + ((b1 - 0x80) as u32) * 0x1000 + ((b2
                - 0x80) as u32) * 0x40 + ((b3 - 0x80) as u32);
        } else {
            return Err(TextError::InvalidUtf8);
        }
        let c = match char::from_u32(cp) {
            Some(c) => c,
            None => {
                proof {
                    assert(false);
                }
                return Err(TextError::InvalidUtf8);
            },
        };
        proof {
            assert(s_i.skip(step as int) =~= bytes@.skip(i as int + step as int));
            assert(utf8_decode(s_i) == (match utf8_decode(bytes@.skip(i as int + step as int)) {
                Option::None => Option::<Seq<u32>>::None,
                Option::Some(rest) => Some(seq![cp] + rest),
            }));
        }
        out.push(c);
        proof {
            assert(chars_to_code_points(out@) =~= chars_to_code_points(out@.drop_last())
                + seq![cp]);
            if utf8_decode(bytes@.skip(i as int + step as int)) is Some {
                let rest = utf8_decode(bytes@.skip(i as int + step as int))->Some_0;
                assert(chars_to_code_points(out@.drop_last()) + (seq![cp] + rest)
                    =~= chars_to_code_points(out@) + rest);
            }
        }
        i = i + step;
    }
}

/// The 16-bit units carried little-endian by a byte sequence of even length.
pub open spec fn wide_units(data: Seq<u8>) -> Seq<u16> {
    Seq::new((data.len() / 2) as nat, |i: int| (data[2 * i] + data[2 * i + 1] * 256) as u16)
}

/// A byte payload that carries a well-formed UTF-16 string.
pub open spec fn wide_ok(data: Seq<u8>) -> bool {
    data.len() % 2 == 0 && utf16_decode(wide_units(data)) is Some
}

/// The code points of a well-formed wide payload.
pub open spec fn wide_code_points(data: Seq<u8>) -> Seq<u32> {
    utf16_decode(wide_units(data))->Some_0
}

/// A byte payload that is well-formed UTF-8.
pub open spec fn narrow_ok(data: Seq<u8>) -> bool {
    utf8_decode(data) is Some
}

/// The code points of a well-formed narrow payload.
pub open spec fn narrow_code_points(data: Seq<u8>) -> Seq<u32> {
    utf8_decode(data)->Some_0
}

/// Decode a little-endian byte payload as a UTF-16 string. The payload must
/// split into whole units and be well-formed UTF-16.
pub fn decode_wide(data: &Vec<u8>) -> (r: Result<String, TextError>)
    ensures
        r is Ok <==> wide_ok(data@),
        r matches Ok(s) ==> wide_code_points(data@) == chars_to_code_points(s@),
        data@.len() % 2 != 0 ==> r == Err::<String, TextError>(TextError::OddWideLength),
        r matches Err(e) ==> e == TextError::OddWideLength || e == TextError::InvalidUtf16,
{
    if data.len() % 2 != 0 {
        return Err(TextError::OddWideLength);
    }
    let mut units: Vec<u16> = Vec::new();
    let mut i: usize = 0;
    while i < data.len() / 2
        invariant
            i <= data@.len() / 2,
            data@.len() % 2 == 0,
            units@.len() == i,
            forall|j: int| 0 <= j < i ==> units@[j] == wide_units(data@)[j],
        decreases data@.len() / 2 - i,
    {
        let lo = data[2 * i];
        let hi = data[2 * i + 1];
        units.push(lo as u16 + (hi as u16) * 256);
        i = i + 1;
    }
    proof {
        assert(units@ =~= wide_units(data@));
    }
    let cs = match utf16_to_chars(&units) {
        Ok(cs) => cs,
        Err(e) => {
            return Err(e);
        },
    };
    Ok(chars_to_string(&cs))
}

/// Decode a byte payload as a UTF-8 string.
pub fn decode_narrow(data: &Vec<u8>) -> (r: Result<String, TextError>)
    ensures
        r is Ok <==> narrow_ok(data@),
        r matches Ok(s) ==> narrow_code_points(data@) == chars_to_code_points(s@),
        r matches Err(e) ==> e == TextError::InvalidUtf8,
{
    let cs = match utf8_to_chars(data) {
        Ok(cs) => cs,
        Err(e) => {
            return Err(e);
        },
    };
    Ok(chars_to_string(&cs))
}

} // verus!

