//! Decimal and fixed-width hexadecimal rendering of integers, as character
//! sequences.

use vstd::prelude::*;

verus! {

/// The decimal digit character for a value below 10.
pub open spec fn dec_digit(d: int) -> char {
    if d == 0 {
        '0'
    } else if d == 1 {
        '1'
    } else if d == 2 {
        '2'
    } else if d == 3 {
        '3'
    } else if d == 4 {
        '4'
    } else if d == 5 {
        '5'
    } else if d == 6 {
        '6'
    } else if d == 7 {
        '7'
    } else if d == 8 {
        '8'
    } else {
        '9'
    }
}

/// The hexadecimal digit character for a value below 16, lowercase.
pub open spec fn hex_digit_lower(d: int) -> char {
    if d < 10 {
        dec_digit(d)
    } else if d == 10 {
        'a'
    } else if d == 11 {
        'b'
    } else if d == 12 {
        'c'
    } else if d == 13 {
        'd'
    } else if d == 14 {
        'e'
    } else {
        'f'
    }
}

/// The hexadecimal digit character for a value below 16, uppercase.
pub open spec fn hex_digit_upper(d: int) -> char {
    if d < 10 {
        dec_digit(d)
    } else if d == 10 {
        'A'
    } else if d == 11 {
        'B'
    } else if d == 12 {
        'C'
    } else if d == 13 {
        'D'
    } else if d == 14 {
        'E'
    } else {
        'F'
    }
}

/// The usual decimal rendering of a non-negative integer: no leading zeros,
/// a single `0` for zero.
pub open spec fn spec_dec(n: int) -> Seq<char>
    decreases n,
{
    if n < 10 {
        seq![dec_digit(n)]
    } else {
        spec_dec(n / 10) + seq![dec_digit(n % 10)]
    }
}

/// Fixed-width lowercase hexadecimal rendering: exactly `width` digits, most
/// significant first, truncating above `16^width`.
pub open spec fn spec_hex_lower(n: int, width: nat) -> Seq<char>
    decreases width,
{
    if width == 0 {
        Seq::<char>::empty()
    } else {
        spec_hex_lower(n / 16, (width - 1) as nat) + seq![hex_digit_lower(n % 16)]
    }
}

/// Fixed-width uppercase hexadecimal rendering.
pub open spec fn spec_hex_upper(n: int, width: nat) -> Seq<char>
    decreases width,
{
    if width == 0 {
        Seq::<char>::empty()
    } else {
        spec_hex_upper(n / 16, (width - 1) as nat) + seq![hex_digit_upper(n % 16)]
    }
}

fn dec_digit_char(d: u64) -> (r: char)
    requires
        d < 10,
    ensures
        r == dec_digit(d as int),
{
    match d {
        0 => '0',
        1 => '1',
        2 => '2',
        3 => '3',
        4 => '4',
        5 => '5',
        6 => '6',
        7 => '7',
        8 => '8',
        _ => '9',
    }
}

fn hex_digit_char(d: u64, upper: bool) -> (r: char)
    requires
        d < 16,
    ensures
        upper ==> r == hex_digit_upper(d as int),
        !upper ==> r == hex_digit_lower(d as int),
{
    if d < 10 {
        dec_digit_char(d)
    } else if upper {
        match d {
            10 => 'A',
            11 => 'B',
            12 => 'C',
            13 => 'D',
            14 => 'E',
            _ => 'F',
        }
    } else {
        match d {
            10 => 'a',
            11 => 'b',
            12 => 'c',
            13 => 'd',
            14 => 'e',
            _ => 'f',
        }
    }
}

/// Render a 64-bit value in decimal, appending to `out`.
pub fn push_dec(out: &mut Vec<char>, n: u64)
    ensures
        final(out)@ == old(out)@ + spec_dec(n as int),
    decreases n,
{
    if n < 10 {
        let c = dec_digit_char(n);
        out.push(c);
    } else {
        push_dec(out, n / 10);
        let c = dec_digit_char(n % 10);
        out.push(c);
        proof {
            assert(out@ =~= old(out)@ + spec_dec(n as int));
        }
    }
}

/// Render the low `width` hex digits of a 64-bit value, appending to `out`.
pub fn push_hex(out: &mut Vec<char>, n: u64, width: u8, upper: bool)
    ensures
        upper ==> final(out)@ == old(out)@ + spec_hex_upper(n as int, width as nat),
        !upper ==> final(out)@ == old(out)@ + spec_hex_lower(n as int, width as nat),
    decreases width,
{
    if width == 0 {
        proof {
            assert(out@ =~= old(out)@ + Seq::<char>::empty());
        }
    } else {
        push_hex(out, n / 16, width - 1, upper);
        let c = hex_digit_char(n % 16, upper);
        out.push(c);
        proof {
            if upper {
                assert(out@ =~= old(out)@ + spec_hex_upper(n as int, width as nat));
            } else {
                assert(out@ =~= old(out)@ + spec_hex_lower(n as int, width as nat));
            }
        }
    }
}

/// The decimal rendering of a signed integer: a minus sign before the
/// magnitude for negative values.
pub open spec fn spec_dec_signed(n: int) -> Seq<char> {
    if n < 0 {
        seq!['-'] + spec_dec(-n)
    } else {
        spec_dec(n)
    }
}

/// Fixed-width decimal rendering: exactly `width` digits, most significant
/// first, leading zeros kept.
pub open spec fn spec_dec_pad(n: int, width: nat) -> Seq<char>
    decreases width,
{
    if width == 0 {
        Seq::<char>::empty()
    } else {
        spec_dec_pad(n / 10, (width - 1) as nat) + seq![dec_digit(n % 10)]
    }
}

/// Render a signed 64-bit value in decimal, appending to `out`.
pub fn push_dec_signed(out: &mut Vec<char>, n: i64)
    ensures
        final(out)@ == old(out)@ + spec_dec_signed(n as int),
{
    if n < 0 {
        out.push('-');
        let mag: u64 = if n == i64::MIN {
            0x8000000000000000
        } else {
            (-n) as u64
        };
        push_dec(out, mag);
        proof {
            assert(out@ =~= old(out)@ + spec_dec_signed(n as int));
        }
    } else {
        push_dec(out, n as u64);
    }
}

/// Render the low `width` decimal digits of a value, appending to `out`.
pub fn push_dec_pad(out: &mut Vec<char>, n: u64, width: u8)
    ensures
        final(out)@ == old(out)@ + spec_dec_pad(n as int, width as nat),
    decreases width,
{
    if width == 0 {
        proof {
            assert(out@ =~= old(out)@ + Seq::<char>::empty());
        }
    } else {
        push_dec_pad(out, n / 10, width - 1);
        let c = dec_digit_char(n % 10);
        out.push(c);
        proof {
            assert(out@ =~= old(out)@ + spec_dec_pad(n as int, width as nat));
        }
    }
}

/// A lowercase hex rendering holds only digits and `a` to `f`.
pub open spec fn is_lower_hex_char(c: char) -> bool {
    ('0' <= c <= '9') || ('a' <= c <= 'f')
}

pub proof fn lemma_hex_lower_chars(n: int, width: nat)
    ensures
        spec_hex_lower(n, width).len() == width,
        forall|i: int|
            0 <= i < width ==> is_lower_hex_char(#[trigger] spec_hex_lower(n, width)[i]),
    decreases width,
{
    if width > 0 {
        lemma_hex_lower_chars(n / 16, (width - 1) as nat);
        assert forall|i: int| 0 <= i < width implies is_lower_hex_char(
            #[trigger] spec_hex_lower(n, width)[i],
        ) by {
            if i < width - 1 {
                assert(spec_hex_lower(n, width)[i] == spec_hex_lower(n / 16, (width - 1) as nat)[i]);
            }
        }
    }
}

} // verus!
