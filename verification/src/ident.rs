//! GUID and security-identifier values: parsing from raw payloads and
//! canonical display strings.

use vstd::prelude::*;

use crate::bytes::{be_value, le_value, lemma_be_value_bound, read_be, read_le_u32};
use crate::numfmt::{
    dec_digit, is_lower_hex_char, lemma_hex_lower_chars, push_dec, push_hex, spec_dec,
    spec_hex_lower,
};
use crate::text::chars_to_string;

verus! {

/// A 16-byte globally unique identifier, in its mixed-endian field form.
#[derive(Clone, Copy, PartialEq, Eq, Debug)]
pub struct Guid {
    pub data1: u32,
    pub data2: u16,
    pub data3: u16,
    pub data4: [u8; 8],
}

/// The canonical display form: braced, hyphenated, lowercase hex, the
/// 8-4-4-4-12 digit grouping.
pub open spec fn spec_guid_string(g: Guid) -> Seq<char> {
    seq!['{'] + spec_hex_lower(g.data1 as int, 8) + seq!['-'] + spec_hex_lower(g.data2 as int, 4)
        + seq!['-'] + spec_hex_lower(g.data3 as int, 4) + seq!['-'] + spec_hex_lower(
        g.data4@[0] as int,
        2,
    ) + spec_hex_lower(g.data4@[1] as int, 2) + seq!['-'] + spec_hex_lower(g.data4@[2] as int, 2)
        + spec_hex_lower(g.data4@[3] as int, 2) + spec_hex_lower(g.data4@[4] as int, 2)
        + spec_hex_lower(g.data4@[5] as int, 2) + spec_hex_lower(g.data4@[6] as int, 2)
        + spec_hex_lower(g.data4@[7] as int, 2) + seq!['}']
}

/// Render a GUID in its canonical display form. Deterministic: the result
/// is a function of the sixteen bytes alone.
pub fn format_guid(g: &Guid) -> (r: String)
    ensures
        r@ == spec_guid_string(*g),
{
    let mut v: Vec<char> = Vec::new();
    v.push('{');
    push_hex(&mut v, g.data1 as u64, 8, false);
    v.push('-');
    push_hex(&mut v, g.data2 as u64, 4, false);
    v.push('-');
    push_hex(&mut v, g.data3 as u64, 4, false);
    v.push('-');
    push_hex(&mut v, g.data4[0] as u64, 2, false);
    push_hex(&mut v, g.data4[1] as u64, 2, false);
    v.push('-');
    push_hex(&mut v, g.data4[2] as u64, 2, false);
    push_hex(&mut v, g.data4[3] as u64, 2, false);
    push_hex(&mut v, g.data4[4] as u64, 2, false);
    push_hex(&mut v, g.data4[5] as u64, 2, false);
    push_hex(&mut v, g.data4[6] as u64, 2, false);
    push_hex(&mut v, g.data4[7] as u64, 2, false);
    v.push('}');
    proof {
        assert(v@ =~= spec_guid_string(*g));
    }
    chars_to_string(&v)
}

/// Parse a GUID out of its 16-byte layout at `off`: a little-endian 32-bit
/// field, two little-endian 16-bit fields, then eight plain bytes.
pub fn parse_guid(data: &Vec<u8>, off: usize) -> (r: Guid)
    requires
        off + 16 <= data@.len(),
    ensures
        r.data1 == le_value(data@, off as int, 4),
        r.data2 == le_value(data@, off + 4, 2),
        r.data3 == le_value(data@, off + 6, 2),
        forall|i: int| 0 <= i < 8 ==> r.data4@[i] == data@[off + 8 + i],
{
    // binds the buffer length, bounding the offsets below
    let _n = data.len();
    let data1 = read_le_u32(data, off);
    let data2 = crate::bytes::read_le_u16(data, off + 4);
    let data3 = crate::bytes::read_le_u16(data, off + 6);
    let data4: [u8; 8] = [
        data[off + 8],
        data[off + 9],
        data[off + 10],
        data[off + 11],
        data[off + 12],
        data[off + 13],
        data[off + 14],
        data[off + 15],
    ];
    Guid { data1, data2, data3, data4 }
}

/// The canonical GUID string shape: 38 characters, braces at the ends,
/// hyphens at the four fixed positions, lowercase hex digits everywhere
/// else.
pub proof fn lemma_guid_format_shape(g: Guid)
    ensures
        spec_guid_string(g).len() == 38,
        spec_guid_string(g)[0] == '{',
        spec_guid_string(g)[37] == '}',
        spec_guid_string(g)[9] == '-',
        spec_guid_string(g)[14] == '-',
        spec_guid_string(g)[19] == '-',
        spec_guid_string(g)[24] == '-',
        forall|i: int|
            0 <= i < 38 && i != 0 && i != 37 && i != 9 && i != 14 && i != 19 && i != 24
                ==> is_lower_hex_char(#[trigger] spec_guid_string(g)[i]),
{
    lemma_hex_lower_chars(g.data1 as int, 8);
    lemma_hex_lower_chars(g.data2 as int, 4);
    lemma_hex_lower_chars(g.data3 as int, 4);
    lemma_hex_lower_chars(g.data4@[0] as int, 2);
    lemma_hex_lower_chars(g.data4@[1] as int, 2);
    lemma_hex_lower_chars(g.data4@[2] as int, 2);
    lemma_hex_lower_chars(g.data4@[3] as int, 2);
    lemma_hex_lower_chars(g.data4@[4] as int, 2);
    lemma_hex_lower_chars(g.data4@[5] as int, 2);
    lemma_hex_lower_chars(g.data4@[6] as int, 2);
    lemma_hex_lower_chars(g.data4@[7] as int, 2);
}

/// A security identifier: revision, a 48-bit authority, and up to 255
/// sub-authorities.
#[derive(Clone, PartialEq, Eq, Debug)]
pub struct Sid {
    pub revision: u8,
    pub authority: u64,
    pub sub_authorities: Vec<u32>,
}

/// The authority value fits its six bytes.
pub open spec fn sid_wf(s: Sid) -> bool {
    s.authority < 0x1000000000000
}

impl Sid {
    /// An owned copy with the same fields.
    pub fn duplicate(&self) -> (r: Sid)
        ensures
            r.revision == self.revision,
            r.authority == self.authority,
            r.sub_authorities@ == self.sub_authorities@,
    {
        let mut subs: Vec<u32> = Vec::new();
        let mut i: usize = 0;
        while i < self.sub_authorities.len()
            invariant
                i <= self.sub_authorities@.len(),
                subs@.len() == i,
                forall|j: int| 0 <= j < i ==> subs@[j] == self.sub_authorities@[j],
            decreases self.sub_authorities@.len() - i,
        {
            subs.push(self.sub_authorities[i]);
            i = i + 1;
        }
        proof {
            assert(subs@ =~= self.sub_authorities@);
        }
        Sid { revision: self.revision, authority: self.authority, sub_authorities: subs }
    }
}

/// Sub-authorities joined by dashes, with no dash before the first.
pub open spec fn spec_dash_join(subs: Seq<u32>) -> Seq<char>
    decreases subs.len(),
{
    if subs.len() == 0 {
        Seq::<char>::empty()
    } else if subs.len() == 1 {
        spec_dec(subs[0] as int)
    } else {
        spec_dash_join(subs.drop_last()) + seq!['-'] + spec_dec(subs.last() as int)
    }
}

/// The canonical display form: `S-`, the revision, the authority, then each
/// sub-authority, all in decimal and dash-separated. The authority prints
/// as its 48-bit value, which is the plain byte value whenever the upper
/// five bytes are zero.
pub open spec fn spec_sid_string(rev: u8, auth: u64, subs: Seq<u32>) -> Seq<char> {
    seq!['S', '-'] + spec_dec(rev as int) + seq!['-'] + spec_dec(auth as int) + seq!['-']
        + spec_dash_join(subs)
}

/// Render a security identifier in its canonical display form.
pub fn format_sid(s: &Sid) -> (r: String)
    ensures
        r@ == spec_sid_string(s.revision, s.authority, s.sub_authorities@),
{
    let mut v: Vec<char> = Vec::new();
    v.push('S');
    v.push('-');
    push_dec(&mut v, s.revision as u64);
    v.push('-');
    push_dec(&mut v, s.authority);
    v.push('-');
    let ghost prefix = v@;
    let mut i: usize = 0;
    proof {
        assert(v@ =~= prefix + spec_dash_join(s.sub_authorities@.take(0)));
    }
    while i < s.sub_authorities.len()
        invariant
            i <= s.sub_authorities@.len(),
            v@ == prefix + spec_dash_join(s.sub_authorities@.take(i as int)),
        decreases s.sub_authorities@.len() - i,
    {
        if i > 0 {
            v.push('-');
        }
        push_dec(&mut v, s.sub_authorities[i] as u64);
        proof {
            let t = s.sub_authorities@.take(i as int + 1);
            assert(t.drop_last() =~= s.sub_authorities@.take(i as int));
            assert(t.last() == s.sub_authorities@[i as int]);
            if i == 0 {
                assert(spec_dash_join(t) == spec_dec(s.sub_authorities@[0] as int));
                assert(prefix + spec_dash_join(s.sub_authorities@.take(0)) =~= prefix);
                assert(v@ =~= prefix + spec_dash_join(t));
            } else {
                assert(spec_dash_join(t) == spec_dash_join(t.drop_last()) + seq!['-'] + spec_dec(
                    t.last() as int,
                ));
                assert(v@ =~= prefix + spec_dash_join(t));
            }
        }
        i = i + 1;
    }
    proof {
        assert(s.sub_authorities@.take(s.sub_authorities@.len() as int) =~= s.sub_authorities@);
        assert(v@ =~= spec_sid_string(s.revision, s.authority, s.sub_authorities@));
    }
    chars_to_string(&v)
}

/// A security-identifier payload is well shaped when it holds the 8-byte
/// header and as many 32-bit sub-authorities as the count byte declares.
pub open spec fn sid_bytes_ok(data: Seq<u8>) -> bool {
    data.len() >= 8 && data.len() >= 8 + 4 * (data[1] as int)
}

/// The identifier carries exactly what the byte layout declares.
pub open spec fn sid_matches_bytes(s: Sid, data: Seq<u8>) -> bool {
    &&& sid_wf(s)
    &&& s.revision == data[0]
    &&& s.authority == be_value(data, 2, 6)
    &&& s.sub_authorities.len() == data[1]
    &&& forall|i: int| 0 <= i < data[1] ==> s.sub_authorities[i] == le_value(data, 8 + 4 * i, 4)
}

/// Parse a security identifier out of its byte layout: revision, count, a
/// big-endian 48-bit authority, then the sub-authorities little-endian.
/// Rejects payloads shorter than the declared count, never reading past the
/// end.
pub fn parse_sid(data: &Vec<u8>) -> (r: Option<Sid>)
    ensures
        r is Some <==> sid_bytes_ok(data@),
        r matches Some(s) ==> sid_matches_bytes(s, data@),
{
    if data.len() < 8 {
        return None;
    }
    let count = data[1];
    let need: usize = 8 + 4 * (count as usize);
    if data.len() < need {
        return None;
    }
    let revision = data[0];
    let authority = read_be(data, 2, 6);
    proof {
        lemma_be_value_bound(data@, 2, 6);
        crate::bytes::lemma_pow256_values();
    }
    let mut subs: Vec<u32> = Vec::new();
    let mut i: usize = 0;
    while i < count as usize
        invariant
            i <= count,
            data@.len() >= 8 + 4 * (count as int),
            subs@.len() == i,
            forall|j: int| 0 <= j < i ==> subs@[j] == le_value(data@, 8 + 4 * j, 4),
        decreases count as int - i,
    {
        let sub = read_le_u32(data, 8 + 4 * i);
        subs.push(sub);
        i = i + 1;
    }
    Some(Sid { revision, authority, sub_authorities: subs })
}

/// How many times `c` occurs in `s`.
pub open spec fn count_char(s: Seq<char>, c: char) -> int
    decreases s.len(),
{
    if s.len() == 0 {
        0
    } else {
        count_char(s.drop_last(), c) + if s.last() == c {
            1int
        } else {
            0int
        }
    }
}

pub proof fn lemma_count_char_single(x: char, c: char)
    ensures
        count_char(seq![x], c) == if x == c {
            1int
        } else {
            0int
        },
{
    assert(seq![x].drop_last() =~= Seq::<char>::empty());
    assert(count_char(Seq::<char>::empty(), c) == 0);
    assert(seq![x].last() == x);
}

pub proof fn lemma_count_char_concat(a: Seq<char>, b: Seq<char>, c: char)
    ensures
        count_char(a + b, c) == count_char(a, c) + count_char(b, c),
    decreases b.len(),
{
    if b.len() == 0 {
        assert(a + b =~= a);
    } else {
        lemma_count_char_concat(a, b.drop_last(), c);
        assert((a + b).drop_last() =~= a + b.drop_last());
        assert((a + b).last() == b.last());
    }
}

/// Decimal renderings hold no dash.
pub proof fn lemma_dec_no_dash(n: int)
    ensures
        count_char(spec_dec(n), '-') == 0,
    decreases n,
{
    if n < 10 {
        assert(dec_digit(n) != '-');
        lemma_count_char_single(dec_digit(n), '-');
        assert(spec_dec(n) == seq![dec_digit(n)]);
    } else {
        lemma_dec_no_dash(n / 10);
        assert(dec_digit(n % 10) != '-');
        lemma_count_char_single(dec_digit(n % 10), '-');
        lemma_count_char_concat(spec_dec(n / 10), seq![dec_digit(n % 10)], '-');
    }
}

proof fn lemma_dash_join_count(subs: Seq<u32>)
    ensures
        count_char(spec_dash_join(subs), '-') == if subs.len() == 0 {
            0int
        } else {
            subs.len() - 1
        },
    decreases subs.len(),
{
    if subs.len() == 0 {
    } else if subs.len() == 1 {
        lemma_dec_no_dash(subs[0] as int);
    } else {
        lemma_dash_join_count(subs.drop_last());
        lemma_dec_no_dash(subs.last() as int);
        lemma_count_char_concat(
            spec_dash_join(subs.drop_last()) + seq!['-'],
            spec_dec(subs.last() as int),
            '-',
        );
        lemma_count_char_concat(spec_dash_join(subs.drop_last()), seq!['-'], '-');
        lemma_count_char_single('-', '-');
    }
}

/// The canonical security-identifier string carries the sub-authority count
/// in its dashes: after the `S-{revision}-{authority}-` prefix stand
/// exactly `N` dash-separated integers, so the whole string has `N + 2`
/// dashes when `N` is positive, and the bare three-dash prefix otherwise.
pub proof fn lemma_sid_format_dashes(rev: u8, auth: u64, subs: Seq<u32>)
    ensures
        count_char(spec_sid_string(rev, auth, subs), '-') == if subs.len() == 0 {
            3int
        } else {
            subs.len() as int + 2
        },
{
    lemma_dec_no_dash(rev as int);
    lemma_dec_no_dash(auth as int);
    lemma_dash_join_count(subs);
    let a = seq!['S', '-'];
    let b = spec_dec(rev as int);
    let c = spec_dec(auth as int);
    let d = spec_dash_join(subs);
    lemma_count_char_single('S', '-');
    lemma_count_char_single('-', '-');
    lemma_count_char_concat(seq!['S'], seq!['-'], '-');
    assert(seq!['S'] + seq!['-'] =~= a);
    lemma_count_char_concat(a, b, '-');
    lemma_count_char_concat(a + b, seq!['-'], '-');
    lemma_count_char_concat(a + b + seq!['-'], c, '-');
    lemma_count_char_concat(a + b + seq!['-'] + c, seq!['-'], '-');
    lemma_count_char_concat(a + b + seq!['-'] + c + seq!['-'], d, '-');
}

} // verus!
