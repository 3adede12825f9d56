//! Bounds-checked reads of fixed-width integers out of byte buffers.

use vstd::prelude::*;

verus! {

pub open spec fn pow256(n: nat) -> int
    decreases n,
{
    if n == 0 {
        1
    } else {
        256 * pow256((n - 1) as nat)
    }
}

/// The value carried little-endian by `size` bytes at `off`.
pub open spec fn le_value(data: Seq<u8>, off: int, size: nat) -> int
    decreases size,
{
    if size == 0 {
        0
    } else {
        data[off] + 256 * le_value(data, off + 1, (size - 1) as nat)
    }
}

/// The value carried big-endian by `size` bytes at `off`.
pub open spec fn be_value(data: Seq<u8>, off: int, size: nat) -> int
    decreases size,
{
    if size == 0 {
        0
    } else {
        be_value(data, off, (size - 1) as nat) * 256 + data[off + size - 1]
    }
}

/// The value carried little-endian, read as a two's-complement signed
/// quantity.
pub open spec fn le_signed(data: Seq<u8>, off: int, size: nat) -> int {
    if le_value(data, off, size) < pow256(size) / 2 {
        le_value(data, off, size)
    } else {
        le_value(data, off, size) - pow256(size)
    }
}

pub proof fn lemma_le_value_bound(data: Seq<u8>, off: int, size: nat)
    requires
        0 <= off,
        off + size <= data.len(),
    ensures
        0 <= le_value(data, off, size) < pow256(size),
    decreases size,
{
    if size > 0 {
        lemma_le_value_bound(data, off + 1, (size - 1) as nat);
    }
}

pub proof fn lemma_be_value_bound(data: Seq<u8>, off: int, size: nat)
    requires
        0 <= off,
        off + size <= data.len(),
    ensures
        0 <= be_value(data, off, size) < pow256(size),
    decreases size,
{
    if size > 0 {
        lemma_be_value_bound(data, off, (size - 1) as nat);
        assert(be_value(data, off, (size - 1) as nat) * 256 <= (pow256((size - 1) as nat) - 1)
            * 256) by (nonlinear_arith)
            requires
                be_value(data, off, (size - 1) as nat) <= pow256((size - 1) as nat) - 1,
        ;
    }
}

pub proof fn lemma_pow256_values()
    ensures
        pow256(1) == 0x100,
        pow256(2) == 0x10000,
        pow256(4) == 0x100000000,
        pow256(6) == 0x1000000000000,
        pow256(7) == 0x100000000000000,
        pow256(8) == 0x10000000000000000,
{
    reveal_with_fuel(pow256, 9);
}

/// Read up to eight bytes little-endian.
pub fn read_le(data: &Vec<u8>, off: usize, size: usize) -> (r: u64)
    requires
        size <= 8,
        off + size <= data@.len(),
    ensures
        r == le_value(data@, off as int, size as nat),
{
    proof {
        lemma_pow256_values();
    }
    let n = data.len();
    let mut acc: u64 = 0;
    let mut k: usize = size;
    while k > 0
        invariant
            k <= size <= 8,
            off + size <= n == data@.len(),
            acc == le_value(data@, off + k, (size - k) as nat),
            pow256(8) == 0x10000000000000000,
        decreases k,
    {
        proof {
            lemma_le_value_bound(data@, off + k, (size - k) as nat);
            lemma_pow256_monotone((size - k) as nat, 7);
        }
        acc = acc * 256 + (data[off + k - 1] as u64);
        k = k - 1;
    }
    acc
}

proof fn lemma_pow256_monotone(a: nat, b: nat)
    requires
        a <= b,
    ensures
        1 <= pow256(a) <= pow256(b),
    decreases b,
{
    if a < b {
        lemma_pow256_monotone(a, (b - 1) as nat);
        assert(pow256(b) == 256 * pow256((b - 1) as nat));
    } else if a == b && a == 0 {
        assert(pow256(0) == 1);
    } else {
        lemma_pow256_monotone((a - 1) as nat, (b - 1) as nat);
        assert(pow256(b) == 256 * pow256((b - 1) as nat));
    }
}

/// Read up to eight bytes big-endian.
pub fn read_be(data: &Vec<u8>, off: usize, size: usize) -> (r: u64)
    requires
        size <= 8,
        off + size <= data@.len(),
    ensures
        r == be_value(data@, off as int, size as nat),
{
    proof {
        lemma_pow256_values();
    }
    let n = data.len();
    let mut acc: u64 = 0;
    let mut k: usize = 0;
    while k < size
        invariant
            k <= size <= 8,
            off + size <= n == data@.len(),
            acc == be_value(data@, off as int, k as nat),
            pow256(8) == 0x10000000000000000,
        decreases size - k,
    {
        proof {
            lemma_be_value_bound(data@, off as int, k as nat);
            lemma_pow256_monotone(k as nat, 7);
            assert(acc * 256 <= (pow256(7) - 1) * 256) by (nonlinear_arith)
                requires
                    acc <= pow256(7) - 1,
            ;
        }
        acc = acc * 256 + (data[off + k] as u64);
        k = k + 1;
    }
    acc
}

pub fn read_le_u16(data: &Vec<u8>, off: usize) -> (r: u16)
    requires
        off + 2 <= data@.len(),
    ensures
        r == le_value(data@, off as int, 2),
{
    proof {
        lemma_le_value_bound(data@, off as int, 2);
        lemma_pow256_values();
    }
    read_le(data, off, 2) as u16
}

pub fn read_le_u32(data: &Vec<u8>, off: usize) -> (r: u32)
    requires
        off + 4 <= data@.len(),
    ensures
        r == le_value(data@, off as int, 4),
{
    proof {
        lemma_le_value_bound(data@, off as int, 4);
        lemma_pow256_values();
    }
    read_le(data, off, 4) as u32
}

pub fn read_le_u64(data: &Vec<u8>, off: usize) -> (r: u64)
    requires
        off + 8 <= data@.len(),
    ensures
        r == le_value(data@, off as int, 8),
{
    read_le(data, off, 8)
}

pub fn read_le_i8(data: &Vec<u8>, off: usize) -> (r: i8)
    requires
        off + 1 <= data@.len(),
    ensures
        r as int == le_signed(data@, off as int, 1),
{
    proof {
        lemma_le_value_bound(data@, off as int, 1);
        lemma_pow256_values();
    }
    let u = read_le(data, off, 1);
    if u >= 0x80 {
        ((u as i64) - 0x100) as i8
    } else {
        u as i8
    }
}

pub fn read_le_i16(data: &Vec<u8>, off: usize) -> (r: i16)
    requires
        off + 2 <= data@.len(),
    ensures
        r as int == le_signed(data@, off as int, 2),
{
    proof {
        lemma_le_value_bound(data@, off as int, 2);
        lemma_pow256_values();
    }
    let u = read_le(data, off, 2);
    if u >= 0x8000 {
        ((u as i64) - 0x10000) as i16
    } else {
        u as i16
    }
}

pub fn read_le_i32(data: &Vec<u8>, off: usize) -> (r: i32)
    requires
        off + 4 <= data@.len(),
    ensures
        r as int == le_signed(data@, off as int, 4),
{
    proof {
        lemma_le_value_bound(data@, off as int, 4);
        lemma_pow256_values();
    }
    let u = read_le(data, off, 4);
    if u >= 0x80000000 {
        ((u as i64) - 0x100000000) as i32
    } else {
        u as i32
    }
}

pub fn read_le_i64(data: &Vec<u8>, off: usize) -> (r: i64)
    requires
        off + 8 <= data@.len(),
    ensures
        r as int == le_signed(data@, off as int, 8),
{
    proof {
        lemma_le_value_bound(data@, off as int, 8);
        lemma_pow256_values();
    }
    let u = read_le(data, off, 8);
    if u >= 0x8000000000000000 {
        ((u as i128) - 0x10000000000000000i128) as i64
    } else {
        u as i64
    }
}

} // verus!
