//! Bit fields packed into integers.
use vstd::prelude::*;

verus! {

/// The field of `x` that starts at bit `lo` and is selected by `mask`.
pub open spec fn get_bits_u8(x: u8, lo: u8, mask: u8) -> u8 {
    (x >> lo) & mask
}

/// `x` with the field at bit `lo`, selected by `mask`, replaced by `v`.
pub open spec fn set_bits_u8(x: u8, lo: u8, mask: u8, v: u8) -> u8 {
    (x & !(mask << lo)) | ((v & mask) << lo)
}

/// `mask` selects a field that fits in a `u8` when placed at bit `lo`.
pub open spec fn fits_u8(lo: u8, mask: u8) -> bool {
    lo < 8 && (mask << lo) >> lo == mask
}

/// Writing a field and reading it back gives the written value; the other bits stay as they were.
pub proof fn lemma_set_bits_u8(x: u8, lo: u8, mask: u8, v: u8, lo2: u8, mask2: u8)
    by (bit_vector)
    requires
        fits_u8(lo, mask),
        fits_u8(lo2, mask2),
    ensures
        get_bits_u8(set_bits_u8(x, lo, mask, v), lo, mask) == v & mask,
        set_bits_u8(x, lo, mask, v) & !(mask << lo) == x & !(mask << lo),
        (mask << lo) & (mask2 << lo2) == 0 ==> get_bits_u8(set_bits_u8(x, lo, mask, v), lo2, mask2)
            == get_bits_u8(x, lo2, mask2),
{
}

/// The field of `x` that starts at bit `lo` and is selected by `mask`.
pub open spec fn get_bits_u16(x: u16, lo: u16, mask: u16) -> u16 {
    (x >> lo) & mask
}

/// `x` with the field at bit `lo`, selected by `mask`, replaced by `v`.
pub open spec fn set_bits_u16(x: u16, lo: u16, mask: u16, v: u16) -> u16 {
    (x & !(mask << lo)) | ((v & mask) << lo)
}

/// `mask` selects a field that fits in a `u16` when placed at bit `lo`.
pub open spec fn fits_u16(lo: u16, mask: u16) -> bool {
    lo < 16 && (mask << lo) >> lo == mask
}

/// Writing a field and reading it back gives the written value; the other bits stay as they were.
pub proof fn lemma_set_bits_u16(x: u16, lo: u16, mask: u16, v: u16, lo2: u16, mask2: u16)
    by (bit_vector)
    requires
        fits_u16(lo, mask),
        fits_u16(lo2, mask2),
    ensures
        get_bits_u16(set_bits_u16(x, lo, mask, v), lo, mask) == v & mask,
        set_bits_u16(x, lo, mask, v) & !(mask << lo) == x & !(mask << lo),
        (mask << lo) & (mask2 << lo2) == 0 ==> get_bits_u16(set_bits_u16(x, lo, mask, v), lo2, mask2)
            == get_bits_u16(x, lo2, mask2),
{
}

/// The field of `x` that starts at bit `lo` and is selected by `mask`.
pub open spec fn get_bits_u32(x: u32, lo: u32, mask: u32) -> u32 {
    (x >> lo) & mask
}

/// `x` with the field at bit `lo`, selected by `mask`, replaced by `v`.
pub open spec fn set_bits_u32(x: u32, lo: u32, mask: u32, v: u32) -> u32 {
    (x & !(mask << lo)) | ((v & mask) << lo)
}

/// `mask` selects a field that fits in a `u32` when placed at bit `lo`.
pub open spec fn fits_u32(lo: u32, mask: u32) -> bool {
    lo < 32 && (mask << lo) >> lo == mask
}

/// Writing a field and reading it back gives the written value; the other bits stay as they were.
pub proof fn lemma_set_bits_u32(x: u32, lo: u32, mask: u32, v: u32, lo2: u32, mask2: u32)
    by (bit_vector)
    requires
        fits_u32(lo, mask),
        fits_u32(lo2, mask2),
    ensures
        get_bits_u32(set_bits_u32(x, lo, mask, v), lo, mask) == v & mask,
        set_bits_u32(x, lo, mask, v) & !(mask << lo) == x & !(mask << lo),
        (mask << lo) & (mask2 << lo2) == 0 ==> get_bits_u32(set_bits_u32(x, lo, mask, v), lo2, mask2)
            == get_bits_u32(x, lo2, mask2),
{
}

/// The field of `x` that starts at bit `lo` and is selected by `mask`.
pub open spec fn get_bits_u64(x: u64, lo: u64, mask: u64) -> u64 {
    (x >> lo) & mask
}

/// `x` with the field at bit `lo`, selected by `mask`, replaced by `v`.
pub open spec fn set_bits_u64(x: u64, lo: u64, mask: u64, v: u64) -> u64 {
    (x & !(mask << lo)) | ((v & mask) << lo)
}

/// `mask` selects a field that fits in a `u64` when placed at bit `lo`.
pub open spec fn fits_u64(lo: u64, mask: u64) -> bool {
    lo < 64 && (mask << lo) >> lo == mask
}

/// Writing a field and reading it back gives the written value; the other bits stay as they were.
pub proof fn lemma_set_bits_u64(x: u64, lo: u64, mask: u64, v: u64, lo2: u64, mask2: u64)
    by (bit_vector)
    requires
        fits_u64(lo, mask),
        fits_u64(lo2, mask2),
    ensures
        get_bits_u64(set_bits_u64(x, lo, mask, v), lo, mask) == v & mask,
        set_bits_u64(x, lo, mask, v) & !(mask << lo) == x & !(mask << lo),
        (mask << lo) & (mask2 << lo2) == 0 ==> get_bits_u64(set_bits_u64(x, lo, mask, v), lo2, mask2)
            == get_bits_u64(x, lo2, mask2),
{
}


/// Setting bit `j` of `b` sets that bit and keeps the others.
pub proof fn lemma_set_bit(b: u8, j: u8, i: u8)
    by (bit_vector)
    requires
        j < 8,
        i < 8,
    ensures
        ((b | (1u8 << j)) >> i) & 1u8 == 1u8 <==> ((b >> i) & 1u8 == 1u8 || i == j),
{
}

/// Testing a bit with a mask agrees with shifting it down.
pub proof fn lemma_test_bit(b: u8, j: u8)
    by (bit_vector)
    requires
        j < 8,
    ensures
        (b & (1u8 << j) != 0) == ((b >> j) & 1u8 == 1u8),
{
}

} // verus!
