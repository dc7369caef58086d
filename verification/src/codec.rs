//! The packed 64-bit (offset, length) convention.
//!
//! Every region that crosses the module boundary is named by one 64-bit
//! value: the low word is a module-relative offset, the high word a byte
//! length. A module's execution routine returns such a value, and the
//! logging import receives one for each of its two text arguments.

use vstd::prelude::*;

verus! {

/// A 64-bit value that holds an offset in its low word and a length in its
/// high word.
pub type PackedResult = u64;

/// The packed value of `(offset, length)`: `length * 2^32 + offset`.
pub open spec fn pack_spec(offset: u32, length: u32) -> u64 {
    (length as int * 0x1_0000_0000 + offset as int) as u64
}

/// The `(offset, length)` pair that a packed value holds.
pub open spec fn unpack_spec(value: u64) -> (u32, u32) {
    ((value as int % 0x1_0000_0000) as u32, (value as int / 0x1_0000_0000) as u32)
}

/// Packs a module-relative offset and a byte length into one value,
/// `(length << 32) | offset`.
pub fn pack(offset: u32, length: u32) -> (value: PackedResult)
    ensures
        value == pack_spec(offset, length),
        value == ((length as u64) << 32) | (offset as u64),
        unpack_spec(value) == (offset, length),
{
    let value: u64 = ((length as u64) << 32) | (offset as u64);
    proof {
        lemma_pack_as_bits(offset, length);
        lemma_unpack_pack(offset, length);
    }
    value
}

/// Splits a packed value into its offset, `value & 0xFFFF_FFFF`, and its
/// length, `value >> 32`.
pub fn unpack(value: PackedResult) -> (parts: (u32, u32))
    ensures
        parts == unpack_spec(value),
        parts.0 == value & 0xFFFF_FFFF,
        parts.1 == value >> 32,
        pack_spec(parts.0, parts.1) == value,
{
    let offset: u32 = (value & 0xFFFF_FFFF) as u32;
    let length: u32 = (value >> 32) as u32;
    proof {
        lemma_unpack_as_bits(value);
        lemma_pack_unpack(value);
    }
    (offset, length)
}

/// The arithmetic and the bitwise reading of a packed pair agree.
pub proof fn lemma_pack_as_bits(offset: u32, length: u32)
    ensures
        pack_spec(offset, length) == ((length as u64) << 32) | (offset as u64),
        length as int * 0x1_0000_0000 + offset as int <= u64::MAX,
{
    assert(((length as u64) << 32) | (offset as u64) == (length as u64) * 0x1_0000_0000
        + (offset as u64)) by (bit_vector);
    assert((length as u64) * 0x1_0000_0000 + (offset as u64) <= 0xFFFF_FFFF_FFFF_FFFF)
        by (bit_vector);
}

/// The arithmetic and the bitwise reading of a packed value's two words
/// agree.
pub proof fn lemma_unpack_as_bits(value: u64)
    ensures
        unpack_spec(value).0 == value & 0xFFFF_FFFF,
        unpack_spec(value).1 == value >> 32,
{
    assert(value & 0xFFFF_FFFF == value % 0x1_0000_0000) by (bit_vector);
    assert(value >> 32 == value / 0x1_0000_0000) by (bit_vector);
    assert(value / 0x1_0000_0000 <= 0xFFFF_FFFF) by (bit_vector);
}

/// Unpacking a packed pair gives the pair back, for every offset and every
/// length of 32 bits.
pub proof fn lemma_unpack_pack(offset: u32, length: u32)
    ensures
        unpack_spec(pack_spec(offset, length)) == (offset, length),
{
    let sum = length as int * 0x1_0000_0000 + offset as int;
    assert(0 <= sum <= u64::MAX);
    assert(sum % 0x1_0000_0000 == offset as int && sum / 0x1_0000_0000 == length as int)
        by (nonlinear_arith)
        requires
            sum == length as int * 0x1_0000_0000 + offset as int,
            0 <= offset < 0x1_0000_0000,
            0 <= length,
    ;
}

/// Packing the two words of a value gives the value back: no 64-bit value
/// lies outside the convention.
pub proof fn lemma_pack_unpack(value: u64)
    ensures
        pack_spec(unpack_spec(value).0, unpack_spec(value).1) == value,
{
    let v = value as int;
    assert(0 <= v % 0x1_0000_0000 < 0x1_0000_0000);
    assert(0 <= v / 0x1_0000_0000 <= 0xFFFF_FFFF);
    assert((v / 0x1_0000_0000) * 0x1_0000_0000 + v % 0x1_0000_0000 == v);
}

/// Two pairs that pack to the same value are the same pair.
pub proof fn lemma_pack_injective(offset: u32, length: u32, other_offset: u32, other_length: u32)
    requires
        pack_spec(offset, length) == pack_spec(other_offset, other_length),
    ensures
        offset == other_offset,
        length == other_length,
{
    lemma_unpack_pack(offset, length);
    lemma_unpack_pack(other_offset, other_length);
}

} // verus!
