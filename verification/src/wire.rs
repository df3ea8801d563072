//! Integers and byte runs as they stand on the wire.

use vstd::prelude::*;
use vstd::slice::{slice_subrange, slice_to_vec};

verus! {

/// The 16-bit value whose bytes are `lo`, then `hi`.
pub open spec fn le16(lo: u8, hi: u8) -> u16 {
    (lo + 0x100 * hi) as u16
}

/// The 16-bit value whose bytes are `hi`, then `lo`.
pub open spec fn be16(hi: u8, lo: u8) -> u16 {
    le16(lo, hi)
}

/// The 32-bit value whose bytes are `b0` to `b3`, the least significant first.
pub open spec fn le32(b0: u8, b1: u8, b2: u8, b3: u8) -> u32 {
    (b0 + 0x100 * b1 + 0x1_0000 * b2 + 0x100_0000 * b3) as u32
}

/// The bytes of `value`, the most significant first.
pub open spec fn be16_bytes(value: u16) -> Seq<u8> {
    seq![(value / 0x100) as u8, (value % 0x100) as u8]
}

/// The bytes of `value`, the least significant first.
pub open spec fn le16_bytes(value: u16) -> Seq<u8> {
    seq![(value % 0x100) as u8, (value / 0x100) as u8]
}

/// The bytes of `value`, the most significant first.
pub open spec fn be32_bytes(value: u32) -> Seq<u8> {
    seq![
        (value / 0x100_0000) as u8,
        (value / 0x1_0000 % 0x100) as u8,
        (value / 0x100 % 0x100) as u8,
        (value % 0x100) as u8,
    ]
}

/// Writing a 16-bit value and reading it back gives the value, in either byte
/// order.
pub proof fn law_16_bit_bytes_read_back(value: u16)
    ensures
        be16(be16_bytes(value)[0], be16_bytes(value)[1]) == value,
        le16(le16_bytes(value)[0], le16_bytes(value)[1]) == value,
{
}

/// Writing a 32-bit value and reading its bytes from the last to the first gives
/// the value.
pub proof fn law_32_bit_bytes_read_back(value: u32)
    ensures
        ({
            let bytes = be32_bytes(value);
            le32(bytes[3], bytes[2], bytes[1], bytes[0]) == value
        }),
{
    lemma_32_bits_by_rank(value);
}

/// A 32-bit value by the ranks of its bytes.
pub proof fn lemma_32_bits_by_rank(value: u32)
    ensures
        value == value % 0x100 + 0x100 * (value / 0x100 % 0x100) + 0x1_0000 * (value / 0x1_0000
            % 0x100) + 0x100_0000 * (value / 0x100_0000),
        value / 0x100_0000 < 0x100,
{
    assert(value == value % 0x100 + 0x100 * (value / 0x100 % 0x100) + 0x1_0000 * (value / 0x1_0000
        % 0x100) + 0x100_0000 * (value / 0x100_0000) && value / 0x100_0000 < 0x100)
        by (bit_vector);
}

/// Reads a 16-bit value whose least significant byte comes first.
pub fn u16_from_le(lo: u8, hi: u8) -> (value: u16)
    ensures
        value == le16(lo, hi),
{
    lo as u16 + 0x100 * hi as u16
}

/// Reads a 16-bit value whose most significant byte comes first.
pub fn u16_from_be(hi: u8, lo: u8) -> (value: u16)
    ensures
        value == be16(hi, lo),
{
    u16_from_le(lo, hi)
}

/// Reads a 32-bit value whose least significant byte comes first.
pub fn u32_from_le(b0: u8, b1: u8, b2: u8, b3: u8) -> (value: u32)
    ensures
        value == le32(b0, b1, b2, b3),
{
    b0 as u32 + 0x100 * b1 as u32 + 0x1_0000 * b2 as u32 + 0x100_0000 * b3 as u32
}

/// Appends a 16-bit value, the most significant byte first.
pub fn push_be16(bytes: &mut Vec<u8>, value: u16)
    ensures
        final(bytes)@ == old(bytes)@ + be16_bytes(value),
{
    bytes.push((value / 0x100) as u8);
    bytes.push((value % 0x100) as u8);
    proof {
        assert(bytes@ =~= old(bytes)@ + be16_bytes(value));
    }
}

/// Appends a 32-bit value, the most significant byte first.
pub fn push_be32(bytes: &mut Vec<u8>, value: u32)
    ensures
        final(bytes)@ == old(bytes)@ + be32_bytes(value),
{
    bytes.push((value / 0x100_0000) as u8);
    bytes.push((value / 0x1_0000 % 0x100) as u8);
    bytes.push((value / 0x100 % 0x100) as u8);
    bytes.push((value % 0x100) as u8);
    proof {
        assert(bytes@ =~= old(bytes)@ + be32_bytes(value));
    }
}

/// Appends a run of bytes.
pub fn push_bytes(bytes: &mut Vec<u8>, more: &[u8])
    ensures
        final(bytes)@ == old(bytes)@ + more@,
{
    bytes.extend_from_slice(more);
    proof {
        assert(bytes@ =~= old(bytes)@ + more@);
    }
}

/// Copies the bytes from `start` up to `end`.
pub fn copy_range(data: &[u8], start: usize, end: usize) -> (copy: Vec<u8>)
    requires
        start <= end <= data@.len(),
    ensures
        copy@ == data@.subrange(start as int, end as int),
{
    slice_to_vec(slice_subrange(data, start, end))
}

/// Copies all of the bytes.
pub fn copy_all(data: &[u8]) -> (copy: Vec<u8>)
    ensures
        copy@ == data@,
{
    slice_to_vec(data)
}

} // verus!
