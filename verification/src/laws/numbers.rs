//! Numbers as bytes and as text.

use vstd::prelude::*;

use crate::text::{decimal, push_decimal};
use crate::wire::{
    be16, be16_bytes, be32_bytes, copy_all, copy_range, le16, le16_bytes, le32,
    lemma_32_bits_by_rank, push_be16, push_be32, push_bytes, u16_from_be, u16_from_le, u32_from_le,
};

verus! {

/// The number that four bytes tell, the least significant first.
pub open spec fn little_endian(b0: u8, b1: u8, b2: u8, b3: u8) -> int {
    b0 + 256 * (b1 + 256 * (b2 + 256 * b3))
}

/// Each byte of a number counts 256 times what the one after it in rank counts.
pub proof fn law_bytes_weigh_by_rank(b0: u8, b1: u8, b2: u8, b3: u8, word: u16, dword: u32)
    ensures
        le16(b0, b1) == b0 + 256 * b1,
        be16(b1, b0) == b0 + 256 * b1,
        le32(b0, b1, b2, b3) == little_endian(b0, b1, b2, b3),
        be16_bytes(word).len() == 2,
        256 * be16_bytes(word)[0] + be16_bytes(word)[1] == word,
        le16_bytes(word).len() == 2,
        256 * le16_bytes(word)[1] + le16_bytes(word)[0] == word,
        be32_bytes(dword).len() == 4,
        little_endian(
            be32_bytes(dword)[3],
            be32_bytes(dword)[2],
            be32_bytes(dword)[1],
            be32_bytes(dword)[0],
        ) == dword,
{
    lemma_32_bits_by_rank(dword);
}

/// A number is read by the ranks of its bytes.
pub proof fn law_numbers_are_read(
    b0: u8,
    b1: u8,
    b2: u8,
    b3: u8,
    from_le: u16,
    from_be: u16,
    from_four: u32,
)
    requires
        call_ensures(u16_from_le, (b0, b1), from_le),
        call_ensures(u16_from_be, (b1, b0), from_be),
        call_ensures(u32_from_le, (b0, b1, b2, b3), from_four),
    ensures
        from_le == b0 + 256 * b1,
        from_be == b0 + 256 * b1,
        from_four == little_endian(b0, b1, b2, b3),
{
}

/// A 16-bit number is appended as two bytes, the upper one first.
pub proof fn law_16_bits_are_appended(bytes: &mut Vec<u8>, value: u16)
    requires
        call_ensures(push_be16, (bytes, value), ()),
    ensures
        final(bytes)@.len() == old(bytes)@.len() + 2,
        final(bytes)@.take(old(bytes)@.len() as int) == old(bytes)@,
        256 * final(bytes)@[old(bytes)@.len() as int] + final(bytes)@.last() == value,
{
    assert(final(bytes)@.take(old(bytes)@.len() as int) =~= old(bytes)@);
}

/// A 32-bit number is appended as four bytes, the uppermost first.
pub proof fn law_32_bits_are_appended(bytes: &mut Vec<u8>, value: u32)
    requires
        call_ensures(push_be32, (bytes, value), ()),
    ensures
        ({
            let n = old(bytes)@.len() as int;
            let all = final(bytes)@;
            &&& all.len() == n + 4
            &&& all.take(n) == old(bytes)@
            &&& little_endian(all[n + 3], all[n + 2], all[n + 1], all[n]) == value
        }),
{
    lemma_32_bits_by_rank(value);
    assert(final(bytes)@.take(old(bytes)@.len() as int) =~= old(bytes)@);
}

/// Bytes are appended and copied as they are.
pub proof fn law_bytes_are_kept(
    bytes: &mut Vec<u8>,
    more: &[u8],
    start: usize,
    end: usize,
    part: Vec<u8>,
    whole: Vec<u8>,
)
    requires
        start <= end <= more@.len(),
        call_ensures(push_bytes, (bytes, more), ()),
        call_ensures(copy_range, (more, start, end), part),
        call_ensures(copy_all, (more,), whole),
    ensures
        final(bytes)@.len() == old(bytes)@.len() + more@.len(),
        forall|i: int|
            0 <= i < final(bytes)@.len() ==> #[trigger] final(bytes)@[i] == if i
                < old(bytes)@.len() {
                old(bytes)@[i]
            } else {
                more@[i - old(bytes)@.len()]
            },
        part@.len() == end - start,
        forall|i: int| 0 <= i < part@.len() ==> #[trigger] part@[i] == more@[start + i],
        whole@.len() == more@.len(),
        forall|i: int| 0 <= i < whole@.len() ==> #[trigger] whole@[i] == more@[i],
{
}

/// The number that decimal digits tell.
pub open spec fn numeral(text: Seq<char>) -> int
    decreases text.len(),
{
    if text.len() == 0 {
        0
    } else {
        10 * numeral(text.drop_last()) + (text.last() as int - '0' as int)
    }
}

/// The text of a number is made of digits, does not start with a zero but where
/// it is the only digit, and tells the number.
pub proof fn law_decimal_tells_the_number(n: nat)
    ensures
        numeral(decimal(n)) == n,
        decimal(n).len() > 0,
        decimal(n)[0] == '0' <==> n == 0,
        n == 0 ==> decimal(n).len() == 1,
        forall|i: int| 0 <= i < decimal(n).len() ==> '0' <= #[trigger] decimal(n)[i] <= '9',
    decreases n,
{
    if n < 10 {
        assert(decimal(n).drop_last() =~= Seq::empty());
        assert(numeral(decimal(n).drop_last()) == 0);
    } else {
        law_decimal_tells_the_number(n / 10);
        assert(decimal(n).drop_last() =~= decimal(n / 10));
        assert(decimal(n)[0] == decimal(n / 10)[0]);
        assert forall|i: int| 0 <= i < decimal(n).len() implies '0' <= #[trigger] decimal(n)[i]
            <= '9' by {
            if i < decimal(n / 10).len() {
                assert(decimal(n)[i] == decimal(n / 10)[i]);
            }
        }
    }
}

/// A number is appended to a text as its digits.
pub proof fn law_number_is_appended(text: &mut String, n: usize)
    requires
        call_ensures(push_decimal, (text, n), ()),
    ensures
        ({
            let before = old(text)@.len() as int;
            let digits = final(text)@.skip(before);
            &&& final(text)@.len() > before
            &&& final(text)@.take(before) == old(text)@
            &&& numeral(digits) == n
            &&& digits[0] == '0' ==> digits.len() == 1
        }),
{
    law_decimal_tells_the_number(n as nat);
    let before = old(text)@.len() as int;
    assert(final(text)@.take(before) =~= old(text)@);
    assert(final(text)@.skip(before) =~= decimal(n as nat));
}

} // verus!
