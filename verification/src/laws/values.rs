//! What is read from the bytes of an answer, and what is written for a value.

use vstd::prelude::*;
use vstd::utf8::{decode_utf8, encode_utf8, valid_utf8};

use crate::laws::numbers::little_endian;
use crate::laws::packets::{fails_short, is_too_short, same_error};
use crate::scanner::snapi::packet::{
    SnapiAttributeRequest, SnapiAttributeResponse, SnapiAttributeType, SnapiAttributeValue,
};
use crate::scanner::snapi::SnapiError;
use crate::wire::lemma_32_bits_by_rank;

verus! {

/// What the reading of a value gave.
pub open spec fn is_value(
    result: Result<Option<SnapiAttributeValue>, SnapiError>,
    is: spec_fn(SnapiAttributeValue) -> bool,
) -> bool {
    result matches Ok(Some(value)) && is(value)
}

/// An answer of fewer than seven bytes, or of the empty type, has no value.
pub proof fn law_no_value_is_read(
    data: &[u8],
    result: Result<Option<SnapiAttributeValue>, SnapiError>,
)
    requires
        data@.len() < 7 || data@[6] == 0,
        call_ensures(SnapiAttributeValue::decode, (data,), result),
    ensures
        result matches Ok(None),
{
}

/// A flag is on where its byte is not zero, and a byte is its byte.
pub proof fn law_flag_and_byte_are_read(
    data: &[u8],
    result: Result<Option<SnapiAttributeValue>, SnapiError>,
)
    requires
        data@.len() >= 7,
        data@.len() != 8,
        call_ensures(SnapiAttributeValue::decode, (data,), result),
    ensures
        data@.len() >= 9 && data@[6] == 'F' as u8 ==> is_value(
            result,
            |value: SnapiAttributeValue|
                value matches SnapiAttributeValue::Flag(flag) && (flag <==> data@[8] != 0),
        ),
        data@.len() >= 9 && data@[6] == 'B' as u8 ==> is_value(
            result,
            |value: SnapiAttributeValue|
                value matches SnapiAttributeValue::Byte(byte) && byte == data@[8],
        ),
        data@.len() == 7 && (data@[6] == 'F' as u8 || data@[6] == 'B' as u8) ==> fails_short(
            result, 8, 7),
{
    assert(data@.len() >= 9 || data@.len() == 7);
    if data@.len() >= 9 && data@[6] == 'F' as u8 {
        assert(result->Ok_0->Some_0@ is Flag);
    }
    if data@.len() >= 9 && data@[6] == 'B' as u8 {
        assert(result->Ok_0->Some_0@ is Byte);
    }
}

/// Words and double words are read with the least significant byte first.
pub proof fn law_words_are_read(
    data: &[u8],
    result: Result<Option<SnapiAttributeValue>, SnapiError>,
)
    requires
        data@.len() >= 7,
        call_ensures(SnapiAttributeValue::decode, (data,), result),
    ensures
        data@.len() >= 10 && data@[6] == 'W' as u8 ==> is_value(
            result,
            |value: SnapiAttributeValue|
                value matches SnapiAttributeValue::Word(word) && word == data@[8] + 256 * data@[9],
        ),
        data@.len() < 9 && data@[6] == 'W' as u8 ==> fails_short(
            result,
            9,
            data@.len(),
        ),
        data@.len() >= 12 && data@[6] == 'D' as u8 ==> is_value(
            result,
            |value: SnapiAttributeValue|
                value matches SnapiAttributeValue::DWord(dword) && dword == little_endian(
                    data@[8],
                    data@[9],
                    data@[10],
                    data@[11],
                ),
        ),
        data@.len() < 11 && data@[6] == 'D' as u8 ==> fails_short(
            result,
            11,
            data@.len(),
        ),
{
    if data@.len() >= 10 && data@[6] == 'W' as u8 {
        assert(result->Ok_0->Some_0@ is Word);
    }
    if data@.len() >= 12 && data@[6] == 'D' as u8 {
        assert(result->Ok_0->Some_0@ is DWord);
    }
}

/// A text is read up to the byte that ends it, whatever follows. One that is not
/// UTF-8 is read as its bytes. The tenth byte tells the length, with the byte
/// that ends the text.
pub proof fn law_text_is_read(
    data: &[u8],
    header: Seq<u8>,
    between: Seq<u8>,
    behind: Seq<u8>,
    text: Seq<u8>,
    rest: Seq<u8>,
    result: Result<Option<SnapiAttributeValue>, SnapiError>,
)
    requires
        header.len() == 6,
        between.len() == 2,
        behind.len() == 2,
        text.len() <= 254,
        data@ == header + seq!['S' as u8] + between + seq![(text.len() + 1) as u8] + behind + text
            + rest,
        call_ensures(SnapiAttributeValue::decode, (data,), result),
    ensures
        valid_utf8(text) ==> is_value(
            result,
            |value: SnapiAttributeValue|
                value matches SnapiAttributeValue::String(string) && string@ == decode_utf8(text),
        ),
        !valid_utf8(text) ==> is_value(
            result,
            |value: SnapiAttributeValue|
                value matches SnapiAttributeValue::Array(bytes) && bytes@ == text,
        ),
{
    assert(data@[6] == 'S' as u8);
    assert(data@[9] == text.len() + 1);
    if text.len() == 0 {
        assert(text =~= Seq::<u8>::empty());
        assert(encode_utf8(Seq::<char>::empty()) =~= Seq::<u8>::empty());
        vstd::utf8::encode_utf8_valid_utf8(Seq::<char>::empty());
        vstd::utf8::encode_utf8_decode_utf8(Seq::<char>::empty());
    } else {
        assert(data@.subrange(12, 12 + text.len() as int) =~= text);
    }
    if valid_utf8(text) {
        assert(result->Ok_0->Some_0@ is String);
    } else {
        assert(result->Ok_0->Some_0@ is Array);
    }
}

/// A text that is shorter than it is told to be is refused, and one of no length
/// is empty.
pub proof fn law_short_text_is_refused(
    data: &[u8],
    result: Result<Option<SnapiAttributeValue>, SnapiError>,
)
    requires
        data@.len() >= 7,
        data@[6] == 'S' as u8,
        call_ensures(SnapiAttributeValue::decode, (data,), result),
    ensures
        data@.len() < 9 ==> fails_short(
            result, 9, data@.len()),
        data@.len() > 9 && data@[9] > 1 && data@.len() < 11 + data@[9] ==> fails_short(
            result, 11 + data@[9], data@.len()),
        data@.len() > 9 && data@[9] == 0 ==> is_value(
            result,
            |value: SnapiAttributeValue|
                value matches SnapiAttributeValue::String(string) && string@.len() == 0,
        ),
{
    if data@.len() > 9 && data@[9] == 0 {
        assert(result->Ok_0->Some_0@ is String);
    }
}

/// An array is read as it is, whatever follows. Where it ends too early, what is
/// there comes with the length of the whole. The tenth and the eleventh byte
/// tell that length.
pub proof fn law_array_is_read(
    data: &[u8],
    header: Seq<u8>,
    between: Seq<u8>,
    hi: u8,
    lo: u8,
    behind: Seq<u8>,
    array: Seq<u8>,
    result: Result<Option<SnapiAttributeValue>, SnapiError>,
)
    requires
        header.len() == 6,
        between.len() == 2,
        behind.len() == 2,
        data@ == header + seq!['A' as u8] + between + seq![hi, lo] + behind + array,
        call_ensures(SnapiAttributeValue::decode, (data,), result),
    ensures
        array.len() >= 256 * hi + lo ==> is_value(
            result,
            |value: SnapiAttributeValue|
                value matches SnapiAttributeValue::Array(bytes) && bytes@ == array.take(
                    256 * hi + lo,
                ),
        ),
        array.len() < 256 * hi + lo ==> match result {
            Err(SnapiError::PartialData { expected, got }) => expected == 256 * hi + lo && got@
                == array,
            _ => false,
        },
{
    assert(data@[6] == 'A' as u8 && data@[9] == hi && data@[10] == lo);
    assert(data@.skip(13) =~= array);
    let length = 256 * hi + lo;
    if array.len() >= length {
        assert(data@.subrange(13, 13 + length) =~= array.take(length));
        assert(result->Ok_0->Some_0@ is Array);
    }
}

/// An array whose header is not there is too short, and a value of another type
/// comes with its type and the whole answer.
pub proof fn law_other_values_are_kept(
    data: &[u8],
    result: Result<Option<SnapiAttributeValue>, SnapiError>,
)
    requires
        data@.len() >= 7,
        call_ensures(SnapiAttributeValue::decode, (data,), result),
    ensures
        data@[6] == 'A' as u8 && data@.len() < 13 ==> fails_short(
            result,
            13,
            data@.len(),
        ),
        data@[6] != 'F' as u8 && data@[6] != 'B' as u8 && data@[6] != 'W' as u8 && data@[6]
            != 'D' as u8 && data@[6] != 'S' as u8 && data@[6] != 'A' as u8 && data@[6] != 0 ==> is_value(
            result,
            |value: SnapiAttributeValue|
                match value {
                    SnapiAttributeValue::Unknown { attribute_type, data: kept } => kept@ == data@
                        && match attribute_type {
                        SnapiAttributeType::Action => data@[6] == 'X' as u8,
                        SnapiAttributeType::Unknown(other) => data@[6] == other && other
                            != 'X' as u8,
                        _ => false,
                    },
                    _ => false,
                },
        ),
{
    if data@[6] != 'F' as u8 && data@[6] != 'B' as u8 && data@[6] != 'W' as u8 && data@[6]
        != 'D' as u8 && data@[6] != 'S' as u8 && data@[6] != 'A' as u8 && data@[6] != 0 {
        assert(result->Ok_0->Some_0@ is Unknown);
    }
}

/// Only an answer that ends just before the last byte of its value cannot be
/// read.
pub proof fn law_readable_values(data: &[u8], result: bool)
    requires
        call_ensures(SnapiAttributeValue::can_decode, (data,), result),
    ensures
        !result <==> data@.len() >= 7 && ((data@[6] == 'F' as u8 || data@[6] == 'B' as u8)
            && data@.len() == 8 || (data@[6] == 'W' as u8 || data@[6] == 'S' as u8) && data@.len()
            == 9 || data@[6] == 'D' as u8 && data@.len() == 11),
{
}

/// A value is written as the letter of its type and its bytes.
pub proof fn law_values_are_written(value: &SnapiAttributeValue, result: Option<Vec<u8>>)
    requires
        call_ensures(SnapiAttributeValue::encode, (value,), result),
    ensures
        match *value {
            SnapiAttributeValue::Flag(flag) => result matches Some(bytes) && bytes@ == seq![
                'F' as u8,
                0u8,
                if flag {
                    1u8
                } else {
                    0u8
                },
            ],
            SnapiAttributeValue::Byte(byte) => result matches Some(bytes) && bytes@ == seq![
                'B' as u8,
                0u8,
                byte,
            ],
            SnapiAttributeValue::Word(word) => result matches Some(bytes) && bytes@.len() == 3
                && bytes@[0] == 'W' as u8 && 256 * bytes@[1] + bytes@[2] == word,
            SnapiAttributeValue::DWord(dword) => result matches Some(bytes) && bytes@.len() == 5
                && bytes@[0] == 'D' as u8 && little_endian(
                bytes@[4],
                bytes@[3],
                bytes@[2],
                bytes@[1],
            ) == dword,
            SnapiAttributeValue::Action(word) => result matches Some(bytes) && bytes@.len() == 3
                && bytes@[0] == 'X' as u8 && bytes@[1] + 256 * bytes@[2] == word,
            SnapiAttributeValue::String(text) => {
                let utf8 = encode_utf8(text@);
                utf8.len() <= i16::MAX ==> (result matches Some(bytes) && bytes@.len() == 6
                    + utf8.len() && bytes@[0] == 'S' as u8 && bytes@[1] == 0 && 256 * bytes@[2]
                    + bytes@[3] == utf8.len() && bytes@[4] == 0 && bytes@[5] == 0 && bytes@.skip(6)
                    == utf8)
            },
            SnapiAttributeValue::Array(_) => true,
            SnapiAttributeValue::Unknown { .. } => result is None,
        },
{
    if let SnapiAttributeValue::DWord(dword) = *value {
        lemma_32_bits_by_rank(dword);
    }
    if let SnapiAttributeValue::String(text) = *value {
        assert(result->Some_0@.skip(6) =~= encode_utf8(text@));
    }
    if let SnapiAttributeValue::Flag(flag) = *value {
        assert(result->Some_0@ =~= seq!['F' as u8, 0u8, if flag { 1u8 } else { 0u8 }]);
    }
    if let SnapiAttributeValue::Byte(byte) = *value {
        assert(result->Some_0@ =~= seq!['B' as u8, 0u8, byte]);
    }
}

/// Every value can be written, or is known not to be, but an array and a text of
/// more bytes than fit in a signed 16-bit number. The type of a value is that of
/// its variant.
pub proof fn law_writable_values(
    value: &SnapiAttributeValue,
    result: bool,
    kind: SnapiAttributeType,
)
    requires
        call_ensures(SnapiAttributeValue::can_encode, (value,), result),
        call_ensures(SnapiAttributeValue::attribute_type, (value,), kind),
    ensures
        result <==> match *value {
            SnapiAttributeValue::Array(_) => false,
            SnapiAttributeValue::String(text) => encode_utf8(text@).len() <= 0x7FFF,
            _ => true,
        },
        match *value {
            SnapiAttributeValue::Flag(_) => kind is Flag,
            SnapiAttributeValue::Byte(_) => kind is Byte,
            SnapiAttributeValue::Word(_) => kind is Word,
            SnapiAttributeValue::DWord(_) => kind is DWord,
            SnapiAttributeValue::String(_) => kind is String,
            SnapiAttributeValue::Array(_) => kind is Array,
            SnapiAttributeValue::Action(_) => kind is Action,
            SnapiAttributeValue::Unknown { attribute_type, .. } => kind == attribute_type,
        },
{
}

/// Whether two values are the same, down to their bytes and characters.
pub open spec fn same_value(value: SnapiAttributeValue, other: SnapiAttributeValue) -> bool {
    match (value, other) {
        (SnapiAttributeValue::Flag(a), SnapiAttributeValue::Flag(b)) => a == b,
        (SnapiAttributeValue::Byte(a), SnapiAttributeValue::Byte(b)) => a == b,
        (SnapiAttributeValue::Word(a), SnapiAttributeValue::Word(b)) => a == b,
        (SnapiAttributeValue::DWord(a), SnapiAttributeValue::DWord(b)) => a == b,
        (SnapiAttributeValue::String(a), SnapiAttributeValue::String(b)) => a@ == b@,
        (SnapiAttributeValue::Array(a), SnapiAttributeValue::Array(b)) => a@ == b@,
        (SnapiAttributeValue::Action(a), SnapiAttributeValue::Action(b)) => a == b,
        (
            SnapiAttributeValue::Unknown { attribute_type: a, data },
            SnapiAttributeValue::Unknown { attribute_type: b, data: other },
        ) => a == b && data@ == other@,
        _ => false,
    }
}

/// Whether two optional values are the same.
pub open spec fn same_optional_value(
    value: Option<SnapiAttributeValue>,
    other: Option<SnapiAttributeValue>,
) -> bool {
    match (value, other) {
        (Some(value), Some(other)) => same_value(value, other),
        (None, None) => true,
        _ => false,
    }
}

/// Whether two answers are the same, down to their bytes and characters.
pub open spec fn same_response(
    response: SnapiAttributeResponse,
    other: SnapiAttributeResponse,
) -> bool {
    match (response, other) {
        (SnapiAttributeResponse::GetId(a), SnapiAttributeResponse::GetId(b)) => a@ == b@,
        (SnapiAttributeResponse::Get(a), SnapiAttributeResponse::Get(b)) => same_optional_value(
            a,
            b,
        ),
        (SnapiAttributeResponse::GetOffset(a), SnapiAttributeResponse::GetOffset(b)) => a@ == b@,
        (SnapiAttributeResponse::SetValue, SnapiAttributeResponse::SetValue) => true,
        (SnapiAttributeResponse::Store, SnapiAttributeResponse::Store) => true,
        (
            SnapiAttributeResponse::Unknown { request: a, data: c },
            SnapiAttributeResponse::Unknown { request: b, data: d },
        ) => a == b && c@ == d@,
        _ => false,
    }
}

/// Answers that look the same are the same.
pub proof fn lemma_same_response(
    response: SnapiAttributeResponse,
    other: SnapiAttributeResponse,
)
    requires
        response@ == other@,
    ensures
        same_response(response, other),
{
    if let (SnapiAttributeResponse::Get(Some(a)), SnapiAttributeResponse::Get(Some(b))) = (
        response,
        other,
    ) {
        assert(a@ == b@);
    }
}

/// An answer that lists attribute numbers is read as them: each two bytes behind
/// the sixth are a number, the upper byte first, and a single byte at the end is
/// passed over.
pub proof fn law_listed_ids_are_read(
    data: &[u8],
    result: Result<SnapiAttributeResponse, SnapiError>,
)
    requires
        data@.len() >= 6,
        data@[2] == 1,
        call_ensures(SnapiAttributeResponse::decode, (data,), result),
    ensures
        match result {
            Ok(SnapiAttributeResponse::GetId(ids)) => {
                &&& data@.len() == 6 + 2 * ids@.len() || data@.len() == 7 + 2 * ids@.len()
                &&& forall|i: int|
                    0 <= i < ids@.len() ==> #[trigger] ids@[i] == 256 * data@[6 + 2 * i]
                        + data@[7 + 2 * i]
            },
            _ => false,
        },
{
}

/// An answer to a value request holds the value that is read from the same
/// bytes.
pub proof fn law_value_answer_is_read(
    data: &[u8],
    result: Result<SnapiAttributeResponse, SnapiError>,
    value: Result<Option<SnapiAttributeValue>, SnapiError>,
)
    requires
        data@.len() >= 3,
        data@[2] == 2,
        call_ensures(SnapiAttributeResponse::decode, (data,), result),
        call_ensures(SnapiAttributeValue::decode, (data,), value),
    ensures
        match (result, value) {
            (Ok(SnapiAttributeResponse::Get(got)), Ok(value)) => same_optional_value(got, value),
            (Err(error), Err(expected)) => same_error(error, expected),
            _ => false,
        },
{
    if let (Ok(SnapiAttributeResponse::Get(got)), Ok(value)) = (result, value) {
        if let (Some(got), Some(value)) = (got, value) {
            assert(got@ == value@);
        }
    }
}

/// The other answers: more bytes of a long value behind the thirteenth byte, the
/// word that a value was set or stored, or an answer that is kept as it is.
pub proof fn law_other_answers_are_read(
    data: &[u8],
    result: Result<SnapiAttributeResponse, SnapiError>,
)
    requires
        data@.len() >= 3,
        call_ensures(SnapiAttributeResponse::decode, (data,), result),
    ensures
        data@[2] == 4 ==> match result {
            Ok(SnapiAttributeResponse::GetOffset(bytes)) => data@.len() >= 13 && bytes@
                == data@.skip(13),
            Ok(_) => false,
            Err(error) => data@.len() < 13 && is_too_short(error, 13, data@.len()),
        },
        data@[2] == 5 ==> result matches Ok(SnapiAttributeResponse::SetValue),
        data@[2] == 6 ==> result matches Ok(SnapiAttributeResponse::Store),
        data@[2] != 1 && data@[2] != 2 && data@[2] != 4 && data@[2] != 5 && data@[2] != 6 ==> match result {
            Ok(SnapiAttributeResponse::Unknown { request, data: kept }) => request
                == SnapiAttributeRequest::Unknown(data@[2]) && kept@ == data@,
            _ => false,
        },
{
}

/// An answer can be read where its third byte is there and, with a list of
/// numbers, its sixth.
pub proof fn law_readable_answers(data: &[u8], result: bool, value: bool)
    requires
        call_ensures(SnapiAttributeResponse::can_decode, (data,), result),
        call_ensures(SnapiAttributeValue::can_decode, (data,), value),
    ensures
        result <==> data@.len() >= 3 && (data@[2] == 1 ==> data@.len() >= 6) && (data@[2] == 2
            ==> value),
{
}

} // verus!
