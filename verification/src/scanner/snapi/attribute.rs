//! Attributes: the settings and facts that a device keeps under numbers.

use vstd::prelude::*;
use vstd::slice::slice_subrange;
use vstd::utf8::{decode_utf8, encode_utf8, valid_utf8};

use crate::scanner::snapi::error::{result_view, SnapiError, SnapiErrorView};
use crate::wire::{
    be16, be16_bytes, be32_bytes, copy_all, copy_range, law_16_bit_bytes_read_back,
    law_32_bit_bytes_read_back, le16, le16_bytes, le32, push_be16, push_be32, push_bytes,
    u16_from_be, u16_from_le, u32_from_le,
};

verus! {

/// The error of [`String::from_utf8`]. Only that there was one matters here.
#[verifier::external_type_specification]
#[verifier::external_body]
pub struct ExFromUtf8Error(std::string::FromUtf8Error);

/// [`String::from_utf8`] accepts exactly the byte runs that are valid UTF-8 and
/// gives the characters that they encode.
pub assume_specification[ std::string::String::from_utf8 ](vec: Vec<u8>) -> (result: Result<
    std::string::String,
    std::string::FromUtf8Error,
>)
    ensures
        result is Ok <==> valid_utf8(vec@),
        result matches Ok(text) ==> text@ == decode_utf8(vec@),
;

/// What is asked of an attribute.
#[derive(Debug, Clone, Copy, PartialEq, Eq, Structural)]
pub enum SnapiAttributeRequest {
    /// The numbers of the attributes there are.
    GetId,
    /// The value of an attribute.
    Get,
    /// The rest of a long value.
    GetOffset,
    /// A new value, until the device restarts.
    SetValue,
    /// A new value, for good.
    Store,
    /// A code that has no meaning of its own here.
    Unknown(u8),
}

impl SnapiAttributeRequest {
    /// The value that a code on the wire stands for.
    pub open spec fn of_code(code: u8) -> SnapiAttributeRequest {
        match code {
            0x01 => SnapiAttributeRequest::GetId,
            0x02 => SnapiAttributeRequest::Get,
            0x04 => SnapiAttributeRequest::GetOffset,
            0x05 => SnapiAttributeRequest::SetValue,
            0x06 => SnapiAttributeRequest::Store,
            other => SnapiAttributeRequest::Unknown(other),
        }
    }

    /// The code on the wire.
    pub open spec fn code(self) -> u8 {
        match self {
            SnapiAttributeRequest::GetId => 0x01,
            SnapiAttributeRequest::Get => 0x02,
            SnapiAttributeRequest::GetOffset => 0x04,
            SnapiAttributeRequest::SetValue => 0x05,
            SnapiAttributeRequest::Store => 0x06,
            SnapiAttributeRequest::Unknown(other) => other,
        }
    }

    /// Reads a code on the wire.
    pub fn from_code(code: u8) -> (value: SnapiAttributeRequest)
        ensures
            value == SnapiAttributeRequest::of_code(code),
    {
        match code {
            0x01 => SnapiAttributeRequest::GetId,
            0x02 => SnapiAttributeRequest::Get,
            0x04 => SnapiAttributeRequest::GetOffset,
            0x05 => SnapiAttributeRequest::SetValue,
            0x06 => SnapiAttributeRequest::Store,
            other => SnapiAttributeRequest::Unknown(other),
        }
    }
}

impl From<u8> for SnapiAttributeRequest {
    fn from(value: u8) -> (result: Self) {
        SnapiAttributeRequest::from_code(value)
    }
}

impl vstd::std_specs::convert::FromSpecImpl<u8> for SnapiAttributeRequest {
    open spec fn obeys_from_spec() -> bool {
        true
    }

    open spec fn from_spec(value: u8) -> SnapiAttributeRequest {
        SnapiAttributeRequest::of_code(value)
    }
}

impl From<SnapiAttributeRequest> for u8 {
    fn from(value: SnapiAttributeRequest) -> (result: u8) {
        match value {
            SnapiAttributeRequest::GetId => 0x01,
            SnapiAttributeRequest::Get => 0x02,
            SnapiAttributeRequest::GetOffset => 0x04,
            SnapiAttributeRequest::SetValue => 0x05,
            SnapiAttributeRequest::Store => 0x06,
            SnapiAttributeRequest::Unknown(other) => other,
        }
    }
}

impl vstd::std_specs::convert::FromSpecImpl<SnapiAttributeRequest> for u8 {
    open spec fn obeys_from_spec() -> bool {
        true
    }

    open spec fn from_spec(value: SnapiAttributeRequest) -> u8 {
        value.code()
    }
}

/// The type of an attribute.
#[derive(Debug, Clone, Copy, PartialEq, Eq, Structural)]
pub enum SnapiAttributeType {
    /// On or off.
    Flag,
    /// One byte.
    Byte,
    /// Two bytes.
    Word,
    /// Four bytes.
    DWord,
    /// Text.
    String,
    /// A run of bytes.
    Array,
    /// Something the device does.
    Action,
    /// There is no value.
    Empty,
    /// A code that has no meaning of its own here.
    Unknown(u8),
}

impl SnapiAttributeType {
    /// The value that a code on the wire stands for.
    pub open spec fn of_code(code: u8) -> SnapiAttributeType {
        match code {
            0x46 => SnapiAttributeType::Flag,
            0x42 => SnapiAttributeType::Byte,
            0x57 => SnapiAttributeType::Word,
            0x44 => SnapiAttributeType::DWord,
            0x53 => SnapiAttributeType::String,
            0x41 => SnapiAttributeType::Array,
            0x58 => SnapiAttributeType::Action,
            0x00 => SnapiAttributeType::Empty,
            other => SnapiAttributeType::Unknown(other),
        }
    }

    /// The code on the wire.
    pub open spec fn code(self) -> u8 {
        match self {
            SnapiAttributeType::Flag => 0x46,
            SnapiAttributeType::Byte => 0x42,
            SnapiAttributeType::Word => 0x57,
            SnapiAttributeType::DWord => 0x44,
            SnapiAttributeType::String => 0x53,
            SnapiAttributeType::Array => 0x41,
            SnapiAttributeType::Action => 0x58,
            SnapiAttributeType::Empty => 0x00,
            SnapiAttributeType::Unknown(other) => other,
        }
    }

    /// Reads a code on the wire.
    pub fn from_code(code: u8) -> (value: SnapiAttributeType)
        ensures
            value == SnapiAttributeType::of_code(code),
    {
        match code {
            0x46 => SnapiAttributeType::Flag,
            0x42 => SnapiAttributeType::Byte,
            0x57 => SnapiAttributeType::Word,
            0x44 => SnapiAttributeType::DWord,
            0x53 => SnapiAttributeType::String,
            0x41 => SnapiAttributeType::Array,
            0x58 => SnapiAttributeType::Action,
            0x00 => SnapiAttributeType::Empty,
            other => SnapiAttributeType::Unknown(other),
        }
    }
}

impl From<u8> for SnapiAttributeType {
    fn from(value: u8) -> (result: Self) {
        SnapiAttributeType::from_code(value)
    }
}

impl vstd::std_specs::convert::FromSpecImpl<u8> for SnapiAttributeType {
    open spec fn obeys_from_spec() -> bool {
        true
    }

    open spec fn from_spec(value: u8) -> SnapiAttributeType {
        SnapiAttributeType::of_code(value)
    }
}

impl From<SnapiAttributeType> for u8 {
    fn from(value: SnapiAttributeType) -> (result: u8) {
        match value {
            SnapiAttributeType::Flag => 0x46,
            SnapiAttributeType::Byte => 0x42,
            SnapiAttributeType::Word => 0x57,
            SnapiAttributeType::DWord => 0x44,
            SnapiAttributeType::String => 0x53,
            SnapiAttributeType::Array => 0x41,
            SnapiAttributeType::Action => 0x58,
            SnapiAttributeType::Empty => 0x00,
            SnapiAttributeType::Unknown(other) => other,
        }
    }
}

impl vstd::std_specs::convert::FromSpecImpl<SnapiAttributeType> for u8 {
    open spec fn obeys_from_spec() -> bool {
        true
    }

    open spec fn from_spec(value: SnapiAttributeType) -> u8 {
        value.code()
    }
}

/// Every request code and every type code is kept: reading it and writing it
/// again gives the same byte.
pub proof fn law_attribute_codes(code: u8)
    ensures
        SnapiAttributeRequest::of_code(code).code() == code,
        SnapiAttributeType::of_code(code).code() == code,
{
}

/// The value of an attribute.
#[derive(Debug)]
pub enum SnapiAttributeValue {
    /// On or off.
    Flag(bool),
    /// One byte.
    Byte(u8),
    /// Two bytes.
    Word(u16),
    /// Four bytes.
    DWord(u32),
    /// Text.
    String(String),
    /// A run of bytes.
    Array(Vec<u8>),
    /// Something the device does.
    Action(u16),
    /// A value of a type that is not read here.
    Unknown {
        /// The type.
        attribute_type: SnapiAttributeType,
        /// The whole answer that the value stands in.
        data: Vec<u8>,
    },
}

/// A [`SnapiAttributeValue`] as a mathematical value.
#[verifier::ext_equal]
pub enum SnapiAttributeValueView {
    Flag(bool),
    Byte(u8),
    Word(u16),
    DWord(u32),
    String(Seq<char>),
    Array(Seq<u8>),
    Action(u16),
    Unknown { attribute_type: SnapiAttributeType, data: Seq<u8> },
}

impl View for SnapiAttributeValue {
    type V = SnapiAttributeValueView;

    open spec fn view(&self) -> SnapiAttributeValueView {
        match *self {
            SnapiAttributeValue::Flag(value) => SnapiAttributeValueView::Flag(value),
            SnapiAttributeValue::Byte(value) => SnapiAttributeValueView::Byte(value),
            SnapiAttributeValue::Word(value) => SnapiAttributeValueView::Word(value),
            SnapiAttributeValue::DWord(value) => SnapiAttributeValueView::DWord(value),
            SnapiAttributeValue::String(value) => SnapiAttributeValueView::String(value@),
            SnapiAttributeValue::Array(value) => SnapiAttributeValueView::Array(value@),
            SnapiAttributeValue::Action(value) => SnapiAttributeValueView::Action(value),
            SnapiAttributeValue::Unknown { attribute_type, data } => {
                SnapiAttributeValueView::Unknown { attribute_type, data: data@ }
            },
        }
    }
}

impl SnapiAttributeValueView {
    /// The type of the value.
    pub open spec fn attribute_type(self) -> SnapiAttributeType {
        match self {
            SnapiAttributeValueView::Flag(_) => SnapiAttributeType::Flag,
            SnapiAttributeValueView::Byte(_) => SnapiAttributeType::Byte,
            SnapiAttributeValueView::Word(_) => SnapiAttributeType::Word,
            SnapiAttributeValueView::DWord(_) => SnapiAttributeType::DWord,
            SnapiAttributeValueView::String(_) => SnapiAttributeType::String,
            SnapiAttributeValueView::Array(_) => SnapiAttributeType::Array,
            SnapiAttributeValueView::Action(_) => SnapiAttributeType::Action,
            SnapiAttributeValueView::Unknown { attribute_type, .. } => attribute_type,
        }
    }

    /// Whether the value can be written at all, or is known not to be: an array
    /// cannot, nor a text whose length does not fit in its length field.
    pub open spec fn can_encode(self) -> bool {
        match self {
            SnapiAttributeValueView::Array(_) => false,
            SnapiAttributeValueView::String(text) => encode_utf8(text).len() <= i16::MAX,
            _ => true,
        }
    }

    /// The bytes that the value is written as.
    pub open spec fn encoded(self) -> Option<Seq<u8>>
        recommends
            self.can_encode(),
    {
        match self {
            SnapiAttributeValueView::Flag(value) => Some(
                seq![0x46u8, 0x00u8, if value { 1u8 } else { 0u8 }],
            ),
            SnapiAttributeValueView::Byte(value) => Some(seq![0x42u8, 0x00u8, value]),
            SnapiAttributeValueView::Word(value) => Some(seq![0x57u8] + be16_bytes(value)),
            SnapiAttributeValueView::DWord(value) => Some(seq![0x44u8] + be32_bytes(value)),
            SnapiAttributeValueView::Action(value) => Some(seq![0x58u8] + le16_bytes(value)),
            SnapiAttributeValueView::String(text) => Some(
                seq![0x53u8, 0x00u8] + be16_bytes(encode_utf8(text).len() as u16) + seq![
                    0x00u8,
                    0x00u8,
                ] + encode_utf8(text),
            ),
            SnapiAttributeValueView::Array(_) | SnapiAttributeValueView::Unknown { .. } => None,
        }
    }

    /// What a run of text bytes becomes: text, or an array where it is not
    /// UTF-8.
    pub open spec fn of_text(bytes: Seq<u8>) -> SnapiAttributeValueView {
        if valid_utf8(bytes) {
            SnapiAttributeValueView::String(decode_utf8(bytes))
        } else {
            SnapiAttributeValueView::Array(bytes)
        }
    }

    /// Whether the bytes that the value's type calls for are there, or are
    /// known to be missing.
    pub open spec fn can_decode(data: Seq<u8>) -> bool {
        data.len() >= 7 ==> match SnapiAttributeType::of_code(data[6]) {
            SnapiAttributeType::Flag | SnapiAttributeType::Byte => data.len() != 8,
            SnapiAttributeType::Word | SnapiAttributeType::String => data.len() != 9,
            SnapiAttributeType::DWord => data.len() != 11,
            _ => true,
        }
    }

    /// The value that an answer holds.
    pub open spec fn decoded(data: Seq<u8>) -> Result<
        Option<SnapiAttributeValueView>,
        SnapiErrorView,
    >
        recommends
            Self::can_decode(data),
    {
        if data.len() < 7 {
            Ok(None)
        } else {
            match SnapiAttributeType::of_code(data[6]) {
                SnapiAttributeType::Flag => if data.len() < 8 {
                    Err(too_short(8, data))
                } else {
                    Ok(Some(SnapiAttributeValueView::Flag(data[8] > 0)))
                },
                SnapiAttributeType::Byte => if data.len() < 8 {
                    Err(too_short(8, data))
                } else {
                    Ok(Some(SnapiAttributeValueView::Byte(data[8])))
                },
                SnapiAttributeType::Word => if data.len() < 9 {
                    Err(too_short(9, data))
                } else {
                    Ok(Some(SnapiAttributeValueView::Word(le16(data[8], data[9]))))
                },
                SnapiAttributeType::DWord => if data.len() < 11 {
                    Err(too_short(11, data))
                } else {
                    Ok(
                        Some(
                            SnapiAttributeValueView::DWord(
                                le32(data[8], data[9], data[10], data[11]),
                            ),
                        ),
                    )
                },
                SnapiAttributeType::String => if data.len() < 9 {
                    Err(too_short(9, data))
                } else {
                    // The text ends before its terminating zero.
                    let end = 11 + data[9];
                    if end <= 12 {
                        Ok(Some(SnapiAttributeValueView::String(Seq::empty())))
                    } else if data.len() < end {
                        Err(too_short(end, data))
                    } else {
                        Ok(Some(Self::of_text(data.subrange(12, end))))
                    }
                },
                SnapiAttributeType::Array => if data.len() < 13 {
                    Err(too_short(13, data))
                } else {
                    let length = be16(data[9], data[10]) as int;
                    if data.len() < 13 + length {
                        Err(
                            SnapiErrorView::PartialData {
                                expected: length,
                                got: data.skip(13),
                            },
                        )
                    } else {
                        Ok(Some(SnapiAttributeValueView::Array(data.subrange(13, 13 + length))))
                    }
                },
                SnapiAttributeType::Empty => Ok(None),
                attribute_type => Ok(
                    Some(SnapiAttributeValueView::Unknown { attribute_type, data }),
                ),
            }
        }
    }
}

/// There are fewer bytes than are needed.
pub open spec fn too_short(expected: int, data: Seq<u8>) -> SnapiErrorView {
    SnapiErrorView::TooShort { expected, actual: data.len() as int }
}

/// Makes sure that there are as many bytes as are needed.
pub(crate) fn require_length(data: &[u8], expected: usize) -> (result: Result<(), SnapiError>)
    ensures
        result is Ok <==> data@.len() >= expected,
        result matches Err(error) ==> error@ == too_short(expected as int, data@),
{
    let actual = data.len();
    if actual < expected {
        Err(SnapiError::TooShort { expected, actual })
    } else {
        Ok(())
    }
}

/// An optional value of a result, as a mathematical value.
pub open spec fn option_result_view<T: View>(result: Result<Option<T>, SnapiError>) -> Result<
    Option<T::V>,
    SnapiErrorView,
> {
    match result {
        Ok(Some(value)) => Ok(Some(value@)),
        Ok(None) => Ok(None),
        Err(error) => Err(error@),
    }
}

impl SnapiAttributeValue {
    /// The type of the value.
    pub fn attribute_type(&self) -> (attribute_type: SnapiAttributeType)
        ensures
            attribute_type == self@.attribute_type(),
    {
        match self {
            SnapiAttributeValue::Flag(_) => SnapiAttributeType::Flag,
            SnapiAttributeValue::Byte(_) => SnapiAttributeType::Byte,
            SnapiAttributeValue::Word(_) => SnapiAttributeType::Word,
            SnapiAttributeValue::DWord(_) => SnapiAttributeType::DWord,
            SnapiAttributeValue::String(_) => SnapiAttributeType::String,
            SnapiAttributeValue::Array(_) => SnapiAttributeType::Array,
            SnapiAttributeValue::Action(_) => SnapiAttributeType::Action,
            SnapiAttributeValue::Unknown { attribute_type, .. } => *attribute_type,
        }
    }

    /// Whether [`Self::decode`] takes an answer.
    pub fn can_decode(data: &[u8]) -> (result: bool)
        ensures
            result == SnapiAttributeValueView::can_decode(data@),
    {
        let length = data.len();
        length < 7 || match SnapiAttributeType::from_code(data[6]) {
            SnapiAttributeType::Flag | SnapiAttributeType::Byte => length != 8,
            SnapiAttributeType::Word | SnapiAttributeType::String => length != 9,
            SnapiAttributeType::DWord => length != 11,
            _ => true,
        }
    }

    /// Reads the value that an answer holds, if it holds one.
    pub fn decode(data: &[u8]) -> (result: Result<Option<SnapiAttributeValue>, SnapiError>)
        requires
            SnapiAttributeValueView::can_decode(data@),
        ensures
            option_result_view(result) == SnapiAttributeValueView::decoded(data@),
    {
        if data.len() < 7 {
            return Ok(None);
        }
        let value = match SnapiAttributeType::from_code(data[6]) {
            SnapiAttributeType::Flag => {
                require_length(data, 8)?;
                SnapiAttributeValue::Flag(data[8] > 0)
            },
            SnapiAttributeType::Byte => {
                require_length(data, 8)?;
                SnapiAttributeValue::Byte(data[8])
            },
            SnapiAttributeType::Word => {
                require_length(data, 9)?;
                SnapiAttributeValue::Word(u16_from_le(data[8], data[9]))
            },
            SnapiAttributeType::DWord => {
                require_length(data, 11)?;
                SnapiAttributeValue::DWord(u32_from_le(data[8], data[9], data[10], data[11]))
            },
            SnapiAttributeType::String => {
                require_length(data, 9)?;
                // Strings are null terminated, ignore the last byte.
                let end: usize = 11 + data[9] as usize;
                if end <= 12 {
                    SnapiAttributeValue::String(String::new())
                } else {
                    require_length(data, end)?;
                    let text = slice_subrange(data, 12, end);
                    match String::from_utf8(copy_all(text)) {
                        Ok(text) => SnapiAttributeValue::String(text),
                        Err(_) => SnapiAttributeValue::Array(copy_all(text)),
                    }
                }
            },
            SnapiAttributeType::Array => {
                require_length(data, 13)?;
                let length: usize = u16_from_be(data[9], data[10]) as usize;
                if data.len() < 13 + length {
                    let got = copy_range(data, 13, data.len());
                    return Err(SnapiError::PartialData { expected: length, got });
                }
                SnapiAttributeValue::Array(copy_range(data, 13, 13 + length))
            },
            SnapiAttributeType::Empty => return Ok(None),
            attribute_type => SnapiAttributeValue::Unknown { attribute_type, data: copy_all(data) },
        };
        Ok(Some(value))
    }

    /// Whether [`Self::encode`] takes the value.
    pub fn can_encode(&self) -> (result: bool)
        ensures
            result == self@.can_encode(),
    {
        match self {
            SnapiAttributeValue::Array(_) => false,
            SnapiAttributeValue::String(value) => value.as_str().as_bytes().len()
                <= i16::MAX as usize,
            _ => true,
        }
    }

    /// Writes the value, if it is of a type that can be written.
    pub fn encode(&self) -> (bytes: Option<Vec<u8>>)
        requires
            self@.can_encode(),
        ensures
            bytes is Some <==> self@.encoded() is Some,
            bytes matches Some(bytes) ==> bytes@ == self@.encoded()->0,
    {
        let mut bytes: Vec<u8> = Vec::new();
        match self {
            SnapiAttributeValue::Flag(value) => {
                bytes.push(SnapiAttributeType::Flag.into());
                bytes.push(0x00);
                bytes.push(if *value { 1 } else { 0 });
            },
            SnapiAttributeValue::Byte(value) => {
                bytes.push(SnapiAttributeType::Byte.into());
                bytes.push(0x00);
                bytes.push(*value);
            },
            SnapiAttributeValue::Word(value) => {
                bytes.push(SnapiAttributeType::Word.into());
                push_be16(&mut bytes, *value);
            },
            SnapiAttributeValue::DWord(value) => {
                bytes.push(SnapiAttributeType::DWord.into());
                push_be32(&mut bytes, *value);
            },
            SnapiAttributeValue::Action(value) => {
                bytes.push(SnapiAttributeType::Action.into());
                bytes.push((*value % 0x100) as u8);
                bytes.push((*value / 0x100) as u8);
            },
            SnapiAttributeValue::String(value) => {
                let text = value.as_str().as_bytes();
                bytes.push(SnapiAttributeType::String.into());
                bytes.push(0x00);
                push_be16(&mut bytes, text.len() as u16);
                bytes.push(0x00);
                bytes.push(0x00);
                push_bytes(&mut bytes, text);
            },
            SnapiAttributeValue::Array(_) | SnapiAttributeValue::Unknown { .. } => {
                return None;
            },
        }
        proof {
            assert(bytes@ =~= self@.encoded()->0);
        }
        Some(bytes)
    }
}

/// The answer to an attribute request.
#[derive(Debug)]
pub enum SnapiAttributeResponse {
    /// The numbers of attributes there are.
    GetId(Vec<u16>),
    /// The value of an attribute, if it has one.
    Get(Option<SnapiAttributeValue>),
    /// More bytes of a long value.
    GetOffset(Vec<u8>),
    /// The value was taken.
    SetValue,
    /// The value was taken for good.
    Store,
    /// The answer to a request that is not read here.
    Unknown {
        /// The request.
        request: SnapiAttributeRequest,
        /// The whole answer.
        data: Vec<u8>,
    },
}

/// A [`SnapiAttributeResponse`] as a mathematical value.
#[verifier::ext_equal]
pub enum SnapiAttributeResponseView {
    GetId(Seq<u16>),
    Get(Option<SnapiAttributeValueView>),
    GetOffset(Seq<u8>),
    SetValue,
    Store,
    Unknown { request: SnapiAttributeRequest, data: Seq<u8> },
}

impl View for SnapiAttributeResponse {
    type V = SnapiAttributeResponseView;

    open spec fn view(&self) -> SnapiAttributeResponseView {
        match *self {
            SnapiAttributeResponse::GetId(ids) => SnapiAttributeResponseView::GetId(ids@),
            SnapiAttributeResponse::Get(Some(value)) => SnapiAttributeResponseView::Get(
                Some(value@),
            ),
            SnapiAttributeResponse::Get(None) => SnapiAttributeResponseView::Get(None),
            SnapiAttributeResponse::GetOffset(data) => SnapiAttributeResponseView::GetOffset(
                data@,
            ),
            SnapiAttributeResponse::SetValue => SnapiAttributeResponseView::SetValue,
            SnapiAttributeResponse::Store => SnapiAttributeResponseView::Store,
            SnapiAttributeResponse::Unknown { request, data } => {
                SnapiAttributeResponseView::Unknown { request, data: data@ }
            },
        }
    }
}

/// The attribute numbers that an answer lists: all whole pairs of bytes after
/// the header.
pub open spec fn listed_ids(data: Seq<u8>) -> Seq<u16> {
    Seq::new(((data.len() - 6) / 2) as nat, |i: int| be16(data[6 + 2 * i], data[7 + 2 * i]))
}

impl SnapiAttributeResponseView {
    /// Whether the bytes that the answer calls for are there, or are known to
    /// be missing.
    pub open spec fn can_decode(data: Seq<u8>) -> bool {
        &&& data.len() >= 3
        &&& match SnapiAttributeRequest::of_code(data[2]) {
            SnapiAttributeRequest::GetId => data.len() >= 6,
            SnapiAttributeRequest::Get => SnapiAttributeValueView::can_decode(data),
            _ => true,
        }
    }

    /// The answer that the bytes hold.
    pub open spec fn decoded(data: Seq<u8>) -> Result<SnapiAttributeResponseView, SnapiErrorView>
        recommends
            Self::can_decode(data),
    {
        match SnapiAttributeRequest::of_code(data[2]) {
            SnapiAttributeRequest::GetId => Ok(
                SnapiAttributeResponseView::GetId(listed_ids(data)),
            ),
            SnapiAttributeRequest::Get => match SnapiAttributeValueView::decoded(data) {
                Ok(value) => Ok(SnapiAttributeResponseView::Get(value)),
                Err(error) => Err(error),
            },
            SnapiAttributeRequest::GetOffset => if data.len() < 13 {
                Err(too_short(13, data))
            } else {
                Ok(SnapiAttributeResponseView::GetOffset(data.skip(13)))
            },
            SnapiAttributeRequest::SetValue => Ok(SnapiAttributeResponseView::SetValue),
            SnapiAttributeRequest::Store => Ok(SnapiAttributeResponseView::Store),
            request => Ok(SnapiAttributeResponseView::Unknown { request, data }),
        }
    }
}

/// Reads the attribute numbers that an answer lists.
fn read_ids(data: &[u8]) -> (ids: Vec<u16>)
    requires
        data@.len() >= 6,
    ensures
        ids@ == listed_ids(data@),
{
    let mut ids: Vec<u16> = Vec::new();
    let mut pos: usize = 6;
    while data.len() - pos >= 2
        invariant
            6 <= pos <= data@.len(),
            pos == 6 + 2 * ids@.len(),
            ids@ == listed_ids(data@).take(ids@.len() as int),
        decreases data@.len() - pos,
    {
        ids.push(u16_from_be(data[pos], data[pos + 1]));
        pos = pos + 2;
        proof {
            assert(ids@ =~= listed_ids(data@).take(ids@.len() as int));
        }
    }
    proof {
        assert(ids@ =~= listed_ids(data@));
    }
    ids
}

impl SnapiAttributeResponse {
    /// Whether an answer has all the bytes that [`Self::decode`] needs in order
    /// to tell what it holds.
    pub fn can_decode(data: &[u8]) -> (result: bool)
        ensures
            result == SnapiAttributeResponseView::can_decode(data@),
    {
        let length = data.len();
        if length < 3 {
            return false;
        }
        match SnapiAttributeRequest::from_code(data[2]) {
            SnapiAttributeRequest::GetId => length >= 6,
            SnapiAttributeRequest::Get => SnapiAttributeValue::can_decode(data),
            _ => true,
        }
    }

    /// Reads an answer.
    pub fn decode(data: &[u8]) -> (result: Result<SnapiAttributeResponse, SnapiError>)
        requires
            SnapiAttributeResponseView::can_decode(data@),
        ensures
            result_view(result) == SnapiAttributeResponseView::decoded(data@),
    {
        match SnapiAttributeRequest::from_code(data[2]) {
            SnapiAttributeRequest::GetId => Ok(SnapiAttributeResponse::GetId(read_ids(data))),
            SnapiAttributeRequest::Get => match SnapiAttributeValue::decode(data) {
                Ok(value) => Ok(SnapiAttributeResponse::Get(value)),
                Err(error) => Err(error),
            },
            SnapiAttributeRequest::GetOffset => {
                require_length(data, 13)?;
                Ok(SnapiAttributeResponse::GetOffset(copy_range(data, 13, data.len())))
            },
            SnapiAttributeRequest::SetValue => Ok(SnapiAttributeResponse::SetValue),
            SnapiAttributeRequest::Store => Ok(SnapiAttributeResponse::Store),
            request => Ok(SnapiAttributeResponse::Unknown { request, data: copy_all(data) }),
        }
    }
}

/// The terminating zero adds one zero byte to a text.
proof fn lemma_utf8_terminated(text: Seq<char>)
    ensures
        encode_utf8(text.push('\0')) == encode_utf8(text).push(0u8),
    decreases text.len(),
{
    reveal_with_fuel(encode_utf8, 2);
    if text.len() == 0 {
        assert(text.push('\0').drop_first() =~= Seq::<char>::empty());
        assert(vstd::utf8::leading_byte_width_1(0u32) == 0u8) by (bit_vector);
        assert(encode_utf8(text.push('\0')) =~= encode_utf8(text).push(0u8));
    } else {
        lemma_utf8_terminated(text.drop_first());
        assert(text.push('\0').drop_first() =~= text.drop_first().push('\0'));
        assert(encode_utf8(text.push('\0')) =~= encode_utf8(text).push(0u8));
    }
}

/// What is written for a value starts with the code of the value's type.
pub proof fn law_encoded_value_starts_with_its_type(value: SnapiAttributeValueView)
    requires
        value.can_encode(),
    ensures
        value.encoded() matches Some(bytes) ==> bytes.len() >= 3 && SnapiAttributeType::of_code(
            bytes[0],
        ) == value.attribute_type(),
{
}

/// A flag or a byte that is written behind any six header bytes is read back as
/// it was. The other types are laid out in another way in an answer than in a
/// request.
pub proof fn law_flag_and_byte_read_back(header: Seq<u8>, value: SnapiAttributeValueView)
    requires
        header.len() == 6,
        value is Flag || value is Byte,
    ensures
        SnapiAttributeValueView::can_decode(header + value.encoded()->0),
        SnapiAttributeValueView::decoded(header + value.encoded()->0) == Ok::<_, SnapiErrorView>(
            Some(value),
        ),
{
}

/// A text that is written with a terminating zero behind any six header bytes
/// is read back without the zero, as long as its length fits in the one byte
/// that is read.
pub proof fn law_terminated_text_reads_back(header: Seq<u8>, text: Seq<char>)
    requires
        header.len() == 6,
        encode_utf8(text).len() < 0xFF,
    ensures
        ({
            let value = SnapiAttributeValueView::String(text.push('\0'));
            let data = header + value.encoded()->0;
            &&& value.can_encode()
            &&& SnapiAttributeValueView::can_decode(data)
            &&& SnapiAttributeValueView::decoded(data) == Ok::<_, SnapiErrorView>(
                Some(SnapiAttributeValueView::String(text)),
            )
        }),
{
    lemma_utf8_terminated(text);
    let value = SnapiAttributeValueView::String(text.push('\0'));
    let data = header + value.encoded()->0;
    let length = encode_utf8(text).len();
    assert(data[6] == 0x53);
    assert(data[9] == length + 1);
    assert(data.subrange(12, 12 + length as int) =~= encode_utf8(text));
    vstd::utf8::encode_utf8_valid_utf8(text);
    vstd::utf8::encode_utf8_decode_utf8(text);
    if text.len() == 0 {
        assert(encode_utf8(text) =~= Seq::<u8>::empty());
    } else {
        assert(encode_utf8(text).len() >= 1);
    }
}

/// A number of two or four bytes, the least significant first, is read back
/// from an answer, and so is an array that is there as a whole. Of the bytes in
/// between nothing is read.
pub proof fn law_numbers_and_arrays_are_read(
    header: Seq<u8>,
    word: u16,
    dword: u32,
    array: Seq<u8>,
    other: u8,
)
    requires
        header.len() == 6,
        array.len() <= u16::MAX,
    ensures
        SnapiAttributeValueView::decoded(header + seq![0x57u8, other] + le16_bytes(word)) == Ok::<
            _,
            SnapiErrorView,
        >(Some(SnapiAttributeValueView::Word(word))),
        SnapiAttributeValueView::decoded(
            header + seq![0x44u8, other] + be32_bytes(dword).reverse(),
        ) == Ok::<_, SnapiErrorView>(Some(SnapiAttributeValueView::DWord(dword))),
        SnapiAttributeValueView::decoded(
            header + seq![0x41u8, other, other] + be16_bytes(array.len() as u16) + seq![
                other,
                other,
            ] + array,
        ) == Ok::<_, SnapiErrorView>(Some(SnapiAttributeValueView::Array(array))),
{
    law_16_bit_bytes_read_back(word);
    law_16_bit_bytes_read_back(array.len() as u16);
    law_32_bit_bytes_read_back(dword);
    let data = header + seq![0x41u8, other, other] + be16_bytes(array.len() as u16) + seq![
        other,
        other,
    ] + array;
    assert(data.subrange(13, 13 + array.len() as int) =~= array);
}

/// Where only the beginning of a value came, it is shorter than the whole, and
/// the whole is no longer than its length field can say.
pub proof fn law_partial_value_is_short(data: Seq<u8>)
    requires
        SnapiAttributeResponseView::can_decode(data),
    ensures
        SnapiAttributeResponseView::decoded(data) matches Err(
            SnapiErrorView::PartialData { expected, got },
        ) ==> got.len() < expected <= u16::MAX,
{
}

} // verus!
