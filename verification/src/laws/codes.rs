//! The codes of reports, requests and answers, and the flags.

use vstd::prelude::*;
use vstd::std_specs::convert::{FromSpec, TryFromSpec};

use crate::scanner::snapi::code_types::CodeType;
use crate::scanner::snapi::packet::{
    SnapiAttributeRequest, SnapiAttributeRequestFlags, SnapiAttributeResponseFlags,
    SnapiAttributeType, SnapiExtendedResponseCode, SnapiResponseCode, UnknownCode,
};
use crate::scanner::snapi::{HidInput, HidOutput, MacroPdfAction, SnapiMode, SnapiNotification};
use crate::scanner::snapi_direct;

verus! {

/// Which kind of report a device sends is told by its first byte: 0x21 is a
/// status, 0x22 a barcode, 0x24 a notification, 0x27 an attribute.
pub proof fn law_kinds_of_input(code: u8, input: HidInput)
    requires
        call_ensures(HidInput::from_code, (code,), input),
    ensures
        input == HidInput::of_code(code),
        input == <HidInput as FromSpec<u8>>::from_spec(code),
        <HidInput as FromSpec<u8>>::obeys_from_spec(),
        input is Status <==> code == 0x21,
        input is Barcode <==> code == 0x22,
        input is Notification <==> code == 0x24,
        input is Attribute <==> code == 0x27,
        input matches HidInput::Unknown(other) ==> other == code,
        input.code() == code,
{
}

/// A kind of input is written as its code.
pub proof fn law_codes_of_input(input: HidInput)
    ensures
        <u8 as FromSpec<HidInput>>::obeys_from_spec(),
        <u8 as FromSpec<HidInput>>::from_spec(input) == input.code(),
        match input {
            HidInput::Status => input.code() == 0x21,
            HidInput::Barcode => input.code() == 0x22,
            HidInput::Notification => input.code() == 0x24,
            HidInput::Attribute => input.code() == 0x27,
            HidInput::Unknown(other) => input.code() == other,
        },
{
}

/// Which kind of report a device takes is told by its first byte.
pub proof fn law_kinds_of_output(code: u8, output: HidOutput)
    requires
        call_ensures(HidOutput::from_code, (code,), output),
    ensures
        output == HidOutput::of_code(code),
        output == <HidOutput as FromSpec<u8>>::from_spec(code),
        <HidOutput as FromSpec<u8>>::obeys_from_spec(),
        output is Acknowledgement <==> code == 0x01,
        output is Aim <==> code == 0x02,
        output is Mode <==> code == 0x03,
        output is Scanner <==> code == 0x06,
        output is MacroPdf <==> code == 0x08,
        output is SoftTrigger <==> code == 0x0A,
        output is Attribute <==> code == 0x0D,
        output matches HidOutput::Unknown(other) ==> other == code,
        output.code() == code,
{
}

/// A kind of output is written as its code.
pub proof fn law_codes_of_output(output: HidOutput)
    ensures
        <u8 as FromSpec<HidOutput>>::obeys_from_spec(),
        <u8 as FromSpec<HidOutput>>::from_spec(output) == output.code(),
        match output {
            HidOutput::Acknowledgement => output.code() == 0x01,
            HidOutput::Aim => output.code() == 0x02,
            HidOutput::Mode => output.code() == 0x03,
            HidOutput::Scanner => output.code() == 0x06,
            HidOutput::MacroPdf => output.code() == 0x08,
            HidOutput::SoftTrigger => output.code() == 0x0A,
            HidOutput::Attribute => output.code() == 0x0D,
            HidOutput::Unknown(other) => output.code() == other,
        },
{
}

/// The modes and what tells of them.
pub proof fn law_modes(code: u8, notification: SnapiNotification, mode: SnapiMode)
    requires
        call_ensures(SnapiNotification::from_code, (code,), notification),
        mode == <SnapiMode as FromSpec<u8>>::from_spec(code),
    ensures
        notification == SnapiNotification::of_code(code),
        notification == <SnapiNotification as FromSpec<u8>>::from_spec(code),
        <SnapiNotification as FromSpec<u8>>::obeys_from_spec(),
        notification is BarcodeMode <==> code == 0x10,
        notification is ImageMode <==> code == 0x11,
        notification is VideoMode <==> code == 0x12,
        notification matches SnapiNotification::Unknown(other) ==> other == code,
        <u8 as FromSpec<SnapiNotification>>::obeys_from_spec(),
        <u8 as FromSpec<SnapiNotification>>::from_spec(notification) == code,
        <SnapiMode as FromSpec<u8>>::obeys_from_spec(),
        mode is Barcode <==> code == 0x00,
        mode is Image <==> code == 0x01,
        mode is Video <==> code == 0x02,
        mode matches SnapiMode::Unknown(other) ==> other == code,
        <u8 as FromSpec<SnapiMode>>::obeys_from_spec(),
        <u8 as FromSpec<SnapiMode>>::from_spec(mode) == code,
{
}

/// The codes of modes, notifications and actions that are written.
pub proof fn law_codes_of_modes(
    mode: SnapiMode,
    notification: SnapiNotification,
    action: MacroPdfAction,
)
    ensures
        mode.code() == match mode {
            SnapiMode::Barcode => 0x00u8,
            SnapiMode::Image => 0x01,
            SnapiMode::Video => 0x02,
            SnapiMode::Unknown(other) => other,
        },
        <u8 as FromSpec<SnapiMode>>::from_spec(mode) == mode.code(),
        notification.code() == match notification {
            SnapiNotification::BarcodeMode => 0x10u8,
            SnapiNotification::ImageMode => 0x11,
            SnapiNotification::VideoMode => 0x12,
            SnapiNotification::Unknown(other) => other,
        },
        <u8 as FromSpec<SnapiNotification>>::from_spec(notification) == notification.code(),
        <u8 as FromSpec<MacroPdfAction>>::obeys_from_spec(),
        <u8 as FromSpec<MacroPdfAction>>::from_spec(action) == match action {
            MacroPdfAction::Flush => 0x00u8,
            MacroPdfAction::Abort => 0x01,
        },
        action.code() == <u8 as FromSpec<MacroPdfAction>>::from_spec(action),
{
}

/// What is asked of attributes, and their types, by their codes. The types are
/// told by letters.
pub proof fn law_codes_of_attributes(
    code: u8,
    request: SnapiAttributeRequest,
    kind: SnapiAttributeType,
)
    requires
        call_ensures(SnapiAttributeRequest::from_code, (code,), request),
        call_ensures(SnapiAttributeType::from_code, (code,), kind),
    ensures
        request == SnapiAttributeRequest::of_code(code),
        request == <SnapiAttributeRequest as FromSpec<u8>>::from_spec(code),
        <SnapiAttributeRequest as FromSpec<u8>>::obeys_from_spec(),
        request is GetId <==> code == 1,
        request is Get <==> code == 2,
        request is GetOffset <==> code == 4,
        request is SetValue <==> code == 5,
        request is Store <==> code == 6,
        request matches SnapiAttributeRequest::Unknown(other) ==> other == code,
        <u8 as FromSpec<SnapiAttributeRequest>>::obeys_from_spec(),
        <u8 as FromSpec<SnapiAttributeRequest>>::from_spec(request) == code,
        kind == SnapiAttributeType::of_code(code),
        kind == <SnapiAttributeType as FromSpec<u8>>::from_spec(code),
        <SnapiAttributeType as FromSpec<u8>>::obeys_from_spec(),
        kind is Flag <==> code == 'F' as u8,
        kind is Byte <==> code == 'B' as u8,
        kind is Word <==> code == 'W' as u8,
        kind is DWord <==> code == 'D' as u8,
        kind is String <==> code == 'S' as u8,
        kind is Array <==> code == 'A' as u8,
        kind is Action <==> code == 'X' as u8,
        kind is Empty <==> code == 0,
        kind matches SnapiAttributeType::Unknown(other) ==> other == code,
        <u8 as FromSpec<SnapiAttributeType>>::obeys_from_spec(),
        <u8 as FromSpec<SnapiAttributeType>>::from_spec(kind) == code,
{
}

/// The codes of requests and of types that are written.
pub proof fn law_written_codes_of_attributes(
    request: SnapiAttributeRequest,
    kind: SnapiAttributeType,
)
    ensures
        <u8 as FromSpec<SnapiAttributeRequest>>::from_spec(request) == match request {
            SnapiAttributeRequest::GetId => 1u8,
            SnapiAttributeRequest::Get => 2,
            SnapiAttributeRequest::GetOffset => 4,
            SnapiAttributeRequest::SetValue => 5,
            SnapiAttributeRequest::Store => 6,
            SnapiAttributeRequest::Unknown(other) => other,
        },
        <u8 as FromSpec<SnapiAttributeType>>::from_spec(kind) == match kind {
            SnapiAttributeType::Flag => 'F' as u8,
            SnapiAttributeType::Byte => 'B' as u8,
            SnapiAttributeType::Word => 'W' as u8,
            SnapiAttributeType::DWord => 'D' as u8,
            SnapiAttributeType::String => 'S' as u8,
            SnapiAttributeType::Array => 'A' as u8,
            SnapiAttributeType::Action => 'X' as u8,
            SnapiAttributeType::Empty => 0,
            SnapiAttributeType::Unknown(other) => other,
        },
{
}

/// A response code is one of 1 to 4, an extended one of 0 to 3, and any other
/// byte is handed back.
pub proof fn law_response_codes(
    code: u8,
    response: Result<SnapiResponseCode, UnknownCode>,
    extended: Result<SnapiExtendedResponseCode, UnknownCode>,
)
    requires
        call_ensures(SnapiResponseCode::from_code, (code,), response),
        call_ensures(SnapiExtendedResponseCode::from_code, (code,), extended),
    ensures
        response == SnapiResponseCode::of_code(code),
        response == <SnapiResponseCode as TryFromSpec<u8>>::try_from_spec(code),
        <SnapiResponseCode as TryFromSpec<u8>>::obeys_try_from_spec(),
        response is Ok <==> 1 <= code <= 4,
        response matches Ok(value) ==> match value {
            SnapiResponseCode::Success => code == 1,
            SnapiResponseCode::Fail => code == 2,
            SnapiResponseCode::NotSupported => code == 3,
            SnapiResponseCode::SupportedNotCompleted => code == 4,
        },
        response matches Err(error) ==> error.number == code,
        extended == SnapiExtendedResponseCode::of_code(code),
        extended == <SnapiExtendedResponseCode as TryFromSpec<u8>>::try_from_spec(code),
        <SnapiExtendedResponseCode as TryFromSpec<u8>>::obeys_try_from_spec(),
        extended is Ok <==> code <= 3,
        extended matches Ok(value) ==> match value {
            SnapiExtendedResponseCode::Empty => code == 0,
            SnapiExtendedResponseCode::AllParametersStored => code == 1,
            SnapiExtendedResponseCode::NoParametersStored => code == 2,
            SnapiExtendedResponseCode::SomeParametersStored => code == 3,
        },
        extended matches Err(error) ==> error.number == code,
{
}

/// The codes that response codes are written as.
pub proof fn law_written_response_codes(
    response: SnapiResponseCode,
    extended: SnapiExtendedResponseCode,
)
    ensures
        <u8 as FromSpec<SnapiResponseCode>>::obeys_from_spec(),
        <u8 as FromSpec<SnapiResponseCode>>::from_spec(response) == match response {
            SnapiResponseCode::Success => 1u8,
            SnapiResponseCode::Fail => 2,
            SnapiResponseCode::NotSupported => 3,
            SnapiResponseCode::SupportedNotCompleted => 4,
        },
        <u8 as FromSpec<SnapiExtendedResponseCode>>::obeys_from_spec(),
        <u8 as FromSpec<SnapiExtendedResponseCode>>::from_spec(extended) == match extended {
            SnapiExtendedResponseCode::Empty => 0u8,
            SnapiExtendedResponseCode::AllParametersStored => 1,
            SnapiExtendedResponseCode::NoParametersStored => 2,
            SnapiExtendedResponseCode::SomeParametersStored => 3,
        },
{
}

/// The response codes of a device that is read and written in turn: what is no
/// code is named in the error, with the field.
pub proof fn law_direct_response_codes(code: u8)
    ensures
        <snapi_direct::SnapiResponseCode as TryFromSpec<u8>>::obeys_try_from_spec(),
        match <snapi_direct::SnapiResponseCode as TryFromSpec<u8>>::try_from_spec(code) {
            Ok(snapi_direct::SnapiResponseCode::Success) => code == 1,
            Ok(snapi_direct::SnapiResponseCode::Fail) => code == 2,
            Ok(snapi_direct::SnapiResponseCode::NotSupported) => code == 3,
            Ok(snapi_direct::SnapiResponseCode::SupportedNotCompleted) => code == 4,
            Err(snapi_direct::SnapiError::UnexpectedValue { value, name }) => !(1 <= code <= 4)
                && value == code && name@ == "response code"@,
            Err(_) => false,
        },
        <snapi_direct::SnapiExtendedResponseCode as TryFromSpec<u8>>::obeys_try_from_spec(),
        match <snapi_direct::SnapiExtendedResponseCode as TryFromSpec<u8>>::try_from_spec(code) {
            Ok(snapi_direct::SnapiExtendedResponseCode::Empty) => code == 0,
            Ok(snapi_direct::SnapiExtendedResponseCode::AllParametersStored) => code == 1,
            Ok(snapi_direct::SnapiExtendedResponseCode::NoParametersStored) => code == 2,
            Ok(snapi_direct::SnapiExtendedResponseCode::SomeParametersStored) => code == 3,
            Err(snapi_direct::SnapiError::UnexpectedValue { value, name }) => code > 3 && value
                == code && name@ == "extended response code"@,
            Err(_) => false,
        },
{
}

/// The codes of a device that is read and written in turn.
pub proof fn law_direct_codes(
    input: snapi_direct::SnapiInput,
    output: snapi_direct::SnapiOutput,
)
    ensures
        <u8 as FromSpec<snapi_direct::SnapiInput>>::obeys_from_spec(),
        <u8 as FromSpec<snapi_direct::SnapiInput>>::from_spec(input) == match input {
            snapi_direct::SnapiInput::Status => 0x21u8,
            snapi_direct::SnapiInput::Attribute => 0x27,
        },
        <u8 as FromSpec<snapi_direct::SnapiOutput>>::obeys_from_spec(),
        <u8 as FromSpec<snapi_direct::SnapiOutput>>::from_spec(output) == 0x0D,
{
}

/// The flags of request packets are the two upper bits, that of answer packets
/// is read from the fifth bit and written to the sixth.
pub proof fn law_flags_are_bits(
    byte: u8,
    request: SnapiAttributeRequestFlags,
    response: SnapiAttributeResponseFlags,
)
    requires
        call_ensures(SnapiAttributeRequestFlags::from_byte, (byte,), request),
        call_ensures(SnapiAttributeResponseFlags::from_byte, (byte,), response),
    ensures
        request == SnapiAttributeRequestFlags::of_byte(byte),
        request == <SnapiAttributeRequestFlags as FromSpec<u8>>::from_spec(byte),
        <SnapiAttributeRequestFlags as FromSpec<u8>>::obeys_from_spec(),
        request.has_next <==> byte >= 128,
        request.start <==> byte / 64 % 2 == 1,
        response == SnapiAttributeResponseFlags::of_byte(byte),
        response == <SnapiAttributeResponseFlags as FromSpec<u8>>::from_spec(byte),
        <SnapiAttributeResponseFlags as FromSpec<u8>>::obeys_from_spec(),
        response.has_next <==> byte / 16 % 2 == 1,
{
    assert((byte & 0b1000_0000 > 0) == (byte >= 128)) by (bit_vector);
    assert((byte & 0b0100_0000 > 0) == (byte / 64 % 2 == 1)) by (bit_vector);
    assert((byte & 0b0001_0000 > 0) == (byte / 16 % 2 == 1)) by (bit_vector);
}

/// Each flag that is set adds its bit to the byte that is written.
pub proof fn law_flags_are_written(
    request: SnapiAttributeRequestFlags,
    response: SnapiAttributeResponseFlags,
)
    ensures
        <u8 as FromSpec<SnapiAttributeRequestFlags>>::obeys_from_spec(),
        <u8 as FromSpec<SnapiAttributeRequestFlags>>::from_spec(request) == (if request.has_next {
            128int
        } else {
            0
        }) + (if request.start {
            64int
        } else {
            0
        }),
        <u8 as FromSpec<SnapiAttributeResponseFlags>>::obeys_from_spec(),
        <u8 as FromSpec<SnapiAttributeResponseFlags>>::from_spec(response) == if response.has_next {
            32int
        } else {
            0
        },
{
}

/// A symbology is its number.
pub proof fn law_symbology(number: u16)
    ensures
        <CodeType as FromSpec<u16>>::obeys_from_spec(),
        <CodeType as FromSpec<u16>>::from_spec(number).number == number,
{
}

} // verus!
