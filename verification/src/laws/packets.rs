//! What is read from the bytes of a report.

use vstd::prelude::*;

use crate::scanner::snapi::packet::{
    DecodableSnapiPacket, SnapiAttributePacket, SnapiBarcodePacket,
    SnapiExtendedResponseCode, SnapiPacket, SnapiResponseCode, SnapiStatus,
};
use crate::scanner::snapi::{HidInput, HidOutput, SnapiError, SnapiNotification};

verus! {

/// Whether an error says that there are fewer bytes than are needed.
pub open spec fn is_too_short(error: SnapiError, needed: int, there: nat) -> bool {
    error matches SnapiError::TooShort { expected, actual } && expected == needed && actual
        == there
}

/// Whether an error names a field and the value that was found in it.
pub open spec fn is_unexpected(error: SnapiError, found: u8, field: Seq<char>) -> bool {
    error matches SnapiError::UnexpectedValue { value, name } && value == found && name@ == field
}

/// Whether two errors are the same, down to their characters and bytes.
pub open spec fn same_error(error: SnapiError, other: SnapiError) -> bool {
    match (error, other) {
        (
            SnapiError::UnexpectedValue { value: a, name },
            SnapiError::UnexpectedValue { value: b, name: other },
        ) => a == b && name@ == other@,
        (SnapiError::BadStatus { status: a }, SnapiError::BadStatus { status: b }) => a == b,
        (SnapiError::Channel { name: a }, SnapiError::Channel { name: b }) => a@ == b@,
        (SnapiError::BadPacketOrder { name: a }, SnapiError::BadPacketOrder { name: b }) => a@
            == b@,
        (SnapiError::MismatchedData { name: a }, SnapiError::MismatchedData { name: b }) => a@
            == b@,
        (SnapiError::Usb { message: a }, SnapiError::Usb { message: b }) => a@ == b@,
        (
            SnapiError::TooShort { expected: a, actual: c },
            SnapiError::TooShort { expected: b, actual: d },
        ) => a == b && c == d,
        (
            SnapiError::PartialData { expected: a, got: c },
            SnapiError::PartialData { expected: b, got: d },
        ) => a == b && c@ == d@,
        _ => false,
    }
}

/// Errors that look the same are the same.
pub proof fn lemma_same_error(error: SnapiError, other: SnapiError)
    requires
        error@ == other@,
    ensures
        same_error(error, other),
{
}

/// Whether a reading failed for want of bytes.
pub open spec fn fails_short<T>(result: Result<T, SnapiError>, needed: int, there: nat) -> bool {
    result matches Err(error) && is_too_short(error, needed, there)
}

/// Whether a reading failed at the value of a field.
pub open spec fn fails_unexpectedly<T>(
    result: Result<T, SnapiError>,
    found: u8,
    field: Seq<char>,
) -> bool {
    result matches Err(error) && is_unexpected(error, found, field)
}

/// The bytes of a barcode report: its kind, the number of parts, the place of
/// this part, its length, the symbology with the least significant byte first,
/// and the part itself.
pub open spec fn barcode_report(count: u8, index: u8, symbology: u16, content: Seq<u8>) -> Seq<
    u8,
> {
    seq![
        0x22u8,
        count,
        index,
        content.len() as u8,
        (symbology % 256) as u8,
        (symbology / 256) as u8,
    ] + content
}

/// The bytes of an attribute report: its kind, its flags, its length, and the
/// part of the answer.
pub open spec fn attribute_report(flags: u8, content: Seq<u8>) -> Seq<u8> {
    seq![0x27u8, flags, content.len() as u8] + content
}

/// Whether a status is the one that these bytes tell.
pub open spec fn is_status_of(status: SnapiStatus, output: u8, response: u8, extended: u8) -> bool {
    &&& match status.hid_output {
        HidOutput::Acknowledgement => output == 0x01,
        HidOutput::Aim => output == 0x02,
        HidOutput::Mode => output == 0x03,
        HidOutput::Scanner => output == 0x06,
        HidOutput::MacroPdf => output == 0x08,
        HidOutput::SoftTrigger => output == 0x0A,
        HidOutput::Attribute => output == 0x0D,
        HidOutput::Unknown(other) => output == other && output != 0x01 && output != 0x02 && output
            != 0x03 && output != 0x06 && output != 0x08 && output != 0x0A && output != 0x0D,
    }
    &&& match status.response_code {
        SnapiResponseCode::Success => response == 1,
        SnapiResponseCode::Fail => response == 2,
        SnapiResponseCode::NotSupported => response == 3,
        SnapiResponseCode::SupportedNotCompleted => response == 4,
    }
    &&& match status.extended_response_code {
        SnapiExtendedResponseCode::Empty => extended == 0,
        SnapiExtendedResponseCode::AllParametersStored => extended == 1,
        SnapiExtendedResponseCode::NoParametersStored => extended == 2,
        SnapiExtendedResponseCode::SomeParametersStored => extended == 3,
    }
}

/// What the reading of a status comes to, by the bytes of the report.
pub open spec fn is_status_read(data: Seq<u8>, result: Result<SnapiStatus, SnapiError>) -> bool {
    match result {
        Ok(status) => data.len() >= 4 && is_status_of(status, data[1], data[2], data[3]),
        Err(error) => if data.len() < 4 {
            is_too_short(error, 4, data.len())
        } else if !(1 <= data[2] <= 4) {
            is_unexpected(error, data[2], "response code"@)
        } else {
            data[3] > 3 && is_unexpected(error, data[3], "extended response code"@)
        },
    }
}

/// A status is read from the second, the third and the fourth byte of a report.
/// A byte that is no code is named in the error.
pub proof fn law_status_is_read(data: &[u8], result: Result<SnapiStatus, SnapiError>)
    requires
        call_ensures(SnapiStatus::decode, (data,), result),
    ensures
        is_status_read(data@, result),
{
}

/// A barcode report is read as what it was built of, whatever follows it.
pub proof fn law_barcode_report_is_read(
    data: &[u8],
    count: u8,
    index: u8,
    symbology: u16,
    content: Seq<u8>,
    padding: Seq<u8>,
    result: Result<SnapiBarcodePacket, SnapiError>,
)
    requires
        content.len() <= 255,
        data@ == barcode_report(count, index, symbology, content) + padding,
        call_ensures(SnapiBarcodePacket::decode, (data,), result),
    ensures
        result matches Ok(packet) && packet.packet_count == count && packet.packet_index == index
            && packet.code_type.number == symbology && packet.data@ == content,
{
    assert(data@.subrange(6, 6 + content.len() as int) =~= content);
    assert(result is Ok);
    assert(result->Ok_0@.data == content);
}

/// A barcode report that ends before its header or before its part does is too
/// short.
pub proof fn law_short_barcode_report_is_refused(
    data: &[u8],
    result: Result<SnapiBarcodePacket, SnapiError>,
)
    requires
        call_ensures(SnapiBarcodePacket::decode, (data,), result),
    ensures
        result is Err <==> data@.len() < 6 || data@.len() < 6 + data@[3],
        result matches Err(error) ==> is_too_short(
            error,
            if data@.len() < 6 {
                6
            } else {
                6 + data@[3]
            },
            data@.len(),
        ),
{
}

/// An attribute report is read as what it was built of, whatever follows it.
pub proof fn law_attribute_report_is_read(
    data: &[u8],
    flags: u8,
    content: Seq<u8>,
    padding: Seq<u8>,
    result: Result<SnapiAttributePacket, SnapiError>,
)
    requires
        content.len() <= 255,
        data@ == attribute_report(flags, content) + padding,
        call_ensures(SnapiAttributePacket::decode, (data,), result),
    ensures
        result matches Ok(packet) && (packet.flags.has_next <==> flags / 16 % 2 == 1)
            && packet.data@ == content,
{
    assert((flags & 0b0001_0000 > 0) == (flags / 16 % 2 == 1)) by (bit_vector);
    assert(data@.subrange(3, 3 + content.len() as int) =~= content);
    assert(result is Ok);
    assert(result->Ok_0@.data == content);
    assert(result->Ok_0@.has_next == (flags / 16 % 2 == 1));
}

/// An attribute report that ends before its header or before its part does is
/// too short.
pub proof fn law_short_attribute_report_is_refused(
    data: &[u8],
    result: Result<SnapiAttributePacket, SnapiError>,
)
    requires
        call_ensures(SnapiAttributePacket::decode, (data,), result),
    ensures
        result is Err <==> data@.len() < 3 || data@.len() < 3 + data@[2],
        result matches Err(error) ==> is_too_short(
            error,
            if data@.len() < 3 {
                3
            } else {
                3 + data@[2]
            },
            data@.len(),
        ),
{
}

/// A notification is the second byte of a report.
pub proof fn law_notification_is_read(
    data: &[u8],
    result: Result<SnapiNotification, SnapiError>,
)
    requires
        data@.len() >= 2,
        call_ensures(SnapiNotification::decode, (data,), result),
    ensures
        result matches Ok(notification) && match notification {
            SnapiNotification::BarcodeMode => data@[1] == 0x10,
            SnapiNotification::ImageMode => data@[1] == 0x11,
            SnapiNotification::VideoMode => data@[1] == 0x12,
            SnapiNotification::Unknown(other) => data@[1] == other && !(0x10 <= other <= 0x12),
        },
{
}

/// A report of any kind is read by its first byte, as a report of that kind is.
/// One whose kind is not known is kept as it is.
pub proof fn law_any_report_is_read(
    data: &[u8],
    result: Result<SnapiPacket, SnapiError>,
    status: Result<SnapiStatus, SnapiError>,
    barcode: Result<SnapiBarcodePacket, SnapiError>,
    notification: Result<SnapiNotification, SnapiError>,
    attribute: Result<SnapiAttributePacket, SnapiError>,
)
    requires
        data@.len() > 0,
        call_ensures(SnapiPacket::decode_any, (data,), result),
        call_ensures(SnapiStatus::decode, (data,), status),
        call_ensures(SnapiBarcodePacket::decode, (data,), barcode),
        call_ensures(SnapiNotification::decode, (data,), notification),
        call_ensures(SnapiAttributePacket::decode, (data,), attribute),
    ensures
        data@[0] == 0x21 ==> match (result, status) {
            (Ok(SnapiPacket::Status(packet)), Ok(status)) => packet == status,
            (Err(error), Err(expected)) => same_error(error, expected),
            _ => false,
        },
        data@[0] == 0x22 ==> match (result, barcode) {
            (Ok(SnapiPacket::Barcode(packet)), Ok(barcode)) => packet.packet_count
                == barcode.packet_count && packet.packet_index == barcode.packet_index
                && packet.code_type == barcode.code_type && packet.data@ == barcode.data@,
            (Err(error), Err(expected)) => same_error(error, expected),
            _ => false,
        },
        data@[0] == 0x24 ==> match (result, notification) {
            (Ok(SnapiPacket::Notification(packet)), Ok(notification)) => packet == notification,
            (Err(error), Err(expected)) => same_error(error, expected),
            _ => false,
        },
        data@[0] == 0x27 ==> match (result, attribute) {
            (Ok(SnapiPacket::Attribute(packet)), Ok(attribute)) => packet.flags.has_next
                == attribute.flags.has_next && packet.data@ == attribute.data@,
            (Err(error), Err(expected)) => same_error(error, expected),
            _ => false,
        },
        data@[0] != 0x21 && data@[0] != 0x22 && data@[0] != 0x24 && data@[0] != 0x27 ==> match result {
            Ok(SnapiPacket::Other { hid_input, data: kept }) => hid_input == HidInput::Unknown(
                data@[0],
            ) && kept@ == data@,
            _ => false,
        },
{
    if data@[0] == 0x22 {
        if let (Ok(SnapiPacket::Barcode(packet)), Ok(barcode)) = (result, barcode) {
            assert(packet@ == barcode@);
        }
    }
    if data@[0] == 0x27 {
        if let (Ok(SnapiPacket::Attribute(packet)), Ok(attribute)) = (result, attribute) {
            assert(packet@ == attribute@);
        }
    }
}

/// Each kind of report stands among the others as it is.
pub proof fn law_reports_stand_among_the_others(
    status: SnapiStatus,
    of_status: SnapiPacket,
    notification: SnapiNotification,
    of_notification: SnapiPacket,
    barcode: SnapiBarcodePacket,
    of_barcode: SnapiPacket,
    attribute: SnapiAttributePacket,
    of_attribute: SnapiPacket,
)
    requires
        call_ensures(SnapiStatus::packet, (status,), of_status),
        call_ensures(SnapiNotification::packet, (notification,), of_notification),
        call_ensures(SnapiBarcodePacket::packet, (barcode,), of_barcode),
        call_ensures(SnapiAttributePacket::packet, (attribute,), of_attribute),
    ensures
        of_status matches SnapiPacket::Status(packet) && packet == status,
        of_notification matches SnapiPacket::Notification(packet) && packet == notification,
        of_barcode matches SnapiPacket::Barcode(packet) && packet.packet_count
            == barcode.packet_count && packet.packet_index == barcode.packet_index
            && packet.code_type == barcode.code_type && packet.data@ == barcode.data@,
        of_attribute matches SnapiPacket::Attribute(packet) && packet.flags.has_next
            == attribute.flags.has_next && packet.data@ == attribute.data@,
{
    assert(of_barcode->Barcode_0@ == barcode@);
    assert(of_attribute->Attribute_0@ == attribute@);
}

/// A report of a wanted kind is read as that, and one of another kind is refused
/// with its first byte.
pub proof fn law_only_the_wanted_report_is_read(
    data: &[u8],
    status: Result<SnapiStatus, SnapiError>,
    wanted: Result<SnapiStatus, SnapiError>,
    barcode: Result<SnapiBarcodePacket, SnapiError>,
    attribute: Result<SnapiAttributePacket, SnapiError>,
    notification: Result<SnapiNotification, SnapiError>,
)
    requires
        data@.len() > 0,
        call_ensures(SnapiStatus::decode, (data,), status),
        call_ensures(SnapiPacket::decode_specific::<SnapiStatus>, (data,), wanted),
        call_ensures(SnapiPacket::decode_specific::<SnapiBarcodePacket>, (data,), barcode),
        call_ensures(SnapiPacket::decode_specific::<SnapiAttributePacket>, (data,), attribute),
        call_ensures(SnapiPacket::decode_specific::<SnapiNotification>, (data,), notification),
    ensures
        data@[0] == 0x21 ==> is_status_read(data@, wanted),
        data@[0] != 0x21 ==> fails_unexpectedly(
            wanted,
            data@[0],
            "decode"@,
        ),
        data@[0] != 0x22 ==> fails_unexpectedly(
            barcode,
            data@[0],
            "decode"@,
        ),
        data@[0] == 0x22 ==> (barcode is Ok <==> data@.len() >= 6 && data@.len() >= 6 + data@[3]),
        data@[0] != 0x27 ==> fails_unexpectedly(
            attribute,
            data@[0],
            "decode"@,
        ),
        data@[0] == 0x27 ==> (attribute is Ok <==> data@.len() >= 3 && data@.len() >= 3
            + data@[2]),
        data@[0] != 0x24 ==> fails_unexpectedly(
            notification,
            data@[0],
            "decode"@,
        ),
        data@[0] == 0x24 ==> notification is Ok,
{
}

/// A report that can be read has a first byte, and a notification a second one.
pub proof fn law_readable_reports(data: &[u8], result: bool)
    requires
        call_ensures(SnapiPacket::can_decode, (data,), result),
    ensures
        result <==> data@.len() > 0 && (data@[0] == 0x24 ==> data@.len() > 1),
{
}

} // verus!
