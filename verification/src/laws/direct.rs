//! SNAPI over a device that is read and written in turn.

use vstd::prelude::*;
use vstd::utf8::{decode_utf8, valid_utf8};

use crate::laws::numbers::little_endian;
use crate::scanner::snapi::collate::views;
use crate::scanner::snapi_direct::{
    snapi_encode_attribute_request, Answer, AnswerView, DirectAction, Snapi, SnapiAttributeValue,
    SnapiDeviceInfo, SnapiError, SnapiExtendedResponseCode, SnapiInput, SnapiResponseCode,
    SnapiStatus,
};

verus! {

/// Only devices of vendor 0x05E0 and product 0x1900 are supported.
pub proof fn law_supported_devices(vendor_id: u16, product_id: u16, result: bool)
    requires
        call_ensures(Snapi::is_supported, (vendor_id, product_id), result),
    ensures
        result <==> vendor_id == 0x05E0 && product_id == 0x1900,
{
}

/// The requests that are made of a device.
pub proof fn law_requests_of_a_device(
    first: Vec<Vec<u8>>,
    attribute_id: u16,
    request: Vec<u8>,
    input: SnapiInput,
    acknowledgement: Vec<u8>,
)
    requires
        call_ensures(Snapi::initialize_device, (), first),
        call_ensures(Snapi::get_attribute, (attribute_id,), request),
        call_ensures(Snapi::write_ack, (input,), acknowledgement),
    ensures
        first@.len() == 2,
        first@[0]@ == seq![0x00u8, 0x06, 0x20, 0x00, 0x04, 0xB0, 0x00, 0x00, 0x00],
        first@[1]@ == seq![0x00u8, 0x09, 0x05, 0x00, 0x4E, 0x2A, 0x42, 0x00, 0x01],
        request@.len() == 6,
        request@.take(4) == seq![0x00u8, 0x06, 0x02, 0x00],
        256 * request@[4] + request@[5] == attribute_id,
        acknowledgement@ == seq![
            0x01u8,
            match input {
                SnapiInput::Status => 0x21u8,
                SnapiInput::Attribute => 0x27,
            },
            0x01,
        ],
{
    assert(views(first@).len() == first@.len());
    assert(views(first@)[0] == first@[0]@);
    assert(views(first@)[1] == first@[1]@);
    assert(request@.take(4) =~= seq![0x00u8, 0x06, 0x02, 0x00]);
}

/// An exchange begins with the packets of its request, of which none is
/// confirmed, and nothing of an answer.
pub proof fn law_direct_exchange_begins(
    request: &[u8],
    exchange: Snapi,
    packets: Vec<Vec<u8>>,
)
    requires
        request@.len() <= u16::MAX,
        call_ensures(Snapi::write_attribute_command, (request,), exchange),
        call_ensures(snapi_encode_attribute_request, (request,), packets),
    ensures
        exchange@.confirmed == 0,
        exchange@.output.len() == 0,
        exchange@.packets.len() == packets@.len(),
        forall|i: int|
            0 <= i < packets@.len() ==> #[trigger] exchange@.packets[i] == packets@[i]@,
{
    assert forall|i: int| 0 <= i < packets@.len() implies #[trigger] exchange@.packets[i]
        == packets@[i]@ by {
        assert(views(packets@)[i] == packets@[i]@);
    }
}

/// What is written next is the first packet that is not confirmed, and where
/// there is none, the answer is read.
pub proof fn law_next_packet_is_written(exchange: &Snapi, action: DirectAction)
    requires
        call_ensures(Snapi::next, (exchange,), action),
    ensures
        match action {
            DirectAction::Write(packet) => exchange@.confirmed < exchange@.packets.len()
                && packet@ == exchange@.packets[exchange@.confirmed],
            DirectAction::Read => exchange@.confirmed >= exchange@.packets.len(),
        },
{
}

/// Whether an error names a field and the value that was found in it.
pub open spec fn is_unexpected<T>(
    result: Result<T, SnapiError>,
    found: u8,
    field: Seq<char>,
) -> bool {
    result matches Err(SnapiError::UnexpectedValue { value, name }) && value == found && name@
        == field
}

/// Whether a status is the one that these bytes tell.
pub open spec fn is_status_of(status: SnapiStatus, report: Seq<u8>) -> bool {
    &&& status.report_id == report[1]
    &&& match status.response_code {
        SnapiResponseCode::Success => report[2] == 1,
        SnapiResponseCode::Fail => report[2] == 2,
        SnapiResponseCode::NotSupported => report[2] == 3,
        SnapiResponseCode::SupportedNotCompleted => report[2] == 4,
    }
    &&& match status.extended_response_code {
        SnapiExtendedResponseCode::Empty => report[3] == 0,
        SnapiExtendedResponseCode::AllParametersStored => report[3] == 1,
        SnapiExtendedResponseCode::NoParametersStored => report[3] == 2,
        SnapiExtendedResponseCode::SomeParametersStored => report[3] == 3,
    }
}

/// A status is read by the bytes of its report, and only a success confirms a
/// packet.
pub proof fn law_packet_is_confirmed(
    exchange: &mut Snapi,
    report: &[u8; 32],
    status: Result<SnapiStatus, SnapiError>,
    result: Result<(), SnapiError>,
)
    requires
        call_ensures(Snapi::read_status, (report,), status),
        call_ensures(Snapi::confirm, (exchange, report), result),
    ensures
        ({
            let is_status = report@[0] == 0x21 && 1 <= report@[2] <= 4 && report@[3] <= 3;
            &&& status is Ok <==> is_status
            &&& status matches Ok(status) ==> is_status_of(status, report@)
            &&& report@[0] != 0x21 ==> is_unexpected(status, report@[0], "status"@)
            &&& report@[0] == 0x21 && !(1 <= report@[2] <= 4) ==> is_unexpected(
                status,
                report@[2],
                "response code"@,
            )
            &&& report@[0] == 0x21 && 1 <= report@[2] <= 4 && report@[3] > 3 ==> is_unexpected(
                status,
                report@[3],
                "extended response code"@,
            )
            &&& result is Ok <==> is_status && report@[2] == 1
            &&& is_status && report@[2] != 1 ==> match result {
                Err(SnapiError::BadStatus { status }) => is_status_of(status, report@),
                _ => false,
            }
            &&& report@[0] != 0x21 ==> is_unexpected(result, report@[0], "status"@)
            &&& report@[0] == 0x21 && !(1 <= report@[2] <= 4) ==> is_unexpected(
                result,
                report@[2],
                "response code"@,
            )
            &&& report@[0] == 0x21 && 1 <= report@[2] <= 4 && report@[3] > 3 ==> is_unexpected(
                result,
                report@[3],
                "extended response code"@,
            )
            &&& final(exchange)@.packets == old(exchange)@.packets
            &&& final(exchange)@.output == old(exchange)@.output
            &&& final(exchange)@.confirmed == old(exchange)@.confirmed + if result is Ok {
                1int
            } else {
                0
            }
        }),
{
}

/// Only a success is no error.
pub proof fn law_status_turns_into_an_error(
    status: SnapiStatus,
    result: Result<(), SnapiError>,
)
    requires
        call_ensures(SnapiStatus::error_for_status, (status,), result),
    ensures
        result is Ok <==> status.response_code is Success,
        result is Err ==> (result matches Err(SnapiError::BadStatus { status: told }) && told
            == status),
{
}

/// A report of another kind ends the reading of an answer with its first byte.
pub proof fn law_other_report_ends_the_answer(
    exchange: &mut Snapi,
    report: &[u8; 32],
    result: Result<Answer, SnapiError>,
)
    requires
        report@[0] != 0x27,
        call_ensures(Snapi::read_attribute, (exchange, report), result),
    ensures
        is_unexpected(result, report@[0], "attribute"@),
        final(exchange)@ == old(exchange)@,
{
}

/// What an answer report holds: as many bytes from the fourth on as the third
/// one tells.
pub open spec fn held(report: Seq<u8>) -> Seq<u8> {
    Seq::new(report[2] as nat, |i: int| report[3 + i])
}

/// A report adds what it holds to the answer. Where the fifth bit of its second
/// byte is set, more follows.
pub proof fn law_answer_grows(
    exchange: &mut Snapi,
    report: &[u8; 32],
    result: Result<Answer, SnapiError>,
)
    requires
        report@[0] == 0x27,
        report@[2] <= 29,
        call_ensures(Snapi::read_attribute, (exchange, report), result),
    ensures
        final(exchange)@.output == old(exchange)@.output + held(report@),
        final(exchange)@.packets == old(exchange)@.packets,
        final(exchange)@.confirmed == old(exchange)@.confirmed,
        report@[1] / 16 % 2 == 1 <==> (result matches Ok(Answer::More)),
{
    let flags = report@[1];
    assert((flags & 0b0001_0000 > 0) == (flags / 16 % 2 == 1)) by (bit_vector);
    assert(report@.subrange(3, 3 + report@[2]) =~= held(report@));
}

/// Whether a whole answer tells this value, or none.
pub open spec fn is_told(answer: Seq<u8>, result: Result<Answer, SnapiError>) -> bool {
    if answer.len() < 6 || answer[6] == 0 {
        result matches Ok(Answer::Whole(None))
    } else if answer[6] == 'F' as u8 {
        result matches Ok(Answer::Whole(Some(SnapiAttributeValue::Flag(flag)))) && (flag
            <==> answer[8] != 0)
    } else if answer[6] == 'B' as u8 {
        result matches Ok(Answer::Whole(Some(SnapiAttributeValue::Byte(byte)))) && byte
            == answer[8]
    } else if answer[6] == 'W' as u8 {
        result matches Ok(Answer::Whole(Some(SnapiAttributeValue::Word(word)))) && word
            == answer[8] + 256 * answer[9]
    } else if answer[6] == 'D' as u8 {
        result matches Ok(Answer::Whole(Some(SnapiAttributeValue::DWord(dword)))) && dword
            == little_endian(answer[8], answer[9], answer[10], answer[11])
    } else if answer[6] == 'S' as u8 {
        let text = Seq::new((answer[9] - 1) as nat, |i: int| answer[12 + i]);
        if valid_utf8(text) {
            result matches Ok(Answer::Whole(Some(SnapiAttributeValue::String(string)))) && string@
                == decode_utf8(text)
        } else {
            result matches Err(SnapiError::InvalidString { data }) && data@ == text
        }
    } else {
        is_unexpected(result, answer[6], "attribute type"@)
    }
}

/// The last report gives the value that the bytes of all reports tell.
pub proof fn law_answer_tells_a_value(
    exchange: &mut Snapi,
    report: &[u8; 32],
    result: Result<Answer, SnapiError>,
)
    requires
        report@[0] == 0x27,
        report@[2] <= 29,
        report@[1] / 16 % 2 == 0,
        old(exchange)@.can_receive(report@),
        call_ensures(Snapi::read_attribute, (exchange, report), result),
    ensures
        is_told(old(exchange)@.output + held(report@), result),
{
    let flags = report@[1];
    assert((flags & 0b0001_0000 > 0) == (flags / 16 % 2 == 1)) by (bit_vector);
    assert(report@.subrange(3, 3 + report@[2]) =~= held(report@));
    let answer = old(exchange)@.output + held(report@);
    if answer.len() > 6 && answer[6] == 'S' as u8 {
        let text = Seq::new((answer[9] - 1) as nat, |i: int| answer[12 + i]);
        assert(answer.subrange(12, 11 + answer[9]) =~= text);
    }
    if let Ok(Answer::Whole(Some(value))) = result {
        assert(result->Ok_0@ == AnswerView::Whole(Some(value@)));
    }
}

/// Whether the bytes of a whole answer are there: up to the seventh at least, or
/// fewer than six, and as many as its type needs. There is no value for an
/// array, nor for a text of no length.
pub open spec fn is_complete(answer: Seq<u8>) -> bool {
    if answer.len() <= 6 {
        answer.len() < 6
    } else if answer[6] == 'F' as u8 || answer[6] == 'B' as u8 {
        answer.len() > 8
    } else if answer[6] == 'W' as u8 {
        answer.len() > 9
    } else if answer[6] == 'D' as u8 {
        answer.len() > 11
    } else if answer[6] == 'S' as u8 {
        answer.len() > 9 && answer[9] > 0 && answer.len() >= 11 + answer[9]
    } else {
        answer[6] != 'A' as u8
    }
}

/// A report is taken exactly if what it holds is there and, where it is the last
/// one, the answer is complete.
pub proof fn law_taken_reports(exchange: &Snapi, report: &[u8; 32], result: bool)
    requires
        call_ensures(Snapi::can_receive, (exchange, report), result),
    ensures
        result <==> (report@[0] == 0x27 ==> report@[2] <= 29 && (report@[1] / 16 % 2 == 1
            || is_complete(exchange@.output + held(report@)))),
{
    let flags = report@[1];
    assert((flags & 0b0001_0000 > 0) == (flags / 16 % 2 == 1)) by (bit_vector);
    if report@[2] <= 29 {
        assert(report@.subrange(3, 3 + report@[2]) =~= held(report@));
    }
}

/// A device is listed with its name, and with its serial number where that was
/// asked for and is a text. Where it was asked for in vain, the device is left
/// out.
pub proof fn law_devices_are_listed<E>(
    name: String,
    plain: SnapiDeviceInfo,
    value: Option<SnapiAttributeValue>,
    read: Option<SnapiDeviceInfo>,
    outcome: Result<Option<SnapiAttributeValue>, E>,
    listed: Option<SnapiDeviceInfo>,
)
    requires
        call_ensures(SnapiDeviceInfo::without_serial_number, (name,), plain),
        call_ensures(SnapiDeviceInfo::with_serial_number, (name, value), read),
        call_ensures(SnapiDeviceInfo::listed::<E>, (name, outcome), listed),
    ensures
        plain.name@ == name@,
        plain.serial_number is None,
        match value {
            Some(SnapiAttributeValue::String(text)) => is_listed(read, name, text),
            _ => read is None,
        },
        match outcome {
            Ok(Some(SnapiAttributeValue::String(text))) => is_listed(listed, name, text),
            _ => listed is None,
        },
{
    assert(plain@.name == name@);
    assert(plain@.serial_number is None);
    if let Some(info) = read {
        assert(info@.serial_number is Some);
    }
    if let Some(info) = listed {
        assert(info@.serial_number is Some);
    }
}

/// Whether a device is listed with this name and this serial number.
pub open spec fn is_listed(info: Option<SnapiDeviceInfo>, name: String, serial: String) -> bool {
    match info {
        Some(SnapiDeviceInfo { name: told, serial_number: Some(text) }) => told@ == name@ && text@
            == serial@,
        _ => false,
    }
}

} // verus!
