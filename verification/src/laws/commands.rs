//! The commands of a SNAPI device and how they end.

use vstd::prelude::*;

use crate::laws::packets::{fails_unexpectedly, is_status_read};
use crate::laws::values::law_values_are_written;
use crate::scanner::snapi::packet::{
    SnapiAttributeResponse, SnapiAttributeValue, SnapiStatus,
};
use crate::scanner::snapi::{
    after_packet, Command, HidInput, HidOutput, MacroPdfAction, PacketStep, Snapi, SnapiError,
    SnapiMode,
};

verus! {

/// Whether a command is this report, whose status is read.
pub open spec fn is_command(command: Command, output: HidOutput, first: u8, second: u8) -> bool {
    &&& command.hid_output == output
    &&& command.packet@.len() == 2
    &&& command.packet@[0] == first
    &&& command.packet@[1] == second
    &&& command.read_status
}

/// What is turned on is told by a one, what is turned off by a zero, behind the
/// code of the thing.
pub proof fn law_switches(enabled: bool, aim: Command, scanner: Command, trigger: Command)
    requires
        call_ensures(Snapi::set_aim, (enabled,), aim),
        call_ensures(Snapi::set_scanner, (enabled,), scanner),
        call_ensures(Snapi::set_soft_trigger, (enabled,), trigger),
    ensures
        is_command(aim, HidOutput::Aim, 0x02, if enabled { 1 } else { 0 }),
        is_command(scanner, HidOutput::Scanner, 0x06, if enabled { 1 } else { 0 }),
        is_command(trigger, HidOutput::SoftTrigger, 0x0A, if enabled { 1 } else { 0 }),
{
}

/// A mode is told by its code, and so is what is done with a macro sequence.
pub proof fn law_mode_and_action(
    mode: SnapiMode,
    set: Command,
    action: MacroPdfAction,
    sent: Command,
)
    requires
        call_ensures(Snapi::set_mode, (mode,), set),
        call_ensures(Snapi::send_macro_pdf_action, (action,), sent),
    ensures
        is_command(
            set,
            HidOutput::Mode,
            0x03,
            match mode {
                SnapiMode::Barcode => 0,
                SnapiMode::Image => 1,
                SnapiMode::Video => 2,
                SnapiMode::Unknown(other) => other,
            },
        ),
        is_command(
            sent,
            HidOutput::MacroPdf,
            0x08,
            match action {
                MacroPdfAction::Flush => 0,
                MacroPdfAction::Abort => 1,
            },
        ),
{
}

/// A report is acknowledged by its first byte, and no status follows.
pub proof fn law_acknowledgement(data: &[u8], input: HidInput, by_kind: Command, by_report: Command)
    requires
        data@.len() > 0,
        call_ensures(Snapi::write_ack, (input,), by_kind),
        call_ensures(Snapi::acknowledge, (data,), by_report),
    ensures
        by_kind.hid_output == HidOutput::Acknowledgement,
        !by_kind.read_status,
        by_kind.packet@ == seq![
            0x01u8,
            match input {
                HidInput::Status => 0x21u8,
                HidInput::Barcode => 0x22,
                HidInput::Notification => 0x24,
                HidInput::Attribute => 0x27,
                HidInput::Unknown(other) => other,
            },
            0x01,
        ],
        by_report.hid_output == HidOutput::Acknowledgement,
        !by_report.read_status,
        by_report.packet@ == seq![0x01u8, data@[0], 0x01],
{
    assert(by_kind.packet@ =~= seq![0x01u8, by_kind.packet@[1], 0x01]);
    assert(by_report.packet@ =~= seq![0x01u8, data@[0], 0x01]);
}

/// Whether a report says that the command of the given kind was carried out:
/// it is a status of that kind whose third byte is one and whose fourth byte is
/// a code.
pub open spec fn says_success(report: Seq<u8>, hid_output: HidOutput) -> bool {
    &&& report.len() >= 4
    &&& report[0] == 0x21
    &&& report[2] == 1
    &&& report[3] <= 3
    &&& match hid_output {
        HidOutput::Acknowledgement => report[1] == 0x01,
        HidOutput::Aim => report[1] == 0x02,
        HidOutput::Mode => report[1] == 0x03,
        HidOutput::Scanner => report[1] == 0x06,
        HidOutput::MacroPdf => report[1] == 0x08,
        HidOutput::SoftTrigger => report[1] == 0x0A,
        HidOutput::Attribute => report[1] == 0x0D,
        HidOutput::Unknown(other) => report[1] == other && other != 0x01 && other != 0x02 && other
            != 0x03 && other != 0x06 && other != 0x08 && other != 0x0A && other != 0x0D,
    }
}

/// Whether this is how a command ended, by the report that was waited for.
pub open spec fn is_outcome(
    hid_output: HidOutput,
    report: Option<Seq<u8>>,
    result: Result<(), SnapiError>,
) -> bool {
    match report {
        None => result matches Err(SnapiError::Channel { name }) && name@ == "rx status"@,
        Some(report) => {
            &&& result is Ok <==> says_success(report, hid_output)
            &&& report[0] != 0x21 ==> fails_unexpectedly(result, report[0], "decode"@)
            &&& report.len() >= 4 && report[0] == 0x21 && 1 <= report[2] <= 4 && report[3] <= 3
                && result is Err ==> match result {
                Err(SnapiError::BadStatus { status }) => is_status_read(report, Ok(status)),
                _ => false,
            }
            &&& report[0] == 0x21 && (report.len() < 4 || !(1 <= report[2] <= 4) || report[3] > 3)
                ==> match result {
                Err(error) => is_status_read(report, Err(error)),
                Ok(_) => false,
            }
        },
    }
}

/// The bytes of a report that was waited for.
pub open spec fn bytes_of(report: Option<&[u8]>) -> Option<Seq<u8>> {
    match report {
        Some(report) => Some(report@),
        None => None,
    }
}

/// A status is checked by the bytes of its report.
pub proof fn law_status_is_checked(
    hid_output: HidOutput,
    report: Option<&[u8]>,
    status: Result<SnapiStatus, SnapiError>,
    result: Result<(), SnapiError>,
)
    requires
        report matches Some(report) ==> report@.len() > 0,
        call_ensures(Snapi::read_status, (report,), status),
        call_ensures(Snapi::check_status, (hid_output, report), result),
    ensures
        is_outcome(hid_output, bytes_of(report), result),
        match report {
            None => status matches Err(SnapiError::Channel { name }) && name@ == "rx status"@,
            Some(report) => if report@[0] == 0x21 {
                is_status_read(report@, status)
            } else {
                fails_unexpectedly(status, report@[0], "decode"@)
            },
        },
{
}

/// A command whose status is read ends as its status says, and any other ends
/// well.
pub proof fn law_command_ends(
    command: &Command,
    report: Option<&[u8]>,
    result: Result<(), SnapiError>,
)
    requires
        report matches Some(report) ==> report@.len() > 0,
        call_ensures(Snapi::write_command, (command, report), result),
    ensures
        command.read_status ==> is_outcome(command.hid_output, bytes_of(report), result),
        !command.read_status ==> result is Ok,
{
}

/// Only a success of the expected kind is no error.
pub proof fn law_status_turns_into_an_error(
    status: SnapiStatus,
    expected: HidOutput,
    result: Result<(), SnapiError>,
)
    requires
        call_ensures(SnapiStatus::error_for_status, (status, expected), result),
    ensures
        result is Ok <==> status.response_code is Success && status.hid_output == expected,
        result is Err ==> (result matches Err(SnapiError::BadStatus { status: told }) && told
            == status),
{
}

/// The requests for attribute numbers, and the one that makes a device talk.
pub proof fn law_fixed_requests(offset: u16, ids: Vec<u8>, first: Vec<u8>)
    requires
        call_ensures(Snapi::get_attribute_ids, (offset,), ids),
        call_ensures(Snapi::initialize_device, (), first),
    ensures
        ids@.len() == 6,
        ids@.take(4) == seq![0x00u8, 0x06, 0x01, 0x00],
        256 * ids@[4] + ids@[5] == offset,
        first@ == seq![0x00u8, 0x06, 0x20, 0x00, 0x04, 0xB0],
{
    assert(ids@.take(4) =~= seq![0x00u8, 0x06, 0x01, 0x00]);
}

/// A request to take a value says whether the value is stored, names the
/// attribute, holds the value as it is written, and tells its own length.
pub proof fn law_value_is_set(
    attribute_id: u16,
    store: bool,
    value: &SnapiAttributeValue,
    written: Option<Vec<u8>>,
    result: Result<Vec<u8>, SnapiError>,
)
    requires
        value@.can_encode(),
        call_ensures(SnapiAttributeValue::encode, (value,), written),
        call_ensures(Snapi::set_attribute, (attribute_id, store, value), result),
    ensures
        match (result, written) {
            (Ok(request), Some(written)) => {
                &&& request@.len() == 6 + written@.len()
                &&& 256 * request@[0] + request@[1] == request@.len()
                &&& request@[2] == if store {
                    6u8
                } else {
                    5u8
                }
                &&& request@[3] == 0
                &&& 256 * request@[4] + request@[5] == attribute_id
                &&& request@.skip(6) == written@
            },
            (Err(SnapiError::MismatchedData { name }), None) => name@
                == "cannot encode unknown value"@,
            _ => false,
        },
        written is None <==> value is Unknown,
{
    law_values_are_written(value, written);
    if let (Ok(request), Some(written)) = (result, written) {
        assert(request@.skip(6) =~= written@);
    }
}

/// The answer to a request for numbers has to be a list of them, and the answer
/// to a request to take a value has to say that it was taken as was asked.
pub proof fn law_answers_fit_their_requests(
    response: SnapiAttributeResponse,
    ids: Result<Vec<u16>, SnapiError>,
    store: bool,
    set: Result<(), SnapiError>,
)
    requires
        call_ensures(Snapi::attribute_ids, (response,), ids),
        call_ensures(Snapi::attribute_set, (store, response), set),
    ensures
        match response {
            SnapiAttributeResponse::GetId(listed) => ids matches Ok(ids) && ids@ == listed@,
            _ => ids matches Err(SnapiError::MismatchedData { name }) && name@ == "attribute ids"@,
        },
        set is Ok <==> (if store {
            response is Store
        } else {
            response is SetValue
        }),
        set is Err ==> (set matches Err(SnapiError::MismatchedData { name }) && name@
            == "attribute set"@),
{
}

/// An output is delivered, nothing is waited over, and an error ends the taking
/// of packets.
pub proof fn law_host_goes_on_until_an_error<T, E>(
    outcome: Result<Option<T>, E>,
    step: PacketStep<T, E>,
)
    requires
        call_ensures(after_packet::<T, E>, (outcome,), step),
    ensures
        match step {
            PacketStep::Deliver(output) => outcome == Ok::<_, E>(Some(output)),
            PacketStep::Wait => outcome == Ok::<Option<T>, E>(None),
            PacketStep::Stop(error) => outcome == Err::<Option<T>, _>(error),
        },
{
}

/// The message of a USB device is kept.
pub proof fn law_usb_error_keeps_its_message(text: String, error: SnapiError)
    requires
        call_ensures(SnapiError::usb, (text,), error),
    ensures
        error matches SnapiError::Usb { message } && message@ == text@,
{
}

} // verus!
