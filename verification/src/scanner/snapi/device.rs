//! A SNAPI device: the commands that it takes and what its reports come to.

use vstd::prelude::*;

use crate::scanner::snapi::attribute::{
    SnapiAttributeResponse, SnapiAttributeResponseView, SnapiAttributeValue,
    SnapiAttributeValueView,
};
use crate::scanner::snapi::collate::{
    attribute_bytes, attribute_packets_kept, barcode_bytes, barcode_packets_in_place,
    barcode_packets_kept, join_attribute, law_barcode_packets_stay_in_place,
    law_whole_answer_is_reassembled, law_whole_barcode_is_reassembled, output_view, views,
    whole_answer, whole_barcode, CollatableSnapiPacket, SnapiBarcodeView, SnapiOutput,
    SnapiOutputView, SnapiPacketOutput,
};
use crate::scanner::snapi::error::{result_view, SnapiError, SnapiErrorView};
use crate::scanner::snapi::packet::{
    DecodableSnapiPacket, SnapiAttributePacket, SnapiAttributePacketView, SnapiBarcodePacket,
    SnapiBarcodePacketView, SnapiPacket, SnapiPacketView,
};
use crate::scanner::snapi::report::{HidInput, HidOutput, MacroPdfAction, SnapiMode};
use crate::scanner::snapi::status::SnapiStatus;
use crate::wire::{be16_bytes, push_be16, push_bytes};

verus! {

/// A report for the device.
#[derive(Debug)]
pub struct Command {
    /// The kind of report.
    pub hid_output: HidOutput,
    /// The bytes to write.
    pub packet: Vec<u8>,
    /// Whether the device answers with a status, which has to be read.
    pub read_status: bool,
}

/// A [`Command`] as a mathematical value.
#[verifier::ext_equal]
pub struct CommandView {
    pub hid_output: HidOutput,
    pub packet: Seq<u8>,
    pub read_status: bool,
}

impl View for Command {
    type V = CommandView;

    open spec fn view(&self) -> CommandView {
        CommandView {
            hid_output: self.hid_output,
            packet: self.packet@,
            read_status: self.read_status,
        }
    }
}

impl CommandView {
    /// Whether the first byte of the report is the code of its kind.
    pub open spec fn is_labelled(self) -> bool {
        self.packet.len() > 0 && self.packet[0] == self.hid_output.code()
    }

    /// A command with one argument, whose status is read.
    pub open spec fn with_argument(hid_output: HidOutput, argument: u8) -> CommandView {
        CommandView { hid_output, packet: seq![hid_output.code(), argument], read_status: true }
    }

    /// What acknowledges a report.
    pub open spec fn acknowledgement(input: HidInput) -> CommandView {
        CommandView {
            hid_output: HidOutput::Acknowledgement,
            packet: seq![HidOutput::Acknowledgement.code(), input.code(), 0x01],
            read_status: false,
        }
    }
}

/// The reports of commands start with the code of their kind, from which the
/// kind is read back.
pub proof fn law_commands_are_labelled(hid_output: HidOutput, argument: u8, input: HidInput)
    ensures
        CommandView::with_argument(hid_output, argument).is_labelled(),
        hid_output.is_canonical() ==> HidOutput::of_code(
            CommandView::with_argument(hid_output, argument).packet[0],
        ) == hid_output,
        CommandView::acknowledgement(input).is_labelled(),
        HidOutput::of_code(CommandView::acknowledgement(input).packet[0])
            == HidOutput::Acknowledgement,
{
}

/// The status that a report tells, where it is one. There is no report where
/// the reports have ended.
pub open spec fn status_read(report: Option<Seq<u8>>) -> Result<SnapiStatus, SnapiErrorView> {
    match report {
        None => Err(SnapiErrorView::Channel { name: "rx status"@ }),
        Some(report) => if HidInput::of_code(report[0]) == HidInput::Status {
            SnapiStatus::decoded(report)
        } else {
            Err(SnapiErrorView::UnexpectedValue { value: report[0], name: "decode"@ })
        },
    }
}

/// How a command that was sent by the given report ended, by the report that
/// was waited for as its status.
pub open spec fn status_checked(hid_output: HidOutput, report: Option<Seq<u8>>) -> Result<
    (),
    SnapiErrorView,
> {
    match status_read(report) {
        Ok(status) => if status.confirms(hid_output) {
            Ok(())
        } else {
            Err(SnapiErrorView::BadStatus { status })
        },
        Err(error) => Err(error),
    }
}

/// The request for attribute numbers from the given one on.
pub open spec fn ids_request(offset: u16) -> Seq<u8> {
    seq![0x00u8, 0x06, 0x01, 0x00] + be16_bytes(offset)
}

/// The request for the value of an attribute.
pub open spec fn value_request(attribute_id: u16) -> Seq<u8> {
    seq![0x00u8, 0x06, 0x02, 0x00] + be16_bytes(attribute_id)
}

/// The request for the bytes of a long value from the given place on.
pub open spec fn offset_request(attribute_id: u16, offset: u16) -> Seq<u8> {
    seq![0x00u8, 0x08, 0x04, 0x00] + be16_bytes(attribute_id) + be16_bytes(offset)
}

/// The request to take a value, for good or not, if it can be written.
pub open spec fn set_request(
    attribute_id: u16,
    store: bool,
    value: SnapiAttributeValueView,
) -> Result<Seq<u8>, SnapiErrorView> {
    match value.encoded() {
        Some(data) => Ok(
            be16_bytes((data.len() + 6) as u16) + seq![
                if store {
                    0x06u8
                } else {
                    0x05u8
                },
                0x00u8,
            ] + be16_bytes(attribute_id) + data,
        ),
        None => Err(SnapiErrorView::MismatchedData { name: "cannot encode unknown value"@ }),
    }
}

/// The request that makes a device talk to the host.
pub open spec fn initialize_request() -> Seq<u8> {
    seq![0x00u8, 0x06, 0x20, 0x00, 0x04, 0xB0]
}

/// The first two bytes of every attribute request are its length.
pub proof fn law_requests_tell_their_length(
    attribute_id: u16,
    offset: u16,
    store: bool,
    value: SnapiAttributeValueView,
)
    requires
        value.can_encode(),
    ensures
        ids_request(offset).take(2) == be16_bytes(ids_request(offset).len() as u16),
        value_request(attribute_id).take(2) == be16_bytes(
            value_request(attribute_id).len() as u16,
        ),
        offset_request(attribute_id, offset).take(2) == be16_bytes(
            offset_request(attribute_id, offset).len() as u16,
        ),
        initialize_request().take(2) == be16_bytes(initialize_request().len() as u16),
        set_request(attribute_id, store, value) matches Ok(request) ==> request.len() <= u16::MAX
            && request.take(2) == be16_bytes(request.len() as u16),
{
    assert(ids_request(offset).take(2) =~= be16_bytes(6));
    assert(value_request(attribute_id).take(2) =~= be16_bytes(6));
    assert(offset_request(attribute_id, offset).take(2) =~= be16_bytes(8));
    assert(initialize_request().take(2) =~= be16_bytes(6));
    if let Ok(request) = set_request(attribute_id, store, value) {
        assert(request.take(2) =~= be16_bytes(request.len() as u16));
    }
}

/// A device: the packets that it sent of what is not whole yet.
pub struct Snapi {
    barcode_packets: Vec<SnapiBarcodePacket>,
    attribute_packets: Vec<SnapiAttributePacket>,
}

/// A [`Snapi`] as a mathematical value.
#[verifier::ext_equal]
pub struct SnapiView {
    pub barcode_packets: Seq<SnapiBarcodePacketView>,
    pub attribute_packets: Seq<SnapiAttributePacketView>,
}

impl View for Snapi {
    type V = SnapiView;

    closed spec fn view(&self) -> SnapiView {
        SnapiView {
            barcode_packets: views(self.barcode_packets@),
            attribute_packets: views(self.attribute_packets@),
        }
    }
}

impl SnapiView {
    /// Whether the barcode packets that are kept stand at their places.
    pub open spec fn is_in_order(self) -> bool {
        barcode_packets_in_place(self.barcode_packets)
    }

    /// Whether a report has all the bytes that are needed in order to tell what
    /// it comes to.
    pub open spec fn can_process(self, data: Seq<u8>) -> bool {
        &&& SnapiPacketView::can_decode(data)
        &&& SnapiPacketView::decoded(data) matches Ok(SnapiPacketView::Attribute(packet))
            ==> SnapiAttributePacket::can_collate(packet, self.attribute_packets)
    }

    /// The device after a report, and what the report comes to.
    pub open spec fn processed(self, data: Seq<u8>) -> (
        SnapiView,
        Result<Option<SnapiOutputView>, SnapiErrorView>,
    )
        recommends
            self.can_process(data),
    {
        match SnapiPacketView::decoded(data) {
            Err(error) => (self, Err(error)),
            Ok(SnapiPacketView::Status(status)) => (
                self,
                Ok(Some(SnapiOutputView::Status(status))),
            ),
            Ok(SnapiPacketView::Barcode(packet)) => {
                let (barcode_packets, result) = SnapiBarcodePacket::collated(
                    packet,
                    self.barcode_packets,
                );
                (SnapiView { barcode_packets, ..self }, result)
            },
            Ok(SnapiPacketView::Notification(notification)) => (
                self,
                Ok(Some(SnapiOutputView::Notification(notification))),
            ),
            Ok(SnapiPacketView::Attribute(packet)) => {
                let (attribute_packets, result) = SnapiAttributePacket::collated(
                    packet,
                    self.attribute_packets,
                );
                (SnapiView { attribute_packets, ..self }, result)
            },
            Ok(SnapiPacketView::Other { hid_input, data }) => (
                self,
                Ok(Some(SnapiOutputView::Other { hid_input, data })),
            ),
        }
    }
}

impl SnapiView {
    /// The device after several reports.
    pub open spec fn after_reports(self, reports: Seq<Seq<u8>>) -> SnapiView
        decreases reports.len(),
    {
        if reports.len() == 0 {
            self
        } else {
            self.after_reports(reports.drop_last()).processed(reports.last()).0
        }
    }
}

/// Whatever report comes, the barcode packets that are kept stand at their
/// places, a report that is neither a part of a barcode nor of an answer
/// changes nothing, and a part of one leaves the parts of the other alone.
pub proof fn law_reports_keep_the_device_in_order(device: SnapiView, data: Seq<u8>)
    requires
        device.is_in_order(),
        device.can_process(data),
    ensures
        ({
            let next = device.processed(data).0;
            let hid_input = HidInput::of_code(data[0]);
            &&& next.is_in_order()
            &&& hid_input != HidInput::Barcode ==> next.barcode_packets
                == device.barcode_packets
            &&& hid_input != HidInput::Attribute ==> next.attribute_packets
                == device.attribute_packets
        }),
{
    if let Ok(SnapiPacketView::Barcode(packet)) = SnapiPacketView::decoded(data) {
        law_barcode_packets_stay_in_place(packet, device.barcode_packets);
    }
}

/// The barcode packets among reports.
pub open spec fn barcode_packets_of(reports: Seq<Seq<u8>>) -> Seq<SnapiBarcodePacketView>
    decreases reports.len(),
{
    if reports.len() == 0 {
        Seq::empty()
    } else {
        let before = barcode_packets_of(reports.drop_last());
        match SnapiPacketView::decoded(reports.last()) {
            Ok(SnapiPacketView::Barcode(packet)) => before.push(packet),
            _ => before,
        }
    }
}

proof fn lemma_barcode_packets_of_some(reports: Seq<Seq<u8>>, n: int)
    requires
        0 <= n < reports.len(),
    ensures
        barcode_packets_of(reports.take(n)).is_prefix_of(barcode_packets_of(reports)),
        SnapiPacketView::decoded(reports[n]) matches Ok(SnapiPacketView::Barcode(packet)) ==> {
            let before = barcode_packets_of(reports.take(n));
            &&& before.len() < barcode_packets_of(reports).len()
            &&& barcode_packets_of(reports)[before.len() as int] == packet
        },
    decreases reports.len(),
{
    let before = reports.drop_last();
    assert(reports.take(n) =~= before.take(n));
    if n < before.len() {
        lemma_barcode_packets_of_some(before, n);
    } else {
        assert(before.take(n) =~= before);
    }
}

proof fn lemma_barcode_packets_kept_of_some(
    some: Seq<SnapiBarcodePacketView>,
    all: Seq<SnapiBarcodePacketView>,
    n: nat,
)
    requires
        some.is_prefix_of(all),
        n <= some.len(),
    ensures
        barcode_packets_kept(some, n) == barcode_packets_kept(all, n),
    decreases n,
{
    if n > 0 {
        lemma_barcode_packets_kept_of_some(some, all, (n - 1) as nat);
        assert(some[n - 1] == all[n - 1]);
    }
}

proof fn lemma_barcode_packets_are_kept(device: SnapiView, reports: Seq<Seq<u8>>)
    requires
        device.barcode_packets.len() == 0,
    ensures
        ({
            let packets = barcode_packets_of(reports);
            device.after_reports(reports).barcode_packets == barcode_packets_kept(packets, packets.len())
        }),
    decreases reports.len(),
{
    if reports.len() == 0 {
        assert(device.barcode_packets =~= Seq::empty());
    } else {
        let before = reports.drop_last();
        lemma_barcode_packets_are_kept(device, before);
        let some = barcode_packets_of(before);
        lemma_barcode_packets_kept_of_some(some, barcode_packets_of(reports), some.len());
    }
}

/// The reports of a barcode come to the barcode: whatever other reports there
/// are in between, its parts come to nothing until the last one, which gives
/// the bytes of all of them in order. Then no part is left.
pub proof fn law_barcode_reports_come_to_the_barcode(device: SnapiView, reports: Seq<Seq<u8>>)
    requires
        device.barcode_packets.len() == 0,
        whole_barcode(barcode_packets_of(reports)),
        SnapiPacketView::decoded(reports.last()) matches Ok(SnapiPacketView::Barcode(_)),
    ensures
        forall|i: int|
            0 <= i < reports.len() - 1 && (SnapiPacketView::decoded(
                #[trigger] reports[i],
            ) matches Ok(SnapiPacketView::Barcode(_))) ==> device.after_reports(
                reports.take(i),
            ).processed(reports[i]).1 == Ok::<Option<SnapiOutputView>, SnapiErrorView>(None),
        ({
            let packets = barcode_packets_of(reports);
            device.after_reports(reports.drop_last()).processed(reports.last()).1 == Ok::<
                Option<SnapiOutputView>,
                SnapiErrorView,
            >(
                Some(
                    SnapiOutputView::Barcode(
                        SnapiBarcodeView {
                            data: barcode_bytes(packets),
                            code_type: packets.last().code_type,
                        },
                    ),
                ),
            )
        }),
        device.after_reports(reports).barcode_packets.len() == 0,
{
    let packets = barcode_packets_of(reports);
    law_whole_barcode_is_reassembled(packets);
    let before = reports.drop_last();
    let some = barcode_packets_of(before);
    assert forall|i: int|
        0 <= i < reports.len() - 1 && (SnapiPacketView::decoded(
            #[trigger] reports[i],
        ) matches Ok(SnapiPacketView::Barcode(_))) implies device.after_reports(
        reports.take(i),
    ).processed(reports[i]).1 == Ok::<Option<SnapiOutputView>, SnapiErrorView>(None) by {
        let first = reports.take(i);
        let n = barcode_packets_of(first).len();
        lemma_barcode_packets_are_kept(device, first);
        assert(before.take(i) =~= first);
        assert(before[i] == reports[i]);
        lemma_barcode_packets_of_some(before, i);
        lemma_barcode_packets_of_some(reports, i);
        lemma_barcode_packets_kept_of_some(barcode_packets_of(first), packets, n);
        assert(n + 1 < packets.len());
    }
    lemma_barcode_packets_are_kept(device, before);
    lemma_barcode_packets_kept_of_some(some, packets, some.len());
    lemma_barcode_packets_are_kept(device, reports);
}

/// The attribute packets among reports.
pub open spec fn attribute_packets_of(reports: Seq<Seq<u8>>) -> Seq<SnapiAttributePacketView>
    decreases reports.len(),
{
    if reports.len() == 0 {
        Seq::empty()
    } else {
        let before = attribute_packets_of(reports.drop_last());
        match SnapiPacketView::decoded(reports.last()) {
            Ok(SnapiPacketView::Attribute(packet)) => before.push(packet),
            _ => before,
        }
    }
}

proof fn lemma_attribute_packets_of_some(reports: Seq<Seq<u8>>, n: int)
    requires
        0 <= n < reports.len(),
    ensures
        attribute_packets_of(reports.take(n)).is_prefix_of(attribute_packets_of(reports)),
        SnapiPacketView::decoded(reports[n]) matches Ok(SnapiPacketView::Attribute(packet)) ==> {
            let before = attribute_packets_of(reports.take(n));
            &&& before.len() < attribute_packets_of(reports).len()
            &&& attribute_packets_of(reports)[before.len() as int] == packet
        },
    decreases reports.len(),
{
    let before = reports.drop_last();
    assert(reports.take(n) =~= before.take(n));
    if n < before.len() {
        lemma_attribute_packets_of_some(before, n);
    } else {
        assert(before.take(n) =~= before);
    }
}

proof fn lemma_attribute_packets_kept_of_some(
    some: Seq<SnapiAttributePacketView>,
    all: Seq<SnapiAttributePacketView>,
    n: nat,
)
    requires
        some.is_prefix_of(all),
        n <= some.len(),
    ensures
        attribute_packets_kept(some, n) == attribute_packets_kept(all, n),
    decreases n,
{
    if n > 0 {
        lemma_attribute_packets_kept_of_some(some, all, (n - 1) as nat);
        assert(some[n - 1] == all[n - 1]);
    }
}

proof fn lemma_attribute_packets_are_kept(device: SnapiView, reports: Seq<Seq<u8>>)
    requires
        device.attribute_packets.len() == 0,
    ensures
        ({
            let packets = attribute_packets_of(reports);
            device.after_reports(reports).attribute_packets == attribute_packets_kept(packets, packets.len())
        }),
    decreases reports.len(),
{
    if reports.len() == 0 {
        assert(device.attribute_packets =~= Seq::empty());
    } else {
        let before = reports.drop_last();
        lemma_attribute_packets_are_kept(device, before);
        let some = attribute_packets_of(before);
        lemma_attribute_packets_kept_of_some(some, attribute_packets_of(reports), some.len());
    }
}

/// The reports of an answer come to the answer: whatever other reports there are
/// in between, its parts come to nothing until the last one, which gives the
/// answer that the bytes of all of them hold. Then no part is left.
pub proof fn law_answer_reports_come_to_the_answer(device: SnapiView, reports: Seq<Seq<u8>>)
    requires
        device.attribute_packets.len() == 0,
        whole_answer(attribute_packets_of(reports)),
        SnapiPacketView::decoded(reports.last()) matches Ok(SnapiPacketView::Attribute(_)),
    ensures
        forall|i: int|
            0 <= i < reports.len() - 1 && (SnapiPacketView::decoded(
                #[trigger] reports[i],
            ) matches Ok(SnapiPacketView::Attribute(_))) ==> device.after_reports(
                reports.take(i),
            ).processed(reports[i]).1 == Ok::<Option<SnapiOutputView>, SnapiErrorView>(None),
        device.after_reports(reports.drop_last()).processed(reports.last()).1 == (
        match SnapiAttributeResponseView::decoded(
            attribute_bytes(attribute_packets_of(reports)),
        ) {
            Ok(response) => Ok::<Option<SnapiOutputView>, SnapiErrorView>(
                Some(SnapiOutputView::Attribute(response)),
            ),
            Err(error) => Err(error),
        }),
        device.after_reports(reports).attribute_packets.len() == 0,
{
    let packets = attribute_packets_of(reports);
    law_whole_answer_is_reassembled(packets);
    let before = reports.drop_last();
    let some = attribute_packets_of(before);
    assert forall|i: int|
        0 <= i < reports.len() - 1 && (SnapiPacketView::decoded(
            #[trigger] reports[i],
        ) matches Ok(SnapiPacketView::Attribute(_))) implies device.after_reports(
        reports.take(i),
    ).processed(reports[i]).1 == Ok::<Option<SnapiOutputView>, SnapiErrorView>(None) by {
        let first = reports.take(i);
        let n = attribute_packets_of(first).len();
        lemma_attribute_packets_are_kept(device, first);
        assert(before.take(i) =~= first);
        assert(before[i] == reports[i]);
        lemma_attribute_packets_of_some(before, i);
        lemma_attribute_packets_of_some(reports, i);
        lemma_attribute_packets_kept_of_some(attribute_packets_of(first), packets, n);
        assert(n + 1 < packets.len());
    }
    lemma_attribute_packets_are_kept(device, before);
    lemma_attribute_packets_kept_of_some(some, packets, some.len());
    lemma_attribute_packets_are_kept(device, reports);
}

/// An output of a report, as a mathematical value.
pub open spec fn processed_view(result: Result<Option<SnapiOutput>, SnapiError>) -> Result<
    Option<SnapiOutputView>,
    SnapiErrorView,
> {
    match result {
        Ok(output) => Ok(output_view(output)),
        Err(error) => Err(error@),
    }
}

/// What a host that takes outputs does after a packet was processed.
#[derive(Debug)]
pub enum PacketStep<T, E> {
    /// It delivers the output, and takes the next packet.
    Deliver(T),
    /// There is no output yet: it takes the next packet.
    Wait,
    /// It takes no more packets.
    Stop(E),
}

/// Tells what to do after a packet was processed with the given outcome.
pub fn after_packet<T, E>(outcome: Result<Option<T>, E>) -> (step: PacketStep<T, E>)
    ensures
        step == match outcome {
            Ok(Some(output)) => PacketStep::Deliver(output),
            Ok(None) => PacketStep::Wait,
            Err(error) => PacketStep::Stop(error),
        },
{
    match outcome {
        Ok(Some(output)) => PacketStep::Deliver(output),
        Ok(None) => PacketStep::Wait,
        Err(error) => PacketStep::Stop(error),
    }
}

/// Builds a command with one argument.
fn command_with_argument(hid_output: HidOutput, argument: u8) -> (command: Command)
    ensures
        command@ == CommandView::with_argument(hid_output, argument),
{
    let mut packet: Vec<u8> = Vec::new();
    packet.push(hid_output.into());
    packet.push(argument);
    let command = Command { hid_output, packet, read_status: true };
    proof {
        assert(command@ =~= CommandView::with_argument(hid_output, argument));
    }
    command
}

impl Snapi {
    /// A device of which nothing was received yet.
    pub fn new() -> (device: Snapi)
        ensures
            device@.barcode_packets.len() == 0,
            device@.attribute_packets.len() == 0,
            device@.is_in_order(),
    {
        Snapi { barcode_packets: Vec::new(), attribute_packets: Vec::new() }
    }

    /// Acknowledges a report.
    pub fn write_ack(input: HidInput) -> (command: Command)
        ensures
            command@ == CommandView::acknowledgement(input),
    {
        let mut packet: Vec<u8> = Vec::new();
        packet.push(HidOutput::Acknowledgement.into());
        packet.push(input.into());
        packet.push(0x01);
        let command = Command {
            hid_output: HidOutput::Acknowledgement,
            packet,
            read_status: false,
        };
        proof {
            assert(command@ =~= CommandView::acknowledgement(input));
        }
        command
    }

    /// Selects what the device captures.
    pub fn set_mode(mode: SnapiMode) -> (command: Command)
        ensures
            command@ == CommandView::with_argument(HidOutput::Mode, mode.code()),
    {
        command_with_argument(HidOutput::Mode, mode.into())
    }

    /// Sets if the aiming dot should be enabled.
    pub fn set_aim(enabled: bool) -> (command: Command)
        ensures
            command@ == CommandView::with_argument(HidOutput::Aim, if enabled { 1 } else { 0 }),
    {
        command_with_argument(HidOutput::Aim, if enabled { 1 } else { 0 })
    }

    /// Sets if the scanner should be enabled.
    pub fn set_scanner(enabled: bool) -> (command: Command)
        ensures
            command@ == CommandView::with_argument(
                HidOutput::Scanner,
                if enabled { 1 } else { 0 },
            ),
    {
        command_with_argument(HidOutput::Scanner, if enabled { 1 } else { 0 })
    }

    /// Ends a macro PDF sequence.
    pub fn send_macro_pdf_action(action: MacroPdfAction) -> (command: Command)
        ensures
            command@ == CommandView::with_argument(HidOutput::MacroPdf, action.code()),
    {
        command_with_argument(HidOutput::MacroPdf, action.into())
    }

    /// Pulls or releases the trigger.
    pub fn set_soft_trigger(enabled: bool) -> (command: Command)
        ensures
            command@ == CommandView::with_argument(
                HidOutput::SoftTrigger,
                if enabled { 1 } else { 0 },
            ),
    {
        command_with_argument(HidOutput::SoftTrigger, if enabled { 1 } else { 0 })
    }

    /// Acknowledges a report by its first byte.
    pub fn acknowledge(data: &[u8]) -> (command: Command)
        requires
            data@.len() > 0,
        ensures
            command@ == CommandView::acknowledgement(HidInput::of_code(data@[0])),
    {
        Snapi::write_ack(HidInput::from_code(data[0]))
    }

    /// Reads the report that was waited for as a status. There is no report
    /// where the reports have ended.
    pub fn read_status(report: Option<&[u8]>) -> (result: Result<SnapiStatus, SnapiError>)
        requires
            report matches Some(report) ==> report@.len() > 0,
        ensures
            result_view(result) == status_read(
                match report {
                    Some(report) => Some(report@),
                    None => None,
                },
            ),
    {
        match report {
            Some(report) => SnapiPacket::decode_specific::<SnapiStatus>(report),
            None => Err(SnapiError::Channel { name: "rx status" }),
        }
    }

    /// Checks the status of a command that was sent by the given report.
    pub fn check_status(hid_output: HidOutput, report: Option<&[u8]>) -> (result: Result<
        (),
        SnapiError,
    >)
        requires
            report matches Some(report) ==> report@.len() > 0,
        ensures
            result_view(result) == status_checked(
                hid_output,
                match report {
                    Some(report) => Some(report@),
                    None => None,
                },
            ),
    {
        match Snapi::read_status(report) {
            Ok(status) => status.error_for_status(hid_output),
            Err(error) => Err(error),
        }
    }

    /// How a simple command ended that produces no return value, once it is
    /// written: its status is checked where it has one. There is no report where
    /// the reports have ended.
    pub fn write_command(command: &Command, report: Option<&[u8]>) -> (result: Result<
        (),
        SnapiError,
    >)
        requires
            report matches Some(report) ==> report@.len() > 0,
        ensures
            result_view(result) == if command.read_status {
                status_checked(
                    command.hid_output,
                    match report {
                        Some(report) => Some(report@),
                        None => None,
                    },
                )
            } else {
                Ok(())
            },
    {
        if command.read_status {
            Snapi::check_status(command.hid_output, report)
        } else {
            Ok(())
        }
    }

    /// The request that makes the device talk to the host.
    pub fn initialize_device() -> (request: Vec<u8>)
        ensures
            request@ == initialize_request(),
    {
        let request: Vec<u8> = vec![0x00, 0x06, 0x20, 0x00, 0x04, 0xB0];
        proof {
            assert(request@ =~= initialize_request());
        }
        request
    }

    /// The request for attribute numbers from the given one on.
    pub fn get_attribute_ids(offset: u16) -> (request: Vec<u8>)
        ensures
            request@ == ids_request(offset),
    {
        let mut request: Vec<u8> = vec![0x00, 0x06, 0x01, 0x00];
        push_be16(&mut request, offset);
        proof {
            assert(request@ =~= ids_request(offset));
        }
        request
    }

    /// The attribute numbers of the answer to such a request.
    pub fn attribute_ids(response: SnapiAttributeResponse) -> (result: Result<
        Vec<u16>,
        SnapiError,
    >)
        ensures
            result_view(result) == match response@ {
                SnapiAttributeResponseView::GetId(ids) => Ok(ids),
                _ => Err(SnapiErrorView::MismatchedData { name: "attribute ids"@ }),
            },
    {
        match response {
            SnapiAttributeResponse::GetId(ids) => Ok(ids),
            _ => Err(SnapiError::MismatchedData { name: "attribute ids" }),
        }
    }

    /// The request to take a value, for good where `store` is set.
    pub fn set_attribute(attribute_id: u16, store: bool, value: &SnapiAttributeValue) -> (result:
        Result<Vec<u8>, SnapiError>)
        requires
            value@.can_encode(),
        ensures
            result_view(result) == set_request(attribute_id, store, value@),
    {
        let data = match value.encode() {
            Some(data) => data,
            None => {
                return Err(SnapiError::MismatchedData { name: "cannot encode unknown value" });
            },
        };
        let length: u16 = (data.len() + 6) as u16;
        let mut request: Vec<u8> = Vec::new();
        push_be16(&mut request, length);
        request.push(if store { 0x06 } else { 0x05 });
        request.push(0x00);
        push_be16(&mut request, attribute_id);
        push_bytes(&mut request, data.as_slice());
        proof {
            assert(request@ =~= set_request(attribute_id, store, value@)->Ok_0);
        }
        Ok(request)
    }

    /// Checks the answer to such a request.
    pub fn attribute_set(store: bool, response: SnapiAttributeResponse) -> (result: Result<
        (),
        SnapiError,
    >)
        ensures
            result_view(result) == match (store, response@) {
                (true, SnapiAttributeResponseView::Store) => Ok(()),
                (false, SnapiAttributeResponseView::SetValue) => Ok(()),
                _ => Err(SnapiErrorView::MismatchedData { name: "attribute set"@ }),
            },
    {
        match response {
            SnapiAttributeResponse::Store if store => Ok(()),
            SnapiAttributeResponse::SetValue if !store => Ok(()),
            _ => Err(SnapiError::MismatchedData { name: "attribute set" }),
        }
    }

    /// Whether a report has all the bytes that [`Self::process_packet`] needs in
    /// order to tell what it comes to.
    pub fn can_process(&self, data: &[u8]) -> (result: bool)
        ensures
            result == self@.can_process(data@),
    {
        if !SnapiPacket::can_decode(data) {
            return false;
        }
        match HidInput::from_code(data[0]) {
            HidInput::Attribute => match SnapiAttributePacket::decode(data) {
                Ok(packet) => {
                    if packet.flags.has_next {
                        true
                    } else {
                        let mut all = join_attribute(&self.attribute_packets);
                        push_bytes(&mut all, packet.data.as_slice());
                        proof {
                            let packets = self@.attribute_packets;
                            assert(packets.push(packet@).drop_last() =~= packets);
                            assert(all@ == attribute_bytes(packets.push(packet@)));
                        }
                        SnapiAttributeResponse::can_decode(all.as_slice())
                    }
                },
                Err(_) => true,
            },
            _ => true,
        }
    }

    /// Processes a report by collating all packets into an output.
    ///
    /// Many outputs are spread across multiple packets. This takes in a packet,
    /// checks if it needs more data, then either stores the partial value for
    /// future use or combines all of the data into a complete output.
    ///
    /// The report has to be acknowledged first, see [`Self::acknowledge`].
    pub fn process_packet(&mut self, data: Vec<u8>) -> (result: Result<
        Option<SnapiOutput>,
        SnapiError,
    >)
        requires
            old(self)@.can_process(data@),
        ensures
            final(self)@ == old(self)@.processed(data@).0,
            processed_view(result) == old(self)@.processed(data@).1,
    {
        let packet = match SnapiPacket::decode_any(data.as_slice()) {
            Ok(packet) => packet,
            Err(error) => {
                return Err(error);
            },
        };
        match packet {
            SnapiPacket::Status(status) => Ok(status.output()),
            SnapiPacket::Barcode(packet) => match packet.collate(&mut self.barcode_packets) {
                Ok(barcode) => Ok(barcode.output()),
                Err(error) => Err(error),
            },
            SnapiPacket::Notification(notification) => Ok(notification.output()),
            SnapiPacket::Attribute(packet) => match packet.collate(&mut self.attribute_packets) {
                Ok(response) => Ok(response.output()),
                Err(error) => Err(error),
            },
            SnapiPacket::Other { hid_input, data } => Ok(
                Some(SnapiOutput::Other { hid_input, data }),
            ),
        }
    }
}

} // verus!
