//! How reports come to outputs.

use vstd::prelude::*;

use crate::laws::packets::{
    attribute_report, barcode_report, fails_short, is_status_read, lemma_same_error, same_error,
};
use crate::laws::values::{lemma_same_response, same_response};
use crate::scanner::snapi::collate::{
    attribute_bytes, barcode_bytes, views, CollatableSnapiPacket, SnapiPacketOutput,
};
use crate::scanner::snapi::device::{
    attribute_packets_of, barcode_packets_of, law_answer_reports_come_to_the_answer,
    law_barcode_reports_come_to_the_barcode, processed_view,
};
use crate::scanner::snapi::packet::{
    DecodableSnapiPacket, SnapiAttributePacket, SnapiAttributePacketView, SnapiAttributeResponse,
    SnapiBarcode, SnapiBarcodePacket, SnapiBarcodePacketView, SnapiOutput, SnapiOutputView,
    SnapiPacketView, SnapiStatus,
};
use crate::scanner::snapi::{
    HidInput, Snapi, SnapiError, SnapiErrorView, SnapiNotification, SnapiView,
};
use crate::text::decimal;

verus! {

/// The contents of barcode packets, one after the other.
pub open spec fn contents(packets: Seq<SnapiBarcodePacket>) -> Seq<u8> {
    packets.map_values(|packet: SnapiBarcodePacket| packet.data@).flatten()
}

proof fn lemma_bytes_are_flat(packets: Seq<SnapiBarcodePacketView>)
    ensures
        barcode_bytes(packets) == packets.map_values(
            |packet: SnapiBarcodePacketView| packet.data,
        ).flatten(),
    decreases packets.len(),
{
    let parts = packets.map_values(|packet: SnapiBarcodePacketView| packet.data);
    parts.lemma_flatten_and_flatten_alt_are_equivalent();
    if packets.len() > 0 {
        let before = packets.drop_last();
        lemma_bytes_are_flat(before);
        let parts_before = before.map_values(|packet: SnapiBarcodePacketView| packet.data);
        parts_before.lemma_flatten_and_flatten_alt_are_equivalent();
        assert(parts.drop_last() =~= parts_before);
    }
}

/// Whether an error tells of packets that are missing or out of order.
pub open spec fn tells_bad_order<T>(result: Result<T, SnapiError>, text: Seq<char>) -> bool {
    result matches Err(SnapiError::BadPacketOrder { name }) && name@ == text
}

/// A barcode in a single packet is its content, and packets that were kept are
/// then too many.
pub proof fn law_single_barcode_packet(
    packet: SnapiBarcodePacket,
    packets: &mut Vec<SnapiBarcodePacket>,
    result: Result<Option<SnapiBarcode>, SnapiError>,
)
    requires
        packet.packet_count == 1,
        call_ensures(SnapiBarcodePacket::collate, (packet, packets), result),
    ensures
        final(packets)@.len() == 0,
        old(packets)@.len() == 0 ==> (result matches Ok(Some(barcode)) && barcode.data@
            == packet.data@ && barcode.code_type == packet.code_type),
        old(packets)@.len() > 0 ==> tells_bad_order(
            result,
            "expected 0 previous packets, had "@ + decimal(old(packets)@.len()),
        ),
{
    assert(views(final(packets)@).len() == final(packets)@.len());
    assert(views(old(packets)@).len() == old(packets)@.len());
}

/// The last packet of a barcode gives the contents of all of them in order,
/// where as many came before it as its place says. Nothing is kept then.
pub proof fn law_last_barcode_packet(
    packet: SnapiBarcodePacket,
    packets: &mut Vec<SnapiBarcodePacket>,
    result: Result<Option<SnapiBarcode>, SnapiError>,
)
    requires
        packet.packet_count != 1,
        packet.packet_count == packet.packet_index + 1,
        call_ensures(SnapiBarcodePacket::collate, (packet, packets), result),
    ensures
        final(packets)@.len() == 0,
        old(packets)@.len() == packet.packet_index ==> (result matches Ok(Some(barcode))
            && barcode.data@ == contents(old(packets)@.push(packet)) && barcode.code_type
            == packet.code_type),
        old(packets)@.len() != packet.packet_index ==> tells_bad_order(
            result,
            "expected "@ + decimal(packet.packet_count as nat) + " packets, had "@ + decimal(
                old(packets)@.len() + 1,
            ),
        ),
{
    assert(views(final(packets)@).len() == final(packets)@.len());
    let all = old(packets)@.push(packet);
    assert(views(all) =~= views(old(packets)@).push(packet@));
    lemma_bytes_are_flat(views(all));
    assert(views(all).map_values(|packet: SnapiBarcodePacketView| packet.data)
        =~= all.map_values(|packet: SnapiBarcodePacket| packet.data@));
}

/// Any other packet of a barcode is kept behind the others where its place says
/// so, and otherwise all of them are dropped.
pub proof fn law_other_barcode_packet(
    packet: SnapiBarcodePacket,
    packets: &mut Vec<SnapiBarcodePacket>,
    result: Result<Option<SnapiBarcode>, SnapiError>,
)
    requires
        packet.packet_count != 1,
        packet.packet_count != packet.packet_index + 1,
        call_ensures(SnapiBarcodePacket::collate, (packet, packets), result),
    ensures
        old(packets)@.len() == packet.packet_index ==> result matches Ok(None),
        old(packets)@.len() == packet.packet_index ==> {
            &&& final(packets)@.len() == old(packets)@.len() + 1
            &&& forall|i: int|
                0 <= i < final(packets)@.len() ==> {
                    let kept = #[trigger] final(packets)@[i];
                    let came = old(packets)@.push(packet)[i];
                    &&& kept.packet_count == came.packet_count
                    &&& kept.packet_index == came.packet_index
                    &&& kept.code_type == came.code_type
                    &&& kept.data@ == came.data@
                }
        },
        old(packets)@.len() != packet.packet_index ==> final(packets)@.len() == 0
            && tells_bad_order(
            result,
            "on packet index "@ + decimal(packet.packet_index as nat) + " but had "@ + decimal(
                old(packets)@.len() + 1,
            ),
        ),
{
    assert(views(final(packets)@).len() == final(packets)@.len());
    let all = old(packets)@.push(packet);
    assert(views(all) =~= views(old(packets)@).push(packet@));
    if old(packets)@.len() == packet.packet_index {
        assert(views(final(packets)@) == views(all));
        assert forall|i: int| 0 <= i < final(packets)@.len() implies {
            let kept = #[trigger] final(packets)@[i];
            let came = all[i];
            &&& kept.packet_count == came.packet_count
            &&& kept.packet_index == came.packet_index
            &&& kept.code_type == came.code_type
            &&& kept.data@ == came.data@
        } by {
            assert(views(final(packets)@)[i] == views(all)[i]);
        }
    }
}

/// A packet of an answer that is followed by others is kept behind those that
/// came before it.
pub proof fn law_part_of_an_answer(
    packet: SnapiAttributePacket,
    packets: &mut Vec<SnapiAttributePacket>,
    result: Result<Option<SnapiAttributeResponse>, SnapiError>,
)
    requires
        packet.flags.has_next,
        call_ensures(SnapiAttributePacket::collate, (packet, packets), result),
    ensures
        result matches Ok(None),
        final(packets)@.len() == old(packets)@.len() + 1,
        forall|i: int|
            0 <= i < final(packets)@.len() ==> {
                let kept = #[trigger] final(packets)@[i];
                let came = old(packets)@.push(packet)[i];
                &&& kept.flags.has_next == came.flags.has_next
                &&& kept.data@ == came.data@
            },
{
    let all = old(packets)@.push(packet);
    assert(views(all) =~= views(old(packets)@).push(packet@));
    assert(views(final(packets)@).len() == final(packets)@.len());
    assert forall|i: int| 0 <= i < final(packets)@.len() implies {
        let kept = #[trigger] final(packets)@[i];
        let came = all[i];
        &&& kept.flags.has_next == came.flags.has_next
        &&& kept.data@ == came.data@
    } by {
        assert(views(final(packets)@)[i] == views(all)[i]);
    }
}

proof fn lemma_answer_is_flat(
    packets: Seq<SnapiAttributePacketView>,
)
    ensures
        attribute_bytes(packets) == packets.map_values(
            |packet: SnapiAttributePacketView| packet.data,
        ).flatten(),
    decreases packets.len(),
{
    let parts = packets.map_values(
        |packet: SnapiAttributePacketView| packet.data,
    );
    parts.lemma_flatten_and_flatten_alt_are_equivalent();
    if packets.len() > 0 {
        let before = packets.drop_last();
        lemma_answer_is_flat(before);
        let parts_before = before.map_values(
            |packet: SnapiAttributePacketView| packet.data,
        );
        parts_before.lemma_flatten_and_flatten_alt_are_equivalent();
        assert(parts.drop_last() =~= parts_before);
    }
}

/// The last packet of an answer gives what is read from the bytes of all of
/// them, one after the other. Nothing is kept then.
pub proof fn law_end_of_an_answer(
    packet: SnapiAttributePacket,
    packets: &mut Vec<SnapiAttributePacket>,
    result: Result<Option<SnapiAttributeResponse>, SnapiError>,
    bytes: &[u8],
    read: Result<SnapiAttributeResponse, SnapiError>,
)
    requires
        !packet.flags.has_next,
        bytes@ == old(packets)@.push(packet).map_values(
            |packet: SnapiAttributePacket| packet.data@,
        ).flatten(),
        call_ensures(SnapiAttributePacket::collate, (packet, packets), result),
        call_ensures(SnapiAttributeResponse::decode, (bytes,), read),
    ensures
        final(packets)@.len() == 0,
        match (result, read) {
            (Ok(Some(response)), Ok(read)) => same_response(response, read),
            (Err(error), Err(expected)) => same_error(error, expected),
            _ => false,
        },
{
    let all = old(packets)@.push(packet);
    assert(views(all) =~= views(old(packets)@).push(packet@));
    assert(views(final(packets)@).len() == final(packets)@.len());
    lemma_answer_is_flat(views(all));
    assert(views(all).map_values(
        |packet: SnapiAttributePacketView| packet.data,
    ) =~= all.map_values(|packet: SnapiAttributePacket| packet.data@));
    if let (Ok(Some(response)), Ok(read)) = (result, read) {
        assert(Some(response).as_output() == Some(SnapiOutputView::Attribute(response@)));
        lemma_same_response(response, read);
    }
    if let (Err(error), Err(expected)) = (result, read) {
        lemma_same_error(error, expected);
    }
}

/// What is whole is given out as it is.
pub proof fn law_outputs_are_what_they_are_of(
    status: SnapiStatus,
    of_status: Option<SnapiOutput>,
    notification: SnapiNotification,
    of_notification: Option<SnapiOutput>,
    barcode: SnapiBarcode,
    of_barcode: Option<SnapiOutput>,
    response: SnapiAttributeResponse,
    of_response: Option<SnapiOutput>,
)
    requires
        call_ensures(SnapiStatus::output, (status,), of_status),
        call_ensures(SnapiNotification::output, (notification,), of_notification),
        call_ensures(SnapiBarcode::output, (barcode,), of_barcode),
        call_ensures(SnapiAttributeResponse::output, (response,), of_response),
    ensures
        of_status matches Some(SnapiOutput::Status(given)) && given == status,
        of_notification matches Some(SnapiOutput::Notification(given)) && given == notification,
        of_barcode matches Some(SnapiOutput::Barcode(given)) && given.data@ == barcode.data@
            && given.code_type == barcode.code_type,
        of_response matches Some(SnapiOutput::Attribute(given)) && same_response(given, response),
{
    lemma_same_response(of_response->Some_0->Attribute_0, response);
    assert(of_barcode->Some_0@ == SnapiOutputView::Barcode(barcode@));
    assert(of_barcode->Some_0->Barcode_0@ == barcode@);
}

/// A device has nothing of a barcode or of an answer at first.
pub proof fn law_new_device_has_nothing(device: Snapi)
    requires
        call_ensures(Snapi::new, (), device),
    ensures
        device@.barcode_packets.len() == 0,
        device@.attribute_packets.len() == 0,
{
}

/// A status, a notification and a report of an unknown kind are outputs of their
/// own and change nothing that is kept.
pub proof fn law_single_reports_are_processed(
    device: &mut Snapi,
    data: Vec<u8>,
    result: Result<Option<SnapiOutput>, SnapiError>,
)
    requires
        data@.len() > 1,
        data@[0] != 0x22,
        data@[0] != 0x27,
        call_ensures(Snapi::process_packet, (device, data), result),
    ensures
        final(device)@ == old(device)@,
        data@[0] == 0x21 ==> match result {
            Ok(Some(SnapiOutput::Status(status))) => is_status_read(data@, Ok(status)),
            Err(error) => is_status_read(data@, Err(error)),
            _ => false,
        },
        data@[0] == 0x24 ==> match result {
            Ok(Some(SnapiOutput::Notification(notification))) => match notification {
                SnapiNotification::BarcodeMode => data@[1] == 0x10,
                SnapiNotification::ImageMode => data@[1] == 0x11,
                SnapiNotification::VideoMode => data@[1] == 0x12,
                SnapiNotification::Unknown(other) => data@[1] == other && !(0x10 <= other <= 0x12),
            },
            _ => false,
        },
        data@[0] != 0x21 && data@[0] != 0x24 ==> match result {
            Ok(Some(SnapiOutput::Other { hid_input, data: kept })) => hid_input
                == HidInput::Unknown(data@[0]) && kept@ == data@,
            _ => false,
        },
{
    assert(processed_view(result) == old(device)@.processed(data@).1);
}

/// A barcode in a single report is its content, where nothing of another one is
/// kept.
pub proof fn law_single_barcode_report_is_processed(
    device: &mut Snapi,
    data: Vec<u8>,
    symbology: u16,
    index: u8,
    content: Seq<u8>,
    padding: Seq<u8>,
    result: Result<Option<SnapiOutput>, SnapiError>,
)
    requires
        content.len() <= 255,
        data@ == barcode_report(1, index, symbology, content) + padding,
        old(device)@.barcode_packets.len() == 0,
        call_ensures(Snapi::process_packet, (device, data), result),
    ensures
        match result {
            Ok(Some(SnapiOutput::Barcode(barcode))) => barcode.data@ == content
                && barcode.code_type.number == symbology,
            _ => false,
        },
        final(device)@.barcode_packets.len() == 0,
        final(device)@.attribute_packets == old(device)@.attribute_packets,
{
    assert(data@.subrange(6, 6 + content.len() as int) =~= content);
    assert(processed_view(result) == old(device)@.processed(data@).1);
    if let Ok(Some(SnapiOutput::Barcode(barcode))) = result {
        assert(barcode@.data == content);
    }
}

/// Whether these are the reports of the parts of a barcode, in order.
pub open spec fn are_reports_of(
    reports: Seq<Seq<u8>>,
    parts: Seq<Seq<u8>>,
    symbology: u16,
    paddings: Seq<Seq<u8>>,
) -> bool {
    &&& 1 <= reports.len() <= 255
    &&& parts.len() == reports.len()
    &&& paddings.len() == reports.len()
    &&& forall|i: int|
        0 <= i < reports.len() ==> parts[i].len() <= 255 && #[trigger] reports[i]
            == barcode_report(reports.len() as u8, i as u8, symbology, parts[i]) + paddings[i]
}

proof fn lemma_parts_are_decoded(
    reports: Seq<Seq<u8>>,
    parts: Seq<Seq<u8>>,
    symbology: u16,
    paddings: Seq<Seq<u8>>,
    n: int,
)
    requires
        are_reports_of(reports, parts, symbology, paddings),
        0 <= n <= reports.len(),
    ensures
        ({
            let packets = barcode_packets_of(reports.take(n));
            &&& packets.len() == n
            &&& forall|i: int|
                0 <= i < n ==> {
                    let packet = #[trigger] packets[i];
                    &&& packet.packet_count == reports.len()
                    &&& packet.packet_index == i
                    &&& packet.code_type.number == symbology
                    &&& packet.data == parts[i]
                }
        }),
    decreases n,
{
    if n > 0 {
        lemma_parts_are_decoded(reports, parts, symbology, paddings, n - 1);
        assert(reports.take(n).drop_last() =~= reports.take(n - 1));
        let report = reports[n - 1];
        assert(reports.take(n).last() == report);
        assert(report == barcode_report(
            reports.len() as u8,
            (n - 1) as u8,
            symbology,
            parts[n - 1],
        ) + paddings[n - 1]);
        assert(report.subrange(6, 6 + parts[n - 1].len() as int) =~= parts[n - 1]);
        assert(SnapiPacketView::decoded(report) is Ok);
    }
}

/// A barcode that is cut into parts of up to 255 bytes and sent in reports comes
/// out as its parts, one after the other, with the last report.
pub proof fn law_barcode_is_put_together(
    device: SnapiView,
    reports: Seq<Seq<u8>>,
    parts: Seq<Seq<u8>>,
    symbology: u16,
    paddings: Seq<Seq<u8>>,
)
    requires
        device.barcode_packets.len() == 0,
        are_reports_of(reports, parts, symbology, paddings),
    ensures
        match device.after_reports(reports.drop_last()).processed(reports.last()).1 {
            Ok(Some(SnapiOutputView::Barcode(barcode))) => barcode.data == parts.flatten()
                && barcode.code_type.number == symbology,
            _ => false,
        },
        forall|i: int|
            0 <= i < reports.len() - 1 ==> device.after_reports(reports.take(i)).processed(
                #[trigger] reports[i],
            ).1 == Ok::<Option<SnapiOutputView>, SnapiErrorView>(None),
        device.after_reports(reports).barcode_packets.len() == 0,
{
    let n = reports.len() as int;
    lemma_parts_are_decoded(reports, parts, symbology, paddings, n);
    assert(reports.take(n) =~= reports);
    let packets = barcode_packets_of(reports);
    assert forall|i: int| 0 <= i < reports.len() implies SnapiPacketView::decoded(
        #[trigger] reports[i],
    ) matches Ok(SnapiPacketView::Barcode(_)) by {
        assert(reports[i] == barcode_report(reports.len() as u8, i as u8, symbology, parts[i])
            + paddings[i]);
    }
    assert(reports.last() == reports[n - 1]);
    law_barcode_reports_come_to_the_barcode(device, reports);
    lemma_bytes_are_flat(packets);
    assert(packets.map_values(|packet: SnapiBarcodePacketView| packet.data) =~= parts);
    assert(packets.last() == packets[n - 1]);
}

/// Whether an output is what is told of it.
pub open spec fn shows(output: SnapiOutput, told: SnapiOutputView) -> bool {
    match (output, told) {
        (SnapiOutput::Status(a), SnapiOutputView::Status(b)) => a == b,
        (SnapiOutput::Barcode(a), SnapiOutputView::Barcode(b)) => a.data@ == b.data && a.code_type
            == b.code_type,
        (SnapiOutput::Notification(a), SnapiOutputView::Notification(b)) => a == b,
        (SnapiOutput::Attribute(a), SnapiOutputView::Attribute(b)) => a@ == b,
        (
            SnapiOutput::Other { hid_input: a, data: c },
            SnapiOutputView::Other { hid_input: b, data: d },
        ) => a == b && c@ == d,
        _ => false,
    }
}

/// A device processes each report as the reports that follow each other are.
pub proof fn law_device_processes_each_report(
    device: &mut Snapi,
    data: Vec<u8>,
    result: Result<Option<SnapiOutput>, SnapiError>,
)
    requires
        call_ensures(Snapi::process_packet, (device, data), result),
    ensures
        final(device)@ == old(device)@.after_reports(seq![data@]),
        match (result, old(device)@.processed(data@).1) {
            (Ok(Some(output)), Ok(Some(expected))) => shows(output, expected),
            (Ok(None), Ok(None)) => true,
            (Err(error), Err(expected)) => error@ == expected,
            _ => false,
        },
{
    let reports = seq![data@];
    assert(reports.drop_last() =~= Seq::empty());
    assert(old(device)@.after_reports(reports.drop_last()) == old(device)@);
    assert(processed_view(result) == old(device)@.processed(data@).1);
    if let Ok(Some(SnapiOutput::Barcode(barcode))) = result {
        assert(barcode@.data == barcode.data@);
    }
}

/// A barcode report is collated with the parts that are kept, and leaves the
/// parts of an answer alone.
pub proof fn law_barcode_report_is_collated(
    device: &mut Snapi,
    data: Vec<u8>,
    result: Result<Option<SnapiOutput>, SnapiError>,
    bytes: &[u8],
    packet: SnapiBarcodePacket,
    packets: &mut Vec<SnapiBarcodePacket>,
    collated: Result<Option<SnapiBarcode>, SnapiError>,
)
    requires
        data@.len() > 0,
        data@[0] == 0x22,
        bytes@ == data@,
        old(device)@.barcode_packets == views(old(packets)@),
        call_ensures(SnapiBarcodePacket::decode, (bytes,), Ok::<_, SnapiError>(packet)),
        call_ensures(SnapiBarcodePacket::collate, (packet, packets), collated),
        call_ensures(Snapi::process_packet, (device, data), result),
    ensures
        final(device)@.barcode_packets == views(final(packets)@),
        final(device)@.attribute_packets == old(device)@.attribute_packets,
        match (result, collated) {
            (Ok(Some(SnapiOutput::Barcode(output))), Ok(Some(barcode))) => output.data@
                == barcode.data@ && output.code_type == barcode.code_type,
            (Ok(None), Ok(None)) => true,
            (Err(error), Err(expected)) => same_error(error, expected),
            _ => false,
        },
{
    assert(processed_view(result) == old(device)@.processed(data@).1);
    if let Ok(Some(barcode)) = collated {
        assert(Some(barcode).as_output() == Some(SnapiOutputView::Barcode(barcode@)));
        if let Ok(Some(SnapiOutput::Barcode(output))) = result {
            assert(output@ == barcode@);
        }
    }
    if let Ok(none) = collated {
        assert(none is None ==> none.as_output() is None);
    }
    if let (Err(error), Err(expected)) = (result, collated) {
        lemma_same_error(error, expected);
    }
}

/// An attribute report is collated with the parts that are kept, and leaves the
/// parts of a barcode alone.
pub proof fn law_attribute_report_is_collated(
    device: &mut Snapi,
    data: Vec<u8>,
    result: Result<Option<SnapiOutput>, SnapiError>,
    bytes: &[u8],
    packet: SnapiAttributePacket,
    packets: &mut Vec<SnapiAttributePacket>,
    collated: Result<Option<SnapiAttributeResponse>, SnapiError>,
)
    requires
        data@.len() > 0,
        data@[0] == 0x27,
        bytes@ == data@,
        old(device)@.attribute_packets == views(old(packets)@),
        call_ensures(SnapiAttributePacket::decode, (bytes,), Ok::<_, SnapiError>(packet)),
        call_ensures(SnapiAttributePacket::collate, (packet, packets), collated),
        call_ensures(Snapi::process_packet, (device, data), result),
    ensures
        final(device)@.attribute_packets == views(final(packets)@),
        final(device)@.barcode_packets == old(device)@.barcode_packets,
        match (result, collated) {
            (Ok(Some(SnapiOutput::Attribute(output))), Ok(Some(response))) => same_response(
                output,
                response,
            ),
            (Ok(None), Ok(None)) => true,
            (Err(error), Err(expected)) => same_error(error, expected),
            _ => false,
        },
{
    assert(processed_view(result) == old(device)@.processed(data@).1);
    if let Ok(Some(response)) = collated {
        assert(Some(response).as_output() == Some(SnapiOutputView::Attribute(response@)));
        if let Ok(Some(SnapiOutput::Attribute(output))) = result {
            lemma_same_response(output, response);
        }
    }
    if let Ok(none) = collated {
        assert(none is None ==> none.as_output() is None);
    }
    if let (Err(error), Err(expected)) = (result, collated) {
        lemma_same_error(error, expected);
    }
}

/// A barcode or attribute report that cannot be read is an error and changes
/// nothing.
pub proof fn law_unreadable_report_changes_nothing(
    device: &mut Snapi,
    data: Vec<u8>,
    result: Result<Option<SnapiOutput>, SnapiError>,
)
    requires
        data@.len() > 0,
        data@[0] == 0x22 && (data@.len() < 6 || data@.len() < 6 + data@[3]) || data@[0] == 0x27 && (
        data@.len() < 3 || data@.len() < 3 + data@[2]),
        call_ensures(Snapi::process_packet, (device, data), result),
    ensures
        final(device)@ == old(device)@,
        fails_short(
            result,
            if data@[0] == 0x22 {
                if data@.len() < 6 {
                    6int
                } else {
                    6 + data@[3]
                }
            } else {
                if data@.len() < 3 {
                    3int
                } else {
                    3 + data@[2]
                }
            },
            data@.len(),
        ),
{
    assert(processed_view(result) == old(device)@.processed(data@).1);
}

/// A status is collated with nothing, and what is nothing gives no output.
pub proof fn law_status_stands_alone(
    status: SnapiStatus,
    packets: &mut Vec<SnapiStatus>,
    result: Result<SnapiStatus, SnapiError>,
    whole: Option<SnapiStatus>,
    output: Option<SnapiOutput>,
)
    requires
        call_ensures(SnapiStatus::collate, (status, packets), result),
        call_ensures(Option::<SnapiStatus>::output, (whole,), output),
    ensures
        result matches Ok(collated) && collated == status,
        views(final(packets)@) == views(old(packets)@),
        match whole {
            Some(status) => output matches Some(SnapiOutput::Status(given)) && given == status,
            None => output is None,
        },
{
}

/// Whether these are the reports of the parts of an answer, in order: each but
/// the last has the fifth bit of its flags set.
pub open spec fn are_reports_of_an_answer(
    reports: Seq<Seq<u8>>,
    flags: Seq<u8>,
    parts: Seq<Seq<u8>>,
    paddings: Seq<Seq<u8>>,
) -> bool {
    &&& reports.len() > 0
    &&& flags.len() == reports.len()
    &&& parts.len() == reports.len()
    &&& paddings.len() == reports.len()
    &&& forall|i: int|
        0 <= i < reports.len() ==> parts[i].len() <= 255 && #[trigger] reports[i]
            == attribute_report(flags[i], parts[i]) + paddings[i] && (flags[i] / 16 % 2 == 1 <==> i
            < reports.len() - 1)
}

proof fn lemma_answer_parts_are_decoded(
    reports: Seq<Seq<u8>>,
    flags: Seq<u8>,
    parts: Seq<Seq<u8>>,
    paddings: Seq<Seq<u8>>,
    n: int,
)
    requires
        are_reports_of_an_answer(reports, flags, parts, paddings),
        0 <= n <= reports.len(),
    ensures
        ({
            let packets = attribute_packets_of(reports.take(n));
            &&& packets.len() == n
            &&& forall|i: int|
                0 <= i < n ==> {
                    let packet = #[trigger] packets[i];
                    &&& (packet.has_next <==> i < reports.len() - 1)
                    &&& packet.data == parts[i]
                }
        }),
    decreases n,
{
    if n > 0 {
        lemma_answer_parts_are_decoded(reports, flags, parts, paddings, n - 1);
        assert(reports.take(n).drop_last() =~= reports.take(n - 1));
        let report = reports[n - 1];
        let flag = flags[n - 1];
        assert((flag & 0b0001_0000 > 0) == (flag / 16 % 2 == 1)) by (bit_vector);
        assert(reports.take(n).last() == report);
        assert(report == attribute_report(flag, parts[n - 1]) + paddings[n - 1]);
        assert(report.subrange(3, 3 + parts[n - 1].len() as int) =~= parts[n - 1]);
        assert(SnapiPacketView::decoded(report) is Ok);
    }
}

/// An answer that is cut into parts of up to 255 bytes and sent in reports comes
/// out with the last report, as what is read from its parts, one after the
/// other.
pub proof fn law_answer_is_put_together(
    device: SnapiView,
    reports: Seq<Seq<u8>>,
    flags: Seq<u8>,
    parts: Seq<Seq<u8>>,
    paddings: Seq<Seq<u8>>,
    bytes: &[u8],
    read: Result<SnapiAttributeResponse, SnapiError>,
)
    requires
        device.attribute_packets.len() == 0,
        are_reports_of_an_answer(reports, flags, parts, paddings),
        bytes@ == parts.flatten(),
        call_ensures(SnapiAttributeResponse::decode, (bytes,), read),
    ensures
        match (
            device.after_reports(reports.drop_last()).processed(reports.last()).1,
            read,
        ) {
            (Ok(Some(SnapiOutputView::Attribute(output))), Ok(response)) => output == response@,
            (Err(error), Err(expected)) => error == expected@,
            _ => false,
        },
        forall|i: int|
            0 <= i < reports.len() - 1 ==> device.after_reports(reports.take(i)).processed(
                #[trigger] reports[i],
            ).1 == Ok::<Option<SnapiOutputView>, SnapiErrorView>(None),
        device.after_reports(reports).attribute_packets.len() == 0,
{
    let n = reports.len() as int;
    lemma_answer_parts_are_decoded(reports, flags, parts, paddings, n);
    assert(reports.take(n) =~= reports);
    let packets = attribute_packets_of(reports);
    assert forall|i: int| 0 <= i < reports.len() implies SnapiPacketView::decoded(
        #[trigger] reports[i],
    ) matches Ok(SnapiPacketView::Attribute(_)) by {
        assert(reports[i] == attribute_report(flags[i], parts[i]) + paddings[i]);
    }
    assert(reports.last() == reports[n - 1]);
    law_answer_reports_come_to_the_answer(device, reports);
    lemma_answer_is_flat(packets);
    assert(packets.map_values(|packet: SnapiAttributePacketView| packet.data) =~= parts);
}

/// Which reports can be processed: those with a first byte, a notification with
/// a second one, and the last part of an answer only where the answer can be
/// read.
pub proof fn law_processable_reports(
    device: &Snapi,
    data: &[u8],
    result: bool,
    kept: Seq<Seq<u8>>,
    answer: &[u8],
    can_decode: bool,
)
    requires
        kept == device@.attribute_packets.map_values(|packet: SnapiAttributePacketView| packet.data),
        data@.len() >= 3 && data@.len() >= 3 + data@[2] ==> answer@ == kept.push(
            data@.subrange(3, 3 + data@[2]),
        ).flatten(),
        call_ensures(SnapiAttributeResponse::can_decode, (answer,), can_decode),
        call_ensures(Snapi::can_process, (device, data), result),
    ensures
        result <==> data@.len() > 0 && (data@[0] == 0x24 ==> data@.len() > 1) && (data@[0] == 0x27
            && data@.len() >= 3 && data@.len() >= 3 + data@[2] && data@[1] / 16 % 2 == 0
            ==> can_decode),
{
    if data@.len() >= 3 && data@.len() >= 3 + data@[2] {
        let flags = data@[1];
        assert((flags & 0b0001_0000 > 0) == (flags / 16 % 2 == 1)) by (bit_vector);
        let packet = SnapiAttributePacketView {
            has_next: flags / 16 % 2 == 1,
            data: data@.subrange(3, 3 + data@[2]),
        };
        let all = device@.attribute_packets.push(packet);
        lemma_answer_is_flat(all);
        assert(all.map_values(|packet: SnapiAttributePacketView| packet.data) =~= kept.push(
            packet.data,
        ));
    }
}

} // verus!
