//! Putting together what comes in several packets.

use vstd::prelude::*;
use vstd::string::StringExecFns;

use crate::scanner::snapi::attribute::{SnapiAttributeResponse, SnapiAttributeResponseView};
use crate::scanner::snapi::code_types::CodeType;
use crate::scanner::snapi::error::{SnapiError, SnapiErrorView};
use crate::scanner::snapi::packet::{
    SnapiAttributePacket, SnapiAttributePacketView, SnapiBarcodePacket, SnapiBarcodePacketView,
};
use crate::scanner::snapi::report::{HidInput, SnapiNotification};
use crate::scanner::snapi::status::SnapiStatus;
use crate::text::{decimal, push_decimal};
use crate::wire::push_bytes;

verus! {

/// A whole barcode.
#[derive(Debug)]
pub struct SnapiBarcode {
    /// The bytes of the barcode.
    pub data: Vec<u8>,
    /// The symbology.
    pub code_type: CodeType,
}

/// A [`SnapiBarcode`] as a mathematical value.
#[verifier::ext_equal]
pub struct SnapiBarcodeView {
    pub data: Seq<u8>,
    pub code_type: CodeType,
}

impl View for SnapiBarcode {
    type V = SnapiBarcodeView;

    open spec fn view(&self) -> SnapiBarcodeView {
        SnapiBarcodeView { data: self.data@, code_type: self.code_type }
    }
}

/// What the reports of a device come to.
#[derive(Debug)]
pub enum SnapiOutput {
    /// The outcome of a command.
    Status(SnapiStatus),
    /// A whole barcode.
    Barcode(SnapiBarcode),
    /// A change of mode.
    Notification(SnapiNotification),
    /// A whole answer to an attribute request.
    Attribute(SnapiAttributeResponse),
    /// A report that is not read here.
    Other {
        /// The kind of report.
        hid_input: HidInput,
        /// The whole report.
        data: Vec<u8>,
    },
}

/// A [`SnapiOutput`] as a mathematical value.
#[verifier::ext_equal]
pub enum SnapiOutputView {
    Status(SnapiStatus),
    Barcode(SnapiBarcodeView),
    Notification(SnapiNotification),
    Attribute(SnapiAttributeResponseView),
    Other { hid_input: HidInput, data: Seq<u8> },
}

impl View for SnapiOutput {
    type V = SnapiOutputView;

    open spec fn view(&self) -> SnapiOutputView {
        match *self {
            SnapiOutput::Status(status) => SnapiOutputView::Status(status),
            SnapiOutput::Barcode(barcode) => SnapiOutputView::Barcode(barcode@),
            SnapiOutput::Notification(notification) => SnapiOutputView::Notification(notification),
            SnapiOutput::Attribute(response) => SnapiOutputView::Attribute(response@),
            SnapiOutput::Other { hid_input, data } => SnapiOutputView::Other {
                hid_input,
                data: data@,
            },
        }
    }
}

/// An optional output as a mathematical value.
pub open spec fn output_view(output: Option<SnapiOutput>) -> Option<SnapiOutputView> {
    match output {
        Some(output) => Some(output@),
        None => None,
    }
}

/// Something that may be an output.
pub trait SnapiPacketOutput: Sized {
    /// The output that it is.
    spec fn as_output(self) -> Option<SnapiOutputView>;

    /// Gives the output that it is.
    fn output(self) -> (output: Option<SnapiOutput>)
        ensures
            output_view(output) == self.as_output(),
    ;
}

impl<T: SnapiPacketOutput> SnapiPacketOutput for Option<T> {
    open spec fn as_output(self) -> Option<SnapiOutputView> {
        match self {
            Some(output) => output.as_output(),
            None => None,
        }
    }

    fn output(self) -> (output: Option<SnapiOutput>) {
        match self {
            Some(output) => output.output(),
            None => None,
        }
    }
}

impl SnapiPacketOutput for SnapiStatus {
    open spec fn as_output(self) -> Option<SnapiOutputView> {
        Some(SnapiOutputView::Status(self))
    }

    fn output(self) -> (output: Option<SnapiOutput>) {
        Some(SnapiOutput::Status(self))
    }
}

impl SnapiPacketOutput for SnapiNotification {
    open spec fn as_output(self) -> Option<SnapiOutputView> {
        Some(SnapiOutputView::Notification(self))
    }

    fn output(self) -> (output: Option<SnapiOutput>) {
        Some(SnapiOutput::Notification(self))
    }
}

impl SnapiPacketOutput for SnapiBarcode {
    open spec fn as_output(self) -> Option<SnapiOutputView> {
        Some(SnapiOutputView::Barcode(self@))
    }

    fn output(self) -> (output: Option<SnapiOutput>) {
        Some(SnapiOutput::Barcode(self))
    }
}

impl SnapiPacketOutput for SnapiAttributeResponse {
    open spec fn as_output(self) -> Option<SnapiOutputView> {
        Some(SnapiOutputView::Attribute(self@))
    }

    fn output(self) -> (output: Option<SnapiOutput>) {
        Some(SnapiOutput::Attribute(self))
    }
}

/// The items of a sequence as mathematical values.
pub open spec fn views<T: View>(items: Seq<T>) -> Seq<T::V> {
    items.map_values(|item: T| item@)
}

/// What collating gives, as a mathematical value.
pub open spec fn collated_view<T: SnapiPacketOutput>(result: Result<T, SnapiError>) -> Result<
    Option<SnapiOutputView>,
    SnapiErrorView,
> {
    match result {
        Ok(output) => Ok(output.as_output()),
        Err(error) => Err(error@),
    }
}

/// A packet that may be one of several.
pub trait CollatableSnapiPacket: View + Sized {
    /// What the packets come to.
    type Output: SnapiPacketOutput;

    /// Whether the packet can be taken after the given ones.
    spec fn can_collate(packet: Self::V, packets: Seq<Self::V>) -> bool;

    /// The packets that are kept when a packet is taken after the given ones,
    /// and what comes of it.
    spec fn collated(packet: Self::V, packets: Seq<Self::V>) -> (
        Seq<Self::V>,
        Result<Option<SnapiOutputView>, SnapiErrorView>,
    );

    /// Takes a packet after those that came before it.
    fn collate(self, packets: &mut Vec<Self>) -> (result: Result<Self::Output, SnapiError>)
        requires
            Self::can_collate(self@, views(old(packets)@)),
        ensures
            views(final(packets)@) == Self::collated(self@, views(old(packets)@)).0,
            collated_view(result) == Self::collated(self@, views(old(packets)@)).1,
    ;
}

impl CollatableSnapiPacket for SnapiStatus {
    type Output = SnapiStatus;

    open spec fn can_collate(packet: SnapiStatus, packets: Seq<SnapiStatus>) -> bool {
        true
    }

    open spec fn collated(packet: SnapiStatus, packets: Seq<SnapiStatus>) -> (
        Seq<SnapiStatus>,
        Result<Option<SnapiOutputView>, SnapiErrorView>,
    ) {
        (packets, Ok(Some(SnapiOutputView::Status(packet))))
    }

    fn collate(self, packets: &mut Vec<SnapiStatus>) -> (result: Result<SnapiStatus, SnapiError>) {
        Ok(self)
    }
}

/// The bytes of barcode packets, one after the other.
pub open spec fn barcode_bytes(packets: Seq<SnapiBarcodePacketView>) -> Seq<u8>
    decreases packets.len(),
{
    if packets.len() == 0 {
        Seq::empty()
    } else {
        barcode_bytes(packets.drop_last()) + packets.last().data
    }
}

/// The bytes of attribute packets, one after the other.
pub open spec fn attribute_bytes(packets: Seq<SnapiAttributePacketView>) -> Seq<u8>
    decreases packets.len(),
{
    if packets.len() == 0 {
        Seq::empty()
    } else {
        attribute_bytes(packets.drop_last()) + packets.last().data
    }
}

/// Joins the bytes of barcode packets.
fn join_barcode(packets: &Vec<SnapiBarcodePacket>) -> (data: Vec<u8>)
    ensures
        data@ == barcode_bytes(views(packets@)),
{
    let mut data: Vec<u8> = Vec::new();
    let mut i: usize = 0;
    proof {
        assert(views(packets@).take(0) =~= Seq::empty());
    }
    while i < packets.len()
        invariant
            i <= packets@.len(),
            data@ == barcode_bytes(views(packets@).take(i as int)),
        decreases packets@.len() - i,
    {
        push_bytes(&mut data, packets[i].data.as_slice());
        proof {
            assert(views(packets@).take(i + 1).drop_last() =~= views(packets@).take(i as int));
        }
        i = i + 1;
    }
    proof {
        assert(views(packets@).take(i as int) =~= views(packets@));
    }
    data
}

/// Joins the bytes of attribute packets.
pub(crate) fn join_attribute(packets: &Vec<SnapiAttributePacket>) -> (data: Vec<u8>)
    ensures
        data@ == attribute_bytes(views(packets@)),
{
    let mut data: Vec<u8> = Vec::new();
    let mut i: usize = 0;
    proof {
        assert(views(packets@).take(0) =~= Seq::empty());
    }
    while i < packets.len()
        invariant
            i <= packets@.len(),
            data@ == attribute_bytes(views(packets@).take(i as int)),
        decreases packets@.len() - i,
    {
        push_bytes(&mut data, packets[i].data.as_slice());
        proof {
            assert(views(packets@).take(i + 1).drop_last() =~= views(packets@).take(i as int));
        }
        i = i + 1;
    }
    proof {
        assert(views(packets@).take(i as int) =~= views(packets@));
    }
    data
}

/// A text that ends with a number.
fn counted_text(before: &str, count: usize) -> (text: String)
    ensures
        text@ == before@ + decimal(count as nat),
{
    let mut text = before.to_owned();
    push_decimal(&mut text, count);
    text
}

/// A text with a number in it that ends with another one.
fn numbered_text(before: &str, number: usize, between: &str, count: usize) -> (text: String)
    ensures
        text@ == before@ + decimal(number as nat) + between@ + decimal(count as nat),
{
    let mut text = counted_text(before, number);
    text.append(between);
    push_decimal(&mut text, count);
    text
}

/// The packets are missing or out of order.
pub open spec fn bad_order(name: Seq<char>) -> SnapiErrorView {
    SnapiErrorView::BadPacketOrder { name }
}

impl CollatableSnapiPacket for SnapiBarcodePacket {
    type Output = Option<SnapiBarcode>;

    open spec fn can_collate(
        packet: SnapiBarcodePacketView,
        packets: Seq<SnapiBarcodePacketView>,
    ) -> bool {
        packet.packet_count != 1 ==> packet.packet_index < usize::MAX
    }

    open spec fn collated(
        packet: SnapiBarcodePacketView,
        packets: Seq<SnapiBarcodePacketView>,
    ) -> (Seq<SnapiBarcodePacketView>, Result<Option<SnapiOutputView>, SnapiErrorView>) {
        let all = packets.push(packet);
        let count = packet.packet_count;
        let index = packet.packet_index;
        if count == 1 {
            if packets.len() > 0 {
                (
                    Seq::empty(),
                    Err(bad_order("expected 0 previous packets, had "@ + decimal(packets.len()))),
                )
            } else {
                (
                    Seq::empty(),
                    Ok(
                        Some(
                            SnapiOutputView::Barcode(
                                SnapiBarcodeView {
                                    data: packet.data,
                                    code_type: packet.code_type,
                                },
                            ),
                        ),
                    ),
                )
            }
        } else if count == index + 1 {
            if all.len() != count {
                (
                    Seq::empty(),
                    Err(
                        bad_order(
                            "expected "@ + decimal(count as nat) + " packets, had "@ + decimal(
                                all.len(),
                            ),
                        ),
                    ),
                )
            } else {
                (
                    Seq::empty(),
                    Ok(
                        Some(
                            SnapiOutputView::Barcode(
                                SnapiBarcodeView {
                                    data: barcode_bytes(all),
                                    code_type: packet.code_type,
                                },
                            ),
                        ),
                    ),
                )
            }
        } else if all.len() != index + 1 {
            (
                Seq::empty(),
                Err(
                    bad_order(
                        "on packet index "@ + decimal(index as nat) + " but had "@ + decimal(
                            all.len(),
                        ),
                    ),
                ),
            )
        } else {
            (all, Ok(None))
        }
    }

    fn collate(self, packets: &mut Vec<SnapiBarcodePacket>) -> (result: Result<
        Option<SnapiBarcode>,
        SnapiError,
    >) {
        let count = self.packet_count;
        let index = self.packet_index;
        let code_type = self.code_type;
        if count == 1 {
            let had = packets.len();
            if had > 0 {
                packets.clear();
                proof {
                    assert(views(packets@) =~= Seq::empty());
                }
                return Err(
                    SnapiError::BadPacketOrder {
                        name: counted_text("expected 0 previous packets, had ", had),
                    },
                );
            }
            proof {
                assert(views(packets@) =~= Seq::empty());
            }
            let barcode = Some(SnapiBarcode { data: self.data, code_type });
            proof {
                assert(barcode.as_output() == Some(SnapiOutputView::Barcode(barcode->0@)));
            }
            return Ok(barcode);
        }
        let ghost all = views(packets@).push(self@);
        packets.push(self);
        proof {
            assert(views(packets@) =~= all);
        }
        let had = packets.len();
        if count == index + 1 {
            if had != count {
                packets.clear();
                proof {
                    assert(views(packets@) =~= Seq::empty());
                }
                return Err(
                    SnapiError::BadPacketOrder {
                        name: numbered_text("expected ", count, " packets, had ", had),
                    },
                );
            }
            let data = join_barcode(packets);
            packets.clear();
            proof {
                assert(views(packets@) =~= Seq::empty());
            }
            Ok(Some(SnapiBarcode { data, code_type }))
        } else {
            if had != index + 1 {
                packets.clear();
                proof {
                    assert(views(packets@) =~= Seq::empty());
                }
                return Err(
                    SnapiError::BadPacketOrder {
                        name: numbered_text("on packet index ", index, " but had ", had),
                    },
                );
            }
            Ok(None)
        }
    }
}

impl CollatableSnapiPacket for SnapiAttributePacket {
    type Output = Option<SnapiAttributeResponse>;

    open spec fn can_collate(
        packet: SnapiAttributePacketView,
        packets: Seq<SnapiAttributePacketView>,
    ) -> bool {
        !packet.has_next ==> SnapiAttributeResponseView::can_decode(
            attribute_bytes(packets.push(packet)),
        )
    }

    open spec fn collated(
        packet: SnapiAttributePacketView,
        packets: Seq<SnapiAttributePacketView>,
    ) -> (Seq<SnapiAttributePacketView>, Result<Option<SnapiOutputView>, SnapiErrorView>) {
        let all = packets.push(packet);
        if packet.has_next {
            (all, Ok(None))
        } else {
            (
                Seq::empty(),
                match SnapiAttributeResponseView::decoded(attribute_bytes(all)) {
                    Ok(response) => Ok(Some(SnapiOutputView::Attribute(response))),
                    Err(error) => Err(error),
                },
            )
        }
    }

    fn collate(self, packets: &mut Vec<SnapiAttributePacket>) -> (result: Result<
        Option<SnapiAttributeResponse>,
        SnapiError,
    >) {
        let has_next = self.flags.has_next;
        let ghost all = views(packets@).push(self@);
        packets.push(self);
        proof {
            assert(views(packets@) =~= all);
        }
        if has_next {
            let nothing: Option<SnapiAttributeResponse> = None;
            proof {
                assert(nothing.as_output() is None);
            }
            return Ok(nothing);
        }
        let data = join_attribute(packets);
        packets.clear();
        proof {
            assert(views(packets@) =~= Seq::empty());
        }
        match SnapiAttributeResponse::decode(data.as_slice()) {
            Ok(value) => Ok(Some(value)),
            Err(error) => Err(error),
        }
    }
}

/// Whether every barcode packet that is kept stands at its own place.
pub open spec fn barcode_packets_in_place(packets: Seq<SnapiBarcodePacketView>) -> bool {
    forall|i: int| 0 <= i < packets.len() ==> (#[trigger] packets[i]).packet_index == i
}

/// Every barcode packet that is kept stands at its own place, whatever comes,
/// and after an error or a whole barcode none is kept.
pub proof fn law_barcode_packets_stay_in_place(
    packet: SnapiBarcodePacketView,
    packets: Seq<SnapiBarcodePacketView>,
)
    requires
        barcode_packets_in_place(packets),
    ensures
        ({
            let (kept, result) = SnapiBarcodePacket::collated(packet, packets);
            &&& barcode_packets_in_place(kept)
            &&& result is Err ==> kept.len() == 0
            &&& result matches Ok(Some(_)) ==> kept.len() == 0
        }),
{
}

/// The barcode packets that are kept after the first `n` of the given ones
/// were taken.
pub open spec fn barcode_packets_kept(packets: Seq<SnapiBarcodePacketView>, n: nat) -> Seq<
    SnapiBarcodePacketView,
>
    decreases n,
{
    if n == 0 {
        Seq::empty()
    } else {
        SnapiBarcodePacket::collated(
            packets[n - 1],
            barcode_packets_kept(packets, (n - 1) as nat),
        ).0
    }
}

/// Whether these are all the packets of one barcode, in order.
pub open spec fn whole_barcode(packets: Seq<SnapiBarcodePacketView>) -> bool {
    &&& packets.len() > 0
    &&& forall|i: int|
        0 <= i < packets.len() ==> (#[trigger] packets[i]).packet_count == packets.len()
            && packets[i].packet_index == i
}

proof fn lemma_barcode_packets_kept(packets: Seq<SnapiBarcodePacketView>, n: nat)
    requires
        whole_barcode(packets),
        n < packets.len(),
    ensures
        barcode_packets_kept(packets, n) == packets.take(n as int),
    decreases n,
{
    if n == 0 {
        assert(packets.take(0) =~= Seq::empty());
    } else {
        lemma_barcode_packets_kept(packets, (n - 1) as nat);
        assert(packets.take(n - 1).push(packets[n - 1]) =~= packets.take(n as int));
    }
}

/// The packets of one barcode, taken in order, come to nothing until the last
/// one, which gives the bytes of all of them in order; then none is kept.
pub proof fn law_whole_barcode_is_reassembled(packets: Seq<SnapiBarcodePacketView>)
    requires
        whole_barcode(packets),
    ensures
        forall|n: nat|
            n + 1 < packets.len() ==> SnapiBarcodePacket::collated(
                packets[n as int],
                #[trigger] barcode_packets_kept(packets, n),
            ).1 == Ok::<Option<SnapiOutputView>, SnapiErrorView>(None),
        SnapiBarcodePacket::collated(
            packets.last(),
            barcode_packets_kept(packets, (packets.len() - 1) as nat),
        ).1 == Ok::<Option<SnapiOutputView>, SnapiErrorView>(
            Some(
                SnapiOutputView::Barcode(
                    SnapiBarcodeView {
                        data: barcode_bytes(packets),
                        code_type: packets.last().code_type,
                    },
                ),
            ),
        ),
        barcode_packets_kept(packets, packets.len()).len() == 0,
{
    assert forall|n: nat| n + 1 < packets.len() implies SnapiBarcodePacket::collated(
        packets[n as int],
        #[trigger] barcode_packets_kept(packets, n),
    ).1 == Ok::<Option<SnapiOutputView>, SnapiErrorView>(None) by {
        lemma_barcode_packets_kept(packets, n);
    }
    let last = (packets.len() - 1) as nat;
    lemma_barcode_packets_kept(packets, last);
    assert(packets.take(last as int).push(packets.last()) =~= packets);
    assert(packets.drop_last() =~= packets.take(last as int));
    if packets.len() == 1 {
        assert(barcode_bytes(packets.drop_last()) =~= Seq::empty());
        assert(barcode_bytes(packets) =~= packets[0].data);
    }
}

/// The attribute packets that are kept after the first `n` of the given ones
/// were taken.
pub open spec fn attribute_packets_kept(packets: Seq<SnapiAttributePacketView>, n: nat) -> Seq<
    SnapiAttributePacketView,
>
    decreases n,
{
    if n == 0 {
        Seq::empty()
    } else {
        SnapiAttributePacket::collated(
            packets[n - 1],
            attribute_packets_kept(packets, (n - 1) as nat),
        ).0
    }
}

/// Whether these are all the packets of one answer: each but the last says that
/// more follow.
pub open spec fn whole_answer(packets: Seq<SnapiAttributePacketView>) -> bool {
    &&& packets.len() > 0
    &&& forall|i: int|
        0 <= i < packets.len() ==> ((#[trigger] packets[i]).has_next <==> i + 1 < packets.len())
}

proof fn lemma_attribute_packets_kept(packets: Seq<SnapiAttributePacketView>, n: nat)
    requires
        whole_answer(packets),
        n < packets.len(),
    ensures
        attribute_packets_kept(packets, n) == packets.take(n as int),
    decreases n,
{
    if n == 0 {
        assert(packets.take(0) =~= Seq::empty());
    } else {
        lemma_attribute_packets_kept(packets, (n - 1) as nat);
        assert(packets.take(n - 1).push(packets[n - 1]) =~= packets.take(n as int));
    }
}

/// The packets of one answer, taken in order, come to nothing until the last
/// one, which gives the answer that the bytes of all of them hold; then none is
/// kept.
pub proof fn law_whole_answer_is_reassembled(packets: Seq<SnapiAttributePacketView>)
    requires
        whole_answer(packets),
    ensures
        forall|n: nat|
            n + 1 < packets.len() ==> SnapiAttributePacket::collated(
                packets[n as int],
                #[trigger] attribute_packets_kept(packets, n),
            ).1 == Ok::<Option<SnapiOutputView>, SnapiErrorView>(None),
        SnapiAttributePacket::collated(
            packets.last(),
            attribute_packets_kept(packets, (packets.len() - 1) as nat),
        ).1 == (match SnapiAttributeResponseView::decoded(attribute_bytes(packets)) {
            Ok(response) => Ok::<Option<SnapiOutputView>, SnapiErrorView>(
                Some(SnapiOutputView::Attribute(response)),
            ),
            Err(error) => Err(error),
        }),
        attribute_packets_kept(packets, packets.len()).len() == 0,
{
    assert forall|n: nat| n + 1 < packets.len() implies SnapiAttributePacket::collated(
        packets[n as int],
        #[trigger] attribute_packets_kept(packets, n),
    ).1 == Ok::<Option<SnapiOutputView>, SnapiErrorView>(None) by {
        lemma_attribute_packets_kept(packets, n);
    }
    let last = (packets.len() - 1) as nat;
    lemma_attribute_packets_kept(packets, last);
    assert(packets.take(last as int).push(packets.last()) =~= packets);
}

} // verus!
