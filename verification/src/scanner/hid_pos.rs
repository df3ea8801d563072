//! HID POS, the point of sale reports of a barcode scanner.

use vstd::prelude::*;

use crate::wire::copy_range;

verus! {

/// The length of a report.
pub const PACKET_LEN: usize = 64;

/// The number of the report that carries scanned data.
pub const DATA_REPORT: u8 = 0x02;

/// Where the data starts in a report.
pub const DATA_START: usize = 5;

/// What was scanned.
#[derive(Debug, Clone)]
pub struct HidData {
    /// The symbology of the barcode.
    pub symbology_id: [u8; 3],
    /// The content of the barcode.
    pub value: Vec<u8>,
}

/// A [`HidData`] as a mathematical value.
#[verifier::ext_equal]
pub struct HidDataView {
    pub symbology_id: Seq<u8>,
    pub value: Seq<u8>,
}

impl View for HidData {
    type V = HidDataView;

    open spec fn view(&self) -> HidDataView {
        HidDataView { symbology_id: self.symbology_id@, value: self.value@ }
    }
}

/// Whether a report carries scanned data.
pub open spec fn is_data(packet: Seq<u8>) -> bool {
    packet.len() == PACKET_LEN && packet[0] == DATA_REPORT
}

/// Whether a report that carries scanned data has all the bytes that it tells
/// of.
pub open spec fn is_within(packet: Seq<u8>) -> bool {
    is_data(packet) ==> DATA_START + packet[1] <= PACKET_LEN
}

/// The data of a report.
pub open spec fn data(packet: Seq<u8>) -> Seq<u8> {
    packet.subrange(DATA_START as int, DATA_START + packet[1])
}

/// Whether another report follows with more of the same data.
pub open spec fn continues(packet: Seq<u8>) -> bool {
    packet[63] > 0
}

/// A scanner: what it sent of data that is not whole yet.
pub struct HidPos {
    buffered: Option<Vec<u8>>,
}

/// A [`HidPos`] as a mathematical value.
#[verifier::ext_equal]
pub struct HidPosView {
    pub buffered: Seq<u8>,
}

impl View for HidPos {
    type V = HidPosView;

    closed spec fn view(&self) -> HidPosView {
        match self.buffered {
            Some(buffered) => HidPosView { buffered: buffered@ },
            None => HidPosView { buffered: Seq::empty() },
        }
    }
}

impl HidPosView {
    /// A scanner that has sent nothing yet.
    pub open spec fn start() -> HidPosView {
        HidPosView { buffered: Seq::empty() }
    }

    /// The scanner after a report, and the data where it is whole. Other
    /// reports are passed over.
    pub open spec fn received(self, packet: Seq<u8>) -> (HidPosView, Option<HidDataView>) {
        if !is_data(packet) {
            (self, None)
        } else {
            let value = self.buffered + data(packet);
            if continues(packet) {
                (HidPosView { buffered: value }, None)
            } else {
                (Self::start(), Some(HidDataView { symbology_id: packet.subrange(2, 5), value }))
            }
        }
    }

    /// The scanner after several reports, and the data that became whole.
    pub open spec fn received_all(self, packets: Seq<Seq<u8>>) -> (HidPosView, Seq<HidDataView>)
        decreases packets.len(),
    {
        if packets.len() == 0 {
            (self, Seq::empty())
        } else {
            let (before, all) = self.received_all(packets.drop_last());
            match before.received(packets.last()) {
                (next, Some(more)) => (next, all.push(more)),
                (next, None) => (next, all),
            }
        }
    }
}

/// The data of several reports, one after the other, without those that carry
/// none.
pub open spec fn all_data(packets: Seq<Seq<u8>>) -> Seq<u8>
    decreases packets.len(),
{
    if packets.len() == 0 {
        Seq::empty()
    } else if is_data(packets.last()) {
        all_data(packets.drop_last()) + data(packets.last())
    } else {
        all_data(packets.drop_last())
    }
}

proof fn lemma_data_is_buffered(packets: Seq<Seq<u8>>)
    requires
        forall|i: int|
            0 <= i < packets.len() && is_data(#[trigger] packets[i]) ==> continues(packets[i]),
    ensures
        HidPosView::start().received_all(packets) == (
            HidPosView { buffered: all_data(packets) },
            Seq::<HidDataView>::empty(),
        ),
    decreases packets.len(),
{
    if packets.len() > 0 {
        let before = packets.drop_last();
        assert forall|i: int|
            0 <= i < before.len() && is_data(#[trigger] before[i]) implies continues(
            before[i],
        ) by {
            assert(before[i] == packets[i]);
        }
        lemma_data_is_buffered(before);
        let last = packets[packets.len() - 1];
        assert(is_data(last) ==> continues(last));
    }
}

/// Scanned data that is spread over several reports comes out once, when the
/// last one is there: the data of all reports in order, with the symbology of
/// the last one. Reports of another kind in between make no difference, and
/// nothing is left behind.
pub proof fn law_spread_data_is_put_together(packets: Seq<Seq<u8>>)
    requires
        packets.len() > 0,
        is_data(packets.last()),
        !continues(packets.last()),
        forall|i: int|
            0 <= i < packets.len() - 1 && is_data(#[trigger] packets[i]) ==> continues(
                packets[i],
            ),
    ensures
        HidPosView::start().received_all(packets) == (
            HidPosView::start(),
            seq![
                HidDataView {
                    symbology_id: packets.last().subrange(2, 5),
                    value: all_data(packets),
                },
            ],
        ),
        HidPosView::start().received_all(packets.drop_last()).1.len() == 0,
{
    let before = packets.drop_last();
    assert forall|i: int|
        0 <= i < before.len() && is_data(#[trigger] before[i]) implies continues(before[i]) by {
        assert(before[i] == packets[i]);
    }
    lemma_data_is_buffered(before);
    assert(HidPosView::start().received_all(packets).1 =~= seq![
        HidDataView { symbology_id: packets.last().subrange(2, 5), value: all_data(packets) },
    ]);
}

impl HidPos {
    /// A scanner that has sent nothing yet.
    pub fn new() -> (device: HidPos)
        ensures
            device@ == HidPosView::start(),
    {
        HidPos { buffered: None }
    }

    /// Whether [`Self::receive`] takes a report.
    pub fn can_receive(packet: &[u8]) -> (result: bool)
        ensures
            result == is_within(packet@),
    {
        if packet.len() != PACKET_LEN || packet[0] != DATA_REPORT {
            true
        } else {
            DATA_START + packet[1] as usize <= PACKET_LEN
        }
    }

    /// Takes a report, and gives the data where it is whole.
    pub fn receive(&mut self, packet: &[u8]) -> (result: Option<HidData>)
        requires
            is_within(packet@),
        ensures
            final(self)@ == old(self)@.received(packet@).0,
            match (result, old(self)@.received(packet@).1) {
                (Some(data), Some(expected)) => data@ == expected,
                (None, None) => true,
                _ => false,
            },
    {
        if packet.len() != PACKET_LEN || packet[0] != DATA_REPORT {
            return None;
        }
        let mut more = copy_range(packet, DATA_START, DATA_START + packet[1] as usize);
        let mut value = match self.buffered.take() {
            Some(value) => value,
            None => Vec::new(),
        };
        value.append(&mut more);
        if packet[63] > 0 {
            self.buffered = Some(value);
            None
        } else {
            let symbology_id: [u8; 3] = [packet[2], packet[3], packet[4]];
            proof {
                assert(symbology_id@ =~= packet@.subrange(2, 5));
                assert(self@ =~= HidPosView::start());
            }
            Some(HidData { symbology_id, value })
        }
    }
}

} // verus!
