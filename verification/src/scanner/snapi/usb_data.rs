//! Images and video: what is read from the bulk endpoints of a SNAPI device.

use vstd::prelude::*;

use crate::scanner::snapi::device::Snapi;
use crate::scanner::snapi::report::SnapiMode;
use crate::wire::{copy_range, le32, u32_from_le};

verus! {

/// The configuration of the device.
pub const USB_CONFIGURATION: u8 = 1;

/// The interface of the endpoints.
pub const USB_INTERFACE: u8 = 1;

/// The length of the buffer for a transfer.
pub const USB_BUFFER_LEN: usize = 4096;

/// The length of what precedes the data.
pub const HEADER_LEN: usize = 32;

/// What is done with a USB device in order to read images and video from it.
#[derive(Debug, Clone, Copy, PartialEq, Eq, Structural)]
pub enum UsbStep {
    /// A configuration is selected.
    SelectConfiguration {
        /// Its number.
        configuration: u8,
    },
    /// An interface is claimed.
    ClaimInterface {
        /// Its number.
        interface: u8,
    },
    /// An endpoint of an interface is claimed, and read from then on.
    ReadEndpoint {
        /// The number of the interface.
        interface: u8,
        /// The address of the endpoint.
        address: u8,
        /// The length of the buffer for a transfer.
        buffer_len: usize,
        /// What the endpoint sends.
        mode: SnapiMode,
    },
}

/// The endpoint at the given address, which sends what the mode tells.
pub open spec fn read_endpoint(address: u8, mode: SnapiMode) -> UsbStep {
    UsbStep::ReadEndpoint {
        interface: USB_INTERFACE,
        address,
        buffer_len: USB_BUFFER_LEN,
        mode,
    }
}

/// The steps of attaching a USB device, in their order.
pub open spec fn attach_steps() -> Seq<UsbStep> {
    seq![
        UsbStep::SelectConfiguration { configuration: USB_CONFIGURATION },
        UsbStep::ClaimInterface { interface: USB_INTERFACE },
        read_endpoint(0x82, SnapiMode::Image),
        read_endpoint(0x83, SnapiMode::Video),
    ]
}

impl Snapi {
    /// The steps of attaching a USB device. Each one is taken once the one
    /// before it has succeeded.
    pub fn attach_usb_device() -> (steps: Vec<UsbStep>)
        ensures
            steps@ == attach_steps(),
    {
        let steps: Vec<UsbStep> = vec![
            UsbStep::SelectConfiguration { configuration: USB_CONFIGURATION },
            UsbStep::ClaimInterface { interface: USB_INTERFACE },
            UsbStep::ReadEndpoint {
                interface: USB_INTERFACE,
                address: 0x82,
                buffer_len: USB_BUFFER_LEN,
                mode: SnapiMode::Image,
            },
            UsbStep::ReadEndpoint {
                interface: USB_INTERFACE,
                address: 0x83,
                buffer_len: USB_BUFFER_LEN,
                mode: SnapiMode::Video,
            },
        ];
        proof {
            assert(steps@ =~= attach_steps());
        }
        steps
    }
}

/// An interface is used only after the configuration was selected and the
/// interface was claimed.
pub proof fn law_endpoints_are_read_of_a_claimed_interface(n: int)
    requires
        0 <= n < attach_steps().len(),
    ensures
        attach_steps()[n] matches UsbStep::ReadEndpoint { interface, .. } ==> exists|m: int|
            0 < m < n && #[trigger] attach_steps()[m] == (UsbStep::ClaimInterface { interface }),
        attach_steps()[0] is SelectConfiguration,
{
    assert(attach_steps()[1] == (UsbStep::ClaimInterface { interface: USB_INTERFACE }));
}

/// An image or a piece of video.
pub struct SnapiData {
    /// What it is.
    pub mode: SnapiMode,
    /// What preceded it.
    pub header: Vec<u8>,
    /// The data itself.
    pub body: Vec<u8>,
}

/// A [`SnapiData`] as a mathematical value.
#[verifier::ext_equal]
pub struct SnapiDataView {
    pub mode: SnapiMode,
    pub header: Seq<u8>,
    pub body: Seq<u8>,
}

impl View for SnapiData {
    type V = SnapiDataView;

    open spec fn view(&self) -> SnapiDataView {
        SnapiDataView { mode: self.mode, header: self.header@, body: self.body@ }
    }
}

/// What an endpoint has sent of an image or a piece of video.
///
/// A header comes first, in as many transfers as it takes. Its first four bytes
/// tell how long the data is. The data follows, in at least one transfer.
pub struct UsbReader {
    mode: SnapiMode,
    header: Vec<u8>,
    body: Vec<u8>,
}

/// A [`UsbReader`] as a mathematical value.
#[verifier::ext_equal]
pub struct UsbReaderView {
    pub mode: SnapiMode,
    pub header: Seq<u8>,
    pub body: Seq<u8>,
}

impl View for UsbReader {
    type V = UsbReaderView;

    closed spec fn view(&self) -> UsbReaderView {
        UsbReaderView { mode: self.mode, header: self.header@, body: self.body@ }
    }
}

/// How much data a header announces.
pub open spec fn announced(header: Seq<u8>) -> int {
    le32(header[0], header[1], header[2], header[3]) as int
}

impl UsbReaderView {
    /// An endpoint from which nothing was read yet.
    pub open spec fn start(mode: SnapiMode) -> UsbReaderView {
        UsbReaderView { mode, header: Seq::empty(), body: Seq::empty() }
    }

    /// Whether the header is not whole. This is when reading may be given up.
    pub open spec fn waits_for_header(self) -> bool {
        self.header.len() < HEADER_LEN
    }

    /// How many bytes of a transfer belong to the header.
    pub open spec fn header_part(self, len: int) -> int {
        if len < HEADER_LEN - self.header.len() {
            len
        } else {
            HEADER_LEN - self.header.len()
        }
    }

    /// What was read after a transfer of `len` bytes into a buffer, before it is
    /// asked whether the data is whole.
    ///
    /// While the header is waited for, what a transfer holds behind the rest of
    /// the header belongs to the data.
    pub open spec fn appended(self, buffer: Seq<u8>, len: int) -> UsbReaderView {
        if self.waits_for_header() {
            let part = self.header_part(len);
            UsbReaderView {
                header: self.header + buffer.take(part),
                body: self.body + buffer.subrange(part, len),
                ..self
            }
        } else {
            UsbReaderView { body: self.body + buffer.take(len), ..self }
        }
    }

    /// Whether a transfer lies within the buffer, and brings no more data with
    /// the header than the header announces.
    pub open spec fn can_receive(self, buffer: Seq<u8>, len: int) -> bool {
        let next = self.appended(buffer, len);
        &&& 0 <= len <= buffer.len()
        &&& self.waits_for_header() && !next.waits_for_header() ==> next.body.len() <= announced(
            next.header,
        )
    }

    /// What was read after a transfer, and the data where it is whole.
    pub open spec fn received(self, buffer: Seq<u8>, len: int) -> (
        UsbReaderView,
        Option<SnapiDataView>,
    ) {
        let next = self.appended(buffer, len);
        if !self.waits_for_header() && next.body.len() == announced(next.header) {
            (
                Self::start(self.mode),
                Some(SnapiDataView { mode: next.mode, header: next.header, body: next.body }),
            )
        } else {
            (next, None)
        }
    }

    /// What was read after several transfers, each one given by its buffer and
    /// its length, and the data that became whole.
    pub open spec fn received_all(self, transfers: Seq<(Seq<u8>, int)>) -> (
        UsbReaderView,
        Seq<SnapiDataView>,
    )
        decreases transfers.len(),
    {
        if transfers.len() == 0 {
            (self, Seq::empty())
        } else {
            let (before, data) = self.received_all(transfers.drop_last());
            let (buffer, len) = transfers.last();
            match before.received(buffer, len) {
                (next, Some(more)) => (next, data.push(more)),
                (next, None) => (next, data),
            }
        }
    }
}

/// The bytes of several transfers, one after the other.
pub open spec fn stream(transfers: Seq<(Seq<u8>, int)>) -> Seq<u8>
    decreases transfers.len(),
{
    if transfers.len() == 0 {
        Seq::empty()
    } else {
        let (buffer, len) = transfers.last();
        stream(transfers.drop_last()) + buffer.take(len)
    }
}

/// Whether every transfer lies within its buffer.
pub open spec fn are_transfers(transfers: Seq<(Seq<u8>, int)>) -> bool {
    forall|n: int|
        0 <= n < transfers.len() ==> 0 <= (#[trigger] transfers[n]).1 <= transfers[n].0.len()
}

/// Whether the header is whole before the transfer at `n`.
pub open spec fn begins_behind_header(transfers: Seq<(Seq<u8>, int)>, n: int) -> bool {
    stream(transfers.take(n)).len() >= HEADER_LEN
}

/// The bytes of some transfers are the first ones of the bytes of all.
pub proof fn lemma_stream_grows(transfers: Seq<(Seq<u8>, int)>, n: int)
    requires
        are_transfers(transfers),
        0 <= n <= transfers.len(),
    ensures
        stream(transfers.take(n)).is_prefix_of(stream(transfers)),
    decreases transfers.len(),
{
    if n == transfers.len() {
        assert(transfers.take(n) =~= transfers);
    } else {
        let before = transfers.drop_last();
        lemma_stream_grows(before, n);
        assert(before.take(n) =~= transfers.take(n));
        let (buffer, len) = transfers[transfers.len() - 1];
        assert(stream(transfers) == stream(before) + buffer.take(len));
    }
}

/// What is known of the bytes of a header and of a part of the data.
pub open spec fn read_so_far(mode: SnapiMode, sent: Seq<u8>) -> UsbReaderView {
    if sent.len() < HEADER_LEN {
        UsbReaderView { mode, header: sent, body: Seq::empty() }
    } else {
        UsbReaderView {
            mode,
            header: sent.take(HEADER_LEN as int),
            body: sent.skip(HEADER_LEN as int),
        }
    }
}

proof fn lemma_appended(mode: SnapiMode, sent: Seq<u8>, buffer: Seq<u8>, len: int)
    requires
        0 <= len <= buffer.len(),
    ensures
        read_so_far(mode, sent).appended(buffer, len) == read_so_far(
            mode,
            sent + buffer.take(len),
        ),
{
    let next = read_so_far(mode, sent).appended(buffer, len);
    let all = sent + buffer.take(len);
    if all.len() < HEADER_LEN {
        assert(next.header =~= all);
        assert(next.body =~= Seq::empty());
    } else {
        assert(next.header =~= all.take(HEADER_LEN as int));
        assert(next.body =~= all.skip(HEADER_LEN as int));
    }
}

proof fn lemma_not_whole(mode: SnapiMode, transfers: Seq<(Seq<u8>, int)>)
    requires
        are_transfers(transfers),
        forall|n: int|
            0 <= n < transfers.len() && #[trigger] begins_behind_header(transfers, n) ==> {
                let sent = stream(transfers.take(n + 1));
                sent.len() != HEADER_LEN + announced(sent)
            },
    ensures
        UsbReaderView::start(mode).received_all(transfers) == (
            read_so_far(mode, stream(transfers)),
            Seq::<SnapiDataView>::empty(),
        ),
    decreases transfers.len(),
{
    if transfers.len() > 0 {
        let last = transfers.len() - 1;
        let before = transfers.drop_last();
        assert(before =~= transfers.take(last));
        assert forall|n: int|
            0 <= n < before.len() && #[trigger] begins_behind_header(before, n) implies {
            let sent = stream(before.take(n + 1));
            sent.len() != HEADER_LEN + announced(sent)
        } by {
            assert(before.take(n) =~= transfers.take(n));
            assert(before.take(n + 1) =~= transfers.take(n + 1));
            assert(begins_behind_header(transfers, n));
        }
        lemma_not_whole(mode, before);
        assert(transfers.take(last + 1) =~= transfers);
        let (buffer, len) = transfers[last];
        lemma_appended(mode, stream(before), buffer, len);
        if begins_behind_header(transfers, last) {
            assert(stream(transfers).len() != HEADER_LEN + announced(stream(transfers)));
        }
    }
}

/// What is known before the transfer at `n` of data that the last one makes
/// whole.
pub proof fn lemma_before_the_end(mode: SnapiMode, transfers: Seq<(Seq<u8>, int)>, n: int)
    requires
        are_transfers(transfers),
        transfers.len() > 0,
        begins_behind_header(transfers, transfers.len() - 1),
        stream(transfers).len() == HEADER_LEN + announced(stream(transfers)),
        forall|n: int|
            0 <= n < transfers.len() - 1 && #[trigger] begins_behind_header(transfers, n)
                ==> stream(transfers.take(n + 1)).len() < stream(transfers).len(),
        0 <= n < transfers.len(),
    ensures
        UsbReaderView::start(mode).received_all(transfers.take(n)) == (
            read_so_far(mode, stream(transfers.take(n))),
            Seq::<SnapiDataView>::empty(),
        ),
{
    let some = transfers.take(n);
    assert forall|m: int|
        0 <= m < some.len() && #[trigger] begins_behind_header(some, m) implies {
        let sent = stream(some.take(m + 1));
        sent.len() != HEADER_LEN + announced(sent)
    } by {
        assert(some.take(m) =~= transfers.take(m));
        assert(some.take(m + 1) =~= transfers.take(m + 1));
        assert(begins_behind_header(transfers, m));
        lemma_stream_grows(some, m);
        lemma_stream_grows(transfers, m);
        lemma_stream_grows(transfers, m + 1);
        lemma_stream_grows(transfers.take(m + 1), m);
        assert(transfers.take(m + 1).take(m) =~= transfers.take(m));
    }
    lemma_not_whole(mode, some);
}

/// Where a header and the data that it announces come in several transfers, the
/// last of which begins behind the header, the first bytes become the header
/// and the others the data, once the last transfer is there and not before, and
/// reading starts anew.
pub proof fn law_data_is_put_together(mode: SnapiMode, transfers: Seq<(Seq<u8>, int)>)
    requires
        are_transfers(transfers),
        transfers.len() > 0,
        begins_behind_header(transfers, transfers.len() - 1),
        stream(transfers).len() == HEADER_LEN + announced(stream(transfers)),
        forall|n: int|
            0 <= n < transfers.len() - 1 && #[trigger] begins_behind_header(transfers, n)
                ==> stream(transfers.take(n + 1)).len() < stream(transfers).len(),
    ensures
        UsbReaderView::start(mode).received_all(transfers) == (
            UsbReaderView::start(mode),
            seq![
                SnapiDataView {
                    mode,
                    header: stream(transfers).take(HEADER_LEN as int),
                    body: stream(transfers).skip(HEADER_LEN as int),
                },
            ],
        ),
        forall|n: int|
            0 <= n < transfers.len() ==> UsbReaderView::start(mode).received_all(
                #[trigger] transfers.take(n),
            ).1.len() == 0,
        forall|n: int|
            0 <= n < transfers.len() ==> UsbReaderView::start(mode).received_all(
                transfers.take(n),
            ).0.can_receive((#[trigger] transfers[n]).0, transfers[n].1),
{
    let start = UsbReaderView::start(mode);
    assert forall|n: int| 0 <= n < transfers.len() implies start.received_all(
        #[trigger] transfers.take(n),
    ) == (read_so_far(mode, stream(transfers.take(n))), Seq::<SnapiDataView>::empty()) by {
        lemma_before_the_end(mode, transfers, n);
    }
    assert forall|n: int| 0 <= n < transfers.len() implies start.received_all(
        transfers.take(n),
    ).0.can_receive((#[trigger] transfers[n]).0, transfers[n].1) by {
        let (buffer, len) = transfers[n];
        let next = transfers.take(n + 1);
        assert(next.drop_last() =~= transfers.take(n));
        lemma_appended(mode, stream(transfers.take(n)), buffer, len);
        lemma_stream_grows(transfers, n + 1);
    }
    let last = transfers.len() - 1;
    let before = transfers.drop_last();
    assert(before =~= transfers.take(last));
    let (buffer, len) = transfers[last];
    let sent = stream(transfers);
    lemma_appended(mode, stream(before), buffer, len);
    assert(sent == stream(before) + buffer.take(len));
    assert(start.received_all(transfers).1 =~= seq![
        SnapiDataView {
            mode,
            header: sent.take(HEADER_LEN as int),
            body: sent.skip(HEADER_LEN as int),
        },
    ]);
}

impl UsbReader {
    #[verifier::type_invariant]
    closed spec fn inv(self) -> bool {
        self.header@.len() <= HEADER_LEN
    }

    /// An endpoint from which nothing was read yet.
    pub fn new(mode: SnapiMode) -> (reader: UsbReader)
        ensures
            reader@ == UsbReaderView::start(mode),
    {
        UsbReader { mode, header: Vec::new(), body: Vec::new() }
    }

    /// Whether reading may be given up, which is only while the header is
    /// waited for.
    pub fn can_cancel(&self) -> (result: bool)
        ensures
            result == self@.waits_for_header(),
    {
        self.header.len() < HEADER_LEN
    }

    /// How much data the header announces, where it is whole.
    pub fn expected(&self) -> (result: Option<u32>)
        ensures
            result == if self@.waits_for_header() {
                None
            } else {
                Some(announced(self@.header) as u32)
            },
    {
        if self.header.len() < HEADER_LEN {
            None
        } else {
            Some(u32_from_le(self.header[0], self.header[1], self.header[2], self.header[3]))
        }
    }

    /// Appends a transfer.
    fn append(self, buffer: &[u8], len: usize) -> (next: UsbReader)
        requires
            len <= buffer@.len(),
        ensures
            next@ == self@.appended(buffer@, len as int),
    {
        proof {
            use_type_invariant(&self);
        }
        let mode = self.mode;
        let mut header = self.header;
        let mut body = self.body;
        if header.len() < HEADER_LEN {
            let rest: usize = HEADER_LEN - header.len();
            let part: usize = if len < rest {
                len
            } else {
                rest
            };
            let mut first = copy_range(buffer, 0, part);
            proof {
                assert(first@ =~= buffer@.take(part as int));
            }
            header.append(&mut first);
            let mut more = copy_range(buffer, part, len);
            body.append(&mut more);
        } else {
            let mut more = copy_range(buffer, 0, len);
            proof {
                assert(more@ =~= buffer@.take(len as int));
            }
            body.append(&mut more);
        }
        UsbReader { mode, header, body }
    }

    /// Whether [`Self::receive`] takes a transfer.
    pub fn can_receive(&self, buffer: &[u8], len: usize) -> (result: bool)
        ensures
            result == self@.can_receive(buffer@, len as int),
    {
        if len > buffer.len() {
            return false;
        }
        if self.header.len() >= HEADER_LEN {
            return true;
        }
        let copy = UsbReader {
            mode: self.mode,
            header: copy_range(self.header.as_slice(), 0, self.header.len()),
            body: copy_range(self.body.as_slice(), 0, self.body.len()),
        };
        proof {
            assert(copy@ =~= self@);
        }
        let next = copy.append(buffer, len);
        match next.expected() {
            Some(expected) => next.body.len() as u64 <= expected as u64,
            None => true,
        }
    }

    /// Takes a transfer of `len` bytes into a buffer, and gives the data where
    /// it is whole.
    pub fn receive(self, buffer: &[u8], len: usize) -> (result: (UsbReader, Option<SnapiData>))
        requires
            self@.can_receive(buffer@, len as int),
        ensures
            result.0@ == self@.received(buffer@, len as int).0,
            match (result.1, self@.received(buffer@, len as int).1) {
                (Some(data), Some(expected)) => data@ == expected,
                (None, None) => true,
                _ => false,
            },
    {
        let waits = self.can_cancel();
        let next = self.append(buffer, len);
        if waits {
            return (next, None);
        }
        proof {
            use_type_invariant(&next);
        }
        let expected = u32_from_le(next.header[0], next.header[1], next.header[2], next.header[3]);
        if next.body.len() as u64 == expected as u64 {
            let data = SnapiData { mode: next.mode, header: next.header, body: next.body };
            (UsbReader::new(next.mode), Some(data))
        } else {
            (next, None)
        }
    }
}

} // verus!
