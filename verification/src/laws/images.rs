//! How images and video are put together.

use vstd::prelude::*;

use crate::laws::numbers::{law_bytes_weigh_by_rank, little_endian};
use crate::scanner::snapi::usb_data::{
    announced, are_transfers, begins_behind_header, law_data_is_put_together, stream,
    UsbReaderView,
};
use crate::scanner::snapi::{Snapi, SnapiData, SnapiDataView, SnapiMode, UsbReader, UsbStep};

verus! {

/// The length that a header announces is the number that its first four bytes
/// tell, the least significant first.
pub proof fn law_header_tells_the_length(header: Seq<u8>, n: u32)
    requires
        header.len() >= 4,
        header[0] == n % 256,
        header[1] == n / 256 % 256,
        header[2] == n / 65536 % 256,
        header[3] == n / 16777216,
    ensures
        announced(header) == n,
{
    crate::wire::lemma_32_bits_by_rank(n);
}

/// The calls by which transfers are read: a reader is made for a mode, and each
/// transfer is taken by the reader that the one before it left.
pub open spec fn are_calls(
    mode: SnapiMode,
    readers: Seq<UsbReader>,
    buffers: Seq<&[u8]>,
    lens: Seq<usize>,
    given: Seq<Option<SnapiData>>,
) -> bool {
    &&& readers.len() == buffers.len() + 1
    &&& lens.len() == buffers.len()
    &&& given.len() == buffers.len()
    &&& call_ensures(UsbReader::new, (mode,), readers[0])
    &&& forall|i: int|
        0 <= i < buffers.len() ==> lens[i] <= buffers[i]@.len() && #[trigger] call_ensures(
            UsbReader::receive,
            (readers[i], buffers[i], lens[i]),
            (readers[i + 1], given[i]),
        )
}

/// The bytes of the first `n` transfers.
pub open spec fn sent(buffers: Seq<&[u8]>, lens: Seq<usize>, n: int) -> Seq<u8> {
    Seq::new(n as nat, |i: int| buffers[i]@.take(lens[i] as int)).flatten()
}

/// Where a header that tells a length, and data of that length, come in several
/// transfers, the last of which begins behind the header, the last transfer
/// gives them and none before it gives anything. Then reading starts anew.
/// Reading can be given up only while the header is not whole.
pub proof fn law_image_is_received(
    mode: SnapiMode,
    readers: Seq<UsbReader>,
    buffers: Seq<&[u8]>,
    lens: Seq<usize>,
    given: Seq<Option<SnapiData>>,
    n: int,
    place: int,
    can_cancel: bool,
    expected: Option<u32>,
)
    requires
        are_calls(mode, readers, buffers, lens, given),
        buffers.len() > 0,
        ({
            let last = buffers.len() - 1;
            let all = sent(buffers, lens, last + 1);
            &&& sent(buffers, lens, last).len() >= 32
            &&& all.len() == 32 + n
            &&& little_endian(all[0], all[1], all[2], all[3]) == n
            &&& forall|i: int|
                0 <= i < last && (#[trigger] sent(buffers, lens, i)).len() >= 32 ==> sent(
                    buffers,
                    lens,
                    i + 1,
                ).len() < all.len()
        }),
        0 <= place < buffers.len(),
        call_ensures(UsbReader::can_cancel, (&readers[place],), can_cancel),
        call_ensures(UsbReader::expected, (&readers[place],), expected),
    ensures
        ({
            let last = buffers.len() - 1;
            let all = sent(buffers, lens, last + 1);
            &&& given[last] matches Some(data) && data.mode == mode && data.header@ == all.take(32)
                && data.body@ == all.skip(32)
            &&& place < last ==> given[place] is None
            &&& readers[last + 1]@ == readers[0]@
            &&& can_cancel <==> sent(buffers, lens, place).len() < 32
            &&& if can_cancel {
                expected is None
            } else {
                expected matches Some(length) && length == n
            }
        }),
{
    let last = buffers.len() - 1;
    let all = sent(buffers, lens, last + 1);
    let transfers = Seq::new(buffers.len(), |i: int| (buffers[i]@, lens[i] as int));
    let start = UsbReaderView::start(mode);
    assert forall|i: int| 0 <= i <= buffers.len() implies stream(#[trigger] transfers.take(i))
        == sent(buffers, lens, i) by {
        lemma_stream_is_flat(buffers, lens, i);
    }
    assert(transfers.take(last + 1) =~= transfers);
    assert(are_transfers(transfers)) by {
        assert forall|i: int| 0 <= i < transfers.len() implies 0 <= (#[trigger] transfers[i]).1
            <= transfers[i].0.len() by {
            assert(call_ensures(
                UsbReader::receive,
                (readers[i], buffers[i], lens[i]),
                (readers[i + 1], given[i]),
            ));
        }
    }
    law_bytes_weigh_by_rank(all[0], all[1], all[2], all[3], 0, 0);
    assert(announced(all) == n);
    assert(stream(transfers.take(last)) == sent(buffers, lens, last));
    assert(begins_behind_header(transfers, last));
    assert forall|i: int|
        0 <= i < transfers.len() - 1 && #[trigger] begins_behind_header(transfers, i) implies stream(
        transfers.take(i + 1),
    ).len() < stream(transfers).len() by {
        assert(stream(transfers.take(i)) == sent(buffers, lens, i));
        assert(stream(transfers.take(i + 1)) == sent(buffers, lens, i + 1));
    }
    law_data_is_put_together(mode, transfers);
    lemma_readers(mode, readers, buffers, lens, given, last);
    lemma_readers(mode, readers, buffers, lens, given, last + 1);
    lemma_readers(mode, readers, buffers, lens, given, place);
    // What the last transfer gives.
    assert(transfers.drop_last() =~= transfers.take(last));
    assert(call_ensures(
        UsbReader::receive,
        (readers[last], buffers[last], lens[last]),
        (readers[last + 1], given[last]),
    ));
    assert(start.received_all(transfers.take(last)).1.len() == 0);
    assert(start.received_all(transfers).1[0] == SnapiDataView {
        mode,
        header: all.take(32),
        body: all.skip(32),
    });
    // What the transfer at the given place gives.
    assert(call_ensures(
        UsbReader::receive,
        (readers[place], buffers[place], lens[place]),
        (readers[place + 1], given[place]),
    ));
    if place < last {
        assert(transfers.take(place + 1).drop_last() =~= transfers.take(place));
        assert(start.received_all(transfers.take(place + 1)).1.len() == 0);
    }
    // What is known there.
    lemma_known(mode, transfers, place);
    assert(stream(transfers.take(place)) == sent(buffers, lens, place));
    crate::scanner::snapi::usb_data::lemma_stream_grows(transfers, place);
    if !can_cancel {
        let header = readers[place]@.header;
        assert(header =~= all.take(32));
        assert(announced(header) == n);
    }
}

proof fn lemma_known(mode: SnapiMode, transfers: Seq<(Seq<u8>, int)>, place: int)
    requires
        are_transfers(transfers),
        transfers.len() > 0,
        begins_behind_header(transfers, transfers.len() - 1),
        stream(transfers).len() == 32 + announced(stream(transfers)),
        forall|n: int|
            0 <= n < transfers.len() - 1 && #[trigger] begins_behind_header(transfers, n)
                ==> stream(transfers.take(n + 1)).len() < stream(transfers).len(),
        0 <= place < transfers.len(),
    ensures
        ({
            let bytes = stream(transfers.take(place));
            let header = UsbReaderView::start(mode).received_all(transfers.take(place)).0.header;
            header == if bytes.len() < 32 {
                bytes
            } else {
                bytes.take(32)
            }
        }),
{
    crate::scanner::snapi::usb_data::lemma_before_the_end(mode, transfers, place);
}

proof fn lemma_stream_is_flat(buffers: Seq<&[u8]>, lens: Seq<usize>, n: int)
    requires
        0 <= n <= buffers.len(),
        lens.len() == buffers.len(),
    ensures
        stream(
            Seq::new(buffers.len(), |i: int| (buffers[i]@, lens[i] as int)).take(n),
        ) == sent(buffers, lens, n),
    decreases n,
{
    let transfers = Seq::new(buffers.len(), |i: int| (buffers[i]@, lens[i] as int));
    let parts = Seq::new(n as nat, |i: int| buffers[i]@.take(lens[i] as int));
    parts.lemma_flatten_and_flatten_alt_are_equivalent();
    if n > 0 {
        lemma_stream_is_flat(buffers, lens, n - 1);
        let before = Seq::new((n - 1) as nat, |i: int| buffers[i]@.take(lens[i] as int));
        before.lemma_flatten_and_flatten_alt_are_equivalent();
        assert(parts.drop_last() =~= before);
        assert(transfers.take(n).drop_last() =~= transfers.take(n - 1));
    }
}

proof fn lemma_readers(
    mode: SnapiMode,
    readers: Seq<UsbReader>,
    buffers: Seq<&[u8]>,
    lens: Seq<usize>,
    given: Seq<Option<SnapiData>>,
    n: int,
)
    requires
        are_calls(mode, readers, buffers, lens, given),
        0 <= n <= buffers.len(),
    ensures
        readers[n]@ == UsbReaderView::start(mode).received_all(
            Seq::new(buffers.len(), |i: int| (buffers[i]@, lens[i] as int)).take(n),
        ).0,
    decreases n,
{
    let transfers = Seq::new(buffers.len(), |i: int| (buffers[i]@, lens[i] as int));
    if n > 0 {
        lemma_readers(mode, readers, buffers, lens, given, n - 1);
        assert(transfers.take(n).drop_last() =~= transfers.take(n - 1));
        assert(call_ensures(
            UsbReader::receive,
            (readers[n - 1], buffers[n - 1], lens[n - 1]),
            (readers[n - 1 + 1], given[n - 1]),
        ));
    }
}

/// A transfer first ends the header, and what it holds behind that belongs to
/// the data. Data is given exactly with a transfer that begins behind the header
/// and makes the data as long as the header tells.
pub proof fn law_transfer_is_taken(
    reader: UsbReader,
    buffer: &[u8],
    len: usize,
    result: (UsbReader, Option<SnapiData>),
)
    requires
        len <= buffer@.len(),
        call_ensures(UsbReader::receive, (reader, buffer, len), result),
    ensures
        ({
            let had = reader@.header.len();
            let bytes = buffer@.take(len as int);
            let header = reader@.header;
            let all = reader@.body + bytes;
            if had + len <= 32 && had < 32 {
                &&& result.1 is None
                &&& result.0@.header == header + bytes
                &&& result.0@.body == reader@.body
                &&& result.0@.mode == reader@.mode
            } else if had < 32 {
                &&& result.1 is None
                &&& result.0@.header == header + bytes.take(32 - had)
                &&& result.0@.body == reader@.body + bytes.skip(32 - had)
                &&& result.0@.mode == reader@.mode
            } else if all.len() == little_endian(header[0], header[1], header[2], header[3]) {
                &&& result.1 matches Some(data) && data.mode == reader@.mode && data.header@
                    == header && data.body@ == all
                &&& result.0@.header.len() == 0
                &&& result.0@.body.len() == 0
                &&& result.0@.mode == reader@.mode
            } else {
                &&& result.1 is None
                &&& result.0@.header == header
                &&& result.0@.body == all
                &&& result.0@.mode == reader@.mode
            }
        }),
{
    let had = reader@.header.len();
    let header = reader@.header;
    let bytes = buffer@.take(len as int);
    law_bytes_weigh_by_rank(header[0], header[1], header[2], header[3], 0, 0);
    if had + len <= 32 && had < 32 {
        assert(reader@.body + buffer@.subrange(len as int, len as int) =~= reader@.body);
    } else if had < 32 {
        assert(bytes.take(32 - had) =~= buffer@.take(32 - had));
        assert(bytes.skip(32 - had) =~= buffer@.subrange(32 - had, len as int));
    }
}

/// A reader is new where nothing of a header or of data is there.
pub proof fn law_new_reader(mode: SnapiMode, reader: UsbReader)
    requires
        call_ensures(UsbReader::new, (mode,), reader),
    ensures
        reader@.mode == mode,
        reader@.header.len() == 0,
        reader@.body.len() == 0,
{
}

/// A transfer that lies within its buffer is taken, but where it ends the header
/// and brings more data than the header tells.
pub proof fn law_taken_transfers(reader: &UsbReader, buffer: &[u8], len: usize, result: bool)
    requires
        call_ensures(UsbReader::can_receive, (reader, buffer, len), result),
    ensures
        ({
            let had = reader@.header.len();
            let bytes = reader@.header + buffer@.take(len as int);
            result <==> len <= buffer@.len() && (had < 32 <= had + len ==> reader@.body.len() + had
                + len - 32 <= little_endian(bytes[0], bytes[1], bytes[2], bytes[3]))
        }),
{
    let next = reader@.appended(buffer@, len as int);
    let bytes = reader@.header + buffer@.take(len as int);
    law_bytes_weigh_by_rank(bytes[0], bytes[1], bytes[2], bytes[3], 0, 0);
}

/// A USB device is attached by selecting its first configuration, claiming its
/// first interface and reading two endpoints of it.
pub proof fn law_usb_device_is_attached(steps: Vec<UsbStep>)
    requires
        call_ensures(Snapi::attach_usb_device, (), steps),
    ensures
        steps@.len() == 4,
        steps@[0] matches UsbStep::SelectConfiguration { configuration } && configuration == 1,
        steps@[1] matches UsbStep::ClaimInterface { interface } && interface == 1,
        match steps@[2] {
            UsbStep::ReadEndpoint { interface, address, buffer_len, mode } => interface == 1
                && address == 0x82 && buffer_len == 4096 && mode is Image,
            _ => false,
        },
        match steps@[3] {
            UsbStep::ReadEndpoint { interface, address, buffer_len, mode } => interface == 1
                && address == 0x83 && buffer_len == 4096 && mode is Video,
            _ => false,
        },
{
}

} // verus!
