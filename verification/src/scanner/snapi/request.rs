//! Attribute requests, cut into packets.

use vstd::prelude::*;

use crate::scanner::snapi::collate::views;
use crate::scanner::snapi::flags::SnapiAttributeRequestFlags;
use crate::scanner::snapi::packet::PACKET_LEN;
use crate::scanner::snapi::report::HidOutput;
use crate::wire::{be16_bytes, copy_range, push_be16, push_bytes};

verus! {

/// The number of bytes of a request that fit in a packet, behind its header.
pub const CHUNK_LEN: usize = PACKET_LEN - 4;

/// Where a chunk stands among the chunks of a request.
#[derive(Debug, Clone, Copy, PartialEq, Eq, Structural)]
pub enum ChunkPosition {
    /// It is the first, and there are others.
    First,
    /// It is neither the first nor the last.
    Middle,
    /// It is the last, and there are others.
    Last,
    /// There are no others.
    Only,
}

/// Where the item at `index` stands among `count` items.
pub open spec fn position_at(index: int, count: int) -> ChunkPosition {
    if count == 1 {
        ChunkPosition::Only
    } else if index == 0 {
        ChunkPosition::First
    } else if index + 1 == count {
        ChunkPosition::Last
    } else {
        ChunkPosition::Middle
    }
}

/// Says of each chunk where it stands, by `itertools::Itertools::with_position`:
/// the chunks come out in their order, each beside its position.
#[verifier::external_body]
fn with_position(chunks: Vec<Vec<u8>>) -> (positioned: Vec<(ChunkPosition, Vec<u8>)>)
    ensures
        positioned@.len() == chunks@.len(),
        forall|i: int|
            0 <= i < chunks@.len() ==> (#[trigger] positioned@[i]) == (
                position_at(i, chunks@.len() as int),
                chunks@[i],
            ),
{
    itertools::Itertools::with_position(chunks.into_iter())
        .map(|(position, chunk)| match position {
            itertools::Position::First => (ChunkPosition::First, chunk),
            itertools::Position::Middle => (ChunkPosition::Middle, chunk),
            itertools::Position::Last => (ChunkPosition::Last, chunk),
            itertools::Position::Only => (ChunkPosition::Only, chunk),
        })
        .collect()
}

/// The number of packets that a request of the given length needs.
pub open spec fn packets_needed(length: nat) -> nat {
    (length + CHUNK_LEN - 1) as nat / CHUNK_LEN as nat
}

/// The bytes of a request that the packet at `index` holds.
pub open spec fn chunk_at(data: Seq<u8>, index: int) -> Seq<u8> {
    let end = CHUNK_LEN * (index + 1);
    data.subrange(CHUNK_LEN * index, if end < data.len() { end } else { data.len() as int })
}

/// The packet at `index` of a request: its kind, its flags, the length of the
/// whole request and the bytes that it holds of it.
pub open spec fn request_packet(data: Seq<u8>, index: int) -> Seq<u8> {
    let flags = SnapiAttributeRequestFlags {
        has_next: index + 1 < packets_needed(data.len()),
        start: index == 0,
    };
    seq![HidOutput::Attribute.code(), flags.byte()] + be16_bytes(data.len() as u16) + chunk_at(
        data,
        index,
    )
}

/// The packets of a request.
pub open spec fn request_packets(data: Seq<u8>) -> Seq<Seq<u8>> {
    Seq::new(packets_needed(data.len()), |index: int| request_packet(data, index))
}

/// Cuts a request into chunks.
fn chunks(data: &[u8]) -> (chunks: Vec<Vec<u8>>)
    ensures
        chunks@.len() == packets_needed(data@.len()),
        forall|i: int| 0 <= i < chunks@.len() ==> (#[trigger] chunks@[i])@ == chunk_at(data@, i),
{
    let mut chunks: Vec<Vec<u8>> = Vec::new();
    let mut pos: usize = 0;
    while pos < data.len()
        invariant
            pos <= data@.len(),
            pos == CHUNK_LEN * chunks@.len() || (pos == data@.len() && CHUNK_LEN * (chunks@.len()
                - 1) < pos < CHUNK_LEN * chunks@.len()),
            forall|i: int|
                0 <= i < chunks@.len() ==> (#[trigger] chunks@[i])@ == chunk_at(data@, i),
        decreases data@.len() - pos,
    {
        let end: usize = if data.len() - pos < CHUNK_LEN {
            data.len()
        } else {
            pos + CHUNK_LEN
        };
        chunks.push(copy_range(data, pos, end));
        pos = end;
    }
    chunks
}

/// Encodes an attribute request into as many packets as are needed.
pub fn encode_attribute_request(data: &[u8]) -> (packets: Vec<Vec<u8>>)
    requires
        data@.len() <= u16::MAX,
    ensures
        views(packets@) == request_packets(data@),
{
    let total_length: u16 = data.len() as u16;
    let positioned = with_position(chunks(data));
    let mut packets: Vec<Vec<u8>> = Vec::new();
    let mut i: usize = 0;
    while i < positioned.len()
        invariant
            i <= positioned@.len(),
            packets@.len() == i,
            total_length == data@.len(),
            positioned@.len() == packets_needed(data@.len()),
            forall|j: int|
                0 <= j < positioned@.len() ==> (#[trigger] positioned@[j]).0 == position_at(
                    j,
                    positioned@.len() as int,
                ) && positioned@[j].1@ == chunk_at(data@, j),
            forall|j: int|
                0 <= j < packets@.len() ==> (#[trigger] packets@[j])@ == request_packet(data@, j),
        decreases positioned@.len() - i,
    {
        let position = positioned[i].0;
        let flags = SnapiAttributeRequestFlags {
            has_next: !matches!(position, ChunkPosition::Only | ChunkPosition::Last),
            start: matches!(position, ChunkPosition::First | ChunkPosition::Only),
        };
        let mut packet: Vec<u8> = Vec::with_capacity(PACKET_LEN);
        packet.push(HidOutput::Attribute.into());
        packet.push(flags.into());
        push_be16(&mut packet, total_length);
        push_bytes(&mut packet, positioned[i].1.as_slice());
        proof {
            assert(positioned@[i as int].0 == position);
            assert(packet@ =~= request_packet(data@, i as int));
        }
        packets.push(packet);
        i = i + 1;
    }
    proof {
        assert(views(packets@) =~= request_packets(data@));
    }
    packets
}

/// The bytes behind the headers of packets, one after the other.
pub open spec fn payload(packets: Seq<Seq<u8>>) -> Seq<u8>
    decreases packets.len(),
{
    if packets.len() == 0 {
        Seq::empty()
    } else {
        payload(packets.drop_last()) + packets.last().skip(4)
    }
}

#[verifier::spinoff_prover]
proof fn lemma_payload_prefix(data: Seq<u8>, n: int)
    requires
        0 <= n <= packets_needed(data.len()),
    ensures
        payload(request_packets(data).take(n)) == data.take(
            if CHUNK_LEN * n < data.len() {
                CHUNK_LEN * n
            } else {
                data.len() as int
            },
        ),
    decreases n,
{
    if n == 0 {
        assert(request_packets(data).take(0) =~= Seq::empty());
        assert(data.take(0) =~= Seq::empty());
    } else {
        lemma_payload_prefix(data, n - 1);
        assert(request_packets(data).take(n).drop_last() =~= request_packets(data).take(n - 1));
        assert(request_packets(data).take(n).last().skip(4) =~= chunk_at(data, n - 1));
        assert(data.take(CHUNK_LEN * (n - 1)) + chunk_at(data, n - 1) =~= data.take(
            if CHUNK_LEN * n < data.len() {
                CHUNK_LEN * n
            } else {
                data.len() as int
            },
        ));
    }
}

/// The packets of a request hold the request: what stands behind their headers,
/// taken in order, is the request.
#[verifier::spinoff_prover]
pub proof fn law_request_packets_hold_the_request(data: Seq<u8>)
    ensures
        payload(request_packets(data)) == data,
{
    let n = packets_needed(data.len()) as int;
    lemma_payload_prefix(data, n);
    assert(request_packets(data).take(n) =~= request_packets(data));
    assert(data.take(data.len() as int) =~= data);
}

/// Each packet of a request holds at least one byte of it and is no longer than
/// a report can be, all but the last are full, exactly the first one is marked
/// as the start and exactly the last one as having none after it, and each one
/// tells the length of the whole request.
#[verifier::spinoff_prover]
pub proof fn law_request_packets_are_well_formed(data: Seq<u8>, index: int)
    requires
        data.len() <= u16::MAX,
        0 <= index < request_packets(data).len(),
    ensures
        ({
            let packets = request_packets(data);
            let packet = packets[index];
            let flags = SnapiAttributeRequestFlags::of_byte(packet[1]);
            &&& 4 < packet.len() <= PACKET_LEN
            &&& index + 1 < packets.len() ==> packet.len() == PACKET_LEN
            &&& HidOutput::of_code(packet[0]) == HidOutput::Attribute
            &&& flags.start <==> index == 0
            &&& flags.has_next <==> index + 1 < packets.len()
            &&& crate::wire::be16(packet[2], packet[3]) == data.len()
        }),
{
    let flags = SnapiAttributeRequestFlags {
        has_next: index + 1 < packets_needed(data.len()),
        start: index == 0,
    };
    crate::scanner::snapi::flags::law_request_flags_read_back(flags, 0);
    crate::wire::law_16_bit_bytes_read_back(data.len() as u16);
}

} // verus!
