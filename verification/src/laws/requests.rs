//! How a request is cut into packets.

use vstd::prelude::*;

use crate::scanner::snapi::collate::views;
use crate::scanner::snapi::flags::SnapiAttributeRequestFlags;
use crate::scanner::snapi::request::{
    encode_attribute_request, law_request_packets_are_well_formed,
    law_request_packets_hold_the_request, packets_needed, payload, request_packet,
    request_packets,
};
use crate::scanner::snapi_direct::snapi_encode_attribute_request;
use crate::wire::be16_bytes;

verus! {

/// Whether these are the packets of a request: each is a report of kind 0x0D of
/// at most 32 bytes, marks with 64 that it is the first and with 128 that others
/// follow, and tells the length of the request, and what stands behind these
/// four bytes is, put together, the request.
pub open spec fn are_packets_of(packets: Seq<Vec<u8>>, data: Seq<u8>) -> bool {
    &&& packets.len() == 0 <==> data.len() == 0
    &&& forall|i: int|
        0 <= i < packets.len() ==> {
            let packet = #[trigger] packets[i]@;
            &&& 5 <= packet.len() <= 32
            &&& i + 1 < packets.len() ==> packet.len() == 32
            &&& packet[0] == 0x0D
            &&& packet[1] == (if i == 0 {
                64int
            } else {
                0
            }) + (if i + 1 < packets.len() {
                128int
            } else {
                0
            })
            &&& 256 * packet[2] + packet[3] == data.len()
        }
    &&& packets.map_values(|packet: Vec<u8>| packet@.skip(4)).flatten() == data
}

proof fn lemma_payload_is_flat(packets: Seq<Seq<u8>>)
    ensures
        payload(packets) == packets.map_values(|packet: Seq<u8>| packet.skip(4)).flatten(),
    decreases packets.len(),
{
    let parts = packets.map_values(|packet: Seq<u8>| packet.skip(4));
    parts.lemma_flatten_and_flatten_alt_are_equivalent();
    if packets.len() > 0 {
        let before = packets.drop_last();
        let parts_before = before.map_values(|packet: Seq<u8>| packet.skip(4));
        lemma_payload_is_flat(before);
        parts_before.lemma_flatten_and_flatten_alt_are_equivalent();
        assert(parts.drop_last() =~= parts_before);
    }
}

/// A request is cut into packets that tell what it is.
pub proof fn law_request_is_cut(data: &[u8], packets: Vec<Vec<u8>>, direct: Vec<Vec<u8>>)
    requires
        data@.len() <= u16::MAX,
        call_ensures(encode_attribute_request, (data,), packets),
        call_ensures(snapi_encode_attribute_request, (data,), direct),
    ensures
        are_packets_of(packets@, data@),
        are_packets_of(direct@, data@),
{
    lemma_packets(packets@, data@);
    lemma_packets(direct@, data@);
}

proof fn lemma_packets(packets: Seq<Vec<u8>>, data: Seq<u8>)
    requires
        data.len() <= u16::MAX,
        views(packets) == request_packets(data),
    ensures
        are_packets_of(packets, data),
{
    law_request_packets_hold_the_request(data);
    lemma_payload_is_flat(request_packets(data));
    assert(packets.map_values(|packet: Vec<u8>| packet@.skip(4)) =~= views(packets).map_values(
        |packet: Seq<u8>| packet.skip(4),
    ));
    assert forall|i: int| 0 <= i < packets.len() implies {
        let packet = #[trigger] packets[i]@;
        &&& 5 <= packet.len() <= 32
        &&& i + 1 < packets.len() ==> packet.len() == 32
        &&& packet[0] == 0x0D
        &&& packet[1] == (if i == 0 {
            64int
        } else {
            0
        }) + (if i + 1 < packets.len() {
            128int
        } else {
            0
        })
        &&& 256 * packet[2] + packet[3] == data.len()
    } by {
        assert(packets[i]@ == views(packets)[i]);
        assert(packets[i]@ == request_packet(data, i));
        law_request_packets_are_well_formed(data, i);
        let flags = SnapiAttributeRequestFlags {
            has_next: i + 1 < packets_needed(data.len()),
            start: i == 0,
        };
        assert(packets[i]@[1] == flags.byte());
        assert(packets[i]@[2] == be16_bytes(data.len() as u16)[0]);
        assert(packets[i]@[3] == be16_bytes(data.len() as u16)[1]);
    }
    assert(packets.len() == packets_needed(data.len()));
}

} // verus!
