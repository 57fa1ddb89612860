//! Address extraction from tunneled packets.
//!
//! A tunneled packet addresses its endpoints through a 20-byte fixed
//! header: the trailing octet of the embedded source address (byte 15)
//! is the sender's node identity, the trailing octet of the embedded
//! destination address (byte 19) is the receiver's. This module is the
//! single place that depends on that convention. Packets shorter than
//! 20 bytes are rejected, never indexed.

use vstd::prelude::*;

verus! {

/// Error for a tunneled packet too short to carry the fixed header.
#[derive(Clone, Copy, PartialEq, Eq, Structural, Debug)]
pub struct MalformedPacket;

/// Sender identity of a tunneled packet: byte 15, or nothing when the
/// packet is shorter than the 20-byte fixed header.
pub open spec fn extract_src_spec(packet: Seq<u8>) -> Option<u8> {
    if packet.len() >= 20 {
        Some(packet[15])
    } else {
        None
    }
}

/// Receiver identity of a tunneled packet: byte 19, or nothing when the
/// packet is shorter than the 20-byte fixed header.
pub open spec fn extract_dest_spec(packet: Seq<u8>) -> Option<u8> {
    if packet.len() >= 20 {
        Some(packet[19])
    } else {
        None
    }
}

/// Reads the sender's node identity out of a tunneled packet.
pub fn extract_src_id(packet: &[u8]) -> (r: Result<u8, MalformedPacket>)
    ensures
        packet@.len() >= 20 ==> r == Ok::<u8, MalformedPacket>(packet@[15]),
        packet@.len() < 20 ==> r == Err::<u8, MalformedPacket>(MalformedPacket),
{
    if packet.len() >= 20 {
        Ok(packet[15])
    } else {
        Err(MalformedPacket)
    }
}

/// Reads the intended receiver's node identity out of a tunneled packet.
pub fn extract_dest_id(packet: &[u8]) -> (r: Result<u8, MalformedPacket>)
    ensures
        packet@.len() >= 20 ==> r == Ok::<u8, MalformedPacket>(packet@[19]),
        packet@.len() < 20 ==> r == Err::<u8, MalformedPacket>(MalformedPacket),
{
    if packet.len() >= 20 {
        Ok(packet[19])
    } else {
        Err(MalformedPacket)
    }
}

/// A short packet never yields an identity: neither end of a packet
/// under the 20-byte fixed header is extracted.
pub proof fn lemma_short_packet_rejected(packet: Seq<u8>)
    requires
        packet.len() < 20,
    ensures
        extract_src_spec(packet) is None,
        extract_dest_spec(packet) is None,
{
}

} // verus!
