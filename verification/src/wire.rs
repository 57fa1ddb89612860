//! Wire protocol: datagram classification and message construction.
//!
//! A datagram is one discriminator byte followed by an opaque payload.
//! Discriminator 0 carries a tunneled packet (DATA), 1 asks for a registry
//! snapshot (QUERY), 2 registers the sender identity carried in the second
//! byte (REGISTER). An empty datagram, or a REGISTER datagram without its
//! identity byte, is malformed and dropped by every handler.

use vstd::prelude::*;

verus! {

/// Discriminator byte of a DATA datagram.
pub const DISC_DATA: u8 = 0;

/// Discriminator byte of a QUERY datagram (and of the snapshot reply).
pub const DISC_QUERY: u8 = 1;

/// Discriminator byte of a REGISTER datagram.
pub const DISC_REGISTER: u8 = 2;

/// What a received datagram is, per the leading discriminator byte.
///
/// Any discriminator other than QUERY and REGISTER is treated as DATA,
/// matching the relay's catch-all forwarding of unrecognized traffic.
#[derive(Clone, Copy, PartialEq, Eq, Structural, Debug)]
pub enum MsgKind {
    /// The bytes after the discriminator are a tunneled packet.
    Data,
    /// A request for a snapshot of the registry.
    Query,
    /// A heartbeat/registration; the second byte is the sender identity.
    Register(u8),
    /// Empty, or REGISTER shorter than two bytes: dropped, never processed.
    Malformed,
}

/// Classification of a raw datagram, the single point where the
/// discriminator convention is interpreted.
pub open spec fn classify_spec(buf: Seq<u8>) -> MsgKind {
    if buf.len() == 0 {
        MsgKind::Malformed
    } else if buf[0] == DISC_QUERY {
        MsgKind::Query
    } else if buf[0] == DISC_REGISTER {
        if buf.len() >= 2 {
            MsgKind::Register(buf[1])
        } else {
            MsgKind::Malformed
        }
    } else {
        MsgKind::Data
    }
}

/// Classifies a received datagram into exactly one message kind.
pub fn classify(buf: &[u8]) -> (k: MsgKind)
    ensures
        k == classify_spec(buf@),
{
    if buf.len() == 0 {
        MsgKind::Malformed
    } else if buf[0] == DISC_QUERY {
        MsgKind::Query
    } else if buf[0] == DISC_REGISTER {
        if buf.len() >= 2 {
            MsgKind::Register(buf[1])
        } else {
            MsgKind::Malformed
        }
    } else {
        MsgKind::Data
    }
}

/// Payload of a datagram: everything after the discriminator byte.
pub open spec fn payload_spec(buf: Seq<u8>) -> Seq<u8>
    recommends
        buf.len() >= 1,
{
    buf.skip(1)
}

/// Returns the payload of a non-empty datagram as an owned buffer.
pub fn payload_of(buf: &[u8]) -> (r: Vec<u8>)
    requires
        buf@.len() >= 1,
    ensures
        r@ == payload_spec(buf@),
{
    let mut r: Vec<u8> = Vec::new();
    let mut i: usize = 1;
    while i < buf.len()
        invariant
            1 <= i <= buf@.len(),
            r@ == buf@.subrange(1, i as int),
        decreases buf@.len() - i,
    {
        r.push(buf[i]);
        assert(r@ =~= buf@.subrange(1, i + 1));
        i = i + 1;
    }
    assert(r@ =~= buf@.skip(1));
    r
}

/// Wraps a tunneled packet as a DATA datagram: the DATA discriminator
/// followed by the packet bytes unmodified.
pub fn data_message(packet: &[u8]) -> (m: Vec<u8>)
    ensures
        m@ == seq![DISC_DATA] + packet@,
        classify_spec(m@) == MsgKind::Data,
        payload_spec(m@) == packet@,
{
    let mut m: Vec<u8> = Vec::new();
    m.push(DISC_DATA);
    let mut i: usize = 0;
    while i < packet.len()
        invariant
            0 <= i <= packet@.len(),
            m@ == seq![DISC_DATA] + packet@.take(i as int),
        decreases packet@.len() - i,
    {
        m.push(packet[i]);
        assert(m@ =~= seq![DISC_DATA] + packet@.take(i + 1));
        i = i + 1;
    }
    assert(m@ =~= seq![DISC_DATA] + packet@);
    assert(payload_spec(m@) =~= packet@);
    m
}

/// Builds the REGISTER datagram that registers (or keeps alive) the
/// given node identity.
pub fn register_message(id: u8) -> (m: Vec<u8>)
    ensures
        m@ == seq![DISC_REGISTER, id],
        classify_spec(m@) == MsgKind::Register(id),
{
    let mut m: Vec<u8> = Vec::new();
    m.push(DISC_REGISTER);
    m.push(id);
    assert(m@ =~= seq![DISC_REGISTER, id]);
    m
}

/// Builds the QUERY datagram that asks the rendezvous for a registry
/// snapshot.
pub fn query_message() -> (m: Vec<u8>)
    ensures
        m@ == seq![DISC_QUERY],
        classify_spec(m@) == MsgKind::Query,
{
    let mut m: Vec<u8> = Vec::new();
    m.push(DISC_QUERY);
    assert(m@ =~= seq![DISC_QUERY]);
    m
}

/// Malformed datagrams are rejected by classification alone: an empty
/// buffer is malformed, and so is a REGISTER datagram that lacks its
/// identity byte.
pub proof fn lemma_malformed_rejection(buf: Seq<u8>)
    ensures
        buf.len() == 0 ==> classify_spec(buf) is Malformed,
        buf.len() == 1 && buf[0] == DISC_REGISTER ==> classify_spec(buf) is Malformed,
        classify_spec(buf) is Malformed ==> buf.len() == 0 || (buf[0] == DISC_REGISTER
            && buf.len() < 2),
{
}

} // verus!
