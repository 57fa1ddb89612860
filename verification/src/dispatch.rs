//! The relay dispatcher: what each endpoint does with each event.
//!
//! The rendezvous classifies every received datagram and either drops
//! it, updates the registry, answers with a snapshot, or hands the
//! payload to the virtual interface; packets read back from the
//! interface are forwarded to the registered address of their
//! destination identity. A peer accepts DATA from the rendezvous and
//! ignores everything else. The surrounding duplex pumps perform the
//! socket and interface transfers; every decision is taken here.

use vstd::prelude::*;
use crate::addr::PeerAddr;
use crate::packet::{extract_dest_id, extract_dest_spec, extract_src_id, extract_src_spec};
use crate::registry::{lookup_spec, seq_matches_map, upsert_spec, Registry};
use crate::snapshot::{encode_snapshot, encode_snapshot_spec};
use crate::wire::{classify, classify_spec, data_message, payload_of, payload_spec, MsgKind,
    DISC_DATA};

verus! {

/// What the rendezvous does with one received datagram.
pub enum RelayAction {
    /// Malformed: dropped with a diagnostic, nothing else happens.
    Dropped,
    /// REGISTER: the registry was updated, no reply is sent.
    Registered,
    /// QUERY: send `message` back to the requester.
    Reply { to: PeerAddr, message: Vec<u8> },
    /// DATA: write `payload` to the virtual interface.
    Deliver { payload: Vec<u8> },
}

/// What a peer does with one datagram received from the rendezvous.
pub enum PeerAction {
    /// DATA: write `payload` to the virtual interface verbatim.
    Deliver { payload: Vec<u8> },
    /// QUERY or REGISTER at a peer: a protocol mismatch, logged and
    /// ignored, never a crash.
    Ignored,
    /// Malformed: dropped.
    Dropped,
}

/// The registry that handling one datagram from `src` leaves behind:
/// REGISTER upserts its explicit identity; DATA upserts the source
/// identity embedded in its payload when the payload is long enough to
/// carry one; everything else leaves the registry alone.
pub open spec fn dispatch_registry_spec(m: Map<u8, PeerAddr>, buf: Seq<u8>, src: PeerAddr) -> Map<
    u8,
    PeerAddr,
> {
    match classify_spec(buf) {
        MsgKind::Register(id) => upsert_spec(m, id, src),
        MsgKind::Data => match extract_src_spec(payload_spec(buf)) {
            Some(id) => upsert_spec(m, id, src),
            None => m,
        },
        _ => m,
    }
}

/// The forwarding decision for a tunneled packet read back from the
/// virtual interface: on a registry hit for the destination identity,
/// the packet goes out, wrapped as a DATA message, to the resolved
/// address; a miss, or a packet too short to address, drops it.
pub open spec fn route_spec(m: Map<u8, PeerAddr>, packet: Seq<u8>) -> Option<(PeerAddr, Seq<u8>)> {
    match extract_dest_spec(packet) {
        Some(id) => match lookup_spec(m, id) {
            Some(addr) => Some((addr, seq![DISC_DATA] + packet)),
            None => None,
        },
        None => None,
    }
}

impl Registry {
    /// Handles one datagram the rendezvous received from `src`:
    /// classifies it, applies the registry update, and returns the
    /// action the forwarding loop must take.
    pub fn handle_datagram(&mut self, buf: &[u8], src: PeerAddr) -> (act: RelayAction)
        requires
            old(self).wf(),
        ensures
            final(self).wf(),
            final(self)@ == dispatch_registry_spec(old(self)@, buf@, src),
            classify_spec(buf@) is Query || classify_spec(buf@) is Malformed ==> *final(self)
                == *old(self),
            match act {
                RelayAction::Dropped => classify_spec(buf@) is Malformed,
                RelayAction::Registered => classify_spec(buf@) matches MsgKind::Register(_),
                RelayAction::Reply { to, message } => classify_spec(buf@) is Query && to == src
                    && message@ == encode_snapshot_spec(old(self).entry_seq())
                    && seq_matches_map(old(self).entry_seq(), old(self)@),
                RelayAction::Deliver { payload } => classify_spec(buf@) is Data && payload@
                    == payload_spec(buf@),
            },
    {
        match classify(buf) {
            MsgKind::Malformed => RelayAction::Dropped,
            MsgKind::Register(id) => {
                self.upsert(id, src);
                RelayAction::Registered
            },
            MsgKind::Query => {
                let snap = self.snapshot();
                let message = encode_snapshot(&snap);
                RelayAction::Reply { to: src, message }
            },
            MsgKind::Data => {
                let payload = payload_of(buf);
                match extract_src_id(payload.as_slice()) {
                    Ok(id) => {
                        self.upsert(id, src);
                    },
                    Err(_) => {},
                }
                RelayAction::Deliver { payload }
            },
        }
    }

    /// Return path of the rendezvous: forwards a tunneled packet read
    /// from the virtual interface to the registered address of its
    /// destination identity, or drops it on a miss.
    pub fn handle_interface_packet(&self, packet: &[u8]) -> (r: Option<(PeerAddr, Vec<u8>)>)
        requires
            self.wf(),
        ensures
            match r {
                Some(out) => route_spec(self@, packet@) == Some((out.0, out.1@)),
                None => route_spec(self@, packet@) is None,
            },
    {
        match extract_dest_id(packet) {
            Ok(id) => match self.lookup(id) {
                Some(addr) => Some((addr, data_message(packet))),
                None => None,
            },
            Err(_) => None,
        }
    }
}

/// Handles one datagram a peer received from the rendezvous during
/// normal relay: DATA is delivered to the virtual interface, anything
/// else is a protocol mismatch that is ignored.
pub fn peer_handle_datagram(buf: &[u8]) -> (act: PeerAction)
    ensures
        match act {
            PeerAction::Deliver { payload } => classify_spec(buf@) is Data && payload@
                == payload_spec(buf@),
            PeerAction::Ignored => classify_spec(buf@) is Query || classify_spec(
                buf@,
            ) matches MsgKind::Register(_),
            PeerAction::Dropped => classify_spec(buf@) is Malformed,
        },
{
    match classify(buf) {
        MsgKind::Data => PeerAction::Deliver { payload: payload_of(buf) },
        MsgKind::Query => PeerAction::Ignored,
        MsgKind::Register(_) => PeerAction::Ignored,
        MsgKind::Malformed => PeerAction::Dropped,
    }
}

/// End-to-end relay: with the registry mapping destination identity
/// `dst` to `fwd`, a DATA datagram whose tunneled packet is addressed
/// to `dst` leaves the registry (after implicit source learning) still
/// mapping `dst` to `fwd`, and the payload, handed back by the virtual
/// interface, is routed as exactly one DATA message to `fwd` carrying
/// the payload bytes unmodified. The one excluded corner is a packet
/// whose embedded source identity equals `dst`: learning would first
/// repoint `dst` at the datagram's sender.
pub proof fn lemma_end_to_end_relay(
    m: Map<u8, PeerAddr>,
    buf: Seq<u8>,
    src: PeerAddr,
    dst: u8,
    fwd: PeerAddr,
)
    requires
        classify_spec(buf) is Data,
        payload_spec(buf).len() >= 20,
        payload_spec(buf)[19] == dst,
        payload_spec(buf)[15] != dst,
        lookup_spec(m, dst) == Some(fwd),
    ensures
        lookup_spec(dispatch_registry_spec(m, buf, src), dst) == Some(fwd),
        route_spec(dispatch_registry_spec(m, buf, src), payload_spec(buf)) == Some(
            (fwd, seq![DISC_DATA] + payload_spec(buf)),
        ),
{
}

/// Implicit learning: a DATA datagram from `src` whose tunneled packet
/// carries a nonzero source identity registers that identity at `src`,
/// with no REGISTER datagram needed beforehand.
pub proof fn lemma_implicit_learning(m: Map<u8, PeerAddr>, buf: Seq<u8>, src: PeerAddr)
    requires
        classify_spec(buf) is Data,
        payload_spec(buf).len() >= 20,
        payload_spec(buf)[15] != 0,
    ensures
        lookup_spec(dispatch_registry_spec(m, buf, src), payload_spec(buf)[15]) == Some(src),
{
}

} // verus!
