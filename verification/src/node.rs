//! Node identities and per-role state.
//!
//! Every participant carries a one-byte node identity that is also the
//! trailing octet of its virtual-subnet address. A peer draws its
//! identity at startup and keeps it for the process lifetime; the
//! rendezvous has a fixed identity and owns the peer registry.

use vstd::prelude::*;
use crate::addr::PeerAddr;
use crate::registry::Registry;
use crate::wire::{classify_spec, register_message, MsgKind, DISC_REGISTER};

verus! {

/// Identity of the rendezvous node on the virtual subnet.
pub const RENDEZVOUS_ID: u8 = 5;

/// A participant of the overlay: its node identity. The virtual
/// interface handle that carries its traffic lives at the process edge.
pub struct Node {
    /// One-byte node identity, the trailing octet of the node's
    /// virtual-subnet address.
    pub id: u8,
}

impl Node {
    /// A node with the given identity.
    pub fn new(id: u8) -> (n: Node)
        ensures
            n.id == id,
    {
        Node { id }
    }

    /// The four octets of the node's virtual-subnet address: the fixed
    /// private prefix with the identity as trailing octet.
    pub fn virtual_octets(&self) -> (r: (u8, u8, u8, u8))
        ensures
            r == (10u8, 0u8, 0u8, self.id),
    {
        (10, 0, 0, self.id)
    }
}

/// Relies on rand's random_range on `10..254`: a draw from the given
/// half-open range, here the pool of peer identities (neither 0 nor
/// 255, clear of the rendezvous' low range).
#[verifier::external_body]
fn draw_identity() -> (id: u8)
    ensures
        10 <= id < 254,
{
    rand::RngExt::random_range(&mut rand::rng(), 10..254)
}

/// A peer: its own node plus the rendezvous address all its traffic
/// transits.
pub struct PeerNode {
    /// The peer's own node.
    pub me: Node,
    /// Address of the rendezvous process, fixed at startup.
    pub turn: PeerAddr,
}

impl PeerNode {
    /// A peer aimed at the given rendezvous address, with a freshly
    /// drawn identity: never 0 or 255, so always registrable.
    pub fn new(turn: PeerAddr) -> (p: PeerNode)
        ensures
            p.turn == turn,
            10 <= p.me.id < 254,
    {
        let id = draw_identity();
        PeerNode { me: Node::new(id), turn }
    }

    /// The REGISTER datagram the keepalive task sends every interval to
    /// refresh the peer's registry entry and NAT binding.
    pub fn heartbeat_message(&self) -> (m: Vec<u8>)
        ensures
            m@ == seq![DISC_REGISTER, self.me.id],
            classify_spec(m@) == MsgKind::Register(self.me.id),
    {
        register_message(self.me.id)
    }
}

/// The rendezvous: its own node plus the peer registry it owns. Only
/// the forwarding loop touches the registry.
pub struct Turn {
    /// The rendezvous' own node.
    pub me: Node,
    /// The peer registry, written from inbound traffic.
    pub nodes: Registry,
}

impl Turn {
    /// A rendezvous with its fixed identity and an empty registry.
    pub fn new() -> (t: Turn)
        ensures
            t.me.id == RENDEZVOUS_ID,
            t.nodes.wf(),
            t.nodes@ == Map::<u8, PeerAddr>::empty(),
            t.nodes.entry_seq() == Seq::<(u8, PeerAddr)>::empty(),
    {
        Turn { me: Node::new(RENDEZVOUS_ID), nodes: Registry::new() }
    }

    /// Records a peer's reachable address, last write wins; identity 0
    /// is ignored.
    pub fn add_node(&mut self, id: u8, node_addr: PeerAddr)
        requires
            old(self).nodes.wf(),
        ensures
            final(self).nodes.wf(),
            final(self).nodes@ == crate::registry::upsert_spec(old(self).nodes@, id, node_addr),
            final(self).me == old(self).me,
    {
        self.nodes.upsert(id, node_addr);
    }
}

} // verus!
