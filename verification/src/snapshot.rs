//! Serialization of registry snapshots for QUERY replies.
//!
//! A reply is the QUERY discriminator followed by seven bytes per
//! entry: the node identity, the four address octets, and the port in
//! big-endian order. The per-entry format is deterministic; the order
//! of the entries follows the snapshot and is not part of the protocol.

use vstd::prelude::*;
use vstd::arithmetic::div_mod::lemma_fundamental_div_mod;
use crate::addr::PeerAddr;
use crate::wire::DISC_QUERY;

verus! {

/// Error: the bytes of a QUERY reply are not a well-formed snapshot.
#[derive(Clone, Copy, PartialEq, Eq, Structural, Debug)]
pub struct SnapshotError;

/// The seven bytes that encode one snapshot entry.
pub open spec fn encode_entry_spec(e: (u8, PeerAddr)) -> Seq<u8> {
    seq![e.0, e.1.a, e.1.b, e.1.c, e.1.d, (e.1.port / 256) as u8, (e.1.port % 256) as u8]
}

/// The encoded entries of a snapshot, in snapshot order.
pub open spec fn encode_entries_spec(s: Seq<(u8, PeerAddr)>) -> Seq<u8>
    decreases s.len(),
{
    if s.len() == 0 {
        Seq::empty()
    } else {
        encode_entries_spec(s.drop_last()) + encode_entry_spec(s.last())
    }
}

/// The full QUERY reply: discriminator, then the encoded entries.
pub open spec fn encode_snapshot_spec(s: Seq<(u8, PeerAddr)>) -> Seq<u8> {
    seq![DISC_QUERY] + encode_entries_spec(s)
}

/// A buffer that decodes as a snapshot reply: the QUERY discriminator
/// followed by a whole number of seven-byte entries.
pub open spec fn snapshot_wire_ok(b: Seq<u8>) -> bool {
    &&& b.len() >= 1
    &&& b[0] == DISC_QUERY
    &&& (b.len() - 1) % 7 == 0
}

/// The entry decoded from the seven bytes at position `k` of a reply.
pub open spec fn decode_entry_spec(b: Seq<u8>, k: int) -> (u8, PeerAddr)
    recommends
        0 <= k,
        1 + 7 * k + 7 <= b.len(),
{
    (
        b[1 + 7 * k],
        PeerAddr {
            a: b[2 + 7 * k],
            b: b[3 + 7 * k],
            c: b[4 + 7 * k],
            d: b[5 + 7 * k],
            port: (b[6 + 7 * k] * 256 + b[7 + 7 * k]) as u16,
        },
    )
}

/// All entries decoded from a well-formed reply.
pub open spec fn decode_entries_spec(b: Seq<u8>) -> Seq<(u8, PeerAddr)>
    recommends
        snapshot_wire_ok(b),
{
    Seq::new((((b.len() - 1) / 7) as nat), |k: int| decode_entry_spec(b, k))
}

/// Each entry contributes exactly seven bytes.
pub proof fn lemma_encode_entries_len(s: Seq<(u8, PeerAddr)>)
    ensures
        encode_entries_spec(s).len() == 7 * s.len(),
    decreases s.len(),
{
    if s.len() > 0 {
        lemma_encode_entries_len(s.drop_last());
    }
}

/// Byte `7k + j` of the encoded entries is byte `j` of entry `k`.
proof fn lemma_encode_entries_index(s: Seq<(u8, PeerAddr)>, k: int, j: int)
    requires
        0 <= k < s.len(),
        0 <= j < 7,
    ensures
        encode_entries_spec(s)[7 * k + j] == encode_entry_spec(s[k])[j],
    decreases s.len(),
{
    lemma_encode_entries_len(s);
    lemma_encode_entries_len(s.drop_last());
    if k == s.len() - 1 {
        assert(encode_entries_spec(s)[7 * k + j] == encode_entry_spec(s.last())[j]);
    } else {
        lemma_encode_entries_index(s.drop_last(), k, j);
        assert(s.drop_last()[k] == s[k]);
    }
}

/// Snapshot round trip: an encoded snapshot is well formed on the wire
/// and decodes to exactly the entries that were encoded.
pub proof fn lemma_snapshot_round_trip(s: Seq<(u8, PeerAddr)>)
    ensures
        snapshot_wire_ok(encode_snapshot_spec(s)),
        decode_entries_spec(encode_snapshot_spec(s)) == s,
{
    let b = encode_snapshot_spec(s);
    lemma_encode_entries_len(s);
    assert(b.len() == 1 + 7 * s.len());
    assert((7 * s.len()) % 7 == 0) by {
        lemma_fundamental_div_mod(7 * s.len() as int, 7);
        assert(7 * s.len() as int == 7 * ((7 * s.len() as int) / 7) + (7 * s.len() as int) % 7);
    }
    assert((b.len() - 1) / 7 == s.len()) by {
        lemma_fundamental_div_mod(7 * s.len() as int, 7);
    }
    assert forall|k: int| 0 <= k < s.len() implies decode_entry_spec(b, k) == s[k] by {
        lemma_encode_entries_index(s, k, 0);
        lemma_encode_entries_index(s, k, 1);
        lemma_encode_entries_index(s, k, 2);
        lemma_encode_entries_index(s, k, 3);
        lemma_encode_entries_index(s, k, 4);
        lemma_encode_entries_index(s, k, 5);
        lemma_encode_entries_index(s, k, 6);
        let p = s[k].1.port;
        assert(p == 256 * (p / 256) + p % 256) by {
            lemma_fundamental_div_mod(p as int, 256);
        }
        assert(p / 256 < 256);
        assert(b[6 + 7 * k] == (p / 256) as u8);
        assert(b[7 + 7 * k] == (p % 256) as u8);
        assert((b[6 + 7 * k] * 256 + b[7 + 7 * k]) as u16 == p);
        assert(decode_entry_spec(b, k).1 == s[k].1);
        assert(decode_entry_spec(b, k).0 == s[k].0);
    }
    assert(decode_entries_spec(b) =~= s);
}

/// Serializes a snapshot into the bytes of a QUERY reply.
pub fn encode_snapshot(entries: &Vec<(u8, PeerAddr)>) -> (r: Vec<u8>)
    ensures
        r@ == encode_snapshot_spec(entries@),
{
    let mut r: Vec<u8> = Vec::new();
    r.push(DISC_QUERY);
    proof {
        assert(r@ =~= encode_snapshot_spec(entries@.take(0)));
    }
    let mut i: usize = 0;
    while i < entries.len()
        invariant
            0 <= i <= entries@.len(),
            r@ == encode_snapshot_spec(entries@.take(i as int)),
        decreases entries@.len() - i,
    {
        let (id, a) = entries[i];
        r.push(id);
        r.push(a.a);
        r.push(a.b);
        r.push(a.c);
        r.push(a.d);
        r.push((a.port / 256) as u8);
        r.push((a.port % 256) as u8);
        proof {
            assert(entries@.take(i + 1).drop_last() =~= entries@.take(i as int));
            assert(entries@.take(i + 1).last() == entries@[i as int]);
            assert(r@ =~= encode_snapshot_spec(entries@.take(i + 1)));
        }
        i = i + 1;
    }
    proof {
        assert(entries@.take(entries@.len() as int) =~= entries@);
    }
    r
}

/// Decodes the bytes of a QUERY reply back into snapshot entries.
/// Fails exactly on buffers that are not well-formed replies.
pub fn decode_snapshot(buf: &[u8]) -> (r: Result<Vec<(u8, PeerAddr)>, SnapshotError>)
    ensures
        match r {
            Ok(v) => snapshot_wire_ok(buf@) && v@ == decode_entries_spec(buf@),
            Err(_) => !snapshot_wire_ok(buf@),
        },
{
    if buf.len() < 1 {
        return Err(SnapshotError);
    }
    if buf[0] != DISC_QUERY {
        return Err(SnapshotError);
    }
    if (buf.len() - 1) % 7 != 0 {
        return Err(SnapshotError);
    }
    let n = (buf.len() - 1) / 7;
    proof {
        lemma_fundamental_div_mod((buf@.len() - 1) as int, 7);
        assert(buf@.len() - 1 == 7 * n);
    }
    let mut v: Vec<(u8, PeerAddr)> = Vec::new();
    let mut k: usize = 0;
    while k < n
        invariant
            0 <= k <= n,
            buf@.len() <= usize::MAX,
            buf@.len() - 1 == 7 * n,
            snapshot_wire_ok(buf@),
            v@.len() == k,
            forall|t: int| 0 <= t < k ==> v@[t] == decode_entry_spec(buf@, t),
        decreases n - k,
    {
        let base = 1 + 7 * k;
        let id = buf[base];
        let a = buf[base + 1];
        let b = buf[base + 2];
        let c = buf[base + 3];
        let d = buf[base + 4];
        let hi = buf[base + 5];
        let lo = buf[base + 6];
        let port = (hi as u16) * 256 + (lo as u16);
        v.push((id, PeerAddr { a, b, c, d, port }));
        proof {
            assert(v@[k as int] == decode_entry_spec(buf@, k as int));
        }
        k = k + 1;
    }
    proof {
        assert(v@ =~= decode_entries_spec(buf@));
    }
    Ok(v)
}

} // verus!
