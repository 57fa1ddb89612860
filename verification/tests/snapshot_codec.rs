use dprox::addr::PeerAddr;
use dprox::dispatch::RelayAction;
use dprox::registry::Registry;
use dprox::snapshot::{decode_snapshot, encode_snapshot, SnapshotError};

#[test]
fn encode_exact_bytes() {
    let entries = vec![(7u8, PeerAddr::new(203, 0, 113, 5, 9001))];
    assert_eq!(encode_snapshot(&entries), vec![1, 7, 203, 0, 113, 5, 35, 41]);
}

#[test]
fn encode_empty_snapshot() {
    assert_eq!(encode_snapshot(&vec![]), vec![1]);
}

#[test]
fn round_trip_preserves_entries() {
    let entries = vec![
        (3u8, PeerAddr::new(10, 0, 0, 3, 65535)),
        (5u8, PeerAddr::new(203, 0, 113, 5, 9001)),
        (9u8, PeerAddr::new(192, 0, 2, 33, 0)),
    ];
    let wire = encode_snapshot(&entries);
    assert_eq!(decode_snapshot(&wire), Ok(entries));
}

#[test]
fn decode_rejects_wrong_discriminator() {
    assert_eq!(decode_snapshot(&[0]), Err(SnapshotError));
    assert_eq!(decode_snapshot(&[2, 7]), Err(SnapshotError));
}

#[test]
fn decode_rejects_ragged_length() {
    assert_eq!(decode_snapshot(&[1, 1, 2, 3]), Err(SnapshotError));
    assert_eq!(decode_snapshot(&[]), Err(SnapshotError));
}

#[test]
fn decode_empty_reply() {
    assert_eq!(decode_snapshot(&[1]), Ok(vec![]));
}

#[test]
fn query_reply_is_registry_set() {
    let a3 = PeerAddr::new(1, 1, 1, 1, 1000);
    let a5 = PeerAddr::new(2, 2, 2, 2, 2000);
    let a9_old = PeerAddr::new(3, 3, 3, 3, 3000);
    let a9 = PeerAddr::new(4, 4, 4, 4, 4000);
    let mut reg = Registry::new();
    reg.upsert(3, a3);
    reg.upsert(5, a5);
    reg.upsert(9, a9_old);
    reg.upsert(9, a9);

    let querier = PeerAddr::new(9, 9, 9, 9, 9);
    let act = reg.handle_datagram(&[1], querier);
    let reply = match act {
        RelayAction::Reply { message, .. } => message,
        _ => panic!("QUERY must be answered"),
    };
    let mut decoded = decode_snapshot(&reply).expect("reply must decode");
    decoded.sort_by_key(|e| e.0);
    assert_eq!(decoded, vec![(3, a3), (5, a5), (9, a9)]);
}
