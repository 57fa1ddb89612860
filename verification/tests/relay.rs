use dprox::addr::PeerAddr;
use dprox::dispatch::{peer_handle_datagram, PeerAction, RelayAction};
use dprox::registry::Registry;
use dprox::snapshot::decode_snapshot;

fn data_datagram(packet: &[u8]) -> Vec<u8> {
    let mut d = vec![0u8];
    d.extend_from_slice(packet);
    d
}

#[test]
fn register_records_sender_address() {
    let src = PeerAddr::new(203, 0, 113, 5, 9001);
    let mut reg = Registry::new();
    let act = reg.handle_datagram(&[2, 7], src);
    assert!(matches!(act, RelayAction::Registered));
    assert_eq!(reg.lookup(7), Some(src));
}

#[test]
fn end_to_end_relay_forwards_unmodified() {
    let addr_a = PeerAddr::new(198, 51, 100, 2, 5000);
    let addr_b = PeerAddr::new(203, 0, 113, 5, 9001);
    let mut reg = Registry::new();
    reg.upsert(7, addr_b);

    let mut packet = [0u8; 28];
    packet[19] = 7;
    packet[20] = 0xde;
    packet[27] = 0xad;
    let act = reg.handle_datagram(&data_datagram(&packet), addr_a);
    let payload = match act {
        RelayAction::Deliver { payload } => payload,
        _ => panic!("DATA datagram must be delivered to the interface"),
    };
    assert_eq!(payload, packet.to_vec());

    let out = reg.handle_interface_packet(&payload);
    let (to, message) = out.expect("registered destination must be forwarded");
    assert_eq!(to, addr_b);
    assert_eq!(message, data_datagram(&packet));
}

#[test]
fn implicit_learning_from_data() {
    let addr_x = PeerAddr::new(192, 0, 2, 33, 7777);
    let mut reg = Registry::new();
    assert_eq!(reg.lookup(9), None);

    let mut packet = [0u8; 20];
    packet[15] = 9;
    let act = reg.handle_datagram(&data_datagram(&packet), addr_x);
    assert!(matches!(act, RelayAction::Deliver { .. }));
    assert_eq!(reg.lookup(9), Some(addr_x));
}

#[test]
fn rendezvous_scenario_register_relay_query() {
    let peer_b = PeerAddr::new(203, 0, 113, 5, 9001);
    let sender = PeerAddr::new(198, 51, 100, 2, 5000);
    let mut reg = Registry::new();

    let act = reg.handle_datagram(&[2, 7], peer_b);
    assert!(matches!(act, RelayAction::Registered));
    assert_eq!(reg.lookup(7), Some(peer_b));

    let mut packet = [0u8; 20];
    packet[16] = 10;
    packet[17] = 0;
    packet[18] = 0;
    packet[19] = 7;
    let act = reg.handle_datagram(&data_datagram(&packet), sender);
    let payload = match act {
        RelayAction::Deliver { payload } => payload,
        _ => panic!("DATA datagram must be delivered to the interface"),
    };
    let (to, message) = reg
        .handle_interface_packet(&payload)
        .expect("exactly one send to the registered peer");
    assert_eq!(to, peer_b);
    assert_eq!(message, data_datagram(&packet));

    let querier = PeerAddr::new(192, 0, 2, 1, 4000);
    let act = reg.handle_datagram(&[1], querier);
    let (reply_to, reply) = match act {
        RelayAction::Reply { to, message } => (to, message),
        _ => panic!("QUERY must be answered"),
    };
    assert_eq!(reply_to, querier);
    let decoded = decode_snapshot(&reply).expect("reply must decode");
    assert!(decoded.contains(&(7, peer_b)));
}

#[test]
fn malformed_datagram_is_dropped() {
    let src = PeerAddr::new(1, 2, 3, 4, 5);
    let mut reg = Registry::new();
    assert!(matches!(reg.handle_datagram(&[], src), RelayAction::Dropped));
    assert!(matches!(reg.handle_datagram(&[2], src), RelayAction::Dropped));
    assert_eq!(reg.snapshot(), vec![]);
}

#[test]
fn short_data_is_delivered_but_not_learned() {
    let src = PeerAddr::new(1, 2, 3, 4, 5);
    let mut reg = Registry::new();
    let act = reg.handle_datagram(&[0, 1, 2, 3], src);
    let payload = match act {
        RelayAction::Deliver { payload } => payload,
        _ => panic!("DATA datagram must be delivered to the interface"),
    };
    assert_eq!(payload, vec![1, 2, 3]);
    assert_eq!(reg.snapshot(), vec![]);
}

#[test]
fn zero_source_identity_is_not_learned() {
    let src = PeerAddr::new(1, 2, 3, 4, 5);
    let mut reg = Registry::new();
    let packet = [0u8; 20];
    reg.handle_datagram(&data_datagram(&packet), src);
    assert_eq!(reg.lookup(0), None);
    assert_eq!(reg.snapshot(), vec![]);
}

#[test]
fn interface_miss_drops_packet() {
    let reg = Registry::new();
    let mut packet = [0u8; 20];
    packet[19] = 7;
    assert!(reg.handle_interface_packet(&packet).is_none());
    assert!(reg.handle_interface_packet(&packet[..12]).is_none());
}

#[test]
fn peer_delivers_data_only() {
    match peer_handle_datagram(&[0, 5, 6]) {
        PeerAction::Deliver { payload } => assert_eq!(payload, vec![5, 6]),
        _ => panic!("DATA must reach the interface"),
    }
    assert!(matches!(peer_handle_datagram(&[1]), PeerAction::Ignored));
    assert!(matches!(peer_handle_datagram(&[2, 9]), PeerAction::Ignored));
    assert!(matches!(peer_handle_datagram(&[]), PeerAction::Dropped));
}
