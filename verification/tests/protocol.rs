use dprox::packet::{extract_dest_id, extract_src_id, MalformedPacket};
use dprox::wire::{classify, data_message, payload_of, query_message, register_message, MsgKind};

#[test]
fn classify_empty_is_malformed() {
    assert_eq!(classify(&[]), MsgKind::Malformed);
}

#[test]
fn classify_short_register_is_malformed() {
    assert_eq!(classify(&[2]), MsgKind::Malformed);
}

#[test]
fn classify_register_reads_identity() {
    assert_eq!(classify(&[2, 7]), MsgKind::Register(7));
    assert_eq!(classify(&[2, 254, 99, 99]), MsgKind::Register(254));
}

#[test]
fn classify_query() {
    assert_eq!(classify(&[1]), MsgKind::Query);
    assert_eq!(classify(&[1, 0, 0]), MsgKind::Query);
}

#[test]
fn classify_data() {
    assert_eq!(classify(&[0]), MsgKind::Data);
    assert_eq!(classify(&[0, 10, 20]), MsgKind::Data);
}

#[test]
fn classify_unknown_discriminator_is_data() {
    assert_eq!(classify(&[9, 1, 2]), MsgKind::Data);
    assert_eq!(classify(&[255]), MsgKind::Data);
}

#[test]
fn extract_rejects_short_packet() {
    let short = [0u8; 19];
    assert_eq!(extract_src_id(&short), Err(MalformedPacket));
    assert_eq!(extract_dest_id(&short), Err(MalformedPacket));
    assert_eq!(extract_dest_id(&[]), Err(MalformedPacket));
}

#[test]
fn extract_reads_fixed_offsets() {
    let mut pkt = [0u8; 20];
    pkt[15] = 9;
    pkt[19] = 7;
    assert_eq!(extract_src_id(&pkt), Ok(9));
    assert_eq!(extract_dest_id(&pkt), Ok(7));
}

#[test]
fn data_message_wraps_payload() {
    assert_eq!(data_message(&[1, 2, 3]), vec![0, 1, 2, 3]);
    assert_eq!(data_message(&[]), vec![0]);
}

#[test]
fn register_message_bytes() {
    assert_eq!(register_message(7), vec![2, 7]);
}

#[test]
fn query_message_bytes() {
    assert_eq!(query_message(), vec![1]);
}

#[test]
fn payload_strips_discriminator() {
    assert_eq!(payload_of(&[0, 9, 8]), vec![9, 8]);
    assert_eq!(payload_of(&[0]), Vec::<u8>::new());
}
