use mir2::enums::{ChatType, MirDirection};
use mir2::error::NetError;
use mir2::opcodes::ClientOpcode;
use mir2::packets::client::{ChatPacket, LoginClientPacket, WalkPacket};
use mir2::packets::parse::{parse_chat, parse_credentials, parse_direction};
use mir2::network::session::frame_to_dispatch;
use mir2::packets::{Packet, PacketCodec, HEADER_SIZE};

#[test]
fn frame_layout_is_id_length_payload() {
    let frame = PacketCodec::encode(0x1234, &[9, 8, 7]).unwrap();
    assert_eq!(frame, vec![0x34, 0x12, 3, 0, 9, 8, 7]);
    assert_eq!(PacketCodec::decode_header(&frame).unwrap(), (0x1234, 3));
    assert_eq!(PacketCodec::decode_payload(&frame).unwrap(), vec![9, 8, 7]);
}

#[test]
fn oversized_payload_is_refused() {
    let payload = vec![0u8; 65535 - HEADER_SIZE + 1];
    match PacketCodec::encode(1, &payload) {
        Err(NetError::PacketTooLarge(n)) => assert_eq!(n, 65532),
        other => panic!("expected PacketTooLarge, got {:?}", other.is_ok()),
    }
    assert!(PacketCodec::encode(1, &vec![0u8; 65535 - HEADER_SIZE]).is_ok());
}

#[test]
fn short_frames_are_io_errors() {
    assert!(matches!(PacketCodec::decode_header(&[1, 2, 3]), Err(NetError::Io(_))));
    assert!(matches!(PacketCodec::decode_payload(&[1, 0, 5, 0, 1, 2]), Err(NetError::Io(_))));
}

#[test]
fn walk_packet_round_trip() {
    let w = WalkPacket::new(MirDirection::DownLeft);
    let frame = w.encode().unwrap();
    let (id, _) = PacketCodec::decode_header(&frame).unwrap();
    assert_eq!(id, ClientOpcode::Walk.id());
    let payload = PacketCodec::decode_payload(&frame).unwrap();
    assert_eq!(parse_direction(&payload), Some(MirDirection::DownLeft));
}

#[test]
fn chat_and_login_round_trip() {
    let c = ChatPacket::new("你好 world".to_string());
    let payload = PacketCodec::decode_payload(&c.encode().unwrap()).unwrap();
    assert_eq!(parse_chat(&payload), Some("你好 world".to_string()));

    let l = LoginClientPacket::new("alice".to_string(), "pw".to_string());
    let payload = PacketCodec::decode_payload(&l.encode().unwrap()).unwrap();
    assert_eq!(parse_credentials(&payload), Some(("alice".to_string(), "pw".to_string())));
}

#[test]
fn truncated_requests_are_rejected() {
    assert_eq!(parse_direction(&[]), None);
    assert_eq!(parse_chat(&[5, 0, b'a']), None);
    assert_eq!(parse_credentials(&[1, 0, b'a', 2, 0, b'x']), None);
}

#[test]
fn opcodes_of_the_login_flow() {
    assert_eq!(ClientOpcode::NewAccount.id(), 3);
    assert_eq!(ClientOpcode::ChangePassword.id(), 4);
    assert_eq!(ClientOpcode::Login.id(), 5);
    assert_eq!(ClientOpcode::NewCharacter.id(), 6);
    assert_eq!(ClientOpcode::DeleteCharacter.id(), 7);
    assert_eq!(ClientOpcode::StartGame.id(), 8);
}

#[test]
fn enum_codes_round_trip() {
    for v in 0u8..=255 {
        if let Some(t) = ChatType::from_code(v) {
            assert_eq!(t.code(), v);
        }
        if let Some(d) = MirDirection::from_code(v) {
            assert_eq!(d.code(), v);
        }
    }
    assert_eq!(MirDirection::from_code(8), None);
}

#[test]
fn frames_to_dispatch() {
    assert_eq!(frame_to_dispatch(&[5, 0, 2, 0, 7, 8, 9]), Some((5, vec![7, 8])));
    assert_eq!(frame_to_dispatch(&[5, 0, 3, 0, 7, 8]), None);
    assert_eq!(frame_to_dispatch(&[5, 0]), None);
}

#[test]
fn short_frames_report_unexpected_end_of_input() {
    match PacketCodec::decode_header(&[1, 2, 3]) {
        Err(NetError::Io(e)) => assert_eq!(e.kind(), std::io::ErrorKind::UnexpectedEof),
        other => panic!("expected an I/O error, got {:?}", other),
    }
    match PacketCodec::decode_payload(&[1, 0, 5, 0, 9]) {
        Err(NetError::Io(e)) => assert_eq!(e.kind(), std::io::ErrorKind::UnexpectedEof),
        other => panic!("expected an I/O error, got {:?}", other),
    }
}
