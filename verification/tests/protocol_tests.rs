use noctyrn_shared::movement::{gait, starts_jump, Gait};
use noctyrn_shared::protocol::{
    decode_length_prefixed, encode_length_prefixed, read_message_length, total_frame_size,
};
use noctyrn_shared::{DecodeError, PlayerActions};

#[test]
fn player_actions_bitflags() {
    let mut a = PlayerActions::empty();
    assert!(!a.contains(PlayerActions::JUMP));

    a.set(PlayerActions::JUMP);
    assert!(a.contains(PlayerActions::JUMP));

    a.set(PlayerActions::SPRINT);
    assert!(a.contains(PlayerActions::JUMP));
    assert!(a.contains(PlayerActions::SPRINT));

    a.clear(PlayerActions::JUMP);
    assert!(!a.contains(PlayerActions::JUMP));
    assert!(a.contains(PlayerActions::SPRINT));

    a.set_if(PlayerActions::CROUCH, true);
    assert!(a.contains(PlayerActions::CROUCH));
    a.set_if(PlayerActions::CROUCH, false);
    assert!(!a.contains(PlayerActions::CROUCH));
}

#[test]
fn decode_error_insufficient_data() {
    let result = decode_length_prefixed(&[0u8; 2]);
    assert!(matches!(result, Err(DecodeError::InsufficientData)));
}

#[test]
fn decode_error_truncated() {
    // Length header says 100 bytes, but we only supply 2.
    let mut data = vec![0, 0, 0, 100];
    data.extend_from_slice(b"{}");
    let result = decode_length_prefixed(&data);
    assert!(matches!(result, Err(DecodeError::Truncated { .. })));
}

#[test]
fn truncated_reports_expected_and_actual() {
    let mut data = vec![0, 0, 0, 100];
    data.extend_from_slice(b"{}");
    match decode_length_prefixed(&data) {
        Err(DecodeError::Truncated { expected, actual }) => {
            assert_eq!(expected, 100);
            assert_eq!(actual, 2);
        }
        _ => panic!("expected a truncated frame"),
    }
}

#[test]
fn frame_roundtrip_gives_back_payload() {
    let payload = br#"{"type":"LoginRequest","email":"test@example.com","password":"hunter2"}"#;
    let framed = encode_length_prefixed(payload);
    assert_eq!(framed.len(), 4 + payload.len());
    assert_eq!(read_message_length(&framed), Some(payload.len() as u32));
    assert_eq!(total_frame_size(payload.len() as u32), framed.len());
    let decoded = decode_length_prefixed(&framed).unwrap();
    assert_eq!(decoded, &payload[..]);
    // Re-framing the decoded payload gives the same bytes.
    assert_eq!(encode_length_prefixed(decoded), framed);
}

#[test]
fn frame_roundtrip_ignores_following_bytes() {
    let mut stream = encode_length_prefixed(b"abc");
    stream.extend_from_slice(&[9, 9, 9]);
    assert_eq!(decode_length_prefixed(&stream).unwrap(), b"abc");
}

#[test]
fn encode_writes_big_endian_header() {
    let payload = vec![7u8; 258];
    let framed = encode_length_prefixed(&payload);
    assert_eq!(&framed[..4], &[0, 0, 1, 2]);
    assert_eq!(&framed[4..], &payload[..]);
}

#[test]
fn encode_empty_payload() {
    assert_eq!(encode_length_prefixed(&[]), vec![0, 0, 0, 0]);
    assert_eq!(decode_length_prefixed(&[0, 0, 0, 0]).unwrap(), b"");
}

#[test]
fn read_message_length_big_endian() {
    assert_eq!(read_message_length(&[0x01, 0x02, 0x03, 0x04]), Some(0x0102_0304));
    assert_eq!(read_message_length(&[0xff, 0xff, 0xff, 0xff, 0x00]), Some(u32::MAX));
    assert_eq!(read_message_length(&[0, 0, 1]), None);
    assert_eq!(read_message_length(&[]), None);
}

#[test]
fn total_frame_size_adds_header() {
    assert_eq!(total_frame_size(0), 4);
    assert_eq!(total_frame_size(100), 104);
}

#[test]
fn decode_error_from_json_error() {
    let err = serde_json::from_str::<serde_json::Value>("{").unwrap_err();
    let e: DecodeError = DecodeError::from(err);
    assert!(matches!(e, DecodeError::Json(_)));
}

#[test]
fn player_actions_from_bits_and_empty() {
    let a = PlayerActions::from_bits(PlayerActions::JUMP | PlayerActions::SHOOT);
    assert_eq!(a.0, 0x09);
    assert!(a.contains(PlayerActions::JUMP));
    assert!(a.contains(PlayerActions::SHOOT));
    assert!(!a.contains(PlayerActions::CROUCH));
    assert_eq!(PlayerActions::empty().0, 0);
    let flags = [
        PlayerActions::JUMP,
        PlayerActions::CROUCH,
        PlayerActions::SPRINT,
        PlayerActions::SHOOT,
        PlayerActions::RELOAD,
        PlayerActions::LEAN_LEFT,
        PlayerActions::LEAN_RIGHT,
    ];
    for (i, f) in flags.iter().enumerate() {
        assert_eq!(*f, 1u8 << i);
    }
}

#[test]
fn player_actions_set_keeps_other_flags() {
    let mut a = PlayerActions::from_bits(PlayerActions::RELOAD | PlayerActions::LEAN_LEFT);
    a.set(PlayerActions::LEAN_RIGHT);
    assert_eq!(a.0, 0x70);
    a.clear(PlayerActions::LEAN_LEFT);
    assert_eq!(a.0, 0x50);
    a.set_if(PlayerActions::JUMP, true);
    assert_eq!(a.0, 0x51);
}

#[test]
fn player_actions_default_is_empty() {
    let a = PlayerActions::default();
    assert_eq!(a, PlayerActions::empty());
    assert!(!a.contains(PlayerActions::JUMP));
}

#[test]
fn gait_prefers_crouch_then_sprint() {
    let both = PlayerActions::from_bits(PlayerActions::CROUCH | PlayerActions::SPRINT);
    assert_eq!(gait(both), Gait::Crouch);
    assert_eq!(gait(PlayerActions::from_bits(PlayerActions::SPRINT)), Gait::Sprint);
    assert_eq!(gait(PlayerActions::from_bits(PlayerActions::JUMP)), Gait::Walk);
    assert_eq!(gait(PlayerActions::empty()), Gait::Walk);
    let jump = PlayerActions::from_bits(PlayerActions::JUMP);
    assert!(starts_jump(jump, true));
    assert!(!starts_jump(jump, false));
    assert!(!starts_jump(PlayerActions::empty(), true));
}
