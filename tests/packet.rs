use x11rb_core::codec::ParseError;
use x11rb_core::packet::{Event, GenericError, GenericEvent, GE_GENERIC_EVENT, KEYMAP_NOTIFY_EVENT};

fn packet(kind: u8, len: usize, length_field: u32) -> Vec<u8> {
    let mut b = vec![0u8; len];
    b[0] = kind;
    b[4..8].copy_from_slice(&length_field.to_ne_bytes());
    b
}

#[test]
fn error_packet_with_sequence_five() {
    let mut b = packet(0, 32, 0);
    b[2..4].copy_from_slice(&5u16.to_ne_bytes());
    let err = GenericError::try_from(b).unwrap();
    assert_eq!(err.response_type(), 0);
    assert_eq!(err.raw_sequence_number(), Some(5));
}

#[test]
fn reply_length_follows_its_field() {
    assert!(GenericEvent::try_from(packet(1, 40, 2)).is_ok());
    assert_eq!(GenericEvent::try_from(packet(1, 36, 2)).unwrap_err(), ParseError::MalformedPacket);
    assert_eq!(GenericEvent::try_from(packet(1, 32, 2)).unwrap_err(), ParseError::MalformedPacket);
    assert!(GenericEvent::try_from(packet(1, 32, 0)).is_ok());
}

#[test]
fn generic_event_length_follows_its_field() {
    assert!(GenericEvent::try_from(packet(GE_GENERIC_EVENT, 44, 3)).is_ok());
    assert!(GenericEvent::try_from(packet(GE_GENERIC_EVENT | 0x80, 44, 3)).is_ok());
    assert_eq!(
        GenericEvent::try_from(packet(GE_GENERIC_EVENT, 32, 3)).unwrap_err(),
        ParseError::MalformedPacket
    );
}

#[test]
fn other_kinds_have_32_bytes() {
    assert!(GenericEvent::try_from(packet(2, 32, 7)).is_ok());
    assert_eq!(GenericEvent::try_from(packet(2, 36, 1)).unwrap_err(), ParseError::MalformedPacket);
    assert_eq!(GenericEvent::try_from(packet(0, 64, 8)).unwrap_err(), ParseError::MalformedPacket);
}

#[test]
fn short_packet_is_rejected() {
    assert_eq!(GenericEvent::try_from(vec![1u8; 31]).unwrap_err(), ParseError::TruncatedInput);
    assert_eq!(GenericEvent::try_from(Vec::new()).unwrap_err(), ParseError::TruncatedInput);
    assert_eq!(GenericError::try_from(vec![0u8; 8]).unwrap_err(), ParseError::TruncatedInput);
}

#[test]
fn kind_and_origin() {
    let ev = GenericEvent::try_from(packet(0x80 | 12, 32, 0)).unwrap();
    assert_eq!(ev.raw_response_type(), 0x8c);
    assert_eq!(ev.response_type(), 12);
    assert!(!ev.server_generated());
    let ev = GenericEvent::try_from(packet(12, 32, 0)).unwrap();
    assert!(ev.server_generated());
}

#[test]
fn keymap_notify_has_no_sequence() {
    let mut b = packet(KEYMAP_NOTIFY_EVENT, 32, 0);
    b[2] = 3;
    let ev = GenericEvent::try_from(b).unwrap();
    assert_eq!(ev.raw_sequence_number(), None);
    let mut b = packet(KEYMAP_NOTIFY_EVENT | 0x80, 32, 0);
    b[2] = 3;
    assert_eq!(GenericEvent::try_from(b).unwrap().raw_sequence_number(), None);
    let mut b = packet(KEYMAP_NOTIFY_EVENT + 1, 32, 0);
    b[2..4].copy_from_slice(&0x0a0bu16.to_ne_bytes());
    assert_eq!(GenericEvent::try_from(b).unwrap().raw_sequence_number(), Some(0x0a0b));
}

#[test]
fn narrowing_to_error() {
    let mut b = packet(0, 32, 0);
    b[1] = 9;
    let ev = GenericEvent::try_from(b.clone()).unwrap();
    let err = GenericError::try_from_event(ev).unwrap();
    assert_eq!(err.error_code(), 9);
    assert_eq!(err.raw_bytes(), &b[..]);
    let back: GenericEvent = err.into();
    assert_eq!(back.into_buffer(), b);
    let ev = GenericEvent::try_from(packet(2, 32, 0)).unwrap();
    assert_eq!(GenericError::try_from_event(ev).unwrap_err(), ParseError::WrongPacketKind);
    assert_eq!(GenericError::try_from(packet(1, 32, 0)).unwrap_err(), ParseError::WrongPacketKind);
}

#[test]
fn kinds_match_the_core_protocol() {
    assert_eq!(KEYMAP_NOTIFY_EVENT, x11rb_protocol::protocol::xproto::KEYMAP_NOTIFY_EVENT);
    assert_eq!(GE_GENERIC_EVENT, x11rb_protocol::protocol::xproto::GE_GENERIC_EVENT);
}
