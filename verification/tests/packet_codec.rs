//! Tests for the control-packet wire format: encode, decode and their laws.

use r_extcap::controls::{ControlCommand, ControlPacket, DecodeError};

#[test]
fn test_to_bytes() {
    let packet = ControlPacket::new_with_payload(
        123,
        ControlCommand::InformationMessage,
        b"testing123".to_vec(),
    );
    let full_bytes = [packet.to_header_bytes().as_slice(), packet.payload.as_slice()].concat();
    let (parsed_packet, used) = ControlPacket::parse(&full_bytes).unwrap();
    assert_eq!(packet, parsed_packet);
    assert_eq!(used, full_bytes.len());
}

#[test]
fn information_message_exact_bytes() {
    // Control id 123, command InformationMessage (7), payload "testing123":
    // payload length 10, so message_length 12 = 0x00000C big-endian.
    let packet = ControlPacket::new_with_payload(
        123,
        ControlCommand::InformationMessage,
        b"testing123".to_vec(),
    );
    let bytes = packet.encode();
    let mut expected = vec![0x54, 0x00, 0x00, 0x0C, 123, 7];
    expected.extend_from_slice(b"testing123");
    assert_eq!(bytes, expected);

    let (parsed, used) = ControlPacket::parse(&bytes).unwrap();
    assert_eq!(used, bytes.len());
    assert_eq!(parsed.sync_pipe_indication, b'T');
    assert_eq!(parsed.message_length, 12);
    assert_eq!(parsed.control_number, 123);
    assert_eq!(parsed.command, ControlCommand::InformationMessage);
    assert_eq!(parsed.payload, b"testing123".to_vec());
}

#[test]
fn round_trip_all_commands() {
    let commands = [
        ControlCommand::Initialized,
        ControlCommand::SetValue,
        ControlCommand::Add,
        ControlCommand::Remove,
        ControlCommand::Enable,
        ControlCommand::Disable,
        ControlCommand::StatusbarMessage,
        ControlCommand::InformationMessage,
        ControlCommand::WarningMessage,
        ControlCommand::ErrorMessage,
    ];
    for (i, command) in commands.iter().enumerate() {
        let packet = ControlPacket::new_with_payload(i as u8, *command, vec![1, 2, 3, i as u8]);
        let bytes = packet.encode();
        let (parsed, used) = ControlPacket::parse(&bytes).unwrap();
        assert_eq!(parsed, packet);
        assert_eq!(used, bytes.len());
    }
}

#[test]
fn round_trip_empty_payload() {
    // A packet with an empty payload is valid; message_length is exactly 2.
    let packet = ControlPacket::new(9, ControlCommand::Initialized);
    assert_eq!(packet.message_length, 2);
    let bytes = packet.encode();
    assert_eq!(bytes, vec![0x54, 0x00, 0x00, 0x02, 9, 0]);
    let (parsed, used) = ControlPacket::parse(&bytes).unwrap();
    assert_eq!(parsed, packet);
    assert_eq!(used, 6);
}

#[test]
fn incomplete_then_complete_at_every_boundary() {
    let packet =
        ControlPacket::new_with_payload(7, ControlCommand::SetValue, b"split me".to_vec());
    let bytes = packet.encode();
    for i in 0..bytes.len() {
        let needed = if i < 6 { 6 - i } else { bytes.len() - i };
        match ControlPacket::parse(&bytes[..i]) {
            Err(DecodeError::Incomplete { needed: reported }) => assert_eq!(reported, needed),
            other => panic!("prefix of {} bytes decoded to {:?}", i, other),
        }
    }
    let (parsed, used) = ControlPacket::parse(&bytes).unwrap();
    assert_eq!(parsed, packet);
    assert_eq!(used, bytes.len());
}

#[test]
fn trailing_bytes_left_alone() {
    let packet = ControlPacket::new_with_payload(1, ControlCommand::Add, b"abc".to_vec());
    let mut bytes = packet.encode();
    let frame_length = bytes.len();
    bytes.extend_from_slice(b"extra");
    let (parsed, used) = ControlPacket::parse(&bytes).unwrap();
    assert_eq!(parsed, packet);
    assert_eq!(used, frame_length);
}

#[test]
fn sync_byte_rejection() {
    // A 6-byte header whose first byte is not 'T' must be rejected even if
    // the rest of the header is well formed.
    let bytes = vec![0x55, 0x00, 0x00, 0x02, 1, 0];
    match ControlPacket::parse(&bytes) {
        Err(DecodeError::SyncIndicatorMismatch { found }) => assert_eq!(found, 0x55),
        other => panic!("bad sync byte decoded to {:?}", other),
    }
}

#[test]
fn unknown_command_rejected() {
    let bytes = vec![0x54, 0x00, 0x00, 0x02, 1, 10];
    match ControlPacket::parse(&bytes) {
        Err(DecodeError::UnknownCommand { found }) => assert_eq!(found, 10),
        other => panic!("unknown command decoded to {:?}", other),
    }
}

#[test]
fn undersized_message_length_rejected() {
    let bytes = vec![0x54, 0x00, 0x00, 0x01, 1, 0];
    match ControlPacket::parse(&bytes) {
        Err(DecodeError::InvalidMessageLength { length }) => assert_eq!(length, 1),
        other => panic!("undersized length decoded to {:?}", other),
    }
}

#[test]
fn command_bytes_round_trip() {
    for byte in 0u8..=9 {
        let command = ControlCommand::from_byte(byte).unwrap();
        assert_eq!(command.byte(), byte);
    }
    assert!(ControlCommand::from_byte(10).is_none());
    assert!(ControlCommand::from_byte(255).is_none());
}

#[test]
fn into_owned_keeps_the_packet() {
    let packet = ControlPacket::new_with_payload(3, ControlCommand::SetValue, vec![1]);
    let owned = packet.clone().into_owned();
    assert_eq!(owned, packet);
}
