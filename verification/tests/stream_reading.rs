//! Tests for the byte stream, the frame reader and the channel-backed
//! reader, including the sender-to-reader ordering guarantee.

use r_extcap::controls::synchronous::{
    ChannelExtcapControlReader, ExtcapControlReader, ExtcapControlSender,
    ExtcapControlSenderTrait, ReadControlError, ReadPacketStatus,
};
use r_extcap::controls::util::{ByteStream, ReadExactStatus};
use r_extcap::controls::{ControlCommand, ControlPacket, DecodeError};

#[test]
fn util_try_read_exact_success() {
    let mut stream = ByteStream::from_bytes(b"test".to_vec());
    match stream.try_read_exact(4) {
        ReadExactStatus::Bytes(bytes) => assert_eq!(bytes, b"test".to_vec()),
        other => panic!("expected the full read, got {:?}", other),
    }
}

#[test]
fn util_try_read_exact_long_success() {
    let mut stream = ByteStream::from_bytes(b"testing long string".to_vec());
    match stream.try_read_exact(4) {
        ReadExactStatus::Bytes(bytes) => assert_eq!(bytes, b"test".to_vec()),
        other => panic!("expected the full read, got {:?}", other),
    }
    match stream.try_read_exact(4) {
        ReadExactStatus::Bytes(bytes) => assert_eq!(bytes, b"ing ".to_vec()),
        other => panic!("expected the full read, got {:?}", other),
    }
}

#[test]
fn util_try_read_exact_none() {
    let mut stream = ByteStream::from_bytes(b"".to_vec());
    assert_eq!(stream.try_read_exact(4), ReadExactStatus::EndOfStream);
}

#[test]
fn util_try_read_exact_unexpected_eof() {
    let mut stream = ByteStream::from_bytes(b"tt".to_vec());
    assert_eq!(stream.try_read_exact(4), ReadExactStatus::UnexpectedEof);
}

#[test]
fn try_read_exact_across_pushed_chunks() {
    // An exact read succeeds even when the bytes arrived over several
    // underlying reads.
    let mut stream = ByteStream::new();
    stream.push_chunk(b"te");
    assert_eq!(stream.try_read_exact(4), ReadExactStatus::NeedMoreData);
    stream.push_chunk(b"st");
    match stream.try_read_exact(4) {
        ReadExactStatus::Bytes(bytes) => assert_eq!(bytes, b"test".to_vec()),
        other => panic!("expected the full read, got {:?}", other),
    }
}

fn read_packet(reader: &mut ExtcapControlReader) -> ControlPacket {
    match reader.read_control_packet() {
        Ok(ReadPacketStatus::Packet(packet)) => packet,
        other => panic!("expected a packet, got {:?}", other),
    }
}

#[test]
fn reader_reads_whole_frame() {
    let packet = ControlPacket::new_with_payload(5, ControlCommand::SetValue, b"on".to_vec());
    let mut reader = ExtcapControlReader::from_bytes(packet.encode());
    assert_eq!(read_packet(&mut reader), packet);
    assert_eq!(reader.read_control_packet(), Ok(ReadPacketStatus::EndOfStream));
}

#[test]
fn reader_defers_split_frames() {
    // Feeding the encoded frame one byte at a time must report "need more"
    // at every prefix and produce the packet exactly at the full length.
    let packet =
        ControlPacket::new_with_payload(11, ControlCommand::Add, b"brick by brick".to_vec());
    let bytes = packet.encode();
    let mut reader = ExtcapControlReader::new();
    for &byte in &bytes[..bytes.len() - 1] {
        reader.push_chunk(&[byte]);
        assert_eq!(reader.read_control_packet(), Ok(ReadPacketStatus::NeedMoreData));
    }
    reader.push_chunk(&bytes[bytes.len() - 1..]);
    assert_eq!(read_packet(&mut reader), packet);
    assert_eq!(reader.read_control_packet(), Ok(ReadPacketStatus::NeedMoreData));
    reader.close();
    assert_eq!(reader.read_control_packet(), Ok(ReadPacketStatus::EndOfStream));
}

#[test]
fn reader_clean_end_of_stream() {
    let mut reader = ExtcapControlReader::from_bytes(Vec::new());
    assert_eq!(reader.read_control_packet(), Ok(ReadPacketStatus::EndOfStream));
}

#[test]
fn reader_torn_header_is_an_error() {
    // A stream that ends with a partial header is an unexpected EOF, never
    // a clean end.
    let mut reader = ExtcapControlReader::from_bytes(vec![0x54, 0x00, 0x00]);
    assert_eq!(reader.read_control_packet(), Err(ReadControlError::UnexpectedEof));
}

#[test]
fn reader_torn_payload_is_an_error() {
    let packet = ControlPacket::new_with_payload(1, ControlCommand::SetValue, b"abcd".to_vec());
    let bytes = packet.encode();
    let mut reader = ExtcapControlReader::from_bytes(bytes[..bytes.len() - 1].to_vec());
    assert_eq!(reader.read_control_packet(), Err(ReadControlError::UnexpectedEof));
}

#[test]
fn reader_rejects_bad_sync_byte() {
    let mut reader = ExtcapControlReader::from_bytes(vec![0x58, 0x00, 0x00, 0x02, 1, 0]);
    assert_eq!(
        reader.read_control_packet(),
        Err(ReadControlError::ParseError(DecodeError::SyncIndicatorMismatch { found: 0x58 }))
    );
}

#[test]
fn reader_rejects_unknown_command() {
    let mut reader = ExtcapControlReader::from_bytes(vec![0x54, 0x00, 0x00, 0x02, 1, 99]);
    assert_eq!(
        reader.read_control_packet(),
        Err(ReadControlError::ParseError(DecodeError::UnknownCommand { found: 99 }))
    );
}

#[test]
fn sender_and_reader_preserve_order() {
    // Packets sent through one sender are observed by a reader on the other
    // end in the order send was called.
    let first = ControlPacket::new_with_payload(1, ControlCommand::SetValue, b"one".to_vec());
    let second = ControlPacket::new(2, ControlCommand::Enable);
    let third =
        ControlPacket::new_with_payload(3, ControlCommand::StatusbarMessage, b"three".to_vec());

    let mut sender = ExtcapControlSender::new();
    sender.send(first.clone());
    sender.send(second.clone());
    sender.send(third.clone());

    let mut reader = ExtcapControlReader::from_bytes(sender.take_bytes());
    assert_eq!(read_packet(&mut reader), first);
    assert_eq!(read_packet(&mut reader), second);
    assert_eq!(read_packet(&mut reader), third);
    assert_eq!(reader.read_control_packet(), Ok(ReadPacketStatus::EndOfStream));
}

#[test]
fn packet_send_writes_one_frame() {
    let mut sender = ExtcapControlSender::new();
    let packet = ControlPacket::new_with_payload(4, ControlCommand::WarningMessage, b"careful".to_vec());
    packet.clone().send(&mut sender);
    assert_eq!(sender.sent_bytes(), &packet.encode());
}

#[test]
fn optional_sender_is_a_silent_no_op() {
    let mut sender: Option<ExtcapControlSender> = None;
    sender.send(ControlPacket::new(1, ControlCommand::Enable));
    sender.info_message("nobody is listening");

    let mut present = Some(ExtcapControlSender::new());
    let packet = ControlPacket::new(1, ControlCommand::Enable);
    present.send(packet.clone());
    assert_eq!(present.unwrap().take_bytes(), packet.encode());
}

#[test]
fn sender_message_helpers_target_the_unused_control() {
    let mut sender = ExtcapControlSender::new();
    sender.info_message("info");
    sender.warning_message("warn");
    sender.error_message("err");
    sender.status_message("status");

    let mut reader = ExtcapControlReader::from_bytes(sender.take_bytes());
    let expectations: [(ControlCommand, &[u8]); 4] = [
        (ControlCommand::InformationMessage, b"info"),
        (ControlCommand::WarningMessage, b"warn"),
        (ControlCommand::ErrorMessage, b"err"),
        (ControlCommand::StatusbarMessage, b"status"),
    ];
    for (command, payload) in expectations {
        let packet = read_packet(&mut reader);
        assert_eq!(packet.control_number, 255);
        assert_eq!(packet.command, command);
        assert_eq!(packet.payload, payload.to_vec());
    }
    assert_eq!(reader.read_control_packet(), Ok(ReadPacketStatus::EndOfStream));
}

#[test]
fn channel_reader_hands_out_frames_in_order_then_closes() {
    // A pipe receives 3 valid frames and then closes. Before anything is
    // forwarded, try_read returns empty; after the worker has drained the
    // pipe, repeated try_read calls return the 3 frames in order and then
    // empty, and a blocking read reports the closed channel.
    let frames = [
        ControlPacket::new(0, ControlCommand::Initialized),
        ControlPacket::new_with_payload(2, ControlCommand::SetValue, vec![1]),
        ControlPacket::new_with_payload(0, ControlCommand::SetValue, b"hello".to_vec()),
    ];
    let mut wire = Vec::new();
    for frame in &frames {
        wire.extend_from_slice(&frame.encode());
    }

    let (tx, rx) = std::sync::mpsc::sync_channel::<ControlPacket>(10);
    let channel_reader = ChannelExtcapControlReader::new(rx);
    assert!(channel_reader.try_read_packet().is_none());

    // The worker loop: drain the reader, forwarding every packet into the
    // bounded queue, and drop the sending half when the stream ends.
    let mut reader = ExtcapControlReader::new();
    reader.push_chunk(&wire[..7]);
    reader.push_chunk(&wire[7..]);
    reader.close();
    loop {
        match reader.read_control_packet() {
            Ok(ReadPacketStatus::Packet(packet)) => tx.send(packet).unwrap(),
            Ok(ReadPacketStatus::EndOfStream) => break,
            other => panic!("worker hit {:?}", other),
        }
    }
    drop(tx);

    for frame in &frames {
        assert_eq!(channel_reader.try_read_packet().as_ref(), Some(frame));
    }
    assert!(channel_reader.try_read_packet().is_none());
    assert!(channel_reader.read_packet().is_none());
}
