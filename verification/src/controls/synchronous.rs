//! Handling of the control pipes with blocking transports.
//!
//! Three main types are provided here:
//!
//! * [`ExtcapControlSender`] implements the sending side: packets go in,
//!   wire bytes come out, in order, one flushed frame per packet.
//! * [`ExtcapControlReader`] implements the receiving side: bytes come in,
//!   split however the pipe happened to split them, and complete packets
//!   come out.
//! * [`ChannelExtcapControlReader`] wraps a bounded in-process queue fed by
//!   a background worker that owns the reading, so that a capture loop can
//!   poll for control packets without blocking.
//!
//! None of these touches a pipe itself: the front end that owns the file
//! handles moves raw bytes between them and the transport.

use vstd::prelude::*;

use crate::controls::util::{ByteStream, ReadExactStatus};
use crate::controls::{
    be24_value, decode_spec, ControlCommand, ControlPacket, DecodeError, SpecPacket,
    MAX_MESSAGE_LENGTH, MIN_MESSAGE_LENGTH, SYNC_PIPE_INDICATION,
};

verus! {

/// Error returned by control-packet read operations. An incomplete frame is
/// never an error: the reader reports it through
/// [`ReadPacketStatus::NeedMoreData`] instead and waits for more bytes.
#[derive(Clone, Copy, Debug, PartialEq, Eq, Structural)]
pub enum ReadControlError {
    /// The incoming bytes do not form a valid frame: wrong sync byte,
    /// impossible length or unknown command. There is no way to
    /// resynchronise, so the channel should be torn down.
    ParseError(DecodeError),
    /// The stream ended in the middle of a frame: the host closed the pipe
    /// while a message was only partially sent. Distinct from the clean end
    /// of stream reported by [`ReadPacketStatus::EndOfStream`].
    UnexpectedEof,
}

/// The successful outcomes of one read attempt.
#[derive(Debug, PartialEq, Eq)]
pub enum ReadPacketStatus {
    /// One complete packet, consumed from the stream.
    Packet(ControlPacket),
    /// The stream ended cleanly at a frame boundary: normal termination,
    /// not an error.
    EndOfStream,
    /// The buffered bytes do not yet hold a complete frame and the stream
    /// is still open: push more bytes and try again. Nothing is consumed.
    NeedMoreData,
}

enum FrameState {
    AwaitingHeader,
    AwaitingPayload { control_number: u8, command: ControlCommand, message_length: u32 },
}

impl FrameState {
    spec fn wf(self) -> bool {
        match self {
            FrameState::AwaitingHeader => true,
            FrameState::AwaitingPayload { message_length, .. } => {
                MIN_MESSAGE_LENGTH <= message_length <= MAX_MESSAGE_LENGTH
            },
        }
    }

    /// The already-consumed header bytes this state stands for.
    spec fn spec_bytes(self) -> Seq<u8> {
        match self {
            FrameState::AwaitingHeader => Seq::empty(),
            FrameState::AwaitingPayload { control_number, command, message_length } => (SpecPacket {
                sync_pipe_indication: SYNC_PIPE_INDICATION,
                message_length,
                control_number,
                command,
                payload: Seq::empty(),
            }).spec_header_bytes(),
        }
    }
}

/// A reader for the incoming control pipe: a state machine that turns an
/// arbitrarily split byte stream into a sequence of complete
/// [`ControlPacket`]s.
///
/// The front end that owns the pipe pushes whatever bytes each underlying
/// read yielded with [`push_chunk`][Self::push_chunk], marks the end of the
/// stream with [`close`][Self::close], and drains packets with
/// [`read_control_packet`][Self::read_control_packet]. The reader never
/// loses bytes across calls: a frame split at any boundary is reassembled
/// exactly as if it had arrived whole.
pub struct ExtcapControlReader {
    stream: ByteStream,
    state: FrameState,
}

impl ExtcapControlReader {
    /// Internal consistency of the reader.
    pub closed spec fn wf(self) -> bool {
        self.state.wf()
    }

    /// The received bytes not yet returned as packets, including the header
    /// bytes of a frame whose payload is still outstanding. Every outcome of
    /// [`read_control_packet`][Self::read_control_packet] is a function of
    /// this sequence and of [`is_closed`][Self::is_closed] alone.
    pub closed spec fn buffered_input(self) -> Seq<u8> {
        self.state.spec_bytes() + self.stream.pending()
    }

    /// Whether the end of the incoming stream has been reached.
    pub closed spec fn is_closed(self) -> bool {
        self.stream.is_closed()
    }

    /// A reader with nothing received yet and the stream still open.
    pub fn new() -> (r: Self)
        ensures
            r.wf(),
            r.buffered_input() == Seq::<u8>::empty(),
            !r.is_closed(),
    {
        let r = ExtcapControlReader { stream: ByteStream::new(), state: FrameState::AwaitingHeader };
        proof {
            assert(r.buffered_input() =~= Seq::<u8>::empty());
        }
        r
    }

    /// A reader over a complete input: `bytes` is the whole stream, already
    /// ended.
    pub fn from_bytes(bytes: Vec<u8>) -> (r: Self)
        ensures
            r.wf(),
            r.buffered_input() == bytes@,
            r.is_closed(),
    {
        let r = ExtcapControlReader {
            stream: ByteStream::from_bytes(bytes),
            state: FrameState::AwaitingHeader,
        };
        proof {
            assert(r.buffered_input() =~= r.stream.pending());
        }
        r
    }

    /// Hands the reader the bytes of one underlying read, of whatever size
    /// the pipe yielded.
    pub fn push_chunk(&mut self, chunk: &[u8])
        requires
            old(self).wf(),
            !old(self).is_closed(),
            old(self).buffered_input().len() + chunk@.len() + 6 <= usize::MAX,
        ensures
            final(self).wf(),
            final(self).buffered_input() == old(self).buffered_input() + chunk@,
            !final(self).is_closed(),
    {
        self.stream.push_chunk(chunk);
        proof {
            assert(final(self).buffered_input() =~= old(self).buffered_input() + chunk@);
        }
    }

    /// Records that the stream has ended: the pipe reported end of file and
    /// no more bytes will come.
    pub fn close(&mut self)
        requires
            old(self).wf(),
        ensures
            final(self).wf(),
            final(self).buffered_input() == old(self).buffered_input(),
            final(self).is_closed(),
    {
        self.stream.close();
    }

    /// Attempts to read one complete control packet from the buffered
    /// stream.
    ///
    /// The outcome follows [`decode_spec`] on the buffered bytes exactly:
    /// a complete frame is consumed and returned; an incomplete frame on an
    /// open stream asks for more data and consumes nothing; an incomplete
    /// frame on a closed stream is an unexpected end of file if any bytes
    /// were buffered, and a clean end of stream if none were; a framing
    /// error is returned as such and the channel is considered
    /// desynchronised.
    pub fn read_control_packet(&mut self) -> (r: Result<ReadPacketStatus, ReadControlError>)
        requires
            old(self).wf(),
        ensures
            final(self).wf(),
            final(self).is_closed() == old(self).is_closed(),
            match r {
                Ok(ReadPacketStatus::Packet(packet)) => {
                    &&& decode_spec(old(self).buffered_input()) matches Ok((spec_packet, used))
                    &&& packet@ == spec_packet
                    &&& packet@.wf()
                    &&& final(self).buffered_input() == old(self).buffered_input().skip(
                        6 + spec_packet.payload.len() as int,
                    )
                },
                Ok(ReadPacketStatus::EndOfStream) => {
                    &&& old(self).is_closed()
                    &&& old(self).buffered_input().len() == 0
                    &&& final(self).buffered_input() == old(self).buffered_input()
                },
                Ok(ReadPacketStatus::NeedMoreData) => {
                    &&& !old(self).is_closed()
                    &&& decode_spec(old(self).buffered_input()) matches Err(
                        DecodeError::Incomplete { .. },
                    )
                    &&& final(self).buffered_input() == old(self).buffered_input()
                },
                Err(ReadControlError::UnexpectedEof) => {
                    &&& old(self).is_closed()
                    &&& old(self).buffered_input().len() > 0
                    &&& decode_spec(old(self).buffered_input()) matches Err(
                        DecodeError::Incomplete { .. },
                    )
                    &&& final(self).buffered_input() == old(self).buffered_input()
                },
                Err(ReadControlError::ParseError(e)) => {
                    &&& decode_spec(old(self).buffered_input()) == Err::<(SpecPacket, int), _>(e)
                    &&& !(e matches DecodeError::Incomplete { .. })
                },
            },
    {
        match self.state {
            FrameState::AwaitingHeader => {
                let ghost input = self.buffered_input();
                match self.stream.try_read_exact(6) {
                    ReadExactStatus::EndOfStream => Ok(ReadPacketStatus::EndOfStream),
                    ReadExactStatus::NeedMoreData => Ok(ReadPacketStatus::NeedMoreData),
                    ReadExactStatus::UnexpectedEof => Err(ReadControlError::UnexpectedEof),
                    ReadExactStatus::Bytes(header) => {
                        proof {
                            assert(header@[0] == input[0]);
                            assert(header@[1] == input[1]);
                            assert(header@[2] == input[2]);
                            assert(header@[3] == input[3]);
                            assert(header@[4] == input[4]);
                            assert(header@[5] == input[5]);
                        }
                        if header[0] != SYNC_PIPE_INDICATION {
                            let found = header[0];
                            let e = DecodeError::SyncIndicatorMismatch { found };
                            return Err(ReadControlError::ParseError(e));
                        }
                        let message_length: u32 = (header[1] as u32) * 0x10000 + (header[2] as u32)
                            * 0x100 + (header[3] as u32);
                        if message_length < MIN_MESSAGE_LENGTH {
                            let e = DecodeError::InvalidMessageLength { length: message_length };
                            return Err(ReadControlError::ParseError(e));
                        }
                        match ControlCommand::from_byte(header[5]) {
                            None => {
                                let found = header[5];
                                let e = DecodeError::UnknownCommand { found };
                                Err(ReadControlError::ParseError(e))
                            },
                            Some(command) => {
                                self.state = FrameState::AwaitingPayload {
                                    control_number: header[4],
                                    command,
                                    message_length,
                                };
                                proof {
                                    crate::controls::lemma_be24_bytes_of_value(
                                        header@[1],
                                        header@[2],
                                        header@[3],
                                    );
                                    assert(self.state.spec_bytes() =~= header@);
                                    assert(self.buffered_input() =~= input);
                                }
                                self.read_payload()
                            },
                        }
                    },
                }
            },
            FrameState::AwaitingPayload { .. } => self.read_payload(),
        }
    }

    /// Reads the payload of the frame whose header has been consumed,
    /// completing the packet if enough bytes are buffered.
    fn read_payload(&mut self) -> (r: Result<ReadPacketStatus, ReadControlError>)
        requires
            old(self).wf(),
            old(self).state is AwaitingPayload,
        ensures
            final(self).wf(),
            final(self).is_closed() == old(self).is_closed(),
            match r {
                Ok(ReadPacketStatus::Packet(packet)) => {
                    &&& decode_spec(old(self).buffered_input()) matches Ok((spec_packet, used))
                    &&& packet@ == spec_packet
                    &&& packet@.wf()
                    &&& final(self).buffered_input() == old(self).buffered_input().skip(
                        6 + spec_packet.payload.len() as int,
                    )
                },
                Ok(ReadPacketStatus::EndOfStream) => false,
                Ok(ReadPacketStatus::NeedMoreData) => {
                    &&& !old(self).is_closed()
                    &&& decode_spec(old(self).buffered_input()) matches Err(
                        DecodeError::Incomplete { .. },
                    )
                    &&& final(self).buffered_input() == old(self).buffered_input()
                },
                Err(ReadControlError::UnexpectedEof) => {
                    &&& old(self).is_closed()
                    &&& old(self).buffered_input().len() > 0
                    &&& decode_spec(old(self).buffered_input()) matches Err(
                        DecodeError::Incomplete { .. },
                    )
                    &&& final(self).buffered_input() == old(self).buffered_input()
                },
                Err(ReadControlError::ParseError(_)) => false,
            },
    {
        let (control_number, command, message_length) = match self.state {
            FrameState::AwaitingPayload { control_number, command, message_length } => (
                control_number,
                command,
                message_length,
            ),
            FrameState::AwaitingHeader => {
                proof {
                    assert(false);
                }
                (0u8, ControlCommand::Initialized, 0u32)
            },
        };
        let ghost input = self.buffered_input();
        let ghost header = self.state.spec_bytes();
        proof {
            self.lemma_header_decodes(input);
        }
        let payload_length = (message_length - MIN_MESSAGE_LENGTH) as usize;
        match self.stream.try_read_exact(payload_length) {
            ReadExactStatus::Bytes(payload) => {
                let packet = ControlPacket {
                    sync_pipe_indication: SYNC_PIPE_INDICATION,
                    message_length,
                    control_number,
                    command,
                    payload,
                };
                self.state = FrameState::AwaitingHeader;
                proof {
                    let total = 6 + payload_length as int;
                    assert(input.subrange(6, total) =~= packet@.payload);
                    assert(self.buffered_input() =~= input.skip(total));
                }
                Ok(ReadPacketStatus::Packet(packet))
            },
            ReadExactStatus::NeedMoreData => Ok(ReadPacketStatus::NeedMoreData),
            ReadExactStatus::EndOfStream => Err(ReadControlError::UnexpectedEof),
            ReadExactStatus::UnexpectedEof => Err(ReadControlError::UnexpectedEof),
        }
    }

    /// In the payload state the buffered input starts with the six valid
    /// header bytes this state stands for, so decoding it can only succeed
    /// or report the missing part of the payload.
    proof fn lemma_header_decodes(self, input: Seq<u8>)
        requires
            self.wf(),
            self.state is AwaitingPayload,
            input == self.buffered_input(),
        ensures
            input.len() >= 6,
            input[0] == SYNC_PIPE_INDICATION,
            be24_value(input[1], input[2], input[3]) == self.state->message_length,
            input[4] == self.state->AwaitingPayload_control_number,
            ControlCommand::spec_from_byte(input[5]) == Some(self.state->AwaitingPayload_command),
            input.len() - 6 == self.stream.pending().len(),
            input.skip(6) =~= self.stream.pending(),
    {
        let header = self.state.spec_bytes();
        assert(header.len() == 6);
        let ml = self.state->message_length;
        crate::controls::lemma_be24_round_trip(ml);
        assert(header[1] == crate::controls::be24_bytes(ml)[0]);
        assert(header[2] == crate::controls::be24_bytes(ml)[1]);
        assert(header[3] == crate::controls::be24_bytes(ml)[2]);
        self.state->AwaitingPayload_command.lemma_byte_round_trip();
        assert(input.skip(6) =~= self.stream.pending());
    }
}

/// The reserved control number for messages tied to no particular toolbar
/// control, such as status-bar and dialog messages.
pub const UNUSED_CONTROL_NUMBER: u8 = 255;

/// A sender of control packets. Besides the one required primitive,
/// [`send`][Self::send], the trait provides convenience methods that wrap a
/// message string into the right packet for the status bar and for the
/// information, warning and error dialogs.
///
/// Senders serialise into an in-memory wire log; the front end that owns the
/// outgoing pipe drains that log (or encodes packets directly) and performs
/// the actual write and flush. A sender whose channel is absent is modelled
/// by `Option`: `None` accepts every packet as a silent no-op, so call sites
/// need not branch on whether a control pipe was supplied.
pub trait ExtcapControlSenderTrait: Sized {
    /// Whether this sender actually records packets; a `None` sender does
    /// not.
    spec fn is_active(&self) -> bool;

    /// Every byte this sender has put on the wire, in order.
    spec fn wire_log(&self) -> Seq<u8>;

    /// Sends a control packet: its frame bytes, header then payload, are
    /// appended to the wire log as one unit, in call order.
    fn send(&mut self, packet: ControlPacket)
        requires
            packet@.wf(),
        ensures
            final(self).is_active() == old(self).is_active(),
            final(self).wire_log() == old(self).wire_log() + if old(self).is_active() {
                packet@.spec_encode()
            } else {
                Seq::<u8>::empty()
            },
    ;

    /// Shows a message in an information dialog popup. The message stays on
    /// the screen until the user dismisses the popup.
    fn info_message(&mut self, message: &str)
        requires
            vstd::utf8::encode_utf8(message@).len() + MIN_MESSAGE_LENGTH
                <= MAX_MESSAGE_LENGTH,
        ensures
            final(self).is_active() == old(self).is_active(),
            final(self).wire_log() == old(self).wire_log() + if old(self).is_active() {
                message_packet(ControlCommand::InformationMessage, message@).spec_encode()
            } else {
                Seq::<u8>::empty()
            },
    {
        let packet = new_message_packet(ControlCommand::InformationMessage, message);
        self.send(packet);
    }

    /// Shows a message in a warning dialog popup.
    fn warning_message(&mut self, message: &str)
        requires
            vstd::utf8::encode_utf8(message@).len() + MIN_MESSAGE_LENGTH
                <= MAX_MESSAGE_LENGTH,
        ensures
            final(self).is_active() == old(self).is_active(),
            final(self).wire_log() == old(self).wire_log() + if old(self).is_active() {
                message_packet(ControlCommand::WarningMessage, message@).spec_encode()
            } else {
                Seq::<u8>::empty()
            },
    {
        let packet = new_message_packet(ControlCommand::WarningMessage, message);
        self.send(packet);
    }

    /// Shows a message in an error dialog popup.
    fn error_message(&mut self, message: &str)
        requires
            vstd::utf8::encode_utf8(message@).len() + MIN_MESSAGE_LENGTH
                <= MAX_MESSAGE_LENGTH,
        ensures
            final(self).is_active() == old(self).is_active(),
            final(self).wire_log() == old(self).wire_log() + if old(self).is_active() {
                message_packet(ControlCommand::ErrorMessage, message@).spec_encode()
            } else {
                Seq::<u8>::empty()
            },
    {
        let packet = new_message_packet(ControlCommand::ErrorMessage, message);
        self.send(packet);
    }

    /// Shows a message in the status bar at the bottom of the host window.
    /// The message stays for a few seconds or until another one overwrites
    /// it.
    fn status_message(&mut self, message: &str)
        requires
            vstd::utf8::encode_utf8(message@).len() + MIN_MESSAGE_LENGTH
                <= MAX_MESSAGE_LENGTH,
        ensures
            final(self).is_active() == old(self).is_active(),
            final(self).wire_log() == old(self).wire_log() + if old(self).is_active() {
                message_packet(ControlCommand::StatusbarMessage, message@).spec_encode()
            } else {
                Seq::<u8>::empty()
            },
    {
        let packet = new_message_packet(ControlCommand::StatusbarMessage, message);
        self.send(packet);
    }
}

/// The packet that carries a global message string: addressed to the
/// reserved unused control number, with the message bytes as payload.
pub open spec fn message_packet(command: ControlCommand, message: Seq<char>) -> SpecPacket {
    SpecPacket {
        sync_pipe_indication: SYNC_PIPE_INDICATION,
        message_length: (vstd::utf8::encode_utf8(message).len() + MIN_MESSAGE_LENGTH) as u32,
        control_number: UNUSED_CONTROL_NUMBER,
        command,
        payload: vstd::utf8::encode_utf8(message),
    }
}

/// Builds the packet that [`message_packet`] describes.
fn new_message_packet(command: ControlCommand, message: &str) -> (r: ControlPacket)
    requires
        vstd::utf8::encode_utf8(message@).len() + MIN_MESSAGE_LENGTH <= MAX_MESSAGE_LENGTH,
    ensures
        r@ == message_packet(command, message@),
        r@.wf(),
{
    let payload = vstd::slice::slice_to_vec(message.as_bytes());
    ControlPacket::new_with_payload(UNUSED_CONTROL_NUMBER, command, payload)
}

/// A sender for the outgoing control pipe. Packets are framed here, in call
/// order and without interleaving; the front end that owns the pipe drains
/// [`take_bytes`][Self::take_bytes] and writes and flushes them after each
/// send, so that no partial frame is ever left unflushed.
pub struct ExtcapControlSender {
    out: Vec<u8>,
}

impl ExtcapControlSender {
    /// A sender with an empty wire log.
    pub fn new() -> (r: Self)
        ensures
            r.is_active(),
            r.wire_log() == Seq::<u8>::empty(),
    {
        ExtcapControlSender { out: Vec::new() }
    }

    /// The bytes framed and not yet handed to the transport; the wire log
    /// is emptied.
    pub fn take_bytes(&mut self) -> (r: Vec<u8>)
        ensures
            r@ == old(self).wire_log(),
            final(self).wire_log() == Seq::<u8>::empty(),
            final(self).is_active(),
    {
        let mut taken: Vec<u8> = Vec::new();
        std::mem::swap(&mut taken, &mut self.out);
        taken
    }

    /// The bytes framed so far, in send order.
    pub fn sent_bytes(&self) -> (r: &Vec<u8>)
        ensures
            r@ == self.wire_log(),
    {
        &self.out
    }
}

impl ExtcapControlSenderTrait for ExtcapControlSender {
    closed spec fn is_active(&self) -> bool {
        true
    }

    closed spec fn wire_log(&self) -> Seq<u8> {
        self.out@
    }

    fn send(&mut self, packet: ControlPacket) {
        let bytes = packet.encode();
        self.out.extend_from_slice(bytes.as_slice());
    }
}

impl<T: ExtcapControlSenderTrait> ExtcapControlSenderTrait for Option<T> {
    open spec fn is_active(&self) -> bool {
        match self {
            Some(sender) => sender.is_active(),
            None => false,
        }
    }

    open spec fn wire_log(&self) -> Seq<u8> {
        match self {
            Some(sender) => sender.wire_log(),
            None => Seq::empty(),
        }
    }

    /// Sends through the sender if one is configured; a silent no-op
    /// success otherwise.
    fn send(&mut self, packet: ControlPacket) {
        match self {
            Some(sender) => sender.send(packet),
            None => (),
        }
    }
}

impl ControlPacket {
    /// Sends this control packet to the host using the given sender.
    pub fn send(self, sender: &mut ExtcapControlSender)
        requires
            self@.wf(),
        ensures
            final(sender).wire_log() == old(sender).wire_log() + self@.spec_encode(),
    {
        sender.send(self);
    }
}

/// Declares `std::sync::mpsc::Receiver`, the receiving half of the bounded
/// queue the worker feeds, so it can stand in a field; its values are
/// opaque here and are only touched through the two reads below.
#[verifier::external_type_specification]
#[verifier::external_body]
#[verifier::reject_recursive_types(T)]
pub struct ExReceiver<T>(std::sync::mpsc::Receiver<T>);

/// A reader for the control pipe backed by a bounded in-process queue. A
/// background worker owns the pipe handle and the [`ExtcapControlReader`],
/// forwards each decoded packet into the queue, and terminates when the pipe
/// ends or a frame fails to decode; the queue closing is how the consumer
/// learns of either. The consumer polls
/// [`try_read_packet`][Self::try_read_packet] in its hot loop without ever
/// blocking, and blocks in [`read_packet`][Self::read_packet] only where it
/// means to wait, such as for the initial `Initialized` handshake.
pub struct ChannelExtcapControlReader {
    /// The channel to receive control packets from.
    pub read_channel: std::sync::mpsc::Receiver<ControlPacket>,
}

impl ChannelExtcapControlReader {
    /// Wraps the receiving half of the queue the worker feeds.
    pub fn new(read_channel: std::sync::mpsc::Receiver<ControlPacket>) -> (r: Self) {
        ChannelExtcapControlReader { read_channel }
    }

    /// Tries to read a buffered control packet, or returns `None` right away
    /// if none is queued. Packets come out in the order the worker queued
    /// them. Whether one is queued depends on the worker's timing, so no
    /// more can be promised of the result.
    ///
    /// Relies on `std::sync::mpsc::Receiver::try_recv`: returns an already
    /// queued value without ever blocking, or an error when the queue is
    /// empty or disconnected, which this maps to `None`.
    #[verifier::external_body]
    pub fn try_read_packet(&self) -> Option<ControlPacket> {
        self.read_channel.try_recv().ok()
    }

    /// Reads a control packet, waiting for one to arrive if the queue is
    /// empty. Returns `None` once the queue has closed, that is, once the
    /// worker has terminated and every queued packet has been drained: the
    /// stream of control packets has ended.
    ///
    /// Relies on `std::sync::mpsc::Receiver::recv`: blocks until a value is
    /// queued or every sender is dropped, which this maps to `None`.
    #[verifier::external_body]
    pub fn read_packet(&self) -> Option<ControlPacket> {
        self.read_channel.recv().ok()
    }
}

} // verus!
