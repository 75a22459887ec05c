//! The toolbar controls and the control-packet wire format.
//!
//! Two aspects of "controls" live in this module:
//!
//! 1. The toolbar controls in the host's interface toolbar: UI elements
//!    declared by this program, whose state changes travel as control packets.
//! 2. The control packets themselves: the framed binary messages exchanged
//!    between this program and the host over the control pipes.

pub mod synchronous;
pub mod util;

use vstd::prelude::*;

verus! {

use vstd::string::StringSliceAdditionalSpecFns;

/// The smallest value that `ControlPacket::message_length` can carry: the
/// `control_number` byte and the `command` byte, with an empty payload.
pub const MIN_MESSAGE_LENGTH: u32 = 2;

/// The largest value that fits in the 3-byte big-endian `message_length`
/// field, and with it the bound on `payload.len() + 2`.
pub const MAX_MESSAGE_LENGTH: u32 = 0xFFFFFF;

/// The sync byte that opens every control packet: ASCII `'T'`.
pub const SYNC_PIPE_INDICATION: u8 = 0x54;

/// The command carried by a control packet. A `ControlCommand` is not valid
/// for every control type; for example `Remove` applies only to
/// [`SelectorControl`], and `Initialized` is only ever sent by the host.
#[derive(Clone, Copy, Debug, PartialEq, Eq, Structural)]
pub enum ControlCommand {
    /// Sent by the host to indicate that this program has been initialized
    /// and may start sending packets.
    Initialized,
    /// Either sent by the host when the user interacted with a control, or
    /// sent by this program to change the value shown on a control.
    SetValue,
    /// Sent by this program to add a value to a logger or selector.
    Add,
    /// Sent by this program to remove a value from a selector.
    Remove,
    /// Sent by this program to enable a control.
    Enable,
    /// Sent by this program to disable a control.
    Disable,
    /// Sent by this program to show a message in the status bar.
    StatusbarMessage,
    /// Sent by this program to show a message in an information dialog.
    InformationMessage,
    /// Sent by this program to show a message in a warning dialog.
    WarningMessage,
    /// Sent by this program to show a message in an error dialog.
    ErrorMessage,
}

impl ControlCommand {
    /// The wire value of this command.
    pub open spec fn spec_byte(self) -> u8 {
        match self {
            ControlCommand::Initialized => 0,
            ControlCommand::SetValue => 1,
            ControlCommand::Add => 2,
            ControlCommand::Remove => 3,
            ControlCommand::Enable => 4,
            ControlCommand::Disable => 5,
            ControlCommand::StatusbarMessage => 6,
            ControlCommand::InformationMessage => 7,
            ControlCommand::WarningMessage => 8,
            ControlCommand::ErrorMessage => 9,
        }
    }

    /// The command a wire byte stands for, if any. The vocabulary is closed:
    /// bytes outside it are a decode error, never silently ignored.
    pub open spec fn spec_from_byte(b: u8) -> Option<ControlCommand> {
        if b == 0 {
            Some(ControlCommand::Initialized)
        } else if b == 1 {
            Some(ControlCommand::SetValue)
        } else if b == 2 {
            Some(ControlCommand::Add)
        } else if b == 3 {
            Some(ControlCommand::Remove)
        } else if b == 4 {
            Some(ControlCommand::Enable)
        } else if b == 5 {
            Some(ControlCommand::Disable)
        } else if b == 6 {
            Some(ControlCommand::StatusbarMessage)
        } else if b == 7 {
            Some(ControlCommand::InformationMessage)
        } else if b == 8 {
            Some(ControlCommand::WarningMessage)
        } else if b == 9 {
            Some(ControlCommand::ErrorMessage)
        } else {
            None
        }
    }

    /// Serialises this command to its wire byte.
    pub fn byte(self) -> (r: u8)
        ensures
            r == self.spec_byte(),
    {
        match self {
            ControlCommand::Initialized => 0,
            ControlCommand::SetValue => 1,
            ControlCommand::Add => 2,
            ControlCommand::Remove => 3,
            ControlCommand::Enable => 4,
            ControlCommand::Disable => 5,
            ControlCommand::StatusbarMessage => 6,
            ControlCommand::InformationMessage => 7,
            ControlCommand::WarningMessage => 8,
            ControlCommand::ErrorMessage => 9,
        }
    }

    /// Parses a wire byte into a command, or `None` for a byte outside the
    /// closed vocabulary.
    pub fn from_byte(b: u8) -> (r: Option<ControlCommand>)
        ensures
            r == Self::spec_from_byte(b),
    {
        if b == 0 {
            Some(ControlCommand::Initialized)
        } else if b == 1 {
            Some(ControlCommand::SetValue)
        } else if b == 2 {
            Some(ControlCommand::Add)
        } else if b == 3 {
            Some(ControlCommand::Remove)
        } else if b == 4 {
            Some(ControlCommand::Enable)
        } else if b == 5 {
            Some(ControlCommand::Disable)
        } else if b == 6 {
            Some(ControlCommand::StatusbarMessage)
        } else if b == 7 {
            Some(ControlCommand::InformationMessage)
        } else if b == 8 {
            Some(ControlCommand::WarningMessage)
        } else if b == 9 {
            Some(ControlCommand::ErrorMessage)
        } else {
            None
        }
    }

    /// Round trip: every command byte parses back to the command it came from.
    pub proof fn lemma_byte_round_trip(self)
        ensures
            Self::spec_from_byte(self.spec_byte()) == Some(self),
    {
    }
}

/// The value of a 3-byte big-endian unsigned integer.
pub open spec fn be24_value(b1: u8, b2: u8, b3: u8) -> int {
    (b1 as int) * 0x10000 + (b2 as int) * 0x100 + (b3 as int)
}

/// The 3-byte big-endian encoding of `n`, most significant byte first.
pub open spec fn be24_bytes(n: u32) -> Seq<u8>
    recommends
        n <= MAX_MESSAGE_LENGTH,
{
    seq![(n / 0x10000) as u8, ((n / 0x100) % 0x100) as u8, (n % 0x100) as u8]
}

/// Decoding the 3-byte big-endian encoding of `n` gives back `n`.
pub proof fn lemma_be24_round_trip(n: u32)
    requires
        n <= MAX_MESSAGE_LENGTH,
    ensures
        be24_value(be24_bytes(n)[0], be24_bytes(n)[1], be24_bytes(n)[2]) == n,
{
    assert((n / 0x10000) * 0x10000 + ((n / 0x100) % 0x100) * 0x100 + (n % 0x100) == n)
        by (nonlinear_arith)
        requires
            n <= 0xFFFFFFu32,
    ;
}

/// The mathematical model of a [`ControlPacket`]: the same fields with the
/// payload as a byte sequence.
pub struct SpecPacket {
    /// The sync byte; `'T'` in every well-formed packet.
    pub sync_pipe_indication: u8,
    /// Length of `payload` plus 2, for the `control_number` and `command`
    /// bytes.
    pub message_length: u32,
    /// Which toolbar control the message concerns.
    pub control_number: u8,
    /// The command carried by the packet.
    pub command: ControlCommand,
    /// The payload bytes.
    pub payload: Seq<u8>,
}

impl SpecPacket {
    /// Well-formedness: the invariant every constructed or decoded packet
    /// satisfies. The advertised length counts exactly the `control_number`
    /// byte, the `command` byte and the payload, and fits in 3 bytes.
    pub open spec fn wf(self) -> bool {
        &&& self.sync_pipe_indication == SYNC_PIPE_INDICATION
        &&& self.message_length == self.payload.len() + MIN_MESSAGE_LENGTH
        &&& self.message_length <= MAX_MESSAGE_LENGTH
    }

    /// The 6 header bytes on the wire: sync byte, 3-byte big-endian length,
    /// control number, command byte.
    pub open spec fn spec_header_bytes(self) -> Seq<u8> {
        seq![self.sync_pipe_indication] + be24_bytes(self.message_length) + seq![
            self.control_number,
            self.command.spec_byte(),
        ]
    }

    /// The full frame on the wire: header followed by payload. Exactly
    /// `6 + payload.len()` bytes for a well-formed packet.
    pub open spec fn spec_encode(self) -> Seq<u8> {
        self.spec_header_bytes() + self.payload
    }
}

/// One framed message on the control channel.
///
/// A `ControlPacket` is constructed either by a toolbar-control helper (to be
/// handed to a sender) or by decoding bytes read off the incoming control
/// pipe; it has no life beyond single-use message passing.
#[derive(Clone, Debug, PartialEq, Eq)]
pub struct ControlPacket {
    /// The common sync pipe indication. This protocol uses the value `'T'`.
    pub sync_pipe_indication: u8,
    /// Length of `payload` + 2 bytes for `control_number` and `command`.
    pub message_length: u32,
    /// Unique number identifying the control this message concerns, as
    /// declared in the interface listing phase, or the reserved value 255 for
    /// messages tied to no control.
    pub control_number: u8,
    /// The command associated with this packet.
    pub command: ControlCommand,
    /// Payload specific to the command: for example the message string of an
    /// `InformationMessage`.
    pub payload: Vec<u8>,
}

impl View for ControlPacket {
    type V = SpecPacket;

    open spec fn view(&self) -> SpecPacket {
        SpecPacket {
            sync_pipe_indication: self.sync_pipe_indication,
            message_length: self.message_length,
            control_number: self.control_number,
            command: self.command,
            payload: self.payload@,
        }
    }
}

/// Why a byte sequence does not (or does not yet) decode to a packet.
///
/// `Incomplete` is not a true error: it asks the caller to supply more bytes
/// before trying again. The other variants are framing errors, from which this
/// protocol has no way to resynchronise.
#[derive(Clone, Copy, Debug, PartialEq, Eq, Structural)]
pub enum DecodeError {
    /// Fewer bytes than the frame needs; `needed` more bytes must arrive
    /// before decoding can succeed.
    Incomplete {
        /// How many further bytes the frame needs.
        needed: usize,
    },
    /// The first byte of the header is not the sync byte `'T'`.
    SyncIndicatorMismatch {
        /// The byte found in place of `'T'`.
        found: u8,
    },
    /// The advertised message length is below 2 and so cannot even account
    /// for the `control_number` and `command` bytes it must count.
    InvalidMessageLength {
        /// The advertised length.
        length: u32,
    },
    /// The command byte is outside the closed command vocabulary.
    UnknownCommand {
        /// The byte found in the command position.
        found: u8,
    },
}

/// What a byte sequence decodes to: the packet and the number of bytes it
/// occupied, or the reason it does not decode. This is the single definition
/// the executable decoder and reader are held to.
pub open spec fn decode_spec(input: Seq<u8>) -> Result<(SpecPacket, int), DecodeError> {
    if input.len() < 6 {
        Err(DecodeError::Incomplete { needed: (6 - input.len()) as usize })
    } else if input[0] != SYNC_PIPE_INDICATION {
        Err(DecodeError::SyncIndicatorMismatch { found: input[0] })
    } else {
        let length = be24_value(input[1], input[2], input[3]);
        if length < MIN_MESSAGE_LENGTH {
            Err(DecodeError::InvalidMessageLength { length: length as u32 })
        } else {
            match ControlCommand::spec_from_byte(input[5]) {
                None => Err(DecodeError::UnknownCommand { found: input[5] }),
                Some(command) => {
                    let total = 6 + length - 2;
                    if input.len() < total {
                        Err(DecodeError::Incomplete { needed: (total - input.len()) as usize })
                    } else {
                        Ok(
                            (
                                SpecPacket {
                                    sync_pipe_indication: SYNC_PIPE_INDICATION,
                                    message_length: length as u32,
                                    control_number: input[4],
                                    command,
                                    payload: input.subrange(6, total),
                                },
                                total,
                            ),
                        )
                    }
                },
            }
        }
    }
}

/// A decoded packet is well formed and occupied exactly `6 + payload.len()`
/// bytes of the input.
pub proof fn lemma_decode_wf(input: Seq<u8>)
    requires
        decode_spec(input) is Ok,
    ensures
        decode_spec(input).unwrap().0.wf(),
        decode_spec(input).unwrap().1 == 6 + decode_spec(input).unwrap().0.payload.len(),
        6 <= decode_spec(input).unwrap().1 <= input.len(),
{
}

impl ControlPacket {
    /// Creates a new control packet carrying `payload`.
    pub fn new_with_payload(control_number: u8, command: ControlCommand, payload: Vec<u8>) -> (r:
        ControlPacket)
        requires
            payload@.len() + MIN_MESSAGE_LENGTH <= MAX_MESSAGE_LENGTH,
        ensures
            r@ == (SpecPacket {
                sync_pipe_indication: SYNC_PIPE_INDICATION,
                message_length: (payload@.len() + MIN_MESSAGE_LENGTH) as u32,
                control_number,
                command,
                payload: payload@,
            }),
            r@.wf(),
    {
        let message_length = (payload.len() as u32) + MIN_MESSAGE_LENGTH;
        ControlPacket {
            sync_pipe_indication: SYNC_PIPE_INDICATION,
            message_length,
            control_number,
            command,
            payload,
        }
    }

    /// Creates a new control packet with an empty payload.
    pub fn new(control_number: u8, command: ControlCommand) -> (r: ControlPacket)
        ensures
            r@ == (SpecPacket {
                sync_pipe_indication: SYNC_PIPE_INDICATION,
                message_length: MIN_MESSAGE_LENGTH,
                control_number,
                command,
                payload: Seq::<u8>::empty(),
            }),
            r@.wf(),
    {
        let packet = Self::new_with_payload(control_number, command, Vec::new());
        packet
    }

    /// The serialised bytes of the 6-byte header: sync byte, 3-byte
    /// big-endian length, control number, command byte.
    pub fn to_header_bytes(&self) -> (r: Vec<u8>)
        requires
            self@.wf(),
        ensures
            r@ == self@.spec_header_bytes(),
            r@.len() == 6,
    {
        let mut bytes: Vec<u8> = Vec::new();
        bytes.push(self.sync_pipe_indication);
        bytes.push((self.message_length / 0x10000) as u8);
        bytes.push(((self.message_length / 0x100) % 0x100) as u8);
        bytes.push((self.message_length % 0x100) as u8);
        bytes.push(self.control_number);
        bytes.push(self.command.byte());
        proof {
            assert(bytes@ =~= self@.spec_header_bytes());
        }
        bytes
    }

    /// The serialised bytes of the whole frame: header followed by payload,
    /// exactly `6 + payload.len()` bytes.
    pub fn encode(&self) -> (r: Vec<u8>)
        requires
            self@.wf(),
        ensures
            r@ == self@.spec_encode(),
            r@.len() == 6 + self@.payload.len(),
    {
        let mut bytes = self.to_header_bytes();
        bytes.extend_from_slice(self.payload.as_slice());
        bytes
    }

    /// Takes ownership of the packet's storage. Decoded packets already own
    /// their payload bytes, so this returns the packet unchanged; it marks
    /// the points where a packet is about to cross a queue or thread
    /// boundary and must not borrow from any read buffer.
    pub fn into_owned(self) -> (r: ControlPacket)
        ensures
            r == self,
    {
        self
    }

    /// Attempts to decode one frame from the front of `input`.
    ///
    /// Returns the packet and the number of bytes it occupied; trailing bytes
    /// beyond that count are not touched. Fewer than 6 bytes, or fewer than
    /// the advertised frame length, yield `DecodeError::Incomplete` with the
    /// exact shortfall; a wrong sync byte, an advertised length below 2 and
    /// an unknown command byte yield the matching error, in that order of
    /// precedence.
    pub fn parse(input: &[u8]) -> (r: Result<(ControlPacket, usize), DecodeError>)
        ensures
            match r {
                Ok((packet, used)) => {
                    &&& decode_spec(input@) matches Ok((spec_packet, spec_used))
                    &&& packet@ == spec_packet
                    &&& used == spec_used
                    &&& packet@.wf()
                },
                Err(e) => decode_spec(input@) == Err::<(SpecPacket, int), _>(e),
            },
    {
        let len = input.len();
        if len < 6 {
            return Err(DecodeError::Incomplete { needed: 6 - len });
        }
        if input[0] != SYNC_PIPE_INDICATION {
            return Err(DecodeError::SyncIndicatorMismatch { found: input[0] });
        }
        let message_length: u32 = (input[1] as u32) * 0x10000 + (input[2] as u32) * 0x100 + (
        input[3] as u32);
        if message_length < MIN_MESSAGE_LENGTH {
            return Err(DecodeError::InvalidMessageLength { length: message_length });
        }
        match ControlCommand::from_byte(input[5]) {
            None => Err(DecodeError::UnknownCommand { found: input[5] }),
            Some(command) => {
                let payload_length = (message_length - MIN_MESSAGE_LENGTH) as usize;
                let total = 6 + payload_length;
                if len < total {
                    Err(DecodeError::Incomplete { needed: total - len })
                } else {
                    let payload = vstd::slice::slice_to_vec(&input[6..total]);
                    let packet = ControlPacket {
                        sync_pipe_indication: SYNC_PIPE_INDICATION,
                        message_length,
                        control_number: input[4],
                        command,
                        payload,
                    };
                    proof {
                        lemma_decode_wf(input@);
                    }
                    Ok((packet, total))
                }
            },
        }
    }
}

/// Round-trip law with trailing bytes: a well-formed packet's encoding,
/// followed by anything at all, decodes to exactly that packet, consuming
/// exactly the encoding.
pub proof fn lemma_decode_encode_with_trailing(p: SpecPacket, rest: Seq<u8>)
    requires
        p.wf(),
    ensures
        decode_spec(p.spec_encode() + rest) == Ok::<_, DecodeError>(
            (p, p.spec_encode().len() as int),
        ),
{
    let s = p.spec_encode() + rest;
    assert(s.len() == 6 + p.payload.len() + rest.len());
    assert(s[0] == p.sync_pipe_indication);
    assert(s[1] == be24_bytes(p.message_length)[0]);
    assert(s[2] == be24_bytes(p.message_length)[1]);
    assert(s[3] == be24_bytes(p.message_length)[2]);
    assert(s[4] == p.control_number);
    assert(s[5] == p.command.spec_byte());
    lemma_be24_round_trip(p.message_length);
    assert(be24_value(s[1], s[2], s[3]) == p.message_length);
    p.command.lemma_byte_round_trip();
    let total = 6 + p.message_length - 2;
    assert(total == 6 + p.payload.len());
    assert(s.subrange(6, total as int) =~= p.payload);
    assert(decode_spec(s).unwrap().0 =~= p);
}

/// Round-trip law: decoding the encoding of any well-formed packet gives
/// back exactly that packet, with no bytes left over.
pub proof fn lemma_round_trip(p: SpecPacket)
    requires
        p.wf(),
    ensures
        decode_spec(p.spec_encode()) == Ok::<_, DecodeError>((p, p.spec_encode().len() as int)),
{
    assert(p.spec_encode() + Seq::<u8>::empty() =~= p.spec_encode());
    lemma_decode_encode_with_trailing(p, Seq::<u8>::empty());
}

/// Every strict prefix of a well-formed packet's encoding is reported
/// incomplete, with the exact number of missing bytes, and never an error.
pub proof fn lemma_incomplete_prefix(p: SpecPacket, i: int)
    requires
        p.wf(),
        0 <= i < p.spec_encode().len(),
    ensures
        decode_spec(p.spec_encode().take(i)) == Err::<(SpecPacket, int), _>(
            DecodeError::Incomplete {
                needed: if i < 6 {
                    (6 - i) as usize
                } else {
                    (p.spec_encode().len() - i) as usize
                },
            },
        ),
{
    let s = p.spec_encode();
    let prefix = s.take(i);
    if i < 6 {
    } else {
        assert(prefix[0] == s[0]);
        assert(prefix[1] == s[1]);
        assert(prefix[2] == s[2]);
        assert(prefix[3] == s[3]);
        assert(prefix[5] == s[5]);
        lemma_be24_round_trip(p.message_length);
        p.command.lemma_byte_round_trip();
        assert(be24_value(prefix[1], prefix[2], prefix[3]) == p.message_length);
    }
}

/// Sync-byte rejection: six or more bytes whose first byte is not `'T'`
/// never decode, whatever the rest holds; the decoder reports the mismatch.
pub proof fn lemma_sync_byte_rejection(input: Seq<u8>)
    requires
        input.len() >= 6,
        input[0] != SYNC_PIPE_INDICATION,
    ensures
        decode_spec(input) == Err::<(SpecPacket, int), _>(
            DecodeError::SyncIndicatorMismatch { found: input[0] },
        ),
{
}

/// Encoding the value of a 3-byte big-endian encoding gives back the same
/// three bytes.
pub proof fn lemma_be24_bytes_of_value(b1: u8, b2: u8, b3: u8)
    ensures
        be24_bytes(be24_value(b1, b2, b3) as u32) =~= seq![b1, b2, b3],
{
    let n = (b1 as u32) * 0x10000 + (b2 as u32) * 0x100 + (b3 as u32);
    assert(n / 0x10000 == b1 && (n / 0x100) % 0x100 == b2 && n % 0x100 == b3)
        by (nonlinear_arith)
        requires
            n == (b1 as u32) * 0x10000 + (b2 as u32) * 0x100 + (b3 as u32),
            b1 <= 0xFFu8,
            b2 <= 0xFFu8,
            b3 <= 0xFFu8,
    ;
}

/// The wire image of a sequence of packets sent back to back, in order.
pub open spec fn encode_frames(packets: Seq<SpecPacket>) -> Seq<u8>
    decreases packets.len(),
{
    if packets.len() == 0 {
        Seq::empty()
    } else {
        packets[0].spec_encode() + encode_frames(packets.drop_first())
    }
}

/// Whether every packet in the sequence is well formed.
pub open spec fn all_wf(packets: Seq<SpecPacket>) -> bool {
    forall|i: int| 0 <= i < packets.len() ==> (#[trigger] packets[i]).wf()
}

/// The sequence of packets a byte sequence decodes to when read to its end,
/// or `None` if any point of it fails to decode or to make progress.
pub open spec fn decode_frames(input: Seq<u8>) -> Option<Seq<SpecPacket>>
    decreases input.len(),
{
    if input.len() == 0 {
        Some(Seq::empty())
    } else {
        match decode_spec(input) {
            Ok((packet, used)) => if 0 < used <= input.len() {
                match decode_frames(input.skip(used)) {
                    Some(rest) => Some(seq![packet] + rest),
                    None => None,
                }
            } else {
                None
            },
            Err(_) => None,
        }
    }
}

/// A toolbar control: a UI element in the host's interface toolbar whose
/// state can be pushed to and pulled from the host with control packets
/// while a capture runs.
///
/// The host may not show the toolbar at all (command-line captures have no
/// UI), so a program must not rely on these controls being used.
pub trait ToolbarControl: crate::PrintSentence {
    /// The control number, the unique identifier of this control, as a
    /// specification-level value.
    spec fn spec_control_number(&self) -> u8;

    /// The control number, a unique identifier for this control. This
    /// number also gives the order of the controls in the toolbar.
    fn control_number(&self) -> (r: u8)
        ensures
            r == self.spec_control_number(),
    ;
}

/// A [`ToolbarControl`] that can be enabled or disabled.
pub trait EnableableControl: ToolbarControl {
    /// Builds the packet that enables or disables this control: an `Enable`
    /// or `Disable` command with an empty payload. The packet performs no
    /// I/O itself; hand it to a sender.
    fn set_enabled(&self, enabled: bool) -> (r: ControlPacket)
        ensures
            r@ == (SpecPacket {
                sync_pipe_indication: SYNC_PIPE_INDICATION,
                message_length: MIN_MESSAGE_LENGTH,
                control_number: self.spec_control_number(),
                command: if enabled {
                    ControlCommand::Enable
                } else {
                    ControlCommand::Disable
                },
                payload: Seq::<u8>::empty(),
            }),
            r@.wf(),
    {
        ControlPacket::new(
            self.control_number(),
            if enabled {
                ControlCommand::Enable
            } else {
                ControlCommand::Disable
            },
        )
    }
}

/// A [`ToolbarControl`] with a customizable label.
pub trait ControlWithLabel: ToolbarControl {
    /// Builds the packet that sets the label of this control: a `Set`
    /// command whose payload is the label text.
    fn set_label(&self, label: &str) -> (r: ControlPacket)
        requires
            vstd::utf8::encode_utf8(label@).len() + MIN_MESSAGE_LENGTH <= MAX_MESSAGE_LENGTH,
        ensures
            r@ == (SpecPacket {
                sync_pipe_indication: SYNC_PIPE_INDICATION,
                message_length: (vstd::utf8::encode_utf8(label@).len()
                    + MIN_MESSAGE_LENGTH) as u32,
                control_number: self.spec_control_number(),
                command: ControlCommand::SetValue,
                payload: vstd::utf8::encode_utf8(label@),
            }),
            r@.wf(),
    {
        ControlPacket::new_with_payload(
            self.control_number(),
            ControlCommand::SetValue,
            vstd::slice::slice_to_vec(label.as_bytes()),
        )
    }
}

/// A checkbox which lets the user set a true / false value.
///
/// This program can set a default value at startup, change the value with
/// [`set_checked`][Self::set_checked], and receive value changes through the
/// control-packet reader. When starting a capture the host sends the value
/// if it differs from the default.
#[derive(Debug)]
pub struct BooleanControl {
    /// The control number, a unique identifier for this control.
    pub control_number: u8,
    /// The user-visible label for the check box.
    pub display: String,
    /// Tooltip shown when hovering over the UI element.
    pub tooltip: Option<String>,
    /// Whether the control is checked or unchecked by default.
    pub default_value: bool,
}

impl EnableableControl for BooleanControl {

}

impl ControlWithLabel for BooleanControl {

}

impl BooleanControl {
    /// Builds the packet that checks or unchecks this box: a `Set` command
    /// whose 1-byte payload is 1 for checked and 0 for unchecked.
    pub fn set_checked(&self, checked: bool) -> (r: ControlPacket)
        ensures
            r@ == (SpecPacket {
                sync_pipe_indication: SYNC_PIPE_INDICATION,
                message_length: 3u32,
                control_number: self.control_number,
                command: ControlCommand::SetValue,
                payload: seq![if checked { 1u8 } else { 0u8 }],
            }),
            r@.wf(),
    {
        let mut payload: Vec<u8> = Vec::new();
        payload.push(if checked { 1 } else { 0 });
        let r = ControlPacket::new_with_payload(
            self.control_number,
            ControlCommand::SetValue,
            payload,
        );
        proof {
            assert(r@.payload =~= seq![if checked { 1u8 } else { 0u8 }]);
        }
        r
    }
}

impl ToolbarControl for BooleanControl {
    open spec fn spec_control_number(&self) -> u8 {
        self.control_number
    }

    fn control_number(&self) -> u8 {
        self.control_number
    }
}

impl crate::PrintSentence for BooleanControl {
    open spec fn spec_sentence(&self) -> Seq<u8> {
        "control {number=".spec_bytes() + crate::sentences::dec_bytes(self.control_number as int)
            + "}{type=boolean}{display=".spec_bytes() + vstd::utf8::encode_utf8(self.display@)
            + "}{default=".spec_bytes() + crate::sentences::bool_bytes(self.default_value)
            + "}".spec_bytes() + crate::sentences::opt_string_field("{tooltip=", self.tooltip) + "\n".spec_bytes()
    }

    fn format_sentence(&self) -> (r: Vec<u8>) {
        let mut out: Vec<u8> = Vec::new();
        crate::sentences::push_literal(&mut out, "control {number=");
        crate::sentences::push_u8_dec(&mut out, self.control_number);
        crate::sentences::push_literal(&mut out, "}{type=boolean}{display=");
        crate::sentences::push_string(&mut out, &self.display);
        crate::sentences::push_literal(&mut out, "}{default=");
        crate::sentences::push_bool(&mut out, self.default_value);
        crate::sentences::push_literal(&mut out, "}");
        crate::sentences::push_opt_string_field(&mut out, "{tooltip=", &self.tooltip);
        crate::sentences::push_literal(&mut out, "\n");
        proof {
            assert(out@ =~= self.spec_sentence());
        }
        out
    }
}

/// A button that sends a signal when pressed. The button is only enabled
/// while capturing.
///
/// This program can set the button text at startup through `display`,
/// change it with [`set_label`][ControlWithLabel::set_label], and receive
/// press signals through the control-packet reader.
#[derive(Debug)]
pub struct ButtonControl {
    /// The control number, a unique identifier for this control.
    pub control_number: u8,
    /// The user-visible label for the button.
    pub display: String,
    /// Tooltip shown when hovering over the UI element.
    pub tooltip: Option<String>,
}

impl EnableableControl for ButtonControl {

}

impl ControlWithLabel for ButtonControl {

}

impl ToolbarControl for ButtonControl {
    open spec fn spec_control_number(&self) -> u8 {
        self.control_number
    }

    fn control_number(&self) -> u8 {
        self.control_number
    }
}

impl crate::PrintSentence for ButtonControl {
    open spec fn spec_sentence(&self) -> Seq<u8> {
        "control {number=".spec_bytes() + crate::sentences::dec_bytes(self.control_number as int)
            + "}{type=button}{display=".spec_bytes() + vstd::utf8::encode_utf8(self.display@)
            + "}".spec_bytes() + crate::sentences::opt_string_field("{tooltip=", self.tooltip) + "\n".spec_bytes()
    }

    fn format_sentence(&self) -> (r: Vec<u8>) {
        let mut out: Vec<u8> = Vec::new();
        crate::sentences::push_literal(&mut out, "control {number=");
        crate::sentences::push_u8_dec(&mut out, self.control_number);
        crate::sentences::push_literal(&mut out, "}{type=button}{display=");
        crate::sentences::push_string(&mut out, &self.display);
        crate::sentences::push_literal(&mut out, "}");
        crate::sentences::push_opt_string_field(&mut out, "{tooltip=", &self.tooltip);
        crate::sentences::push_literal(&mut out, "\n");
        proof {
            assert(out@ =~= self.spec_sentence());
        }
        out
    }
}

/// A log window into which this program can push entries while it captures.
/// The communication is one way, from this program to the host; a button in
/// the toolbar opens the window.
#[derive(Debug)]
pub struct LoggerControl {
    /// The control number, a unique identifier for this control.
    pub control_number: u8,
    /// Label of the button that opens the log window.
    pub display: String,
    /// Tooltip shown when hovering over the UI element.
    pub tooltip: Option<String>,
}

impl LoggerControl {
    /// Builds the packet that clears the log window and shows `log` as its
    /// first entry: a `Set` command whose payload is the entry with a
    /// newline appended.
    pub fn clear_and_add_log(&self, log: &str) -> (r: ControlPacket)
        requires
            vstd::utf8::encode_utf8(log@).len() + 1 + MIN_MESSAGE_LENGTH <= MAX_MESSAGE_LENGTH,
        ensures
            r@ == (SpecPacket {
                sync_pipe_indication: SYNC_PIPE_INDICATION,
                message_length: (vstd::utf8::encode_utf8(log@).len() + 1
                    + MIN_MESSAGE_LENGTH) as u32,
                control_number: self.control_number,
                command: ControlCommand::SetValue,
                payload: vstd::utf8::encode_utf8(log@) + seq![10u8],
            }),
            r@.wf(),
    {
        let payload = log_line_bytes(log);
        ControlPacket::new_with_payload(self.control_number, ControlCommand::SetValue, payload)
    }

    /// Builds the packet that appends `log` to the log window: an `Add`
    /// command whose payload is the entry with a newline appended.
    pub fn add_log(&self, log: &str) -> (r: ControlPacket)
        requires
            vstd::utf8::encode_utf8(log@).len() + 1 + MIN_MESSAGE_LENGTH <= MAX_MESSAGE_LENGTH,
        ensures
            r@ == (SpecPacket {
                sync_pipe_indication: SYNC_PIPE_INDICATION,
                message_length: (vstd::utf8::encode_utf8(log@).len() + 1
                    + MIN_MESSAGE_LENGTH) as u32,
                control_number: self.control_number,
                command: ControlCommand::Add,
                payload: vstd::utf8::encode_utf8(log@) + seq![10u8],
            }),
            r@.wf(),
    {
        let payload = log_line_bytes(log);
        ControlPacket::new_with_payload(self.control_number, ControlCommand::Add, payload)
    }
}

impl ToolbarControl for LoggerControl {
    open spec fn spec_control_number(&self) -> u8 {
        self.control_number
    }

    fn control_number(&self) -> u8 {
        self.control_number
    }
}

impl crate::PrintSentence for LoggerControl {
    open spec fn spec_sentence(&self) -> Seq<u8> {
        "control {number=".spec_bytes() + crate::sentences::dec_bytes(self.control_number as int)
            + "}{type=button}{role=logger}{display=".spec_bytes() + vstd::utf8::encode_utf8(
            self.display@,
        ) + "}".spec_bytes() + crate::sentences::opt_string_field("{tooltip=", self.tooltip) + "\n".spec_bytes()
    }

    fn format_sentence(&self) -> (r: Vec<u8>) {
        let mut out: Vec<u8> = Vec::new();
        crate::sentences::push_literal(&mut out, "control {number=");
        crate::sentences::push_u8_dec(&mut out, self.control_number);
        crate::sentences::push_literal(&mut out, "}{type=button}{role=logger}{display=");
        crate::sentences::push_string(&mut out, &self.display);
        crate::sentences::push_literal(&mut out, "}");
        crate::sentences::push_opt_string_field(&mut out, "{tooltip=", &self.tooltip);
        crate::sentences::push_literal(&mut out, "\n");
        proof {
            assert(out@ =~= self.spec_sentence());
        }
        out
    }
}

/// The entry bytes of one log line: the text with a newline appended.
fn log_line_bytes(log: &str) -> (r: Vec<u8>)
    requires
        vstd::utf8::encode_utf8(log@).len() + 1 <= usize::MAX,
    ensures
        r@ == vstd::utf8::encode_utf8(log@) + seq![10u8],
{
    let mut payload = vstd::slice::slice_to_vec(log.as_bytes());
    payload.push(10);
    payload
}

/// A button that opens the help page. This role has no controls and is
/// never part of the packet traffic.
#[derive(Debug)]
pub struct HelpButtonControl {
    /// The control number, a unique identifier for this control.
    pub control_number: u8,
    /// Label of the button that opens the help URL.
    pub display: String,
    /// Tooltip shown when hovering over the UI element.
    pub tooltip: Option<String>,
}

impl ToolbarControl for HelpButtonControl {
    open spec fn spec_control_number(&self) -> u8 {
        self.control_number
    }

    fn control_number(&self) -> u8 {
        self.control_number
    }
}

impl crate::PrintSentence for HelpButtonControl {
    open spec fn spec_sentence(&self) -> Seq<u8> {
        "control {number=".spec_bytes() + crate::sentences::dec_bytes(self.control_number as int)
            + "}{type=button}{role=help}{display=".spec_bytes() + vstd::utf8::encode_utf8(
            self.display@,
        ) + "}".spec_bytes() + crate::sentences::opt_string_field("{tooltip=", self.tooltip) + "\n".spec_bytes()
    }

    fn format_sentence(&self) -> (r: Vec<u8>) {
        let mut out: Vec<u8> = Vec::new();
        crate::sentences::push_literal(&mut out, "control {number=");
        crate::sentences::push_u8_dec(&mut out, self.control_number);
        crate::sentences::push_literal(&mut out, "}{type=button}{role=help}{display=");
        crate::sentences::push_string(&mut out, &self.display);
        crate::sentences::push_literal(&mut out, "}");
        crate::sentences::push_opt_string_field(&mut out, "{tooltip=", &self.tooltip);
        crate::sentences::push_literal(&mut out, "\n");
        proof {
            assert(out@ =~= self.spec_sentence());
        }
        out
    }
}

/// A button that restores all control values to their defaults. This role
/// has no controls and is never part of the packet traffic; the button is
/// only enabled when not capturing.
#[derive(Debug)]
pub struct RestoreButtonControl {
    /// The control number, a unique identifier for this control.
    pub control_number: u8,
    /// Label of the button.
    pub display: String,
    /// Tooltip shown when hovering over the UI element.
    pub tooltip: Option<String>,
}

impl ToolbarControl for RestoreButtonControl {
    open spec fn spec_control_number(&self) -> u8 {
        self.control_number
    }

    fn control_number(&self) -> u8 {
        self.control_number
    }
}

impl crate::PrintSentence for RestoreButtonControl {
    open spec fn spec_sentence(&self) -> Seq<u8> {
        "control {number=".spec_bytes() + crate::sentences::dec_bytes(self.control_number as int)
            + "}{type=button}{role=restore}{display=".spec_bytes() + vstd::utf8::encode_utf8(
            self.display@,
        ) + "}".spec_bytes() + crate::sentences::opt_string_field("{tooltip=", self.tooltip) + "\n".spec_bytes()
    }

    fn format_sentence(&self) -> (r: Vec<u8>) {
        let mut out: Vec<u8> = Vec::new();
        crate::sentences::push_literal(&mut out, "control {number=");
        crate::sentences::push_u8_dec(&mut out, self.control_number);
        crate::sentences::push_literal(&mut out, "}{type=button}{role=restore}{display=");
        crate::sentences::push_string(&mut out, &self.display);
        crate::sentences::push_literal(&mut out, "}");
        crate::sentences::push_opt_string_field(&mut out, "{tooltip=", &self.tooltip);
        crate::sentences::push_literal(&mut out, "\n");
        proof {
            assert(out@ =~= self.spec_sentence());
        }
        out
    }
}

/// An option in a [`SelectorControl`].
#[derive(Clone, Debug)]
pub struct SelectorControlOption {
    /// The value sent in the packet payload when this option is selected.
    pub value: String,
    /// The user-visible label for this option.
    pub display: String,
    /// Whether this option is selected as the default.
    pub default: bool,
}

/// The declaration sentence of one selector option, tied to its control's
/// number.
pub open spec fn option_sentence(option: SelectorControlOption, control_number: u8) -> Seq<u8> {
    "value {control=".spec_bytes() + crate::sentences::dec_bytes(control_number as int)
        + "}{value=".spec_bytes() + vstd::utf8::encode_utf8(option.value@)
        + "}{display=".spec_bytes() + vstd::utf8::encode_utf8(option.display@) + "}".spec_bytes()
        + if option.default {
        "{default=true}".spec_bytes()
    } else {
        Seq::<u8>::empty()
    } + "\n".spec_bytes()
}

/// The declaration sentences of a list of selector options, in order.
pub open spec fn option_sentences(
    options: Seq<SelectorControlOption>,
    control_number: u8,
) -> Seq<u8>
    decreases options.len(),
{
    if options.len() == 0 {
        Seq::empty()
    } else {
        option_sentences(options.drop_last(), control_number) + option_sentence(
            options.last(),
            control_number,
        )
    }
}

/// Renders the declaration sentence of `option` under the control that
/// carries the given number.
fn option_line(option: &SelectorControlOption, control_number: u8) -> (r: Vec<u8>)
    ensures
        r@ == option_sentence(*option, control_number),
{
    let mut out: Vec<u8> = Vec::new();
    crate::sentences::push_literal(&mut out, "value {control=");
    crate::sentences::push_u8_dec(&mut out, control_number);
    crate::sentences::push_literal(&mut out, "}{value=");
    crate::sentences::push_string(&mut out, &option.value);
    crate::sentences::push_literal(&mut out, "}{display=");
    crate::sentences::push_string(&mut out, &option.display);
    crate::sentences::push_literal(&mut out, "}");
    if option.default {
        crate::sentences::push_literal(&mut out, "{default=true}");
    }
    crate::sentences::push_literal(&mut out, "\n");
    proof {
        assert(out@ =~= option_sentence(*option, control_number));
    }
    out
}

impl SelectorControlOption {
    /// Renders the declaration sentence for this option under the given
    /// control.
    pub fn format_sentence<C: ToolbarControl>(&self, control: &C) -> (r: Vec<u8>)
        ensures
            r@ == option_sentence(*self, control.spec_control_number()),
    {
        option_line(self, control.control_number())
    }
}

/// A drop-down selector with a fixed set of values.
///
/// Besides the default options declared up front, options can be added and
/// removed dynamically while capturing through
/// [`add_value`][Self::add_value], [`remove_value`][Self::remove_value] and
/// [`clear`][Self::clear].
#[derive(Debug)]
pub struct SelectorControl {
    /// The control number, a unique identifier for this control.
    pub control_number: u8,
    /// The user-visible label of this selector, displayed next to the drop
    /// down box.
    pub display: String,
    /// Tooltip shown when hovering over the UI element.
    pub tooltip: Option<String>,
    /// The list of options available for selection in this selector.
    pub options: Vec<SelectorControlOption>,
}

/// The error returned when a selector builder is called with an empty
/// value, which the wire protocol reserves to mean every option at once.
#[derive(Clone, Copy, Debug, PartialEq, Eq, Structural)]
pub struct EmptyValueError;

impl SelectorControl {
    /// Builds the packet that selects `value` in this selector: a `Set`
    /// command whose payload is the value.
    pub fn set_value(&self, value: &str) -> (r: ControlPacket)
        requires
            vstd::utf8::encode_utf8(value@).len() + MIN_MESSAGE_LENGTH <= MAX_MESSAGE_LENGTH,
        ensures
            r@ == (SpecPacket {
                sync_pipe_indication: SYNC_PIPE_INDICATION,
                message_length: (vstd::utf8::encode_utf8(value@).len()
                    + MIN_MESSAGE_LENGTH) as u32,
                control_number: self.control_number,
                command: ControlCommand::SetValue,
                payload: vstd::utf8::encode_utf8(value@),
            }),
            r@.wf(),
    {
        ControlPacket::new_with_payload(
            self.control_number,
            ControlCommand::SetValue,
            vstd::slice::slice_to_vec(value.as_bytes()),
        )
    }

    /// Builds the packet that adds an option to the selector dynamically:
    /// an `Add` command whose payload is the value and, when a display
    /// label is given, a NUL byte followed by that label.
    pub fn add_value(&self, value: &str, display: Option<&str>) -> (r: ControlPacket)
        requires
            vstd::utf8::encode_utf8(value@).len() + 1 + (match display {
                Some(d) => vstd::utf8::encode_utf8(d@).len() as int,
                None => 0int,
            }) + MIN_MESSAGE_LENGTH <= MAX_MESSAGE_LENGTH,
        ensures
            r@.wf(),
            r@.control_number == self.control_number,
            r@.command == ControlCommand::Add,
            r@.payload == vstd::utf8::encode_utf8(value@) + (match display {
                Some(d) => seq![0u8] + vstd::utf8::encode_utf8(d@),
                None => Seq::<u8>::empty(),
            }),
    {
        let mut payload = vstd::slice::slice_to_vec(value.as_bytes());
        match display {
            Some(d) => {
                payload.push(0);
                let mut label = vstd::slice::slice_to_vec(d.as_bytes());
                payload.append(&mut label);
            },
            None => (),
        }
        proof {
            assert(payload@ =~= vstd::utf8::encode_utf8(value@) + (match display {
                Some(d) => seq![0u8] + vstd::utf8::encode_utf8(d@),
                None => Seq::<u8>::empty(),
            }));
        }
        ControlPacket::new_with_payload(self.control_number, ControlCommand::Add, payload)
    }

    /// Builds the packet that removes an option from the selector: a
    /// `Remove` command whose payload is the value.
    ///
    /// An empty `value` is rejected before any packet is built, since on
    /// the wire an empty value means "remove all options"; use
    /// [`clear`][Self::clear] to say that on purpose.
    pub fn remove_value(&self, value: &str) -> (r: Result<ControlPacket, EmptyValueError>)
        requires
            vstd::utf8::encode_utf8(value@).len() + MIN_MESSAGE_LENGTH <= MAX_MESSAGE_LENGTH,
        ensures
            value@.len() == 0 <==> r is Err,
            r matches Ok(packet) ==> {
                &&& packet@ == (SpecPacket {
                    sync_pipe_indication: SYNC_PIPE_INDICATION,
                    message_length: (vstd::utf8::encode_utf8(value@).len()
                        + MIN_MESSAGE_LENGTH) as u32,
                    control_number: self.control_number,
                    command: ControlCommand::Remove,
                    payload: vstd::utf8::encode_utf8(value@),
                })
                &&& packet@.wf()
            },
    {
        if value.is_empty() {
            Err(EmptyValueError)
        } else {
            Ok(
                ControlPacket::new_with_payload(
                    self.control_number,
                    ControlCommand::Remove,
                    vstd::slice::slice_to_vec(value.as_bytes()),
                ),
            )
        }
    }

    /// Builds the packet that clears all options from the selector: a
    /// `Remove` command with the empty payload the wire protocol reserves
    /// for it.
    pub fn clear(&self) -> (r: ControlPacket)
        ensures
            r@ == (SpecPacket {
                sync_pipe_indication: SYNC_PIPE_INDICATION,
                message_length: MIN_MESSAGE_LENGTH,
                control_number: self.control_number,
                command: ControlCommand::Remove,
                payload: Seq::<u8>::empty(),
            }),
            r@.wf(),
    {
        ControlPacket::new(self.control_number, ControlCommand::Remove)
    }
}

impl ToolbarControl for SelectorControl {
    open spec fn spec_control_number(&self) -> u8 {
        self.control_number
    }

    fn control_number(&self) -> u8 {
        self.control_number
    }
}

impl crate::PrintSentence for SelectorControl {
    open spec fn spec_sentence(&self) -> Seq<u8> {
        "control {number=".spec_bytes() + crate::sentences::dec_bytes(self.control_number as int)
            + "}{type=selector}{display=".spec_bytes() + vstd::utf8::encode_utf8(self.display@)
            + "}".spec_bytes() + crate::sentences::opt_string_field("{tooltip=", self.tooltip) + "\n".spec_bytes() + option_sentences(self.options@, self.control_number)
    }

    fn format_sentence(&self) -> (r: Vec<u8>) {
        let mut out: Vec<u8> = Vec::new();
        crate::sentences::push_literal(&mut out, "control {number=");
        crate::sentences::push_u8_dec(&mut out, self.control_number);
        crate::sentences::push_literal(&mut out, "}{type=selector}{display=");
        crate::sentences::push_string(&mut out, &self.display);
        crate::sentences::push_literal(&mut out, "}");
        crate::sentences::push_opt_string_field(&mut out, "{tooltip=", &self.tooltip);
        crate::sentences::push_literal(&mut out, "\n");
        let ghost head = out@;
        let mut i: usize = 0;
        while i < self.options.len()
            invariant
                i <= self.options.len(),
                out@ == head + option_sentences(self.options@.take(i as int), self.control_number),
            decreases self.options.len() - i,
        {
            let mut line = option_line(&self.options[i], self.control_number);
            out.append(&mut line);
            proof {
                assert(self.options@.take(i + 1int).drop_last() =~= self.options@.take(i as int));
                assert(self.options@.take(i + 1int).last() == self.options@[i as int]);
            }
            i = i + 1;
        }
        proof {
            assert(self.options@.take(self.options@.len() as int) =~= self.options@);
            assert(out@ =~= self.spec_sentence());
        }
        out
    }
}

/// A text field toolbar control.
///
/// The value can be set at startup and changed while capturing; the host
/// sends the value as a `Set` packet when it changes. A value longer than
/// 32767 bytes is not accepted by the host.
#[derive(Debug)]
pub struct StringControl {
    /// The control number, a unique identifier for this control.
    pub control_number: u8,
    /// A user-visible label for this control.
    pub display: String,
    /// An optional tooltip that is shown when hovering on the UI element.
    pub tooltip: Option<String>,
    /// An optional placeholder that is shown when this control is empty.
    pub placeholder: Option<String>,
    /// An optional regular expression string that validates the value in
    /// the field. A value that does not match is shown red and never sent.
    pub validation: Option<String>,
    /// The default value of the field.
    pub default_value: Option<String>,
}

/// The longest value, in bytes, that the host accepts in a text field.
pub const MAX_STRING_VALUE_LENGTH: usize = 32767;

impl StringControl {
    /// Builds the packet that sets the value in the text field: a `Set`
    /// command whose payload is the value, which must not exceed 32767
    /// bytes.
    pub fn set_value(&self, message: &str) -> (r: ControlPacket)
        requires
            vstd::utf8::encode_utf8(message@).len() <= MAX_STRING_VALUE_LENGTH,
        ensures
            r@ == (SpecPacket {
                sync_pipe_indication: SYNC_PIPE_INDICATION,
                message_length: (vstd::utf8::encode_utf8(message@).len()
                    + MIN_MESSAGE_LENGTH) as u32,
                control_number: self.control_number,
                command: ControlCommand::SetValue,
                payload: vstd::utf8::encode_utf8(message@),
            }),
            r@.wf(),
    {
        ControlPacket::new_with_payload(
            self.control_number,
            ControlCommand::SetValue,
            vstd::slice::slice_to_vec(message.as_bytes()),
        )
    }
}

impl ToolbarControl for StringControl {
    open spec fn spec_control_number(&self) -> u8 {
        self.control_number
    }

    fn control_number(&self) -> u8 {
        self.control_number
    }
}

impl crate::PrintSentence for StringControl {
    open spec fn spec_sentence(&self) -> Seq<u8> {
        "control {number=".spec_bytes() + crate::sentences::dec_bytes(self.control_number as int)
            + "}{type=string}{display=".spec_bytes() + vstd::utf8::encode_utf8(self.display@)
            + "}".spec_bytes() + crate::sentences::opt_string_field("{tooltip=", self.tooltip) + crate::sentences::opt_string_field("{placeholder=", self.placeholder) + crate::sentences::opt_string_field("{validation=", self.validation) + crate::sentences::opt_string_field("{default=", self.default_value) + "\n".spec_bytes()
    }

    #[verifier::rlimit(50)]
    fn format_sentence(&self) -> (r: Vec<u8>) {
        let mut out: Vec<u8> = Vec::new();
        crate::sentences::push_literal(&mut out, "control {number=");
        crate::sentences::push_u8_dec(&mut out, self.control_number);
        crate::sentences::push_literal(&mut out, "}{type=string}{display=");
        crate::sentences::push_string(&mut out, &self.display);
        crate::sentences::push_literal(&mut out, "}");
        crate::sentences::push_opt_string_field(&mut out, "{tooltip=", &self.tooltip);
        crate::sentences::push_opt_string_field(&mut out, "{placeholder=", &self.placeholder);
        crate::sentences::push_opt_string_field(&mut out, "{validation=", &self.validation);
        crate::sentences::push_opt_string_field(&mut out, "{default=", &self.default_value);
        crate::sentences::push_literal(&mut out, "\n");
        proof {
            assert(out@ =~= self.spec_sentence());
        }
        out
    }
}

/// Ordering law: the frames written by one sender, back to back and in
/// order, are read back as exactly that sequence of packets in exactly that
/// order. Neither the encoder, the byte stream nor the decoder reorders,
/// drops or duplicates a message.
pub proof fn lemma_frames_in_order(packets: Seq<SpecPacket>)
    requires
        all_wf(packets),
    ensures
        decode_frames(encode_frames(packets)) == Some(packets),
    decreases packets.len(),
{
    if packets.len() == 0 {
        assert(decode_frames(encode_frames(packets)) == Some(Seq::<SpecPacket>::empty()));
        assert(Seq::<SpecPacket>::empty() =~= packets);
    } else {
        let first = packets[0];
        let rest = packets.drop_first();
        let tail = encode_frames(rest);
        let s = encode_frames(packets);
        lemma_decode_encode_with_trailing(first, tail);
        assert(s == first.spec_encode() + tail);
        let used = first.spec_encode().len() as int;
        assert(s.skip(used) =~= tail);
        assert(all_wf(rest)) by {
            assert(forall|i: int|
                0 <= i < rest.len() ==> rest[i] == packets[i + 1] && (#[trigger] rest[i]).wf());
        }
        lemma_frames_in_order(rest);
        assert(seq![first] + rest =~= packets);
    }
}

} // verus!
