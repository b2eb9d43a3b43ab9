//! Byte-level packets of a channel-multiplexed HID transport: a packet is
//! either the initialization packet of a message, carrying a command and
//! the total message length, or a continuation packet carrying a sequence
//! number. Payload buffers are `bytes::Bytes` values, shared without
//! copying; everything stated about them goes through `bytes_view`, the
//! byte sequence a buffer holds.

use vstd::prelude::*;
use vstd::string::StringExecFns;
use bytes::Bytes;

verus! {

/// The header length of an initialization packet: a 4-byte channel, 1
/// command byte, and a 2-byte message length.
pub const INIT_HEADER_LENGTH: u16 = 7;

/// The minimum payload length of an initialization packet.
pub const INIT_MIN_PAYLOAD_LENGTH: u16 = 0;

/// The header length of a continuation packet: a 4-byte channel and 1
/// sequence byte.
pub const CONT_HEADER_LENGTH: u16 = 5;

/// The minimum payload length of a continuation packet.
pub const CONT_MIN_PAYLOAD_LENGTH: u16 = 1;

/// The largest packet the transport can carry.
pub const MAX_PACKET_LENGTH: u16 = 8192;

/// The bytes a `Bytes` buffer holds.
pub uninterp spec fn bytes_view(b: Bytes) -> Seq<u8>;

/// Declares bytes::Bytes, the shared byte buffer payloads are held in;
/// its contents are only ever spoken of through `bytes_view`.
#[verifier::external_type_specification]
#[verifier::external_body]
pub struct ExBytes(Bytes);

/// Relies on bytes::Bytes's `From<Vec<u8>>`: the buffer holds the vector's
/// bytes.
#[verifier::external_body]
fn bytes_from_vec(v: Vec<u8>) -> (b: Bytes)
    ensures
        bytes_view(b) == v@,
{
    Bytes::from(v)
}

/// Relies on bytes::Bytes's `AsRef<[u8]>`: the slice of the bytes held.
#[verifier::external_body]
fn bytes_as_slice(b: &Bytes) -> (s: &[u8])
    ensures
        s@ == bytes_view(*b),
{
    b.as_ref()
}

/// Relies on bytes::Bytes's `PartialEq`: equality of the bytes held.
#[verifier::external_body]
fn bytes_eq(a: &Bytes, b: &Bytes) -> (r: bool)
    ensures
        r == (bytes_view(*a) == bytes_view(*b)),
{
    a == b
}

/// Relies on bytes::Bytes::clone: a new handle to the same bytes.
#[verifier::external_body]
fn bytes_clone(b: &Bytes) -> (r: Bytes)
    ensures
        bytes_view(r) == bytes_view(*b),
{
    b.clone()
}

/// Why a packet could not be built or parsed.
#[derive(Clone, Copy, Debug, PartialEq, Eq, Structural)]
pub enum PacketError {
    InvalidCommand { value: u8 },
    InitializationPayloadTooLong,
    PaddedLengthTooShort,
    PayloadLengthOverflow,
    PadTooLong,
    ContinuationPayloadTooLong,
    ContinuationPayloadEmpty,
    SequenceMsbSet,
    InitializationTooShort,
    ContinuationTooShort,
    ContinuationHasNoCommand,
}

/// The transport's commands.
#[derive(Debug, PartialEq, Eq, Structural, Copy, Clone)]
pub enum Command {
    Msg,
    Cbor,
    Init,
    Cancel,
    Error,
    Keepalive,
    Wink,
    Lock,
}

/// The byte encoding each command.
pub open spec fn command_value(c: Command) -> u8 {
    match c {
        Command::Msg => 0x03,
        Command::Cbor => 0x10,
        Command::Init => 0x06,
        Command::Cancel => 0x11,
        Command::Error => 0x3f,
        Command::Keepalive => 0x3b,
        Command::Wink => 0x08,
        Command::Lock => 0x04,
    }
}

/// The command a byte encodes, when it encodes one.
pub open spec fn spec_command(value: u8) -> Option<Command> {
    if value == 0x03 {
        Option::Some(Command::Msg)
    } else if value == 0x10 {
        Option::Some(Command::Cbor)
    } else if value == 0x06 {
        Option::Some(Command::Init)
    } else if value == 0x11 {
        Option::Some(Command::Cancel)
    } else if value == 0x3f {
        Option::Some(Command::Error)
    } else if value == 0x3b {
        Option::Some(Command::Keepalive)
    } else if value == 0x08 {
        Option::Some(Command::Wink)
    } else if value == 0x04 {
        Option::Some(Command::Lock)
    } else {
        Option::None
    }
}

impl Command {
    /// The byte this command is encoded as.
    pub fn value(self) -> (v: u8)
        ensures
            v == command_value(self),
    {
        match self {
            Command::Msg => 0x03,
            Command::Cbor => 0x10,
            Command::Init => 0x06,
            Command::Cancel => 0x11,
            Command::Error => 0x3f,
            Command::Keepalive => 0x3b,
            Command::Wink => 0x08,
            Command::Lock => 0x04,
        }
    }

    /// The command `value` encodes, or an error naming the byte when no
    /// command does.
    pub fn try_from(value: u8) -> (r: Result<Command, PacketError>)
        ensures
            match r {
                Result::Ok(c) => spec_command(value) == Option::Some(c) && command_value(c)
                    == value,
                Result::Err(e) => spec_command(value) is None && e == (PacketError::InvalidCommand {
                    value,
                }),
            },
    {
        match value {
            0x03 => Result::Ok(Command::Msg),
            0x10 => Result::Ok(Command::Cbor),
            0x06 => Result::Ok(Command::Init),
            0x11 => Result::Ok(Command::Cancel),
            0x3f => Result::Ok(Command::Error),
            0x3b => Result::Ok(Command::Keepalive),
            0x08 => Result::Ok(Command::Wink),
            0x04 => Result::Ok(Command::Lock),
            _ => Result::Err(PacketError::InvalidCommand { value }),
        }
    }
}

/// The spec-level value of a packet.
pub enum PacketView {
    Initialization { channel: u32, command: Command, message_length: u16, payload: Seq<u8> },
    Continuation { channel: u32, sequence: u8, payload: Seq<u8> },
}

/// The big-endian bytes of a 32-bit value.
pub open spec fn be_bytes32(v: u32) -> Seq<u8> {
    seq![(v >> 24) as u8, (v >> 16) as u8, (v >> 8) as u8, v as u8]
}

/// The big-endian bytes of a 16-bit value.
pub open spec fn be_bytes16(v: u16) -> Seq<u8> {
    seq![(v >> 8) as u8, v as u8]
}

/// The 32-bit value read big-endian from four bytes.
pub open spec fn be_u32(b0: u8, b1: u8, b2: u8, b3: u8) -> u32 {
    (((b0 as u32) << 24) | ((b1 as u32) << 16) | ((b2 as u32) << 8) | (b3 as u32)) as u32
}

/// The 16-bit value read big-endian from two bytes.
pub open spec fn be_u16(b0: u8, b1: u8) -> u16 {
    (((b0 as u16) << 8) | (b1 as u16)) as u16
}

/// The wire encoding of a packet: channel, then the command byte with its
/// top bit set (initialization) or the bare sequence byte (continuation),
/// then the message length (initialization only), then the payload.
pub open spec fn spec_packet_bytes(p: PacketView) -> Seq<u8> {
    match p {
        PacketView::Initialization { channel, command, message_length, payload } => be_bytes32(
            channel,
        ) + seq![(0x80 | command_value(command)) as u8] + be_bytes16(message_length) + payload,
        PacketView::Continuation { channel, sequence, payload } => be_bytes32(channel)
            + seq![sequence] + payload,
    }
}

/// A single packet, either received over or to be sent over a connection.
#[derive(Debug)]
pub enum Packet {
    /// The packet that begins a message.
    Initialization {
        /// The client's channel identifier.
        channel: u32,
        /// What the message means.
        command: Command,
        /// The total payload length of the message this packet begins.
        message_length: u16,
        /// The data carried in this packet.
        payload: Bytes,
    },
    /// A packet sent after the first of a sequence.
    Continuation {
        /// The client's channel identifier.
        channel: u32,
        /// This packet's position in the message.
        sequence: u8,
        /// The data carried in this packet.
        payload: Bytes,
    },
}

impl View for Packet {
    type V = PacketView;

    open spec fn view(&self) -> PacketView {
        match self {
            Packet::Initialization { channel, command, message_length, payload } => PacketView::Initialization {
                channel: *channel,
                command: *command,
                message_length: *message_length,
                payload: bytes_view(*payload),
            },
            Packet::Continuation { channel, sequence, payload } => PacketView::Continuation {
                channel: *channel,
                sequence: *sequence,
                payload: bytes_view(*payload),
            },
        }
    }
}

impl Packet {
    /// Builds an initialization packet, refusing a payload that cannot fit
    /// in one packet behind the header.
    pub fn initialization(channel: u32, command: Command, message_length: u16, payload: Vec<u8>)
        -> (r: Result<Packet, PacketError>)
        ensures
            if payload@.len() > MAX_PACKET_LENGTH - INIT_HEADER_LENGTH {
                r matches Result::Err(e) && e == PacketError::InitializationPayloadTooLong
            } else {
                r matches Result::Ok(p) && p@ == (PacketView::Initialization {
                    channel,
                    command,
                    message_length,
                    payload: payload@,
                })
            },
    {
        if payload.len() > (MAX_PACKET_LENGTH - INIT_HEADER_LENGTH) as usize {
            return Result::Err(PacketError::InitializationPayloadTooLong);
        }
        Result::Ok(
            Packet::Initialization {
                channel,
                command,
                message_length,
                payload: bytes_from_vec(payload),
            },
        )
    }

    /// Builds a continuation packet, refusing an over-long payload, an
    /// empty payload, and a sequence number with its top bit set (which
    /// would read as an initialization packet on the wire).
    pub fn continuation(channel: u32, sequence: u8, payload: Vec<u8>) -> (r: Result<
        Packet,
        PacketError,
    >)
        ensures
            if payload@.len() > MAX_PACKET_LENGTH - CONT_HEADER_LENGTH {
                r matches Result::Err(e) && e == PacketError::ContinuationPayloadTooLong
            } else if payload@.len() == 0 {
                r matches Result::Err(e) && e == PacketError::ContinuationPayloadEmpty
            } else if sequence & 0x80 != 0 {
                r matches Result::Err(e) && e == PacketError::SequenceMsbSet
            } else {
                r matches Result::Ok(p) && p@ == (PacketView::Continuation {
                    channel,
                    sequence,
                    payload: payload@,
                })
            },
    {
        if payload.len() > (MAX_PACKET_LENGTH - CONT_HEADER_LENGTH) as usize {
            return Result::Err(PacketError::ContinuationPayloadTooLong);
        }
        if payload.len() == 0 {
            return Result::Err(PacketError::ContinuationPayloadEmpty);
        }
        if sequence & 0x80 != 0 {
            return Result::Err(PacketError::SequenceMsbSet);
        }
        Result::Ok(Packet::Continuation { channel, sequence, payload: bytes_from_vec(payload) })
    }

    /// Builds an initialization packet whose payload is padded with zeros
    /// out to `packet_length` wire bytes, recording the unpadded length as
    /// the message length. Padding copies, so the payload comes by
    /// reference.
    pub fn padded_initialization(
        channel: u32,
        command: Command,
        payload: &Vec<u8>,
        packet_length: u16,
    ) -> (r: Result<Packet, PacketError>)
        ensures
            ({
                let plen = payload@.len() as int;
                if plen > u16::MAX {
                    r matches Result::Err(e) && e == PacketError::PayloadLengthOverflow
                } else if packet_length < INIT_HEADER_LENGTH + plen {
                    r matches Result::Err(e) && e == PacketError::PaddedLengthTooShort
                } else if plen > packet_length - INIT_HEADER_LENGTH - plen {
                    r matches Result::Err(e) && e == PacketError::PadTooLong
                } else if packet_length - INIT_HEADER_LENGTH - plen + plen > MAX_PACKET_LENGTH
                    - INIT_HEADER_LENGTH {
                    r matches Result::Err(e) && e == PacketError::InitializationPayloadTooLong
                } else {
                    r matches Result::Ok(p) && p@ == (PacketView::Initialization {
                        channel,
                        command,
                        message_length: plen as u16,
                        payload: payload@ + Seq::new(
                            (packet_length - INIT_HEADER_LENGTH - plen) as nat,
                            |i: int| 0u8,
                        ),
                    })
                }
            }),
    {
        if payload.len() > u16::MAX as usize {
            return Result::Err(PacketError::PayloadLengthOverflow);
        }
        let payload_length: u16 = payload.len() as u16;
        if (packet_length as u32) < INIT_HEADER_LENGTH as u32 + payload_length as u32 {
            return Result::Err(PacketError::PaddedLengthTooShort);
        }
        match pad(payload, packet_length - INIT_HEADER_LENGTH - payload_length) {
            Result::Err(e) => Result::Err(e),
            Result::Ok(padded) => Packet::initialization(channel, command, payload_length, padded),
        }
    }

    /// Parses a packet from wire bytes, if they are valid, or reports an
    /// informative error. The top bit of the fifth byte decides the packet
    /// type.
    pub fn new(data: Vec<u8>) -> (r: Result<Packet, PacketError>)
        ensures
            ({
                let d = data@;
                if d.len() > 4 && d[4] & 0x80 != 0 {
                    if d.len() < INIT_HEADER_LENGTH + INIT_MIN_PAYLOAD_LENGTH {
                        r matches Result::Err(e) && e == PacketError::InitializationTooShort
                    } else {
                        match spec_command((d[4] & 0x7f) as u8) {
                            Option::None => r matches Result::Err(e) && e
                                == (PacketError::InvalidCommand { value: (d[4] & 0x7f) as u8 }),
                            Option::Some(c) => if d.len() - 7 > MAX_PACKET_LENGTH
                                - INIT_HEADER_LENGTH {
                                r matches Result::Err(e) && e
                                    == PacketError::InitializationPayloadTooLong
                            } else {
                                r matches Result::Ok(p) && p@ == (PacketView::Initialization {
                                    channel: be_u32(d[0], d[1], d[2], d[3]),
                                    command: c,
                                    message_length: be_u16(d[5], d[6]),
                                    payload: d.skip(7),
                                })
                            },
                        }
                    }
                } else {
                    if d.len() < CONT_HEADER_LENGTH + CONT_MIN_PAYLOAD_LENGTH {
                        r matches Result::Err(e) && e == PacketError::ContinuationTooShort
                    } else if d.len() - 5 > MAX_PACKET_LENGTH - CONT_HEADER_LENGTH {
                        r matches Result::Err(e) && e == PacketError::ContinuationPayloadTooLong
                    } else {
                        r matches Result::Ok(p) && p@ == (PacketView::Continuation {
                            channel: be_u32(d[0], d[1], d[2], d[3]),
                            sequence: d[4],
                            payload: d.skip(5),
                        })
                    }
                }
            }),
    {
        let len = data.len();
        if len > 4 && data[4] & 0x80 != 0 {
            if len < (INIT_HEADER_LENGTH + INIT_MIN_PAYLOAD_LENGTH) as usize {
                return Result::Err(PacketError::InitializationTooShort);
            }
            let channel = ((data[0] as u32) << 24) | ((data[1] as u32) << 16) | ((data[2] as u32)
                << 8) | (data[3] as u32);
            let message_length = ((data[5] as u16) << 8) | (data[6] as u16);
            let command = match Command::try_from(data[4] & 0x7f) {
                Result::Ok(c) => c,
                Result::Err(e) => {
                    return Result::Err(e);
                },
            };
            let mut data = data;
            let payload = data.split_off(7);
            Packet::initialization(channel, command, message_length, payload)
        } else {
            if len < (CONT_HEADER_LENGTH + CONT_MIN_PAYLOAD_LENGTH) as usize {
                return Result::Err(PacketError::ContinuationTooShort);
            }
            let channel = ((data[0] as u32) << 24) | ((data[1] as u32) << 16) | ((data[2] as u32)
                << 8) | (data[3] as u32);
            let sequence = data[4];
            let mut data = data;
            let payload = data.split_off(5);
            proof {
                assert(sequence & 0x80 == 0) by (bit_vector)
                    requires
                        !(sequence & 0x80 != 0),
                ;
            }
            Packet::continuation(channel, sequence, payload)
        }
    }

    /// This packet's channel.
    pub fn channel(&self) -> (c: u32)
        ensures
            match self@ {
                PacketView::Initialization { channel, .. } => c == channel,
                PacketView::Continuation { channel, .. } => c == channel,
            },
    {
        match self {
            Packet::Initialization { channel, .. } => *channel,
            Packet::Continuation { channel, .. } => *channel,
        }
    }

    /// This packet's command; only initialization packets carry one.
    pub fn command(&self) -> (r: Result<Command, PacketError>)
        ensures
            match self@ {
                PacketView::Initialization { command, .. } => r == Result::<
                    Command,
                    PacketError,
                >::Ok(command),
                PacketView::Continuation { .. } => r matches Result::Err(e) && e
                    == PacketError::ContinuationHasNoCommand,
            },
    {
        match self {
            Packet::Initialization { command, .. } => Result::Ok(*command),
            Packet::Continuation { .. } => Result::Err(PacketError::ContinuationHasNoCommand),
        }
    }

    /// This packet's payload.
    pub fn payload(&self) -> (r: &Bytes)
        ensures
            match self@ {
                PacketView::Initialization { payload, .. } => bytes_view(*r) == payload,
                PacketView::Continuation { payload, .. } => bytes_view(*r) == payload,
            },
    {
        match self {
            Packet::Initialization { payload, .. } => payload,
            Packet::Continuation { payload, .. } => payload,
        }
    }

    /// This packet's wire encoding.
    pub fn to_bytes(self) -> (r: Bytes)
        ensures
            bytes_view(r) == spec_packet_bytes(self@),
    {
        bytes_from_vec(self.to_vec())
    }

    /// This packet's wire encoding, as a plain byte vector.
    pub fn to_vec(self) -> (r: Vec<u8>)
        ensures
            r@ == spec_packet_bytes(self@),
    {
        let ghost p = self@;
        let mut out: Vec<u8> = Vec::new();
        match self {
            Packet::Initialization { channel, command, message_length, payload } => {
                out.push((channel >> 24) as u8);
                out.push((channel >> 16) as u8);
                out.push((channel >> 8) as u8);
                out.push(channel as u8);
                out.push(0x80 | command.value());
                out.push((message_length >> 8) as u8);
                out.push(message_length as u8);
                let mut tail = slice_to_vec(bytes_as_slice(&payload));
                out.append(&mut tail);
                proof {
                    assert(out@ =~= spec_packet_bytes(p));
                }
            },
            Packet::Continuation { channel, sequence, payload } => {
                out.push((channel >> 24) as u8);
                out.push((channel >> 16) as u8);
                out.push((channel >> 8) as u8);
                out.push(channel as u8);
                out.push(sequence);
                let mut tail = slice_to_vec(bytes_as_slice(&payload));
                out.append(&mut tail);
                proof {
                    assert(out@ =~= spec_packet_bytes(p));
                }
            },
        }
        out
    }

    /// Parses a packet from wire bytes: `new` under the name conversions
    /// use.
    pub fn try_from(value: Vec<u8>) -> (r: Result<Packet, PacketError>)
        ensures
            ({
                let d = value@;
                if d.len() > 4 && d[4] & 0x80 != 0 {
                    d.len() >= 7 && spec_command((d[4] & 0x7f) as u8) is Some && d.len() - 7
                        <= MAX_PACKET_LENGTH - INIT_HEADER_LENGTH ==> (r matches Result::Ok(p)
                        && p@ == (PacketView::Initialization {
                        channel: be_u32(d[0], d[1], d[2], d[3]),
                        command: spec_command((d[4] & 0x7f) as u8)->0,
                        message_length: be_u16(d[5], d[6]),
                        payload: d.skip(7),
                    }))
                } else {
                    d.len() >= 6 && d.len() - 5 <= MAX_PACKET_LENGTH - CONT_HEADER_LENGTH ==> (r
                        matches Result::Ok(p) && p@ == (PacketView::Continuation {
                        channel: be_u32(d[0], d[1], d[2], d[3]),
                        sequence: d[4],
                        payload: d.skip(5),
                    }))
                }
            }),
            r is Err ==> ({
                let d = value@;
                ||| (d.len() > 4 && d[4] & 0x80 != 0 && (d.len() < 7 || spec_command(
                    (d[4] & 0x7f) as u8,
                ) is None || d.len() - 7 > MAX_PACKET_LENGTH - INIT_HEADER_LENGTH))
                ||| (!(d.len() > 4 && d[4] & 0x80 != 0) && (d.len() < 6 || d.len() - 5
                    > MAX_PACKET_LENGTH - CONT_HEADER_LENGTH))
            }),
    {
        Packet::new(value)
    }
}

impl Clone for Packet {
    fn clone(&self) -> (r: Packet)
        ensures
            r@ == self@,
    {
        match self {
            Packet::Initialization { channel, command, message_length, payload } => Packet::Initialization {
                channel: *channel,
                command: *command,
                message_length: *message_length,
                payload: bytes_clone(payload),
            },
            Packet::Continuation { channel, sequence, payload } => Packet::Continuation {
                channel: *channel,
                sequence: *sequence,
                payload: bytes_clone(payload),
            },
        }
    }
}

impl PartialEq for Packet {
    fn eq(&self, other: &Packet) -> (r: bool) {
        match (self, other) {
            (
                Packet::Initialization { channel, command, message_length, payload },
                Packet::Initialization {
                    channel: channel2,
                    command: command2,
                    message_length: message_length2,
                    payload: payload2,
                },
            ) => *channel == *channel2 && *command == *command2 && *message_length
                == *message_length2 && bytes_eq(payload, payload2),
            (
                Packet::Continuation { channel, sequence, payload },
                Packet::Continuation { channel: channel2, sequence: sequence2, payload: payload2 },
            ) => *channel == *channel2 && *sequence == *sequence2 && bytes_eq(payload, payload2),
            _ => false,
        }
    }
}

impl vstd::std_specs::cmp::PartialEqSpecImpl for Packet {
    open spec fn obeys_eq_spec() -> bool {
        true
    }

    open spec fn eq_spec(&self, other: &Packet) -> bool {
        self@ == other@
    }
}

/// Relies on String::push: appends exactly the one character.
#[verifier::external_body]
fn push_char(s: &mut String, c: char)
    ensures
        final(s)@ == old(s)@.push(c),
{
    s.push(c);
}

/// The lowercase hex digit for a value below 16.
pub open spec fn spec_hex_digit(d: u8) -> char {
    if d < 10 {
        ((48 + d) as u8) as char
    } else {
        ((87 + d) as u8) as char
    }
}

/// The eight lowercase hex digits of a 32-bit value.
pub open spec fn spec_hex8(v: u32) -> Seq<char> {
    seq![
        spec_hex_digit(((v >> 28) & 0xf) as u8),
        spec_hex_digit(((v >> 24) & 0xf) as u8),
        spec_hex_digit(((v >> 20) & 0xf) as u8),
        spec_hex_digit(((v >> 16) & 0xf) as u8),
        spec_hex_digit(((v >> 12) & 0xf) as u8),
        spec_hex_digit(((v >> 8) & 0xf) as u8),
        spec_hex_digit(((v >> 4) & 0xf) as u8),
        spec_hex_digit((v & 0xf) as u8),
    ]
}

/// The two lowercase hex digits of a byte.
pub open spec fn spec_hex2(b: u8) -> Seq<char> {
    seq![spec_hex_digit((b >> 4) as u8), spec_hex_digit((b & 0xf) as u8)]
}

/// The decimal digits of a non-negative number.
pub open spec fn spec_dec(n: int) -> Seq<char>
    decreases n,
{
    if n < 10 {
        seq![((48 + if n >= 0 { n % 10 } else { 0 }) as u8) as char]
    } else {
        spec_dec(n / 10) + seq![((48 + n % 10) as u8) as char]
    }
}

/// The bytes listed in brackets, each as two hex digits: the body between
/// the brackets.
pub open spec fn spec_hex_list_body(s: Seq<u8>) -> Seq<char>
    decreases s.len(),
{
    if s.len() == 0 {
        Seq::empty()
    } else if s.len() == 1 {
        spec_hex2(s[0])
    } else {
        spec_hex_list_body(s.drop_last()) + ", "@ + spec_hex2(s.last())
    }
}

/// The bytes listed in brackets, each as two hex digits.
pub open spec fn spec_hex_list(s: Seq<u8>) -> Seq<char> {
    "["@ + spec_hex_list_body(s) + "]"@
}

/// The name of each command, as its diagnostic text.
pub open spec fn spec_command_name(c: Command) -> Seq<char> {
    match c {
        Command::Msg => "Msg"@,
        Command::Cbor => "Cbor"@,
        Command::Init => "Init"@,
        Command::Cancel => "Cancel"@,
        Command::Error => "Error"@,
        Command::Keepalive => "Keepalive"@,
        Command::Wink => "Wink"@,
        Command::Lock => "Lock"@,
    }
}

/// A packet's diagnostic line: its kind and command, the channel in hex,
/// the message length or sequence number in decimal, and the payload as a
/// bracketed hex list.
pub open spec fn spec_packet_debug(p: PacketView) -> Seq<char> {
    match p {
        PacketView::Initialization { channel, command, message_length, payload } => "InitPacket/"@
            + spec_command_name(command) + " ch="@ + spec_hex8(channel) + " msg_len="@ + spec_dec(
            message_length as int,
        ) + " payload="@ + spec_hex_list(payload),
        PacketView::Continuation { channel, sequence, payload } => "ContPacket ch="@ + spec_hex8(
            channel,
        ) + " seq="@ + spec_dec(sequence as int) + " payload="@ + spec_hex_list(payload),
    }
}

/// The lowercase hex digit for a value below 16.
fn hex_digit(d: u8) -> (c: char)
    requires
        d < 16,
    ensures
        c == spec_hex_digit(d),
{
    if d < 10 {
        (48 + d) as char
    } else {
        (87 + d) as char
    }
}

/// Appends the eight lowercase hex digits of `v`.
fn append_hex8(s: &mut String, v: u32)
    ensures
        final(s)@ == old(s)@ + spec_hex8(v),
{
    proof {
        assert((v >> 28) & 0xf < 16 && (v >> 24) & 0xf < 16 && (v >> 20) & 0xf < 16 && (v >> 16)
            & 0xf < 16 && (v >> 12) & 0xf < 16 && (v >> 8) & 0xf < 16 && (v >> 4) & 0xf < 16 && v
            & 0xf < 16) by (bit_vector);
    }
    push_char(s, hex_digit(((v >> 28) & 0xf) as u8));
    push_char(s, hex_digit(((v >> 24) & 0xf) as u8));
    push_char(s, hex_digit(((v >> 20) & 0xf) as u8));
    push_char(s, hex_digit(((v >> 16) & 0xf) as u8));
    push_char(s, hex_digit(((v >> 12) & 0xf) as u8));
    push_char(s, hex_digit(((v >> 8) & 0xf) as u8));
    push_char(s, hex_digit(((v >> 4) & 0xf) as u8));
    push_char(s, hex_digit((v & 0xf) as u8));
    proof {
        assert(final(s)@ =~= old(s)@ + spec_hex8(v));
    }
}

/// Appends the two lowercase hex digits of `b`.
fn append_hex2(s: &mut String, b: u8)
    ensures
        final(s)@ == old(s)@ + spec_hex2(b),
{
    proof {
        assert(b >> 4 < 16 && b & 0xf < 16) by (bit_vector);
    }
    push_char(s, hex_digit(b >> 4));
    push_char(s, hex_digit(b & 0xf));
    proof {
        assert(final(s)@ =~= old(s)@ + spec_hex2(b));
    }
}

/// Appends the decimal digits of `n`.
fn append_dec(s: &mut String, n: u16)
    ensures
        final(s)@ == old(s)@ + spec_dec(n as int),
    decreases n,
{
    if n < 10 {
        push_char(s, (48 + n as u8) as char);
        proof {
            assert(final(s)@ =~= old(s)@ + spec_dec(n as int));
        }
    } else {
        append_dec(s, n / 10);
        push_char(s, (48 + (n % 10) as u8) as char);
        proof {
            assert(final(s)@ =~= old(s)@ + spec_dec(n as int));
        }
    }
}

/// Appends the payload's bracketed hex listing.
fn append_hex_list(s: &mut String, payload: &Vec<u8>)
    ensures
        final(s)@ == old(s)@ + spec_hex_list(payload@),
{
    s.append("[");
    let n = payload.len();
    let mut i: usize = 0;
    while i < n
        invariant
            n == payload.len(),
            i <= n,
            s@ == old(s)@ + "["@ + spec_hex_list_body(payload@.take(i as int)),
        decreases n - i,
    {
        if i > 0 {
            s.append(", ");
        }
        append_hex2(s, payload[i]);
        proof {
            assert(payload@.take(i as int + 1).drop_last() =~= payload@.take(i as int));
            assert(payload@.take(i as int + 1).last() == payload@[i as int]);
            if i == 0 {
                assert(payload@.take(1) =~= seq![payload@[0]]);
            }
        }
        i = i + 1;
    }
    s.append("]");
    proof {
        assert(payload@.take(n as int) =~= payload@);
        assert(s@ =~= old(s)@ + spec_hex_list(payload@));
    }
}

impl Packet {
    /// This packet's diagnostic line, the text `spec_packet_debug` gives.
    pub fn debug_string(&self) -> (r: String)
        ensures
            r@ == spec_packet_debug(self@),
    {
        match self {
            Packet::Initialization { channel, command, message_length, payload } => {
                let mut s = String::from_str("InitPacket/");
                match command {
                    Command::Msg => s.append("Msg"),
                    Command::Cbor => s.append("Cbor"),
                    Command::Init => s.append("Init"),
                    Command::Cancel => s.append("Cancel"),
                    Command::Error => s.append("Error"),
                    Command::Keepalive => s.append("Keepalive"),
                    Command::Wink => s.append("Wink"),
                    Command::Lock => s.append("Lock"),
                }
                s.append(" ch=");
                append_hex8(&mut s, *channel);
                s.append(" msg_len=");
                append_dec(&mut s, *message_length);
                s.append(" payload=");
                let bytes = slice_to_vec(bytes_as_slice(payload));
                append_hex_list(&mut s, &bytes);
                proof {
                    assert(s@ =~= spec_packet_debug(self@));
                }
                s
            },
            Packet::Continuation { channel, sequence, payload } => {
                let mut s = String::from_str("ContPacket ch=");
                append_hex8(&mut s, *channel);
                s.append(" seq=");
                append_dec(&mut s, *sequence as u16);
                s.append(" payload=");
                let bytes = slice_to_vec(bytes_as_slice(payload));
                append_hex_list(&mut s, &bytes);
                proof {
                    assert(s@ =~= spec_packet_debug(self@));
                }
                s
            },
        }
    }
}

/// Copies a byte slice into a fresh vector.
fn slice_to_vec(s: &[u8]) -> (r: Vec<u8>)
    ensures
        r@ == s@,
{
    let n = s.len();
    let mut r: Vec<u8> = Vec::new();
    let mut i: usize = 0;
    while i < n
        invariant
            n == s@.len(),
            i <= n,
            r@ == s@.take(i as int),
        decreases n - i,
    {
        r.push(s[i]);
        proof {
            assert(s@.take(i as int).push(s@[i as int]) =~= s@.take(i as int + 1));
        }
        i = i + 1;
    }
    proof {
        assert(s@.take(n as int) =~= s@);
    }
    r
}

/// Serialization round-trips through parsing: the wire bytes of a valid
/// packet satisfy exactly the conditions under which `Packet::new` parses
/// them back to the packet itself — same channel, command and message
/// length (or sequence number), and the same payload.
pub proof fn lemma_packet_wire_round_trip(p: PacketView)
    requires
        match p {
            PacketView::Initialization { payload, .. } => payload.len() <= MAX_PACKET_LENGTH
                - INIT_HEADER_LENGTH,
            PacketView::Continuation { sequence, payload, .. } => 1 <= payload.len()
                <= MAX_PACKET_LENGTH - CONT_HEADER_LENGTH && sequence & 0x80 == 0,
        },
    ensures
        ({
            let d = spec_packet_bytes(p);
            match p {
                PacketView::Initialization { channel, command, message_length, payload } => {
                    &&& d.len() == 7 + payload.len()
                    &&& d[4] & 0x80 != 0
                    &&& spec_command((d[4] & 0x7f) as u8) == Option::Some(command)
                    &&& be_u32(d[0], d[1], d[2], d[3]) == channel
                    &&& be_u16(d[5], d[6]) == message_length
                    &&& d.skip(7) == payload
                },
                PacketView::Continuation { channel, sequence, payload } => {
                    &&& d.len() == 5 + payload.len()
                    &&& d[4] & 0x80 == 0
                    &&& be_u32(d[0], d[1], d[2], d[3]) == channel
                    &&& d[4] == sequence
                    &&& d.skip(5) == payload
                },
            }
        }),
{
    match p {
        PacketView::Initialization { channel, command, message_length, payload } => {
            let d = spec_packet_bytes(p);
            let v = command_value(command);
            assert(v < 0x80);
            let tag = (0x80 | v) as u8;
            assert(d[4] == tag);
            assert(tag & 0x80 != 0 && (tag & 0x7f) as u8 == v) by (bit_vector)
                requires
                    v < 0x80,
                    tag == (0x80 | v) as u8,
            ;
            lemma_be_u32_round_trip(channel);
            lemma_be_u16_round_trip(message_length);
            assert(d.skip(7) =~= payload);
        },
        PacketView::Continuation { channel, sequence, payload } => {
            let d = spec_packet_bytes(p);
            assert(d[4] == sequence);
            lemma_be_u32_round_trip(channel);
            assert(d.skip(5) =~= payload);
        },
    }
}

/// Reading the big-endian bytes of a 32-bit value gives the value back.
proof fn lemma_be_u32_round_trip(v: u32)
    ensures
        be_u32((v >> 24) as u8, (v >> 16) as u8, (v >> 8) as u8, v as u8) == v,
{
    assert((((((v >> 24) as u8) as u32) << 24) | ((((v >> 16) as u8) as u32) << 16) | ((((v >> 8)
        as u8) as u32) << 8) | ((v as u8) as u32)) as u32 == v) by (bit_vector);
}

/// Reading the big-endian bytes of a 16-bit value gives the value back.
proof fn lemma_be_u16_round_trip(v: u16)
    ensures
        be_u16((v >> 8) as u8, v as u8) == v,
{
    assert((((((v >> 8) as u8) as u16) << 8) | ((v as u8) as u16)) as u16 == v) by (bit_vector);
}

/// The payload padded with zeros: the data, then `length` zero bytes. The
/// data must not be longer than the padding length asked for.
fn pad(data: &Vec<u8>, length: u16) -> (r: Result<Vec<u8>, PacketError>)
    ensures
        if data@.len() > length {
            r matches Result::Err(e) && e == PacketError::PadTooLong
        } else {
            r matches Result::Ok(v) && v@ == data@ + Seq::new(length as nat, |i: int| 0u8)
        },
{
    if data.len() > length as usize {
        return Result::Err(PacketError::PadTooLong);
    }
    let mut bytes = slice_to_vec(data.as_slice());
    let mut i: u16 = 0;
    while i < length
        invariant
            i <= length,
            bytes@ == data@ + Seq::new(i as nat, |j: int| 0u8),
        decreases length - i,
    {
        bytes.push(0);
        proof {
            assert(bytes@ =~= data@ + Seq::new(i as nat + 1, |j: int| 0u8));
        }
        i = i + 1;
    }
    Result::Ok(bytes)
}

} // verus!
