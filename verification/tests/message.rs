use component_routing::message::{Command, Packet, PacketError};

const TEST_CHANNEL: u32 = 0x89abcdef;
const TEST_COMMAND: Command = Command::Wink;
const TEST_SEQUENCE_NUM: u8 = 99;

#[test]
fn test_command_conversion() {
    // Verify that every integer that maps to a valid command is also the value of that
    // command. Note we don't have runtime enum information to test all commands are accessible
    // from an integer.
    for i in 0..=255 {
        if let Ok(command) = Command::try_from(i) {
            assert_eq!(command.value(), i);
        }
    }
}

/// Verifies that a valid packet can be converted into bytes and back, and that the bytes and
/// debug strings match expectations.
fn do_conversion_test(
    packet: Packet,
    debug_string: &str,
    bytes_string: &str,
) -> Result<(), PacketError> {
    // The diagnostic line for a packet is very valuable during debugging, so worth testing.
    assert_eq!(packet.debug_string(), debug_string);
    let cloned_original = packet.clone();
    let converted: Vec<u8> = packet.to_vec();
    assert_eq!(format!("{:02x?}", converted), bytes_string);
    let double_converted = Packet::try_from(converted)?;
    assert_eq!(cloned_original, double_converted);
    Ok(())
}

#[test]
fn test_empty_initialization_packet() -> Result<(), PacketError> {
    // Lock = 0x04
    do_conversion_test(
        Packet::initialization(TEST_CHANNEL, Command::Lock, 0, vec![])?,
        "InitPacket/Lock ch=89abcdef msg_len=0 payload=[]",
        "[89, ab, cd, ef, 84, 00, 00]",
    )
}

#[test]
fn test_non_empty_initialization_packet() -> Result<(), PacketError> {
    // Wink = 0x08
    // Message len = 1122 hex = 4386 dec
    // Note that in real life packets are padded.
    do_conversion_test(
        Packet::initialization(TEST_CHANNEL, Command::Wink, 0x1122, vec![0x44, 0x55, 0x66, 0x77])?,
        "InitPacket/Wink ch=89abcdef msg_len=4386 payload=[44, 55, 66, 77]",
        "[89, ab, cd, ef, 88, 11, 22, 44, 55, 66, 77]",
    )
}

#[test]
fn test_padded_initialization_packet() -> Result<(), PacketError> {
    // Wink = 0x08
    // Note that in real life packets are larger than the 16 bytes here.
    do_conversion_test(
        Packet::padded_initialization(TEST_CHANNEL, Command::Wink, &vec![0x44, 0x55, 0x66, 0x77], 16)?,
        "InitPacket/Wink ch=89abcdef msg_len=4 payload=[44, 55, 66, 77, 00, 00, 00, 00, 00]",
        "[89, ab, cd, ef, 88, 00, 04, 44, 55, 66, 77, 00, 00, 00, 00, 00]",
    )
}

#[test]
fn test_non_empty_continuation_packet() -> Result<(), PacketError> {
    // Sequence = 99 decimal = 63 hex
    do_conversion_test(
        Packet::continuation(TEST_CHANNEL, 99, vec![0xfe, 0xed, 0xcd])?,
        "ContPacket ch=89abcdef seq=99 payload=[fe, ed, cd]",
        "[89, ab, cd, ef, 63, fe, ed, cd]",
    )
}

#[test]
fn test_invalid_initialization_packet() -> Result<(), PacketError> {
    // Payload longer than the max packet size should fail.
    assert!(Packet::initialization(TEST_CHANNEL, TEST_COMMAND, 20000, vec![0; 10000]).is_err());
    Ok(())
}

#[test]
fn test_invalid_continuation_packet() -> Result<(), PacketError> {
    // Sequence number with the MSB set should fail.
    assert!(Packet::continuation(TEST_CHANNEL, 0x88, vec![1]).is_err());
    // Continuation packet with no data should fail.
    assert!(Packet::continuation(TEST_CHANNEL, TEST_SEQUENCE_NUM, vec![]).is_err());
    Ok(())
}

#[test]
fn test_short_input_tryfrom() -> Result<(), PacketError> {
    // Initiation packet of 6 bytes should fail.
    assert!(Packet::try_from(vec![0x89, 0xab, 0xcd, 0xef, 0x84, 0x00]).is_err());
    // Continuation packet of 6 bytes should pass.
    assert!(Packet::try_from(vec![0x89, 0xab, 0xcd, 0xef, 0x04, 0x00]).is_ok());
    // Continuation packet of 5 bytes should pass.
    assert!(Packet::try_from(vec![0x89, 0xab, 0xcd, 0xef, 0x04]).is_err());
    Ok(())
}

#[test]
fn packet_error_variants() {
    assert_eq!(Command::try_from(0xff).unwrap_err(), PacketError::InvalidCommand { value: 0xff });
    assert_eq!(
        Packet::initialization(TEST_CHANNEL, TEST_COMMAND, 0, vec![0; 9000]).unwrap_err(),
        PacketError::InitializationPayloadTooLong
    );
    assert_eq!(
        Packet::continuation(TEST_CHANNEL, TEST_SEQUENCE_NUM, vec![0; 9000]).unwrap_err(),
        PacketError::ContinuationPayloadTooLong
    );
    assert_eq!(
        Packet::continuation(TEST_CHANNEL, TEST_SEQUENCE_NUM, vec![]).unwrap_err(),
        PacketError::ContinuationPayloadEmpty
    );
    assert_eq!(
        Packet::continuation(TEST_CHANNEL, 0x88, vec![1]).unwrap_err(),
        PacketError::SequenceMsbSet
    );
    // A 16-byte packet cannot hold a 7-byte header plus a 12-byte payload.
    assert_eq!(
        Packet::padded_initialization(TEST_CHANNEL, TEST_COMMAND, &vec![0; 12], 16).unwrap_err(),
        PacketError::PaddedLengthTooShort
    );
    assert_eq!(
        Packet::padded_initialization(TEST_CHANNEL, TEST_COMMAND, &vec![0; 70000], 16).unwrap_err(),
        PacketError::PayloadLengthOverflow
    );
    // Room for the payload once, but not for padding out to the packet length.
    assert_eq!(
        Packet::padded_initialization(TEST_CHANNEL, TEST_COMMAND, &vec![0; 4], 12).unwrap_err(),
        PacketError::PadTooLong
    );
    assert_eq!(
        Packet::try_from(vec![0x89, 0xab, 0xcd, 0xef, 0x84, 0x00]).unwrap_err(),
        PacketError::InitializationTooShort
    );
    assert_eq!(
        Packet::try_from(vec![0x89, 0xab, 0xcd, 0xef, 0x04]).unwrap_err(),
        PacketError::ContinuationTooShort
    );
    // The command byte 0x7f encodes no command.
    assert_eq!(
        Packet::try_from(vec![0x89, 0xab, 0xcd, 0xef, 0xff, 0x00, 0x00]).unwrap_err(),
        PacketError::InvalidCommand { value: 0x7f }
    );
    let continuation = Packet::continuation(TEST_CHANNEL, TEST_SEQUENCE_NUM, vec![1]).unwrap();
    assert_eq!(continuation.command().unwrap_err(), PacketError::ContinuationHasNoCommand);
}

#[test]
fn packet_getters() {
    let packet =
        Packet::initialization(TEST_CHANNEL, Command::Msg, 3, vec![0x01, 0x02, 0x03]).unwrap();
    assert_eq!(packet.channel(), TEST_CHANNEL);
    assert_eq!(packet.command().unwrap(), Command::Msg);
    assert_eq!(packet.payload().as_ref(), &[0x01, 0x02, 0x03]);

    let packet = Packet::continuation(TEST_CHANNEL, 7, vec![0x0a]).unwrap();
    assert_eq!(packet.channel(), TEST_CHANNEL);
    assert_eq!(packet.payload().as_ref(), &[0x0a]);
}
