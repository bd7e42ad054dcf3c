use sea_lantern::rcon::usize_to_string;
use sea_lantern::rcon::{
    packet_type_id, write_rcon_packet, RCONPacketDeserialiseError, RCONPacketError, RconPacket,
    RconPacketType, MAXIMUM_PAYLOAD_LENGTH,
};

#[test]
fn test_packet_type_id() {
    assert_eq!(packet_type_id(RconPacketType::Command), 2);
    assert_eq!(packet_type_id(RconPacketType::Login), 3);
}

#[test]
fn test_write_rcon_packet() -> Result<(), RCONPacketError> {
    let mut packet = vec![0u8; MAXIMUM_PAYLOAD_LENGTH];
    let packet_size = write_rcon_packet(1337, RconPacketType::Command, "list uuids", &mut packet)?;

    assert_eq!(packet_size, 24);
    assert_eq!(
        packet[0..packet_size],
        [
            // Length of 24
            20, 0x0, 0x0, 0x0, // Request ID of 1337 is 0x539 in Hexidecimal. Little endian though.
            0x39, 0x5, 0x0, 0x0, // Packet type of 2
            2, 0x0, 0x0, 0x0, // String, everything is in hex.
            0x6c, // l
            0x69, // i
            0x73, // s
            0x74, // t
            0x20, // SPACE
            0x75, // u
            0x75, // u
            0x69, // i
            0x64, // d
            0x73, // s
            // Two nil bytes padding
            0x0, 0x0
        ]
    );
    Ok(())
}

#[test]
fn test_write_rcon_packet_unicode() {
    let mut packet = vec![0u8; MAXIMUM_PAYLOAD_LENGTH];

    match write_rcon_packet(1337, RconPacketType::Command, "(╯°□°)╯︵ ┻━┻", &mut packet) {
        Ok(_) => assert!(false),
        Err(e) => match e {
            RCONPacketError::Ascii => (),
            _ => assert!(false),
        },
    }
}

#[test]
fn round_trip_preserves_id_type_and_payload() {
    let packet = RconPacket::new(-7, RconPacketType::Login, "hunter2 pass").unwrap();
    let mut buffer = vec![0u8; 64];
    let n = packet.serialise(&mut buffer);
    assert_eq!(n, 12 + 14);
    let read_back = RconPacket::deserialise(&buffer[0..n]).unwrap();
    assert_eq!(read_back.request_id, -7);
    assert!(matches!(read_back.packet_type, RconPacketType::Login));
    assert_eq!(read_back.payload, "hunter2 pass");
}

#[test]
fn round_trip_empty_payload() {
    let packet = RconPacket::new(0, RconPacketType::Command, "").unwrap();
    let mut buffer = vec![0u8; 14];
    let n = packet.serialise(&mut buffer);
    assert_eq!(n, 14);
    let read_back = RconPacket::deserialise(&buffer[0..n]).unwrap();
    assert_eq!(read_back.request_id, 0);
    assert!(matches!(read_back.packet_type, RconPacketType::Command));
    assert_eq!(read_back.payload, "");
}

#[test]
fn payload_of_1461_bytes_is_too_long() {
    let payload = "a".repeat(1461);
    match RconPacket::new(1, RconPacketType::Command, &payload) {
        Ok(_) => assert!(false),
        Err(RCONPacketError::TooLong(e)) => {
            assert_eq!(e.actual_payload_length, 1461);
            assert_eq!(e.max_payload_length, 1460);
        }
        Err(_) => assert!(false),
    }
}

#[test]
fn payload_of_1460_bytes_is_accepted() {
    let payload = "a".repeat(1460);
    let packet = RconPacket::new(1, RconPacketType::Command, &payload).unwrap();
    let mut buffer = vec![0u8; 1474];
    let n = packet.serialise(&mut buffer);
    assert_eq!(n, 1474);
}

#[test]
fn non_ascii_payload_fails_whatever_its_length() {
    assert!(matches!(
        RconPacket::new(1, RconPacketType::Command, "é"),
        Err(RCONPacketError::Ascii)
    ));
    let long = "┻".repeat(2000);
    assert!(matches!(
        RconPacket::new(1, RconPacketType::Command, &long),
        Err(RCONPacketError::Ascii)
    ));
}

#[test]
fn deserialise_rejects_short_buffers() {
    let buffer = [20u8, 0, 0, 0, 9, 9];
    assert!(matches!(
        RconPacket::deserialise(&buffer),
        Err(RCONPacketDeserialiseError::Truncated)
    ));
}

#[test]
fn deserialise_rejects_wrong_length_field() {
    let packet = RconPacket::new(5, RconPacketType::Command, "seed").unwrap();
    let mut buffer = vec![0u8; 32];
    let n = packet.serialise(&mut buffer);
    // One byte longer than the declared length says.
    assert!(matches!(
        RconPacket::deserialise(&buffer[0..n + 1]),
        Err(RCONPacketDeserialiseError::LengthMismatch)
    ));
}

#[test]
fn deserialise_rejects_unknown_type() {
    let packet = RconPacket::new(5, RconPacketType::Command, "seed").unwrap();
    let mut buffer = vec![0u8; 32];
    let n = packet.serialise(&mut buffer);
    buffer[8] = 9;
    assert!(matches!(
        RconPacket::deserialise(&buffer[0..n]),
        Err(RCONPacketDeserialiseError::InvalidType)
    ));
}

#[test]
fn deserialise_rejects_non_ascii_payload_byte() {
    let packet = RconPacket::new(5, RconPacketType::Command, "seed").unwrap();
    let mut buffer = vec![0u8; 32];
    let n = packet.serialise(&mut buffer);
    buffer[13] = 0xff;
    assert!(matches!(
        RconPacket::deserialise(&buffer[0..n]),
        Err(RCONPacketDeserialiseError::NonAscii)
    ));
}

#[test]
fn error_messages_name_the_sizes() {
    let too_long = "b".repeat(1461);
    match RconPacket::new(1, RconPacketType::Command, &too_long) {
        Err(e @ RCONPacketError::TooLong(_)) => {
            assert_eq!(
                e.message(),
                "Payload too long. Maximum size is 1460 bytes (ASCII), message was 1461 bytes."
            );
        }
        _ => assert!(false),
    }
    assert_eq!(RCONPacketError::Ascii.message(), "Payload was not ASCII");
}

#[test]
fn decimal_rendering_is_exact() {
    assert_eq!(usize_to_string(0), "0");
    assert_eq!(usize_to_string(7), "7");
    assert_eq!(usize_to_string(1460), "1460");
    assert_eq!(usize_to_string(100500), "100500");
}
