use netsim::frame::{Frame, HEADER_LEN, PROTOCOL_VERSION};
use netsim::id::Id;
use netsim::packet::{DecodeError, Move, Movement, Packet, Ping, Sync};

fn movement(id: u16, up: bool, down: bool, left: bool, right: bool) -> Movement {
    Movement { id: Id(id), up, down, left, right }
}

#[test]
fn packet_move_command_byte_order() {
    let command = Movement { id: Id(1), up: true, down: false, left: false, right: false };
    let byte = command.to_bytes();
    assert_eq!(byte, [2, 0, 1, 0b1000]);

    let command = Move { id: Id(1), up: true, down: false, left: false, right: false };
    let byte = command.as_bytes();
    assert_eq!(byte, [0, 1, 0b1000]);
}

#[test]
fn command_move_command_byte_order() {
    let command = Move { id: Id(1), up: true, down: false, left: false, right: false };
    let byte = command.as_bytes();
    assert_eq!(byte, [0, 1, 0b1000]);
}

#[test]
fn id_bytes_are_big_endian() {
    assert_eq!(Id(0x0102).as_bytes(), [1, 2]);
    assert_eq!(Id(255).as_bytes(), [0, 255]);
}

#[test]
fn keepalive_and_request_encode_to_their_tag() {
    assert_eq!(Ping.to_bytes(), vec![0]);
    assert_eq!(Sync.to_bytes(), vec![1]);
    assert_eq!(Packet::Ping(Ping).to_bytes(), vec![0]);
    assert_eq!(Packet::Sync(Sync).to_bytes(), vec![1]);
}

#[test]
fn movement_flags_each_direction() {
    assert_eq!(movement(0x1234, false, true, false, false).to_bytes(), vec![2, 0x12, 0x34, 0b0100]);
    assert_eq!(movement(0, false, false, true, false).as_bytes(), [0, 0, 0b0010]);
    assert_eq!(movement(0, false, false, false, true).as_bytes(), [0, 0, 0b0001]);
    assert_eq!(movement(7, true, true, true, true).as_bytes(), [0, 7, 0b1111]);
}

#[test]
fn movement_new_holds_no_direction() {
    assert_eq!(Movement::new(), movement(0, false, false, false, false));
}

#[test]
fn packet_round_trip_every_kind() {
    let packets = vec![
        Packet::Ping(Ping),
        Packet::Sync(Sync),
        Packet::Movement(movement(1, true, false, false, false)),
        Packet::Movement(movement(65535, true, true, true, true)),
        Packet::Movement(movement(256, false, false, false, false)),
    ];
    for p in packets {
        assert_eq!(Packet::from_bytes(&p.to_bytes()), Ok(p));
    }
}

#[test]
fn movement_decode_ignores_high_flag_bits() {
    assert_eq!(
        Packet::from_bytes(&[2, 0, 9, 0b1111_0101]),
        Ok(Packet::Movement(movement(9, false, true, false, true)))
    );
    assert_eq!(Movement::from_bytes(&[0, 9, 0b1010_0000]), Some(movement(9, false, false, false, false)));
}

#[test]
fn packet_decode_errors() {
    assert_eq!(Packet::from_bytes(&[]), Err(DecodeError::TruncatedPacket));
    assert_eq!(Packet::from_bytes(&[2, 0, 1]), Err(DecodeError::TruncatedPacket));
    assert_eq!(Packet::from_bytes(&[2]), Err(DecodeError::TruncatedPacket));
    assert_eq!(Packet::from_bytes(&[3]), Err(DecodeError::UnknownTag));
    assert_eq!(Packet::from_bytes(&[0xff, 0, 0, 0]), Err(DecodeError::UnknownTag));
    assert_eq!(Movement::from_bytes(&[0, 1]), None);
}

#[test]
fn frame_new_is_a_probe() {
    let f = Frame::new();
    assert_eq!(f, Frame { version: PROTOCOL_VERSION, syn: 0, ack: 0, packet: None });
    assert_eq!(Frame::default(), f);
    assert_eq!(f.to_bytes(), vec![1, 0, 0, 0, 0, 0, 0, 0, 0]);
}

#[test]
fn frame_header_layout() {
    let f = Frame {
        version: 1,
        syn: 0x0102_0304,
        ack: 0x0a0b_0c0d,
        packet: Some(Packet::Movement(movement(1, true, false, false, false))),
    };
    assert_eq!(
        f.to_bytes(),
        vec![1, 1, 2, 3, 4, 0x0a, 0x0b, 0x0c, 0x0d, 2, 0, 1, 0b1000]
    );
}

#[test]
fn frame_round_trip_with_and_without_packet() {
    let frames = vec![
        Frame::new(),
        Frame { version: 1, syn: u32::MAX, ack: 17, packet: Some(Packet::Ping(Ping)) },
        Frame { version: 9, syn: 5, ack: 0, packet: Some(Packet::Sync(Sync)) },
        Frame {
            version: 1,
            syn: 0x8000_0000,
            ack: u32::MAX,
            packet: Some(Packet::Movement(movement(300, false, true, true, false))),
        },
    ];
    for f in frames {
        assert_eq!(Frame::from_bytes(&f.to_bytes()), Ok(f));
    }
}

#[test]
fn nine_byte_datagram_is_a_probe() {
    let bytes = [1, 0, 0, 0, 7, 0, 0, 0, 3];
    assert_eq!(bytes.len(), HEADER_LEN);
    assert_eq!(
        Frame::from_bytes(&bytes),
        Ok(Frame { version: 1, syn: 7, ack: 3, packet: None })
    );
}

#[test]
fn frame_decode_errors() {
    assert_eq!(Frame::from_bytes(&[]), Err(DecodeError::TruncatedFrame));
    assert_eq!(Frame::from_bytes(&[1, 0, 0, 0, 0, 0, 0, 0]), Err(DecodeError::TruncatedFrame));
    assert_eq!(
        Frame::from_bytes(&[1, 0, 0, 0, 0, 0, 0, 0, 0, 2, 0]),
        Err(DecodeError::TruncatedPacket)
    );
    assert_eq!(
        Frame::from_bytes(&[1, 0, 0, 0, 0, 0, 0, 0, 0, 5]),
        Err(DecodeError::UnknownTag)
    );
}
