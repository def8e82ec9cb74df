use hqm_core::bitio::{HQMMessageReader, HQMMessageWriter};
use hqm_core::engine::{clock_message, convert_speed, goal_message};
use hqm_core::game::{HQMObjectPacket, HQMPuckPacket, HQMSkaterPacket};
use hqm_core::wire::{
    get_player_name, parse_request, read_chat_payload, read_object_packet, write_chat_payload,
    write_game_id_mismatch, write_info_reply, write_object_packet, write_snapshot,
    write_snapshot_fixed, HQMClientToServer, HQMSnapshotFixed,
};

#[test]
fn bits_roundtrip_various_widths() {
    let mut w = HQMMessageWriter::new();
    w.write_bits(1, 1);
    w.write_bits(7, 0x55);
    w.write_bits(17, 99_999);
    w.write_bits(32, 0xdead_beef);
    w.write_bits(6, 63);
    let bytes = w.get_bytes();
    let mut r = HQMMessageReader::new(bytes.as_slice());
    assert_eq!(r.read_bits(1), 1);
    assert_eq!(r.read_bits(7), 0x55);
    assert_eq!(r.read_bits(17), 99_999);
    assert_eq!(r.read_bits(32), 0xdead_beef);
    assert_eq!(r.read_bits(6), 63);
}

#[test]
fn aligned_ops_roundtrip() {
    let mut w = HQMMessageWriter::new();
    w.write_bits(3, 5);
    w.write_u32_aligned(0x0102_0304);
    w.write_byte_aligned(0xab);
    let bytes = w.get_bytes();
    let mut r = HQMMessageReader::new(bytes.as_slice());
    assert_eq!(r.read_bits(3), 5);
    assert_eq!(r.read_u32_aligned(), 0x0102_0304);
    assert_eq!(r.read_byte_aligned(), 0xab);
}

#[test]
fn snapshot_fixed_roundtrip() {
    let f = HQMSnapshotFixed {
        game_id: 77,
        game_step: 123_456,
        game_over: true,
        red_score: 3,
        blue_score: 250,
        time: 29_999,
        goal_message_timer: 700,
        period: 2,
        own_slot: 17,
    };
    let mut w = HQMMessageWriter::new();
    write_snapshot_fixed(&mut w, &f);
    let bytes = w.get_bytes();
    let mut r = HQMMessageReader::new(bytes.as_slice());
    let parsed = hqm_core::wire::parse_snapshot_fixed(&mut r);
    assert_eq!(parsed, f);
}

#[test]
fn snapshot_full_has_magic_and_command() {
    let f = HQMSnapshotFixed {
        game_id: 1,
        game_step: 2,
        game_over: false,
        red_score: 0,
        blue_score: 0,
        time: 30_000,
        goal_message_timer: 0,
        period: 1,
        own_slot: 0,
    };
    let mut packets = Vec::new();
    for _ in 0..31 {
        packets.push(HQMObjectPacket::Empty);
    }
    packets.push(
        HQMObjectPacket::Puck(
            HQMPuckPacket { pos_x: 1, pos_y: 2, pos_z: 3, rot_a: 4, rot_b: 5 },
        ),
    );
    let data = write_snapshot(&f, 0, 0, 0, 9, 8, &packets, &Vec::new(), 0);
    assert_eq!(&data[0..4], b"Hock");
    assert_eq!(data[4], 5);
    let mut r = HQMMessageReader::new(data.as_slice());
    let parsed = hqm_core::wire::parse_snapshot_fixed(&mut r);
    assert_eq!(parsed, f);
}

#[test]
fn chat_payload_roundtrip_ascii() {
    let text = b"hello there, this is chat".to_vec();
    let mut w = HQMMessageWriter::new();
    write_chat_payload(&mut w, text.as_slice(), text.len());
    let bytes = w.get_bytes();
    let mut r = HQMMessageReader::new(bytes.as_slice());
    let back = read_chat_payload(&mut r, text.len());
    assert_eq!(back, text);
}

#[test]
fn chat_payload_truncates_high_bit() {
    // a byte at or above 0x80 cannot survive a 7-bit group
    let text = vec![0xc3u8, 0xa9u8];
    let mut w = HQMMessageWriter::new();
    write_chat_payload(&mut w, text.as_slice(), text.len());
    let bytes = w.get_bytes();
    let mut r = HQMMessageReader::new(bytes.as_slice());
    let back = read_chat_payload(&mut r, text.len());
    assert_eq!(back, vec![0x43u8, 0x29u8]);
}

#[test]
fn game_id_mismatch_frame() {
    let data = write_game_id_mismatch(0x01020304);
    assert_eq!(&data[0..4], b"Hock");
    assert_eq!(data[4], 6);
    assert_eq!(&data[5..9], &[0x04, 0x03, 0x02, 0x01]);
}

#[test]
fn info_reply_frame() {
    let data = write_info_reply(0xCAFEBABE, 3, 8, &b"my server".to_vec());
    assert_eq!(&data[0..4], b"Hock");
    assert_eq!(data[4], 1);
    assert_eq!(data[5], 55);
    assert_eq!(&data[6..10], &[0xBE, 0xBA, 0xFE, 0xCA]);
    assert_eq!(data[10], 3);
}

#[test]
fn parse_info_request() {
    let mut w = HQMMessageWriter::new();
    w.write_bits(8, 0x48);
    w.write_bits(8, 0x6f);
    w.write_bits(8, 0x63);
    w.write_bits(8, 0x6b);
    w.write_bits(8, 0);
    w.write_bits(8, 55);
    w.write_u32_aligned(0x12345678);
    let bytes = w.get_bytes();
    match parse_request(&bytes) {
        Some(HQMClientToServer::Info { version, ping }) => {
            assert_eq!(version, 55);
            assert_eq!(ping, 0x12345678);
        },
        other => panic!("unexpected parse: {:?}", other.is_some()),
    }
}

#[test]
fn parse_player_update_with_chat() {
    let mut w = HQMMessageWriter::new();
    w.write_bits(8, 0x48);
    w.write_bits(8, 0x6f);
    w.write_bits(8, 0x63);
    w.write_bits(8, 0x6b);
    w.write_bits(8, 4);
    w.write_u32_aligned(42);  // game id
    for i in 0..8u32 {
        w.write_u32_aligned(i);  // analogue channels
    }
    w.write_u32_aligned(0x4);  // keys: join red held
    w.write_u32_aligned(17);  // packet index
    w.align();
    w.write_bits(16, 5);  // message cursor
    w.write_bits(1, 1);  // chat flag
    w.write_bits(3, 2);  // chat repetition counter
    w.write_bits(8, 2);  // chat length
    w.align();
    w.write_bits(8, b'h' as u32);
    w.write_bits(8, b'i' as u32);
    let bytes = w.get_bytes();
    match parse_request(&bytes) {
        Some(
            HQMClientToServer::Update {
                version,
                current_game_id,
                input,
                deltatime,
                new_known_packet,
                known_msgpos,
                chat,
            },
        ) => {
            assert_eq!(version, 0);
            assert_eq!(current_game_id, 42);
            assert_eq!(input.keys, 4);
            assert_eq!(input.head_rot_bits, 6);
            assert_eq!(deltatime, None);
            assert_eq!(new_known_packet, 17);
            assert_eq!(known_msgpos, 5);
            let (rep, msg) = chat.unwrap();
            assert_eq!(rep, 2);
            assert_eq!(msg, b"hi".to_vec());
        },
        other => panic!("unexpected parse: {:?}", other.is_some()),
    }
}

#[test]
fn parse_rejects_bad_magic() {
    let bytes = b"Hick\x00\x00\x00\x00\x00\x00".to_vec();
    assert!(parse_request(&bytes).is_none());
}

#[test]
fn parse_rejects_truncated() {
    let bytes = b"Hock\x04\x01".to_vec();
    assert!(parse_request(&bytes).is_none());
}

#[test]
fn player_name_decoding() {
    let name = get_player_name(b"migo\0\0\0\0".to_vec()).unwrap();
    assert_eq!(name, "migo");
    // the NUL terminator cuts the name
    let name = get_player_name(b"a\0b".to_vec()).unwrap();
    assert_eq!(name, "a");
    // invalid UTF-8 before the terminator is rejected
    assert!(get_player_name(vec![0xff, 0xfe, 0x00]).is_none());
    // multi-byte UTF-8 is fine
    let name = get_player_name(vec![0xc3, 0xa9, 0x00]).unwrap();
    assert_eq!(name, "\u{e9}");
}

#[test]
fn goal_message_text_format() {
    let v = goal_message(553, Some(321), true);
    assert_eq!(v, b"Goal scored, 55.3 mph across line, 32.1 mph from stick".to_vec());
    let v = goal_message(80, None, false);
    assert_eq!(v, b"Goal scored, 8.0 km/h across line".to_vec());
}

#[test]
fn clock_message_format() {
    assert_eq!(clock_message(999, " seconds left"), b"9.99 seconds left".to_vec());
    assert_eq!(clock_message(30000, " seconds too late!"), b"300.00 seconds too late!".to_vec());
    assert_eq!(clock_message(5, " seconds left"), b"0.05 seconds left".to_vec());
}

#[test]
fn speed_conversion_exact() {
    // one metre per tick is 360 km/h and 223.693 miles per hour
    assert_eq!(convert_speed(1000, false), 3600);
    assert_eq!(convert_speed(1000, true), 2236);
    assert_eq!(convert_speed(0, true), 0);
    assert_eq!(convert_speed(250, false), 900);
}

#[test]
fn object_packet_roundtrip() {
    let skater = HQMObjectPacket::Skater(HQMSkaterPacket {
        pos_x: 131071,
        pos_y: 0,
        pos_z: 77_777,
        rot_a: 0x7fff_ffff,
        rot_b: 12345,
        stick_pos_x: 8191,
        stick_pos_y: 17,
        stick_pos_z: 4096,
        stick_rot_a: 0x1ff_ffff,
        stick_rot_b: 3,
        head_rot: 65535,
        body_rot: 256,
    });
    let puck = HQMObjectPacket::Puck(HQMPuckPacket {
        pos_x: 1,
        pos_y: 131070,
        pos_z: 65536,
        rot_a: 0,
        rot_b: 0x7fff_fffe,
    });
    let mut w = hqm_core::bitio::HQMMessageWriter::new();
    write_object_packet(&mut w, &skater);
    write_object_packet(&mut w, &HQMObjectPacket::Empty);
    write_object_packet(&mut w, &puck);
    // pad so the reader's lookahead requirement is met for the last slot
    w.write_bits(32, 0);
    w.write_bits(32, 0);
    w.write_bits(32, 0);
    w.write_bits(32, 0);
    let bytes = w.get_bytes();
    let mut r = HQMMessageReader::new(bytes.as_slice());
    assert_eq!(read_object_packet(&mut r), skater);
    assert_eq!(read_object_packet(&mut r), HQMObjectPacket::Empty);
    assert_eq!(read_object_packet(&mut r), puck);
}
