use ubxlib::cid::UbxCID;
use ubxlib::frame::UbxFrame;
use ubxlib::parser_ubx::ParserUbx;

/* B5 62 13 40 18 00 10 00 00 12 E4 07 09 05 06 28 30 00 40 28 EF 0C 0A 00 00 00 00 00 00 00 51 AC   */
/* hdr  | <--                                 checksum                                  --> | chksum */
const FRAME_1: [u8; 32] = [
    0xB5, 0x62, 0x13, 0x40, 0x18, 0x00, 0x10, 0x00, 0x00, 0x12, 0xE4, 0x07, 0x09, 0x05, 0x06,
    0x28, 0x30, 0x00, 0x40, 0x28, 0xEF, 0x0C, 0x0A, 0x00, 0x00, 0x00, 0x00, 0x00, 0x00, 0x00,
    0x51, 0xAC,
];

#[test]
#[should_panic]
fn parser_ubx_no_frames() {
    let mut uut = ParserUbx::new();
    let res = uut.packet(); // None
    let _packet = res.unwrap(); // should panic
}

#[test]
fn parser_ubx_process_byte() {
    let mut uut = ParserUbx::new();
    uut.set_filter(UbxCID::new(0x13, 0x40));
    for byte in FRAME_1.iter() {
        uut.process_byte(*byte);
    }

    let res = uut.packet();
    let packet = res.unwrap(); // panics if None
    assert_eq!(packet.cid, UbxCID::new(0x13, 0x40));
}

#[test]
fn parser_ubx_process_array() {
    let mut uut = ParserUbx::new();
    uut.set_filter(UbxCID::new(0x13, 0x40));
    uut.process(&FRAME_1.to_vec());

    let res = uut.packet();
    let packet = res.unwrap(); // panics if None
    assert_eq!(packet.cid, UbxCID::new(0x13, 0x40));
}

#[test]
fn parser_ubx_passes_filter() {
    let mut uut = ParserUbx::new();
    uut.set_filter(UbxCID::new(0x13, 0x40));
    uut.process(&FRAME_1.to_vec());

    let res = uut.packet();
    let packet = res.unwrap(); // panics if None
    assert_eq!(packet.cid, UbxCID::new(0x13, 0x40));
}

#[test]
fn parser_ubx_dropped_cls() {
    let mut uut = ParserUbx::new();
    uut.set_filter(UbxCID::new(0x12, 0x40));
    uut.process(&FRAME_1.to_vec());

    let res = uut.packet();
    assert_eq!(res.is_none(), true);
}

#[test]
fn parser_ubx_dropped_id() {
    let mut uut = ParserUbx::new();
    uut.set_filter(UbxCID::new(0x13, 0x41));
    uut.process(&FRAME_1.to_vec());

    let res = uut.packet();
    assert_eq!(res.is_none(), true);
}

#[test]
fn parser_ubx_multiple_filters() {
    let mut uut = ParserUbx::new();
    let cids = [
        UbxCID::new(0x12, 0x12),
        UbxCID::new(0x13, 0x40),
        UbxCID::new(0xFF, 0x00),
        UbxCID::new(0xFF, 0x00),
    ];
    uut.set_filters(&cids);
    uut.process(&FRAME_1.to_vec());

    let res = uut.packet();
    let packet = res.unwrap(); // panics if None
    assert_eq!(packet.cid, UbxCID::new(0x13, 0x40));
}

#[test]
fn change_filter() {
    let mut uut = ParserUbx::new();
    uut.set_filter(UbxCID::new(0x13, 0x40));
    uut.process(&FRAME_1.to_vec());
    let res = uut.packet();
    assert_eq!(res.is_some(), true);

    uut.set_filter(UbxCID::new(0x00, 0x00));
    uut.process(&FRAME_1.to_vec());
    let res = uut.packet();
    assert_eq!(res.is_none(), true);
}

#[test]
fn parser_ubx_crc_error() {
    let mut frame = FRAME_1;
    frame[31] = 0xAC + 1;
    let mut uut = ParserUbx::new();
    uut.set_filter(UbxCID::new(0x13, 0x40));
    uut.process(&frame.to_vec());
    let res = uut.packet(); // crc packet
    assert_eq!(res.is_some(), true);
    let packet = res.unwrap(); // panics if None
    assert_eq!(packet.cid, UbxCID::new(0x00, 0x02));
}

#[test]
fn parser_ubx_invalid_length() {
    let frame: [u8; 32] = [
        0xB5, 0x62, 0x13, 0x40, 0xe9, 0x03, 0x10, 0x00, 0x00, 0x12, 0xE4, 0x07, 0x09, 0x05,
        0x06, 0x28, 0x30, 0x00, 0x40, 0x28, 0xEF, 0x0C, 0x0A, 0x00, 0x00, 0x00, 0x00, 0x00,
        0x00, 0x00, 0x51, 0xAC,
    ];
    let mut uut = ParserUbx::new();
    uut.set_filter(UbxCID::new(0x13, 0x40));
    uut.process(&frame.to_vec());
    let res = uut.packet(); // Should be None because frame is too long (MAX_MESSAGE_LENGTH)
    assert_eq!(res.is_none(), true);
}

#[test]
fn filters() {
    let mut uut = ParserUbx::new();

    uut.set_filters(&[UbxCID::new(0x05, 0x01), UbxCID::new(0x05, 0x00)]);
    assert_eq!(uut.filter_len(), 2);
    assert!(uut.filter_contains(UbxCID::new(0x05, 0x00)));
    assert!(uut.filter_contains(UbxCID::new(0x05, 0x01)));

    let cids = [UbxCID::new(0x05, 0x00), UbxCID::new(0x05, 0x01)];
    uut.set_filters(&cids);
    assert_eq!(uut.filter_len(), 2);
    assert!(uut.filter_contains(UbxCID::new(0x05, 0x00)));
    assert!(uut.filter_contains(UbxCID::new(0x05, 0x01)));
}

fn frame(cls: u8, id: u8, payload: &[u8]) -> Vec<u8> {
    UbxFrame::bytes(UbxCID::new(cls, id), payload)
}

#[test]
fn round_trip_with_matching_filter() {
    let cid = UbxCID::new(0x06, 0x08);
    let payload = [0xE8, 0x03, 0x01, 0x00, 0x34, 0x12];
    let mut uut = ParserUbx::new();
    uut.set_filter(cid);
    uut.process(&UbxFrame::bytes(cid, &payload));

    let packet = uut.packet().unwrap();
    assert_eq!(packet.cid, cid);
    assert_eq!(packet.data, payload);
    assert!(uut.packet().is_none());
    assert_eq!(uut.frames_received(), 1);
}

#[test]
fn round_trip_with_disjoint_filter() {
    let cid = UbxCID::new(0x06, 0x08);
    let mut uut = ParserUbx::new();
    uut.set_filter(UbxCID::new(0x06, 0x09));
    uut.process(&UbxFrame::bytes(cid, &[1, 2, 3]));

    assert!(uut.packet().is_none());
    // the frame is counted although it did not pass
    assert_eq!(uut.frames_received(), 1);
}

#[test]
fn empty_filter_lets_every_frame_pass() {
    let mut uut = ParserUbx::new();
    uut.process(&frame(0x01, 0x07, &[9, 8, 7]));
    uut.process(&frame(0x0A, 0x04, &[]));

    let first = uut.packet().unwrap();
    assert_eq!(first.cid, UbxCID::new(0x01, 0x07));
    assert_eq!(first.data, [9, 8, 7]);
    let second = uut.packet().unwrap();
    assert_eq!(second.cid, UbxCID::new(0x0A, 0x04));
    assert!(second.data.is_empty());
    assert!(uut.packet().is_none());
}

#[test]
fn round_trip_of_longest_and_empty_payload() {
    let cid = UbxCID::new(0x01, 0x35);
    let longest: Vec<u8> = (0..1000u32).map(|i| (i * 31 % 251) as u8).collect();
    let mut uut = ParserUbx::new();
    uut.set_filter(cid);
    uut.process(&UbxFrame::bytes(cid, &longest));
    uut.process(&UbxFrame::bytes(cid, &[]));

    assert_eq!(uut.packet().unwrap().data, longest);
    assert!(uut.packet().unwrap().data.is_empty());
    assert!(uut.packet().is_none());
    assert_eq!(uut.frames_received(), 2);
}

#[test]
fn payload_one_byte_too_long_is_dropped_silently() {
    let cid = UbxCID::new(0x01, 0x35);
    let too_long = vec![0u8; 1001];
    let mut uut = ParserUbx::new();
    uut.set_filter(cid);
    uut.process(&UbxFrame::bytes(cid, &too_long));

    assert!(uut.packet().is_none());
    assert_eq!(uut.frames_received(), 0);
}

#[test]
fn flipped_checksum_gives_sentinel_and_parser_resynchronises() {
    let cid = UbxCID::new(0x13, 0x40);
    let mut stream = FRAME_1.to_vec();
    stream[31] ^= 0xFF;
    stream.extend_from_slice(&FRAME_1);

    let mut uut = ParserUbx::new();
    uut.set_filter(cid);
    uut.process(&stream);

    let sentinel = uut.packet().unwrap();
    assert_eq!(sentinel.cid, UbxCID::new(0x00, 0x02));
    assert!(sentinel.data.is_empty());
    let packet = uut.packet().unwrap();
    assert_eq!(packet.cid, cid);
    assert_eq!(packet.data, FRAME_1[6..30]);
    assert!(uut.packet().is_none());
    assert_eq!(uut.frames_received(), 1);
}

#[test]
fn sentinel_bypasses_filter() {
    let mut stream = frame(0x13, 0x40, &[1, 2, 3, 4]);
    let last = stream.len() - 1;
    stream[last] = stream[last].wrapping_add(1);

    let mut uut = ParserUbx::new();
    uut.set_filter(UbxCID::new(0x77, 0x77));
    uut.process(&stream);

    assert_eq!(uut.packet().unwrap().cid, UbxCID::new(0x00, 0x02));
    assert_eq!(uut.frames_received(), 0);
}

#[test]
fn length_guard_leaves_parser_ready_for_next_sync() {
    // header declaring 1001 bytes, directly followed by a valid frame
    let mut stream = vec![0xB5, 0x62, 0x13, 0x40, 0xE9, 0x03];
    stream.extend_from_slice(&FRAME_1);

    let mut uut = ParserUbx::new();
    uut.set_filter(UbxCID::new(0x13, 0x40));
    uut.process(&stream);

    let packet = uut.packet().unwrap();
    assert_eq!(packet.cid, UbxCID::new(0x13, 0x40));
    assert!(uut.packet().is_none());
}

#[test]
fn declared_length_of_exactly_1000_is_accepted() {
    let mut uut = ParserUbx::new();
    // 0x03E8 == 1000
    uut.process(&vec![0xB5, 0x62, 0x13, 0x40, 0xE8, 0x03]);
    uut.process(&vec![0u8; 1000]);
    // checksum of class, id, length and a thousand zero bytes
    let expected = UbxFrame::bytes(UbxCID::new(0x13, 0x40), &vec![0u8; 1000]);
    uut.process(&expected[1006..].to_vec());
    assert_eq!(uut.frames_received(), 1);
    assert_eq!(uut.packet().unwrap().data.len(), 1000);
}

#[test]
fn filter_ordering() {
    let a = UbxCID::new(0x01, 0x07);
    let b = UbxCID::new(0x05, 0x01);
    let mut stream = Vec::new();
    stream.extend(frame(0x01, 0x07, &[1]));
    stream.extend(frame(0x0A, 0x04, &[2, 2]));
    stream.extend(frame(0x05, 0x01, &[3, 3, 3]));
    stream.extend(frame(0x01, 0x07, &[4, 4, 4, 4]));

    let mut uut = ParserUbx::new();
    uut.set_filters(&[a, b]);
    uut.process(&stream);

    let first = uut.packet().unwrap();
    assert_eq!((first.cid, first.data), (a, vec![1]));
    let second = uut.packet().unwrap();
    assert_eq!((second.cid, second.data), (b, vec![3, 3, 3]));
    let third = uut.packet().unwrap();
    assert_eq!((third.cid, third.data), (a, vec![4, 4, 4, 4]));
    assert!(uut.packet().is_none());
    assert_eq!(uut.frames_received(), 4);
}

#[test]
fn noise_between_frames_is_skipped() {
    let cid = UbxCID::new(0x13, 0x40);
    let mut stream = b"$GPGSV,3,1,11,03,03,111,00*74\r\n".to_vec();
    stream.push(0xB5); // sync byte that is followed by no second one
    stream.extend_from_slice(b"xyz");
    stream.extend_from_slice(&FRAME_1);

    let mut uut = ParserUbx::new();
    uut.set_filter(cid);
    uut.process(&stream);

    assert_eq!(uut.packet().unwrap().cid, cid);
    assert!(uut.packet().is_none());
}

#[test]
fn restart_gives_up_frame_in_progress() {
    let cid = UbxCID::new(0x13, 0x40);
    let mut uut = ParserUbx::new();
    uut.set_filter(cid);
    uut.process(&FRAME_1[..10].to_vec());
    uut.restart();
    uut.process(&FRAME_1.to_vec());

    assert_eq!(uut.packet().unwrap().data, FRAME_1[6..30]);
    assert!(uut.packet().is_none());
    assert_eq!(uut.frames_received(), 1);
}

#[test]
fn empty_queue_drops_waiting_packets() {
    let cid = UbxCID::new(0x13, 0x40);
    let mut uut = ParserUbx::new();
    uut.set_filter(cid);
    uut.process(&FRAME_1.to_vec());
    uut.process(&FRAME_1.to_vec());
    uut.empty_queue();

    assert!(uut.packet().is_none());
    assert_eq!(uut.frames_received(), 2);
}

#[test]
fn byte_by_byte_equals_all_at_once() {
    let cid = UbxCID::new(0x13, 0x40);
    let mut stream = FRAME_1.to_vec();
    stream.extend(frame(0x13, 0x40, &[5, 6]));

    let mut whole = ParserUbx::new();
    whole.set_filter(cid);
    whole.process(&stream);

    let mut single = ParserUbx::new();
    single.set_filter(cid);
    for byte in stream.iter() {
        single.process_byte(*byte);
    }

    loop {
        let a = whole.packet();
        let b = single.packet();
        match (a, b) {
            (Some(a), Some(b)) => {
                assert_eq!(a.cid, b.cid);
                assert_eq!(a.data, b.data);
            }
            (None, None) => break,
            _ => panic!("queues differ"),
        }
    }
    assert_eq!(whole.frames_received(), single.frames_received());
}
