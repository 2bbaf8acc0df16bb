use ubxlib::cid::UbxCID;
use ubxlib::parser::Parser;

/* B5 62 13 40 18 00 10 00 00 12 E4 07 09 05 06 28 30 00 40 28 EF 0C 0A 00 00 00 00 00 00 00 51 AC   */
/* hdr  | <--                                 checksum                                  --> | chksum */
const FRAME_1: [u8; 32] = [
    0xB5, 0x62, 0x13, 0x40, 0x18, 0x00, 0x10, 0x00, 0x00, 0x12, 0xE4, 0x07, 0x09, 0x05, 0x06,
    0x28, 0x30, 0x00, 0x40, 0x28, 0xEF, 0x0C, 0x0A, 0x00, 0x00, 0x00, 0x00, 0x00, 0x00, 0x00,
    0x51, 0xAC,
];

#[test]
#[should_panic]
fn parser_no_frames() {
    let mut uut = Parser::new();
    let res = uut.packet(); // None
    let _packet = res.unwrap(); // should panic
}

#[test]
fn parser_process_byte() {
    let mut uut = Parser::new();
    uut.add_filter(UbxCID::new(0x13, 0x40));
    for byte in FRAME_1.iter() {
        uut.process_byte(*byte);
    }

    let res = uut.packet(); // Some(Packet)
    let packet = res.unwrap(); // panics if None
    assert_eq!(packet.cid, UbxCID::new(0x13, 0x40));
}

#[test]
fn parser_process_array() {
    let mut uut = Parser::new();
    uut.add_filter(UbxCID::new(0x13, 0x40));
    uut.process(&FRAME_1.to_vec());

    let res = uut.packet(); // Some(Packet)
    let packet = res.unwrap(); // panics if None
    assert_eq!(packet.cid, UbxCID::new(0x13, 0x40));
}

#[test]
fn parser_passes_filter() {
    let mut uut = Parser::new();
    uut.add_filter(UbxCID::new(0x13, 0x40));
    uut.process(&FRAME_1.to_vec());

    let res = uut.packet(); // Some(Packet)
    let packet = res.unwrap(); // panics if None
    assert_eq!(packet.cid, UbxCID::new(0x13, 0x40));
}

#[test]
fn parser_dropped_cls() {
    let mut uut = Parser::new();
    uut.add_filter(UbxCID::new(0x12, 0x40));
    uut.process(&FRAME_1.to_vec());

    let res = uut.packet();
    assert_eq!(res.is_none(), true);
}

#[test]
fn parser_dropped_id() {
    let mut uut = Parser::new();
    uut.add_filter(UbxCID::new(0x13, 0x41));
    uut.process(&FRAME_1.to_vec());

    let res = uut.packet();
    assert_eq!(res.is_none(), true);
}

#[test]
fn parser_multiple_filters() {
    let mut uut = Parser::new();
    uut.add_filter(UbxCID::new(0x12, 0x12));
    uut.add_filter(UbxCID::new(0x13, 0x40));
    uut.add_filter(UbxCID::new(0xFF, 0x00));
    uut.add_filter(UbxCID::new(0xFF, 0x00));
    uut.process(&FRAME_1.to_vec());

    let res = uut.packet(); // Some(Packet)
    let packet = res.unwrap(); // panics if None
    assert_eq!(packet.cid, UbxCID::new(0x13, 0x40));
}

#[test]
fn clear_filter() {
    let mut uut = Parser::new();
    uut.add_filter(UbxCID::new(0x13, 0x40));
    uut.process(&FRAME_1.to_vec());
    let res = uut.packet();
    assert_eq!(res.is_some(), true);

    // an empty filter lets every frame pass
    uut.clear_filter();
    uut.process(&FRAME_1.to_vec());
    let res = uut.packet();
    assert_eq!(res.is_some(), true);
    assert_eq!(res.unwrap().cid, UbxCID::new(0x13, 0x40));
}

#[test]
fn parser_without_filter_lets_every_frame_pass() {
    let mut uut = Parser::new();
    uut.process(&FRAME_1.to_vec());
    let packet = uut.packet().unwrap();
    assert_eq!(packet.cid, UbxCID::new(0x13, 0x40));
    assert_eq!(packet.data, FRAME_1[6..30]);
    assert!(uut.packet().is_none());
}

#[test]
fn parser_crc_error() {
    let mut frame = FRAME_1;
    frame[31] = 0xAC + 1;
    let mut uut = Parser::new();
    uut.add_filter(UbxCID::new(0x13, 0x40));
    uut.process(&frame.to_vec());
    let res = uut.packet(); // crc packet
    assert_eq!(res.is_some(), true);
    let packet = res.unwrap(); // panics if None
    assert_eq!(packet.cid, UbxCID::new(0x00, 0x02));
}

#[test]
fn parser_invalid_length() {
    let frame: [u8; 32] = [
        0xB5, 0x62, 0x13, 0x40, 0xe9, 0x03, 0x10, 0x00, 0x00, 0x12, 0xE4, 0x07, 0x09, 0x05,
        0x06, 0x28, 0x30, 0x00, 0x40, 0x28, 0xEF, 0x0C, 0x0A, 0x00, 0x00, 0x00, 0x00, 0x00,
        0x00, 0x00, 0x51, 0xAC,
    ];
    let mut uut = Parser::new();
    uut.add_filter(UbxCID::new(0x13, 0x40));
    uut.process(&frame.to_vec());
    let res = uut.packet(); // Should be None because frame is too long (MAX_MESSAGE_LENGTH)
    assert_eq!(res.is_none(), true);
}

#[test]
fn parser_hands_over_payload_and_keeps_order() {
    let mut uut = Parser::new();
    uut.add_filter(UbxCID::new(0x13, 0x40));
    uut.process(&FRAME_1.to_vec());
    let mut broken = FRAME_1;
    broken[30] = 0x00;
    uut.process(&broken.to_vec());

    let packet = uut.packet().unwrap();
    assert_eq!(packet.data, FRAME_1[6..30]);
    let sentinel = uut.packet().unwrap();
    assert_eq!(sentinel.cid, UbxCID::new(0x00, 0x02));
    assert!(sentinel.data.is_empty());
    assert!(uut.packet().is_none());

    uut.process(&FRAME_1.to_vec());
    uut.empty_queue();
    assert!(uut.packet().is_none());
}
