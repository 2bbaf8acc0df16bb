use ubxlib::checksum::Checksum;

#[test]
fn construction() {
    let dut = Checksum::new();
    let ok = dut.matches(0, 0);
    assert_eq!(ok, true);
}

#[test]
fn reset() {
    let mut dut = Checksum::new();
    dut.add(0xF0);
    dut.add(0xE0);

    dut.reset();
    let ok = dut.matches(0, 0);
    assert_eq!(ok, true);
}

#[test]
fn calculation() {
    let frame = vec![
        0x13, 0x40, 0x18, 0x00, 0x10, 0x00, 0x00, 0x12, 0xE4, 0x07, 0x09, 0x05, 0x06, 0x28,
        0x30, 0x00, 0x40, 0x28, 0xEF, 0x0C, 0x0A, 0x00, 0x00, 0x00, 0x00, 0x00, 0x00, 0x00,
    ];
    let mut uut = Checksum::new();
    for byte in frame.iter() {
        uut.add(*byte);
    }
    let ok = uut.matches(0x51, 0xAC);
    assert_eq!(ok, true);
}

#[test]
fn value_after_each_byte() {
    let mut uut = Checksum::new();
    assert_eq!(uut.value(), (0, 0));
    uut.add(0x05);
    assert_eq!(uut.value(), (0x05, 0x05));
    uut.add(0x01);
    assert_eq!(uut.value(), (0x06, 0x0B));
    uut.add(0xFF);
    assert_eq!(uut.value(), (0x05, 0x10));
}

#[test]
fn two_chunks_equal_one_pass() {
    let bytes: Vec<u8> = (0..=255u16).map(|b| (b * 7 % 256) as u8).collect();
    let mut whole = Checksum::new();
    for byte in bytes.iter() {
        whole.add(*byte);
    }
    for split in [0usize, 1, 17, 128, 255, 256] {
        let mut parts = Checksum::new();
        for byte in bytes[..split].iter() {
            parts.add(*byte);
        }
        for byte in bytes[split..].iter() {
            parts.add(*byte);
        }
        assert_eq!(parts.value(), whole.value());
    }
}
