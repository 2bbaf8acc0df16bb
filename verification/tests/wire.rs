use ubxlib::wire::{
    get_i16, get_i32, get_i8, get_u16, get_u32, get_u8, put_bytes, put_i16, put_i32, put_i8,
    put_u16, put_u32, put_u8,
};

#[test]
fn fields_are_little_endian() {
    let mut buf = Vec::new();
    put_u8(&mut buf, 0x01);
    put_i8(&mut buf, -2);
    put_u16(&mut buf, 0x0304);
    put_i16(&mut buf, -1000);
    put_u32(&mut buf, 0x05060708);
    put_i32(&mut buf, -2);
    put_bytes(&mut buf, &[9, 10]);
    assert_eq!(
        buf,
        [0x01, 0xFE, 0x04, 0x03, 0x18, 0xFC, 0x08, 0x07, 0x06, 0x05, 0xFE, 0xFF, 0xFF, 0xFF, 9, 10]
    );

    assert_eq!(get_u8(&buf, 0), 0x01);
    assert_eq!(get_i8(&buf, 1), -2);
    assert_eq!(get_u16(&buf, 2), 0x0304);
    assert_eq!(get_i16(&buf, 4), -1000);
    assert_eq!(get_u32(&buf, 6), 0x05060708);
    assert_eq!(get_i32(&buf, 10), -2);
}

#[test]
fn fields_at_their_limits() {
    for value in [i8::MIN, -1, 0, 1, i8::MAX] {
        let mut buf = Vec::new();
        put_i8(&mut buf, value);
        assert_eq!(buf, value.to_le_bytes());
        assert_eq!(get_i8(&buf, 0), value);
    }
    for value in [i16::MIN, -1, 0, 1, i16::MAX] {
        let mut buf = Vec::new();
        put_i16(&mut buf, value);
        assert_eq!(buf, value.to_le_bytes());
        assert_eq!(get_i16(&buf, 0), value);
    }
    for value in [i32::MIN, -1, 0, 1, i32::MAX] {
        let mut buf = Vec::new();
        put_i32(&mut buf, value);
        assert_eq!(buf, value.to_le_bytes());
        assert_eq!(get_i32(&buf, 0), value);
    }
    for value in [0, 1, 0xFF, 0x100, u16::MAX] {
        let mut buf = Vec::new();
        put_u16(&mut buf, value);
        assert_eq!(buf, value.to_le_bytes());
        assert_eq!(get_u16(&buf, 0), value);
    }
    for value in [0, 1, 0xFFFF, 0x10000, 0x01000000, u32::MAX] {
        let mut buf = Vec::new();
        put_u32(&mut buf, value);
        assert_eq!(buf, value.to_le_bytes());
        assert_eq!(get_u32(&buf, 0), value);
    }
}
