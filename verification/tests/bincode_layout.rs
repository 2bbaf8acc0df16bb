use ubxlib::frame::{UbxFrameDeSerialize, UbxFrameSerialize};
use ubxlib::ubx_cfg_esfalg::UbxCfgEsfAlg;
use ubxlib::ubx_cfg_nav5::UbxCfgNav5;
use ubxlib::ubx_cfg_prt::UbxCfgPrtUart;
use ubxlib::ubx_cfg_rate::UbxCfgRate;

// The payloads are laid out as bincode lays out the same fields in the same
// order, with fixed-width little-endian integers.

#[test]
fn rate_payload_is_what_bincode_writes() {
    let mut dut = UbxCfgRate::new();
    dut.data.meas_rate = 1000;
    dut.data.nav_rate = 1;
    dut.data.time_ref = 0x1234;
    let expected = bincode::serialize(&(1000u16, 1u16, 0x1234u16)).unwrap();
    assert_eq!(dut.to_bin()[6..12], expected[..]);

    let (meas_rate, nav_rate, time_ref): (u16, u16, u16) =
        bincode::deserialize(&[0xe8, 0x03, 0x01, 0x00, 0x34, 0x12]).unwrap();
    let mut back = UbxCfgRate::new();
    back.from_bin(&[0xe8, 0x03, 0x01, 0x00, 0x34, 0x12]);
    assert_eq!((back.data.meas_rate, back.data.nav_rate, back.data.time_ref), (meas_rate, nav_rate, time_ref));
}

#[test]
fn esfalg_payload_is_what_bincode_writes() {
    let mut dut = UbxCfgEsfAlg::new();
    dut.data.bitfield = 0xDEADBEEF;
    dut.data.yaw = 18000;
    dut.data.pitch = -4500;
    dut.data.roll = 4500;
    let expected = bincode::serialize(&(0xDEADBEEFu32, 18000u32, -4500i16, 4500i16)).unwrap();
    assert_eq!(dut.to_bin()[6..18], expected[..]);
}

#[test]
fn prt_payload_is_what_bincode_writes() {
    let mut dut = UbxCfgPrtUart::new();
    dut.data.port_id = 1;
    dut.data.tx_ready = 0x0102;
    dut.data.mode = 0x000008C0;
    dut.data.baudrate = 115200;
    dut.data.in_proto_mask = 7;
    dut.data.out_proto_mask = 3;
    dut.data.flags = 0x8001;
    dut.data.res2 = [0xAA, 0xBB];
    let expected = bincode::serialize(&(
        1u8,
        0u8,
        0x0102u16,
        0x000008C0u32,
        115200u32,
        7u16,
        3u16,
        0x8001u16,
        [0xAAu8, 0xBBu8],
    ))
    .unwrap();
    assert_eq!(dut.to_bin()[6..26], expected[..]);
}

#[test]
fn nav5_payload_is_what_bincode_writes() {
    let mut dut = UbxCfgNav5::new();
    dut.data.mask = 0xFFFF;
    dut.data.dyn_model = 4;
    dut.data.fix_mode = 3;
    dut.data.fixed_alt = -123456;
    dut.data.fixed_alt_var = 10000;
    dut.data.min_elev = -10;
    dut.data.pdop = 250;
    let head = bincode::serialize(&(0xFFFFu16, 4u8, 3u8, -123456i32, 10000u32, -10i8, 0u8, 250u16))
        .unwrap();
    assert_eq!(dut.to_bin()[6..6 + head.len()], head[..]);
}
