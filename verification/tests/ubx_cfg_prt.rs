use ubxlib::frame::{UbxFrameDeSerialize, UbxFrameSerialize};
use ubxlib::ubx_cfg_prt::{DataCfgPrtPoll, UbxCfgPrtPoll, UbxCfgPrtUart};

#[test]
fn ubx_cfg_prt_poll() {
    let dut = UbxCfgPrtPoll::new();
    assert_eq!(dut.name, "UBX-CFG-PRT-POLL");
    assert_eq!(dut.data.port_id, 1);
    let msg = dut.to_bin();
    assert_eq!(msg, [0xb5, 0x62, 0x06, 0x00, 1, 0, 1, 8, 34]);
}

#[test]
fn ubx_cfg_prt_deserialize() {
    const DATA: [u8; 20] = [
        1, 0, 0, 0, 192, 8, 0, 0, 128, 37, 0, 0, 7, 0, 3, 0, 0, 0, 0, 0,
    ];
    let mut dut = UbxCfgPrtUart::new();
    assert_eq!(dut.name, "UBX-CFG-PRT");
    dut.from_bin(&DATA);

    assert_eq!(dut.data.port_id, 1);
    assert_eq!(dut.data.baudrate, 9600);
    assert_eq!(dut.data.in_proto_mask, 7);
    assert_eq!(dut.data.out_proto_mask, 3);
}

#[test]
fn ubx_cfg_prt_set() {
    let mut dut = UbxCfgPrtUart::new();
    assert_eq!(dut.name, "UBX-CFG-PRT");
    dut.data.baudrate = 115200;
    let msg = dut.to_bin();
    assert_eq!(msg[0..6], [0xb5, 0x62, 0x06, 0x00, 20, 0]);
    assert_eq!(msg[6 + 8..6 + 12], [0, 194, 1, 0]);
}

#[test]
fn ubx_cfg_prt_every_field_has_its_place() {
    const DATA: [u8; 20] = [
        1, 2, 0x04, 0x03, 0xC0, 0x08, 0x00, 0x80, 0x00, 0xC2, 0x01, 0x00, 7, 0, 3, 0, 0x34, 0x12,
        0xAA, 0xBB,
    ];
    let mut dut = UbxCfgPrtUart::new();
    dut.from_bin(&DATA);
    assert_eq!(dut.data.res1, 2);
    assert_eq!(dut.data.tx_ready, 0x0304);
    assert_eq!(dut.data.mode, 0x800008C0);
    assert_eq!(dut.data.baudrate, 115200);
    assert_eq!(dut.data.flags, 0x1234);
    assert_eq!(dut.data.res2, [0xAA, 0xBB]);
    assert_eq!(dut.to_bin()[6..26], DATA);
    assert_eq!(DataCfgPrtPoll::new().port_id, 1);
    assert_eq!(DataCfgPrtPoll::default().port_id, 0);
}
