use ubxlib::frame::{UbxFrameDeSerialize, UbxFrameSerialize};
use ubxlib::ubx_cfg_nav5::UbxCfgNav5;
use ubxlib::ubx_cfg_nmea::UbxCfgNmea;

#[test]
fn serialize_deser() {
    let mut dut = UbxCfgNav5::new();
    assert_eq!(dut.name, "UBX-CFG-NAV5");

    dut.data.mask = 0x1122;
    dut.data.dyn_model = 4;
    dut.data.fix_mode = 2;
    dut.data.utc_standard = 3;

    let res = dut.to_bin();
    assert_eq!(res.len(), 36 + 8);
    assert_eq!(res[6 + 2], 4);
    assert_eq!(res[6 + 3], 2);
    assert_eq!(res[6 + 30], 3);

    // invalidate data, to check that reading is actually working
    dut.data.mask = 0x0000;
    dut.data.dyn_model = 0;
    dut.data.fix_mode = 0;
    dut.data.utc_standard = 0;

    dut.from_bin(&res[6..42]);
    assert_eq!(dut.data.mask, 0x1122);
    assert_eq!(dut.data.dyn_model, 4);
    assert_eq!(dut.data.fix_mode, 2);
    assert_eq!(dut.data.utc_standard, 3);
}

#[test]
fn set() {
    let mut dut = UbxCfgNmea::new();
    assert_eq!(dut.name, "UBX-CFG-NMEA");
    dut.data.nmea_version = 0x41;
    let msg = dut.to_bin();
    assert_eq!(msg[6 + 1], 0x41);
}
