use ubxlib::frame::{UbxFrameDeSerialize, UbxFrameSerialize};
use ubxlib::ubx_cfg_nav5::{UbxCfgNav5, UbxCfgNav5Poll, CLS, ID};

#[test]
fn ubx_cfg_nav5_poll() {
    let dut = UbxCfgNav5Poll::new();
    assert_eq!(dut.name, "UBX-CFG-NAV5-POLL");
    let msg = dut.to_bin();
    assert_eq!(msg, [0xb5, 0x62, CLS, ID, 0, 0, 42, 132]);
}

#[test]
fn ubx_cfg_nav5_serialize_deser() {
    let mut dut = UbxCfgNav5::new();
    assert_eq!(dut.name, "UBX-CFG-NAV5");

    dut.data.mask = 0x1122;
    dut.data.dyn_model = 4;
    dut.data.fix_mode = 2;
    dut.data.utc_standard = 3;

    let res = dut.to_bin();
    assert_eq!(res.len(), 36 + 8);
    assert_eq!(res[6 + 2], 4);
    assert_eq!(res[6 + 3], 2);
    assert_eq!(res[6 + 30], 3);

    // invalidate data, to check load() is actually working
    dut.data.mask = 0x0000;
    dut.data.dyn_model = 0;
    dut.data.fix_mode = 0;
    dut.data.utc_standard = 0;

    dut.from_bin(&res[6..42]);
    assert_eq!(dut.data.mask, 0x1122);
    assert_eq!(dut.data.dyn_model, 4);
    assert_eq!(dut.data.fix_mode, 2);
    assert_eq!(dut.data.utc_standard, 3);
}

#[test]
fn deser() {
    const DATA: [u8; 36] = [
        255, 255, 4, 3, 0, 0, 0, 0, 16, 39, 0, 0, 10, 0, 250, 0, 250, 0, 100, 0, 94, 1, 0, 60, 0,
        0, 16, 39, 0, 0, 0, 0, 0, 0, 0, 0,
    ];
    let mut dut = UbxCfgNav5::new();
    assert_eq!(dut.name, "UBX-CFG-NAV5");

    dut.from_bin(&DATA);
    assert_eq!(dut.data.dyn_model, 4);
    assert_eq!(dut.data.fix_mode, 3);
    assert_eq!(dut.data.pdop, 250);
    assert_eq!(dut.data.cno_thresh_num_svs, 0);
    assert_eq!(dut.data.cno_thresh, 0);
    assert_eq!(dut.data.utc_standard, 0);
}

#[test]
fn ubx_cfg_nav5_every_field_has_its_place() {
    let mut dut = UbxCfgNav5::new();
    dut.data.mask = 0x0102;
    dut.data.dyn_model = 0x03;
    dut.data.fix_mode = 0x04;
    dut.data.fixed_alt = -2;
    dut.data.fixed_alt_var = 0x05060708;
    dut.data.min_elev = -5;
    dut.data.dr_limit = 0x09;
    dut.data.pdop = 0x0A0B;
    dut.data.tdop = 0x0C0D;
    dut.data.pacc = 0x0E0F;
    dut.data.tacc = 0x1011;
    dut.data.static_hold_thresh = 0x12;
    dut.data.dgps_timeout = 0x13;
    dut.data.cno_thresh_num_svs = 0x14;
    dut.data.cno_thresh = 0x15;
    dut.data.pacc_adr = 0x1617;
    dut.data.static_hold_max_dist = 0x1819;
    dut.data.utc_standard = 0x1A;
    dut.data.res = [0x1B, 0x1C, 0x1D, 0x1E, 0x1F];
    let msg = dut.to_bin();
    assert_eq!(
        msg[6..42],
        [
            0x02, 0x01, 0x03, 0x04, 0xFE, 0xFF, 0xFF, 0xFF, 0x08, 0x07, 0x06, 0x05, 0xFB, 0x09,
            0x0B, 0x0A, 0x0D, 0x0C, 0x0F, 0x0E, 0x11, 0x10, 0x12, 0x13, 0x14, 0x15, 0x17, 0x16,
            0x19, 0x18, 0x1A, 0x1B, 0x1C, 0x1D, 0x1E, 0x1F
        ]
    );

    let mut back = UbxCfgNav5::new();
    assert!(!back.can_load(&msg[6..41]));
    back.from_bin(&msg[6..42]);
    assert_eq!(back.data.fixed_alt, -2);
    assert_eq!(back.data.min_elev, -5);
    assert_eq!(back.data.fixed_alt_var, 0x05060708);
    assert_eq!(back.data.static_hold_max_dist, 0x1819);
    assert_eq!(back.data.res, [0x1B, 0x1C, 0x1D, 0x1E, 0x1F]);
}
