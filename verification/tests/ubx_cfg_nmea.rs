use ubxlib::frame::{UbxFrameDeSerialize, UbxFrameSerialize};
use ubxlib::ubx_cfg_nmea::{UbxCfgNmea, UbxCfgNmeaPoll};

#[test]
fn ubx_cfg_nmea_poll() {
    let dut = UbxCfgNmeaPoll::new();
    assert_eq!(dut.name, "UBX-CFG-NMEA-POLL");
    let msg = dut.to_bin();
    assert_eq!(msg, [0xb5, 0x62, 0x06, 0x17, 0, 0, 29, 93]);
}

#[test]
fn ubx_cfg_nmea_deserialize() {
    const DATA: [u8; 20] = [0, 64, 0, 2, 0, 0, 0, 0, 0, 0, 0, 1, 0, 0, 0, 0, 0, 0, 0, 0];
    let mut dut = UbxCfgNmea::new();
    dut.from_bin(&DATA);

    assert_eq!(dut.data.nmea_version, 0x40);
}

#[test]
fn ubx_cfg_nmea_set() {
    let mut dut = UbxCfgNmea::new();
    assert_eq!(dut.name, "UBX-CFG-NMEA");
    dut.data.nmea_version = 0x41;
    let msg = dut.to_bin();
    assert_eq!(msg[6 + 1], 0x41);
}

#[test]
fn ubx_cfg_nmea_every_field_has_its_place() {
    const DATA: [u8; 20] = [
        1, 2, 3, 4, 0x78, 0x56, 0x34, 0x12, 5, 6, 7, 8, 9, 10, 11, 12, 13, 14, 15, 16,
    ];
    let mut dut = UbxCfgNmea::new();
    dut.from_bin(&DATA);
    assert_eq!(dut.data.filter, 1);
    assert_eq!(dut.data.nmea_version, 2);
    assert_eq!(dut.data.num_sv, 3);
    assert_eq!(dut.data.flags, 4);
    assert_eq!(dut.data.gnss_to_filter, 0x12345678);
    assert_eq!(dut.data.sv_numbering, 5);
    assert_eq!(dut.data.main_talker_id, 6);
    assert_eq!(dut.data.gsv_talker_id, 7);
    assert_eq!(dut.data.version, 8);
    assert_eq!(dut.data.bds_talker_id, [9, 10]);
    assert_eq!(dut.data.res1, [11, 12, 13, 14, 15, 16]);
    assert_eq!(dut.to_bin()[6..26], DATA);
}
