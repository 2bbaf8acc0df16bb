use ubxlib::frame::UbxFrameSerialize;
use ubxlib::ubx_cfg_rst::{BbrMask, DataCfgRst, ResetMode, UbxCfgRstAction};

#[test]
fn cold_start() {
    let dut = UbxCfgRstAction::cold_start();
    assert_eq!(dut.name, "UBX-CFG-RST");
    let msg = dut.to_bin();
    assert_eq!(
        msg,
        [0xb5, 0x62, 0x06, 0x04, 4, 0, 0xFF, 0xFF, 0x01, 0, 13, 95]
    );
}

#[test]
fn stop() {
    let dut = UbxCfgRstAction::stop();
    assert_eq!(dut.name, "UBX-CFG-RST");
    let msg = dut.to_bin();
    assert_eq!(
        msg,
        [0xb5, 0x62, 0x06, 0x04, 4, 0, 0x00, 0x00, 0x08, 0, 22, 116]
    );
}

#[test]
fn reset_codes() {
    assert_eq!(BbrMask::HotStart.code(), 0x0000);
    assert_eq!(BbrMask::_WarmStart.code(), 0x0001);
    assert_eq!(BbrMask::ColdStart.code(), 0xFFFF);
    assert_eq!(ResetMode::ImmediateHwReset.code(), 0x00);
    assert_eq!(ResetMode::SwReset.code(), 0x01);
    assert_eq!(ResetMode::_HwReset.code(), 0x04);
    assert_eq!(ResetMode::Stop.code(), 0x08);
    assert_eq!(ResetMode::_Start.code(), 0x09);
    assert_eq!(BbrMask::default(), BbrMask::ColdStart);
    assert_eq!(ResetMode::default(), ResetMode::ImmediateHwReset);

    let data = DataCfgRst::from(BbrMask::_WarmStart, ResetMode::_HwReset);
    assert_eq!(data.nav_bbr_mask, BbrMask::_WarmStart);
    assert_eq!(data.reset_mode, ResetMode::_HwReset);
    assert_eq!(data.res1, 0);
}
