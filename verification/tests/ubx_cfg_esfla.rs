use ubxlib::frame::UbxFrameSerialize;
use ubxlib::ubx_cfg_esfla::{LeverArmType, UbxCfgEsflaSet};

#[test]
fn positive_values() {
    let mut dut = UbxCfgEsflaSet::new();
    assert_eq!(dut.name, "UBX-CFG-ESFLA");
    dut.data.leverarm_type = LeverArmType::VRPtoAntenna;
    dut.data.leverarm_x = 127;
    dut.data.leverarm_y = 255;
    dut.data.leverarm_z = 1000;

    let msg = dut.to_bin();
    assert_eq!(
        msg,
        [
            0xb5, 0x62, 0x06, 0x2F, 12, 0, 0x00, 0x01, 0x00, 0x00, 0, 0x00, 127, 0, 255, 0, 0xe8,
            0x03, 171, 157
        ]
    );
}

#[test]
fn negative_values() {
    let mut dut = UbxCfgEsflaSet::new();
    assert_eq!(dut.name, "UBX-CFG-ESFLA");
    dut.data.leverarm_type = LeverArmType::VRPtoIMU;
    dut.data.leverarm_x = -127;
    dut.data.leverarm_y = -255;
    dut.data.leverarm_z = -1000;

    let msg = dut.to_bin();
    assert_eq!(
        msg,
        [
            0xb5, 0x62, 0x06, 0x2F, 12, 0, 0x00, 0x01, 0x00, 0x00, 1, 0x00, 129, 255, 1, 255, 24,
            252, 215, 10
        ]
    );
}

#[test]
fn lever_arm_codes() {
    assert_eq!(LeverArmType::VRPtoAntenna.code(), 0);
    assert_eq!(LeverArmType::VRPtoIMU.code(), 1);
    assert_eq!(LeverArmType::_IMUtoAntenna.code(), 2);
    assert_eq!(LeverArmType::_IMUtoVRP.code(), 3);
    assert_eq!(LeverArmType::_IMUtoCRP.code(), 4);
    assert_eq!(LeverArmType::default(), LeverArmType::VRPtoAntenna);
}

#[test]
fn lever_arm_extreme_lengths() {
    let mut dut = UbxCfgEsflaSet::new();
    dut.data.leverarm_x = i16::MIN;
    dut.data.leverarm_y = i16::MAX;
    dut.data.leverarm_z = -1;
    let msg = dut.to_bin();
    assert_eq!(msg[12..18], [0x00, 0x80, 0xFF, 0x7F, 0xFF, 0xFF]);
}
