use ubxlib::frame::UbxFrameSerialize;
use ubxlib::ubx_cfg_cfg::{Data, UbxCfgCfgAction, MASK_ALL};

#[test]
fn ubx_cfg_cfg_factory_reset() {
    let dut = UbxCfgCfgAction::factory_reset();
    assert_eq!(dut.name, "UBX-CFG-CFG");
    let msg = dut.to_bin();
    assert_eq!(
        msg[0..18],
        [
            0xb5, 0x62, 0x06, 0x09, 12, 0, 0x1f, 0x1f, 0x00, 0x00, 0x00, 0x00, 0x00, 0x00, 0x1f,
            0x1f, 0x00, 0x00
        ]
    );
}

#[test]
fn ubx_cfg_cfg_persist() {
    let dut = UbxCfgCfgAction::persist();
    assert_eq!(dut.name, "UBX-CFG-CFG");
    let msg = dut.to_bin();
    assert_eq!(
        msg[..18],
        [
            0xb5, 0x62, 0x06, 0x09, 12, 0, 0x00, 0x00, 0x00, 0x00, 0x1f, 0x1f, 0x00, 0x00, 0x00,
            0x00, 0x00, 0x00
        ]
    );
}

#[test]
fn ubx_cfg_cfg_masks() {
    assert_eq!(MASK_ALL, 0x1F1F);
    let data = Data::new(0x01020304, 0x05060708, 0x090A0B0C);
    assert_eq!(data.clear_mask, 0x01020304);
    assert_eq!(data.save_mask, 0x05060708);
    assert_eq!(data.load_mask, 0x090A0B0C);
    let dut = UbxCfgCfgAction::factory_reset();
    assert_eq!((dut.data.clear_mask, dut.data.save_mask, dut.data.load_mask), (0x1F1F, 0, 0x1F1F));
    let dut = UbxCfgCfgAction::persist();
    assert_eq!((dut.data.clear_mask, dut.data.save_mask, dut.data.load_mask), (0, 0x1F1F, 0));
    assert_eq!(dut.to_bin().len(), 12 + 8);
}
