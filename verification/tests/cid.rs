use ubxlib::cid::UbxCID;

#[test]
fn cid_formatting() {
    let dut = UbxCID::new(1, 2);
    assert_eq!(dut.to_string(), "CID: 0x01 0x02");

    let dut = UbxCID::new(0x13, 0x00);
    assert_eq!(dut.to_string(), "CID: 0x13 0x00");
}

#[test]
fn cid_formatting_uses_lower_case_digits() {
    let dut = UbxCID::new(0xAB, 0xF9);
    assert_eq!(dut.to_string(), "CID: 0xab 0xf9");
}

#[test]
fn cid_get_cls() {
    let dut = UbxCID::new(0, 2);
    assert_eq!(dut.cls(), 0);
    let dut = UbxCID::new(255, 0);
    assert_eq!(dut.cls(), 255);
}

#[test]
fn cid_get_id() {
    let dut = UbxCID::new(1, 0);
    assert_eq!(dut.id(), 0);
    let dut = UbxCID::new(0, 255);
    assert_eq!(dut.id(), 255);
}

#[test]
fn cid_comparison_1() {
    let dut1 = UbxCID::new(1, 2);
    let dut2 = UbxCID::new(1, 2);
    assert_eq!(dut1, dut2);
}

#[test]
fn cid_comparison_2() {
    let dut1 = UbxCID::new(1, 2);
    let dut2 = UbxCID::new(1, 3);
    assert_ne!(dut1, dut2);
}

#[test]
fn cid_comparison_3() {
    let dut1 = UbxCID::new(1, 2);
    let dut2 = UbxCID::new(2, 2);
    assert_ne!(dut1, dut2);
}

#[test]
fn cid_assign() {
    let a = UbxCID::new(1, 2);
    let b = a;
    assert_eq!(a, b);
}

#[test]
fn cid_key_packs_class_high() {
    assert_eq!(UbxCID::new(0x05, 0x01).key(), 0x0501);
    assert_eq!(UbxCID::new(0x00, 0x00).key(), 0);
    assert_eq!(UbxCID::new(0xFF, 0xFF).key(), 0xFFFF);
}

#[test]
fn cid_default_is_zero() {
    let dut = UbxCID::default();
    assert_eq!(dut, UbxCID::new(0, 0));
}
