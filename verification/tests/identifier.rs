use ubxlib::cid::UbxCID;

#[test]
fn formatting() {
    let dut = UbxCID::new(1, 2);
    assert_eq!(dut.to_string(), "CID: 0x01 0x02");

    let dut = UbxCID::new(0x13, 0x00);
    assert_eq!(dut.to_string(), "CID: 0x13 0x00");
}

#[test]
fn get_cls() {
    let dut = UbxCID::new(0, 2);
    assert_eq!(dut.cls(), 0);
    let dut = UbxCID::new(255, 0);
    assert_eq!(dut.cls(), 255);
}

#[test]
fn get_id() {
    let dut = UbxCID::new(1, 0);
    assert_eq!(dut.id(), 0);
    let dut = UbxCID::new(0, 255);
    assert_eq!(dut.id(), 255);
}

#[test]
fn comparison_1() {
    let dut1 = UbxCID::new(1, 2);
    let dut2 = UbxCID::new(1, 2);
    assert_eq!(dut1, dut2);
    assert_eq!(dut1.key(), dut2.key());
}

#[test]
fn comparison_2() {
    let dut1 = UbxCID::new(1, 2);
    let dut2 = UbxCID::new(1, 3);
    assert_ne!(dut1, dut2);
    assert_ne!(dut1.key(), dut2.key());
}

#[test]
fn comparison_3() {
    let dut1 = UbxCID::new(1, 2);
    let dut2 = UbxCID::new(2, 2);
    assert_ne!(dut1, dut2);
    assert_ne!(dut1.key(), dut2.key());
}

#[test]
fn assign() {
    let a = UbxCID::new(1, 2);
    let b = a;
    assert_eq!(a, b);
}
