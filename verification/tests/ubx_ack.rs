use ubxlib::cid::UbxCID;
use ubxlib::frame::{UbxFrameDeSerialize, UbxFrameInfo};
use ubxlib::ubx_ack::{UbxAck, CLS_ACK, ID_ACK, ID_NAK};

#[test]
fn ubx_ack_poll() {
    let dut = UbxAck::from(ID_ACK);
    assert_eq!(dut.name, "UBX-ACK-ACK");

    let dut = UbxAck::from(ID_NAK);
    assert_eq!(dut.name, "UBX-ACK-NAK");
}

#[test]
fn ubx_ack_deserialize() {
    const DATA: [u8; 2] = [0x20, 0x04];
    let mut dut = UbxAck::from(ID_ACK);
    dut.from_bin(&DATA);

    assert_eq!(dut.data.cls_id, 0x20);
    assert_eq!(dut.data.msg_id, 0x04);
}

#[test]
fn ubx_ack_identifiers_and_echo() {
    let mut ack = UbxAck::from(ID_ACK);
    assert_eq!(ack.cid(), UbxCID::new(CLS_ACK, ID_ACK));
    let nak = UbxAck::from(ID_NAK);
    assert_eq!(nak.cid(), UbxCID::new(0x05, 0x00));

    assert_eq!(ack.ack_cid(), UbxCID::new(0, 0));
    assert!(ack.can_load(&[0x06, 0x08]));
    assert!(ack.can_load(&[0x06, 0x08, 0x99]));
    assert!(!ack.can_load(&[0x06]));
    assert!(!ack.can_load(&[]));
    ack.from_bin(&[0x06, 0x08]);
    assert_eq!(ack.ack_cid(), UbxCID::new(0x06, 0x08));
}
