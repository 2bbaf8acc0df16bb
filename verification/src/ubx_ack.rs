//! UBX-ACK-ACK and UBX-ACK-NAK: the receiver's answer to a set request.

use vstd::prelude::*;

use crate::cid::UbxCID;
use crate::frame::{UbxFrameWithData, WireDecode};

verus! {

pub const CLS_ACK: u8 = 0x05;

pub const ID_ACK: u8 = 0x01;

pub const ID_NAK: u8 = 0x00;

/// Payload of an acknowledgement: class and id of the request it answers.
#[derive(Debug)]
pub struct DataAck {
    pub cls_id: u8,
    pub msg_id: u8,
}

impl Default for DataAck {
    fn default() -> (data: Self)
        ensures
            data == (DataAck { cls_id: 0, msg_id: 0 }),
    {
        DataAck { cls_id: 0, msg_id: 0 }
    }
}

impl WireDecode for DataAck {
    open spec fn parse(data: Seq<u8>) -> Option<Self> {
        if data.len() >= 2 {
            Some(DataAck { cls_id: data[0], msg_id: data[1] })
        } else {
            None
        }
    }

    fn decode(data: &[u8]) -> (value: Option<Self>) {
        if data.len() >= 2 {
            Some(DataAck { cls_id: data[0], msg_id: data[1] })
        } else {
            None
        }
    }
}

/// The name of the acknowledgement with id byte `id`.
pub open spec fn ack_name(id: u8) -> Seq<char> {
    if id == ID_NAK {
        "UBX-ACK-NAK"@
    } else {
        "UBX-ACK-ACK"@
    }
}

pub struct UbxAck {}

impl UbxAck {
    /// An acknowledgement frame that waits to be filled: positive for
    /// `ID_ACK`, negative for `ID_NAK`. No other id names an acknowledgement.
    pub fn from(id: u8) -> (frame: UbxFrameWithData<DataAck>)
        requires
            id == ID_ACK || id == ID_NAK,
        ensures
            frame.name@ == ack_name(id),
            frame.cid == UbxCID::new(CLS_ACK, id),
            frame.data == (DataAck { cls_id: 0, msg_id: 0 }),
    {
        if id == ID_NAK {
            UbxFrameWithData::new("UBX-ACK-NAK", UbxCID::new(CLS_ACK, ID_NAK))
        } else {
            UbxFrameWithData::new("UBX-ACK-ACK", UbxCID::new(CLS_ACK, ID_ACK))
        }
    }
}

impl UbxFrameWithData<DataAck> {
    /// The identifier of the request that the acknowledgement answers.
    pub fn ack_cid(&self) -> (cid: UbxCID)
        ensures
            cid == UbxCID::new(self.data.cls_id, self.data.msg_id),
    {
        UbxCID::new(self.data.cls_id, self.data.msg_id)
    }
}

} // verus!
