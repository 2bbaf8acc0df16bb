//! UBX-CFG-ESFALG: alignment of the inertial measurement unit.

use vstd::prelude::*;

use crate::cid::UbxCID;
use crate::frame::{UbxFrameWithData, WireDecode, WireEncode};
use crate::wire::{
    get_i16, get_u32, le16, le16_value, le32, le32_value, lemma_le_round_trip, put_i16, put_u32,
    signed16, twos16,
};

verus! {

pub const CLS: u8 = 0x06;

pub const ID: u8 = 0x56;

/// Payload of the poll request: nothing.
#[derive(Debug)]
pub struct DataPoll {}

impl Default for DataPoll {
    fn default() -> (data: Self) {
        DataPoll {}
    }
}

impl WireEncode for DataPoll {
    open spec fn wire(&self) -> Seq<u8> {
        Seq::empty()
    }

    fn encode(&self) -> (bytes: Vec<u8>) {
        Vec::new()
    }
}

pub struct UbxCfgEsfAlgPoll {}

impl UbxCfgEsfAlgPoll {
    /// The request to report the alignment.
    pub fn new() -> (frame: UbxFrameWithData<DataPoll>)
        ensures
            frame.name@ == "UBX-CFG-ESFALG-POLL"@,
            frame.cid == UbxCID::new(CLS, ID),
    {
        UbxFrameWithData::new("UBX-CFG-ESFALG-POLL", UbxCID::new(CLS, ID))
    }
}

/// Payload of the message: the mounting angles of the inertial unit in hundredths of a
/// degree, yaw from 0 to 360, pitch from -90 to 90 and roll from -180 to 180 degrees.
#[derive(Debug)]
pub struct Data {
    pub bitfield: u32,
    pub yaw: u32,
    pub pitch: i16,
    pub roll: i16,
}

/// Length of the payload in bytes.
pub const DATA_LEN: usize = 12;

impl Default for Data {
    fn default() -> (data: Self)
        ensures
            data == (Data {
                bitfield: 0,
                yaw: 0,
                pitch: 0,
                roll: 0,
            }),
    {
        Data {
            bitfield: 0,
            yaw: 0,
            pitch: 0,
            roll: 0,
        }
    }
}

impl WireEncode for Data {
    open spec fn wire(&self) -> Seq<u8> {
        le32(self.bitfield)
            + le32(self.yaw)
            + le16(twos16(self.pitch))
            + le16(twos16(self.roll))
    }

    fn encode(&self) -> (bytes: Vec<u8>) {
        let mut bytes = Vec::new();
        put_u32(&mut bytes, self.bitfield);
        put_u32(&mut bytes, self.yaw);
        put_i16(&mut bytes, self.pitch);
        put_i16(&mut bytes, self.roll);
        proof {
            assert(bytes@ =~= self.wire());
        }
        bytes
    }
}

impl WireDecode for Data {
    open spec fn parse(data: Seq<u8>) -> Option<Self> {
        if data.len() >= DATA_LEN {
            Some(
                Data {
                    bitfield: le32_value(data, 0),
                    yaw: le32_value(data, 4),
                    pitch: signed16(le16_value(data, 8)),
                    roll: signed16(le16_value(data, 10)),
                },
            )
        } else {
            None
        }
    }

    fn decode(data: &[u8]) -> (value: Option<Self>) {
        if data.len() >= DATA_LEN {
            Some(
                Data {
                    bitfield: get_u32(data, 0),
                    yaw: get_u32(data, 4),
                    pitch: get_i16(data, 8),
                    roll: get_i16(data, 10),
                },
            )
        } else {
            None
        }
    }
}

/// Reading back the bytes of a payload gives the payload.
pub proof fn lemma_data_round_trip(data: Data)
    ensures
        data.wire().len() == DATA_LEN,
        Data::parse(data.wire()) == Some(data),
{
    let bytes = data.wire();
    let back = Data::parse(bytes)->0;
    lemma_le_round_trip(0, data.bitfield, 0, 0, 0);
    lemma_le_round_trip(0, data.yaw, 0, 0, 0);
    lemma_le_round_trip(twos16(data.pitch), 0, 0, data.pitch, 0);
    lemma_le_round_trip(twos16(data.roll), 0, 0, data.roll, 0);
}

pub struct UbxCfgEsfAlg {}

impl UbxCfgEsfAlg {
    /// The message with every field zero, to be filled from an answer.
    pub fn new() -> (frame: UbxFrameWithData<Data>)
        ensures
            frame.name@ == "UBX-CFG-ESFALG"@,
            frame.cid == UbxCID::new(CLS, ID),
            frame.data == (Data {
                bitfield: 0,
                yaw: 0,
                pitch: 0,
                roll: 0,
            }),
    {
        UbxFrameWithData::new("UBX-CFG-ESFALG", UbxCID::new(CLS, ID))
    }
}

} // verus!
