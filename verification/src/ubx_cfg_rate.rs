//! UBX-CFG-RATE: measurement and navigation rate.

use vstd::prelude::*;

use crate::cid::UbxCID;
use crate::frame::{UbxFrameWithData, WireDecode, WireEncode};
use crate::wire::{get_u16, le16, le16_value, lemma_le_round_trip, put_u16};

verus! {

pub const CLS: u8 = 0x06;

pub const ID: u8 = 0x08;

/// Payload of the poll request: nothing.
#[derive(Debug)]
pub struct DataPoll {}

impl Default for DataPoll {
    fn default() -> (data: Self) {
        DataPoll {}
    }
}

impl WireEncode for DataPoll {
    open spec fn wire(&self) -> Seq<u8> {
        Seq::empty()
    }

    fn encode(&self) -> (bytes: Vec<u8>) {
        Vec::new()
    }
}

pub struct UbxCfgRatePoll {}

impl UbxCfgRatePoll {
    /// The request to report the rates.
    pub fn new() -> (frame: UbxFrameWithData<DataPoll>)
        ensures
            frame.name@ == "UBX-CFG-RATE-POLL"@,
            frame.cid == UbxCID::new(CLS, ID),
    {
        UbxFrameWithData::new("UBX-CFG-RATE-POLL", UbxCID::new(CLS, ID))
    }
}

/// Payload of the message: the time between two measurements in milliseconds, the
/// number of measurements for each navigation solution, and the time reference.
#[derive(Debug)]
pub struct Data {
    pub meas_rate: u16,
    pub nav_rate: u16,
    pub time_ref: u16,
}

/// Length of the payload in bytes.
pub const DATA_LEN: usize = 6;

impl Default for Data {
    fn default() -> (data: Self)
        ensures
            data == (Data {
                meas_rate: 0,
                nav_rate: 0,
                time_ref: 0,
            }),
    {
        Data {
            meas_rate: 0,
            nav_rate: 0,
            time_ref: 0,
        }
    }
}

impl WireEncode for Data {
    open spec fn wire(&self) -> Seq<u8> {
        le16(self.meas_rate)
            + le16(self.nav_rate)
            + le16(self.time_ref)
    }

    fn encode(&self) -> (bytes: Vec<u8>) {
        let mut bytes = Vec::new();
        put_u16(&mut bytes, self.meas_rate);
        put_u16(&mut bytes, self.nav_rate);
        put_u16(&mut bytes, self.time_ref);
        proof {
            assert(bytes@ =~= self.wire());
        }
        bytes
    }
}

impl WireDecode for Data {
    open spec fn parse(data: Seq<u8>) -> Option<Self> {
        if data.len() >= DATA_LEN {
            Some(
                Data {
                    meas_rate: le16_value(data, 0),
                    nav_rate: le16_value(data, 2),
                    time_ref: le16_value(data, 4),
                },
            )
        } else {
            None
        }
    }

    fn decode(data: &[u8]) -> (value: Option<Self>) {
        if data.len() >= DATA_LEN {
            Some(
                Data {
                    meas_rate: get_u16(data, 0),
                    nav_rate: get_u16(data, 2),
                    time_ref: get_u16(data, 4),
                },
            )
        } else {
            None
        }
    }
}

/// Reading back the bytes of a payload gives the payload.
pub proof fn lemma_data_round_trip(data: Data)
    ensures
        data.wire().len() == DATA_LEN,
        Data::parse(data.wire()) == Some(data),
{
    let bytes = data.wire();
    let back = Data::parse(bytes)->0;
    lemma_le_round_trip(data.meas_rate, 0, 0, 0, 0);
    lemma_le_round_trip(data.nav_rate, 0, 0, 0, 0);
    lemma_le_round_trip(data.time_ref, 0, 0, 0, 0);
}

pub struct UbxCfgRate {}

impl UbxCfgRate {
    /// The message with every field zero, to be filled from an answer.
    pub fn new() -> (frame: UbxFrameWithData<Data>)
        ensures
            frame.name@ == "UBX-CFG-RATE"@,
            frame.cid == UbxCID::new(CLS, ID),
            frame.data == (Data {
                meas_rate: 0,
                nav_rate: 0,
                time_ref: 0,
            }),
    {
        UbxFrameWithData::new("UBX-CFG-RATE", UbxCID::new(CLS, ID))
    }
}

} // verus!
