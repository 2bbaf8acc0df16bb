//! UBX-CFG-NMEA: settings of the NMEA protocol output.

use vstd::prelude::*;

use crate::cid::UbxCID;
use crate::frame::{UbxFrameWithData, WireDecode, WireEncode};
use crate::wire::{
    get_u32, get_u8, le32, le32_value, lemma_le_round_trip, put_bytes, put_u32, put_u8,
};

verus! {

pub const CLS: u8 = 0x06;

pub const ID: u8 = 0x17;

/// Payload of the poll request: nothing.
#[derive(Debug)]
pub struct DataPoll {}

impl Default for DataPoll {
    fn default() -> (data: Self) {
        DataPoll {}
    }
}

impl WireEncode for DataPoll {
    open spec fn wire(&self) -> Seq<u8> {
        Seq::empty()
    }

    fn encode(&self) -> (bytes: Vec<u8>) {
        Vec::new()
    }
}

pub struct UbxCfgNmeaPoll {}

impl UbxCfgNmeaPoll {
    /// The request to report the NMEA settings.
    pub fn new() -> (frame: UbxFrameWithData<DataPoll>)
        ensures
            frame.name@ == "UBX-CFG-NMEA-POLL"@,
            frame.cid == UbxCID::new(CLS, ID),
    {
        UbxFrameWithData::new("UBX-CFG-NMEA-POLL", UbxCID::new(CLS, ID))
    }
}

/// Payload of the message: the settings of the NMEA output, twenty bytes.
#[derive(Debug)]
pub struct Data {
    pub filter: u8,
    pub nmea_version: u8,
    pub num_sv: u8,
    pub flags: u8,
    pub gnss_to_filter: u32,
    pub sv_numbering: u8,
    pub main_talker_id: u8,
    pub gsv_talker_id: u8,
    pub version: u8,
    pub bds_talker_id: [u8; 2],
    pub res1: [u8; 6],
}

/// Length of the payload in bytes.
pub const DATA_LEN: usize = 20;

impl Default for Data {
    fn default() -> (data: Self)
        ensures
            data == (Data {
                filter: 0,
                nmea_version: 0,
                num_sv: 0,
                flags: 0,
                gnss_to_filter: 0,
                sv_numbering: 0,
                main_talker_id: 0,
                gsv_talker_id: 0,
                version: 0,
                bds_talker_id: [0u8, 0u8],
                res1: [0u8, 0u8, 0u8, 0u8, 0u8, 0u8],
            }),
    {
        Data {
            filter: 0,
            nmea_version: 0,
            num_sv: 0,
            flags: 0,
            gnss_to_filter: 0,
            sv_numbering: 0,
            main_talker_id: 0,
            gsv_talker_id: 0,
            version: 0,
            bds_talker_id: [0u8, 0u8],
            res1: [0u8, 0u8, 0u8, 0u8, 0u8, 0u8],
        }
    }
}

impl WireEncode for Data {
    open spec fn wire(&self) -> Seq<u8> {
        seq![self.filter]
            + seq![self.nmea_version]
            + seq![self.num_sv]
            + seq![self.flags]
            + le32(self.gnss_to_filter)
            + seq![self.sv_numbering]
            + seq![self.main_talker_id]
            + seq![self.gsv_talker_id]
            + seq![self.version]
            + self.bds_talker_id@
            + self.res1@
    }

    fn encode(&self) -> (bytes: Vec<u8>) {
        let mut bytes = Vec::new();
        put_u8(&mut bytes, self.filter);
        put_u8(&mut bytes, self.nmea_version);
        put_u8(&mut bytes, self.num_sv);
        put_u8(&mut bytes, self.flags);
        put_u32(&mut bytes, self.gnss_to_filter);
        put_u8(&mut bytes, self.sv_numbering);
        put_u8(&mut bytes, self.main_talker_id);
        put_u8(&mut bytes, self.gsv_talker_id);
        put_u8(&mut bytes, self.version);
        put_bytes(&mut bytes, self.bds_talker_id.as_slice());
        put_bytes(&mut bytes, self.res1.as_slice());
        proof {
            assert(bytes@ =~= self.wire());
        }
        bytes
    }
}

impl WireDecode for Data {
    open spec fn parse(data: Seq<u8>) -> Option<Self> {
        if data.len() >= DATA_LEN {
            Some(
                Data {
                    filter: data[0],
                    nmea_version: data[1],
                    num_sv: data[2],
                    flags: data[3],
                    gnss_to_filter: le32_value(data, 4),
                    sv_numbering: data[8],
                    main_talker_id: data[9],
                    gsv_talker_id: data[10],
                    version: data[11],
                    bds_talker_id: [data[12], data[13]],
                    res1: [data[14], data[15], data[16], data[17], data[18], data[19]],
                },
            )
        } else {
            None
        }
    }

    fn decode(data: &[u8]) -> (value: Option<Self>) {
        if data.len() >= DATA_LEN {
            Some(
                Data {
                    filter: get_u8(data, 0),
                    nmea_version: get_u8(data, 1),
                    num_sv: get_u8(data, 2),
                    flags: get_u8(data, 3),
                    gnss_to_filter: get_u32(data, 4),
                    sv_numbering: get_u8(data, 8),
                    main_talker_id: get_u8(data, 9),
                    gsv_talker_id: get_u8(data, 10),
                    version: get_u8(data, 11),
                    bds_talker_id: [get_u8(data, 12), get_u8(data, 13)],
                    res1: [
                        get_u8(data, 14),
                        get_u8(data, 15),
                        get_u8(data, 16),
                        get_u8(data, 17),
                        get_u8(data, 18),
                        get_u8(data, 19),
                    ],
                },
            )
        } else {
            None
        }
    }
}

/// Reading back the bytes of a payload gives the payload.
pub proof fn lemma_data_round_trip(data: Data)
    ensures
        data.wire().len() == DATA_LEN,
        Data::parse(data.wire()) == Some(data),
{
    let bytes = data.wire();
    let back = Data::parse(bytes)->0;
    lemma_le_round_trip(0, data.gnss_to_filter, 0, 0, 0);
    assert(back.bds_talker_id =~= data.bds_talker_id);
    assert(back.res1 =~= data.res1);
}

pub struct UbxCfgNmea {}

impl UbxCfgNmea {
    /// The message with every field zero, to be filled from an answer.
    pub fn new() -> (frame: UbxFrameWithData<Data>)
        ensures
            frame.name@ == "UBX-CFG-NMEA"@,
            frame.cid == UbxCID::new(CLS, ID),
            frame.data == (Data {
                filter: 0,
                nmea_version: 0,
                num_sv: 0,
                flags: 0,
                gnss_to_filter: 0,
                sv_numbering: 0,
                main_talker_id: 0,
                gsv_talker_id: 0,
                version: 0,
                bds_talker_id: [0u8, 0u8],
                res1: [0u8, 0u8, 0u8, 0u8, 0u8, 0u8],
            }),
    {
        UbxFrameWithData::new("UBX-CFG-NMEA", UbxCID::new(CLS, ID))
    }
}

} // verus!
