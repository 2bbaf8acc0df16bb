//! UBX-CFG-PRT: configuration of a port of the receiver.

use vstd::prelude::*;

use crate::cid::UbxCID;
use crate::frame::{UbxFrameWithData, WireDecode, WireEncode};
use crate::wire::{
    get_u16, get_u32, get_u8, le16, le16_value, le32, le32_value, lemma_le_round_trip, put_bytes,
    put_u16, put_u32, put_u8,
};

verus! {

pub const CLS: u8 = 0x06;

pub const ID: u8 = 0x00;

/// The number of the receiver's UART port.
    pub const PORTID_UART: u8 = 1;

    /// Payload of the poll request: the port to report.
    #[derive(Debug)]
    pub struct DataCfgPrtPoll {
        pub port_id: u8,
    }

    impl DataCfgPrtPoll {
        pub fn new() -> (data: Self)
            ensures
                data.port_id == PORTID_UART,
        {
            Self { port_id: PORTID_UART }
        }
    }

    impl Default for DataCfgPrtPoll {
        fn default() -> (data: Self)
            ensures
                data.port_id == 0,
        {
            Self { port_id: 0 }
        }
    }

    impl WireEncode for DataCfgPrtPoll {
        open spec fn wire(&self) -> Seq<u8> {
            seq![self.port_id]
        }

        fn encode(&self) -> (bytes: Vec<u8>) {
            let mut bytes = Vec::new();
            put_u8(&mut bytes, self.port_id);
            proof {
                assert(bytes@ =~= self.wire());
            }
            bytes
        }
    }

    pub struct UbxCfgPrtPoll {}

    impl UbxCfgPrtPoll {
        /// The request to report the settings of the UART port.
        pub fn new() -> (frame: UbxFrameWithData<DataCfgPrtPoll>)
            ensures
                frame.name@ == "UBX-CFG-PRT-POLL"@,
                frame.cid == UbxCID::new(CLS, ID),
                frame.data.port_id == PORTID_UART,
        {
            UbxFrameWithData::init("UBX-CFG-PRT-POLL", UbxCID::new(CLS, ID), DataCfgPrtPoll::new())
        }
    }

    /// Payload of the message: the settings of a UART port, twenty bytes.
#[derive(Debug)]
pub struct DataCfgPrt {
    pub port_id: u8,
    pub res1: u8,
    pub tx_ready: u16,
    pub mode: u32,
    pub baudrate: u32,
    pub in_proto_mask: u16,
    pub out_proto_mask: u16,
    pub flags: u16,
    pub res2: [u8; 2],
}

/// Length of the payload in bytes.
pub const DATA_CFG_PRT_LEN: usize = 20;

impl Default for DataCfgPrt {
    fn default() -> (data: Self)
        ensures
            data == (DataCfgPrt {
                port_id: 0,
                res1: 0,
                tx_ready: 0,
                mode: 0,
                baudrate: 0,
                in_proto_mask: 0,
                out_proto_mask: 0,
                flags: 0,
                res2: [0u8, 0u8],
            }),
    {
        DataCfgPrt {
            port_id: 0,
            res1: 0,
            tx_ready: 0,
            mode: 0,
            baudrate: 0,
            in_proto_mask: 0,
            out_proto_mask: 0,
            flags: 0,
            res2: [0u8, 0u8],
        }
    }
}

impl WireEncode for DataCfgPrt {
    open spec fn wire(&self) -> Seq<u8> {
        seq![self.port_id]
            + seq![self.res1]
            + le16(self.tx_ready)
            + le32(self.mode)
            + le32(self.baudrate)
            + le16(self.in_proto_mask)
            + le16(self.out_proto_mask)
            + le16(self.flags)
            + self.res2@
    }

    fn encode(&self) -> (bytes: Vec<u8>) {
        let mut bytes = Vec::new();
        put_u8(&mut bytes, self.port_id);
        put_u8(&mut bytes, self.res1);
        put_u16(&mut bytes, self.tx_ready);
        put_u32(&mut bytes, self.mode);
        put_u32(&mut bytes, self.baudrate);
        put_u16(&mut bytes, self.in_proto_mask);
        put_u16(&mut bytes, self.out_proto_mask);
        put_u16(&mut bytes, self.flags);
        put_bytes(&mut bytes, self.res2.as_slice());
        proof {
            assert(bytes@ =~= self.wire());
        }
        bytes
    }
}

impl WireDecode for DataCfgPrt {
    open spec fn parse(data: Seq<u8>) -> Option<Self> {
        if data.len() >= DATA_CFG_PRT_LEN {
            Some(
                DataCfgPrt {
                    port_id: data[0],
                    res1: data[1],
                    tx_ready: le16_value(data, 2),
                    mode: le32_value(data, 4),
                    baudrate: le32_value(data, 8),
                    in_proto_mask: le16_value(data, 12),
                    out_proto_mask: le16_value(data, 14),
                    flags: le16_value(data, 16),
                    res2: [data[18], data[19]],
                },
            )
        } else {
            None
        }
    }

    fn decode(data: &[u8]) -> (value: Option<Self>) {
        if data.len() >= DATA_CFG_PRT_LEN {
            Some(
                DataCfgPrt {
                    port_id: get_u8(data, 0),
                    res1: get_u8(data, 1),
                    tx_ready: get_u16(data, 2),
                    mode: get_u32(data, 4),
                    baudrate: get_u32(data, 8),
                    in_proto_mask: get_u16(data, 12),
                    out_proto_mask: get_u16(data, 14),
                    flags: get_u16(data, 16),
                    res2: [get_u8(data, 18), get_u8(data, 19)],
                },
            )
        } else {
            None
        }
    }
}

/// Reading back the bytes of a payload gives the payload.
pub proof fn lemma_data_round_trip(data: DataCfgPrt)
    ensures
        data.wire().len() == DATA_CFG_PRT_LEN,
        DataCfgPrt::parse(data.wire()) == Some(data),
{
    let bytes = data.wire();
    let back = DataCfgPrt::parse(bytes)->0;
    lemma_le_round_trip(data.tx_ready, 0, 0, 0, 0);
    lemma_le_round_trip(0, data.mode, 0, 0, 0);
    lemma_le_round_trip(0, data.baudrate, 0, 0, 0);
    lemma_le_round_trip(data.in_proto_mask, 0, 0, 0, 0);
    lemma_le_round_trip(data.out_proto_mask, 0, 0, 0, 0);
    lemma_le_round_trip(data.flags, 0, 0, 0, 0);
    assert(back.res2 =~= data.res2);
}

pub struct UbxCfgPrtUart {}

    impl UbxCfgPrtUart {
        /// The message with every field zero, to be filled from an answer.
        pub fn new() -> (frame: UbxFrameWithData<DataCfgPrt>)
            ensures
                frame.name@ == "UBX-CFG-PRT"@,
                frame.cid == UbxCID::new(CLS, ID),
                frame.data == (DataCfgPrt {
                port_id: 0,
                res1: 0,
                tx_ready: 0,
                mode: 0,
                baudrate: 0,
                in_proto_mask: 0,
                out_proto_mask: 0,
                flags: 0,
                res2: [0u8, 0u8],
            }),
        {
            UbxFrameWithData::new("UBX-CFG-PRT", UbxCID::new(CLS, ID))
        }
    }

} // verus!
