//! UBX-CFG-NAV5: settings of the navigation engine.

use vstd::prelude::*;

use crate::cid::UbxCID;
use crate::frame::{UbxFramePoll, UbxFrameWithData, WireDecode, WireEncode};
use crate::wire::{
    get_i32, get_i8, get_u16, get_u32, get_u8, le16, le16_value, le32, le32_value,
    lemma_le_round_trip, put_bytes, put_i32, put_i8, put_u16, put_u32, put_u8, signed32, signed8,
    twos32, twos8,
};

verus! {

pub const CLS: u8 = 0x06;

pub const ID: u8 = 0x24;

pub struct UbxCfgNav5Poll {}

impl UbxCfgNav5Poll {
    /// The request to report the navigation engine settings.
    pub fn new() -> (frame: UbxFramePoll)
        ensures
            frame.name@ == "UBX-CFG-NAV5-POLL"@,
            frame.cid == UbxCID::new(CLS, ID),
    {
        UbxFramePoll::new("UBX-CFG-NAV5-POLL", UbxCID::new(CLS, ID))
    }
}

/// Payload of the message: the settings of the navigation engine, thirty-six bytes.
#[derive(Debug)]
pub struct Data {
    pub mask: u16,
    pub dyn_model: u8,
    pub fix_mode: u8,
    pub fixed_alt: i32,
    pub fixed_alt_var: u32,
    pub min_elev: i8,
    pub dr_limit: u8,
    pub pdop: u16,
    pub tdop: u16,
    pub pacc: u16,
    pub tacc: u16,
    pub static_hold_thresh: u8,
    pub dgps_timeout: u8,
    pub cno_thresh_num_svs: u8,
    pub cno_thresh: u8,
    pub pacc_adr: u16,
    pub static_hold_max_dist: u16,
    pub utc_standard: u8,
    pub res: [u8; 5],
}

/// Length of the payload in bytes.
pub const DATA_LEN: usize = 36;

impl Default for Data {
    fn default() -> (data: Self)
        ensures
            data == (Data {
                mask: 0,
                dyn_model: 0,
                fix_mode: 0,
                fixed_alt: 0,
                fixed_alt_var: 0,
                min_elev: 0,
                dr_limit: 0,
                pdop: 0,
                tdop: 0,
                pacc: 0,
                tacc: 0,
                static_hold_thresh: 0,
                dgps_timeout: 0,
                cno_thresh_num_svs: 0,
                cno_thresh: 0,
                pacc_adr: 0,
                static_hold_max_dist: 0,
                utc_standard: 0,
                res: [0u8, 0u8, 0u8, 0u8, 0u8],
            }),
    {
        Data {
            mask: 0,
            dyn_model: 0,
            fix_mode: 0,
            fixed_alt: 0,
            fixed_alt_var: 0,
            min_elev: 0,
            dr_limit: 0,
            pdop: 0,
            tdop: 0,
            pacc: 0,
            tacc: 0,
            static_hold_thresh: 0,
            dgps_timeout: 0,
            cno_thresh_num_svs: 0,
            cno_thresh: 0,
            pacc_adr: 0,
            static_hold_max_dist: 0,
            utc_standard: 0,
            res: [0u8, 0u8, 0u8, 0u8, 0u8],
        }
    }
}

impl WireEncode for Data {
    open spec fn wire(&self) -> Seq<u8> {
        le16(self.mask)
            + seq![self.dyn_model]
            + seq![self.fix_mode]
            + le32(twos32(self.fixed_alt))
            + le32(self.fixed_alt_var)
            + seq![twos8(self.min_elev)]
            + seq![self.dr_limit]
            + le16(self.pdop)
            + le16(self.tdop)
            + le16(self.pacc)
            + le16(self.tacc)
            + seq![self.static_hold_thresh]
            + seq![self.dgps_timeout]
            + seq![self.cno_thresh_num_svs]
            + seq![self.cno_thresh]
            + le16(self.pacc_adr)
            + le16(self.static_hold_max_dist)
            + seq![self.utc_standard]
            + self.res@
    }

    fn encode(&self) -> (bytes: Vec<u8>) {
        let mut bytes = Vec::new();
        put_u16(&mut bytes, self.mask);
        put_u8(&mut bytes, self.dyn_model);
        put_u8(&mut bytes, self.fix_mode);
        put_i32(&mut bytes, self.fixed_alt);
        put_u32(&mut bytes, self.fixed_alt_var);
        put_i8(&mut bytes, self.min_elev);
        put_u8(&mut bytes, self.dr_limit);
        put_u16(&mut bytes, self.pdop);
        put_u16(&mut bytes, self.tdop);
        put_u16(&mut bytes, self.pacc);
        put_u16(&mut bytes, self.tacc);
        put_u8(&mut bytes, self.static_hold_thresh);
        put_u8(&mut bytes, self.dgps_timeout);
        put_u8(&mut bytes, self.cno_thresh_num_svs);
        put_u8(&mut bytes, self.cno_thresh);
        put_u16(&mut bytes, self.pacc_adr);
        put_u16(&mut bytes, self.static_hold_max_dist);
        put_u8(&mut bytes, self.utc_standard);
        put_bytes(&mut bytes, self.res.as_slice());
        proof {
            assert(bytes@ =~= self.wire());
        }
        bytes
    }
}

impl WireDecode for Data {
    open spec fn parse(data: Seq<u8>) -> Option<Self> {
        if data.len() >= DATA_LEN {
            Some(
                Data {
                    mask: le16_value(data, 0),
                    dyn_model: data[2],
                    fix_mode: data[3],
                    fixed_alt: signed32(le32_value(data, 4)),
                    fixed_alt_var: le32_value(data, 8),
                    min_elev: signed8(data[12]),
                    dr_limit: data[13],
                    pdop: le16_value(data, 14),
                    tdop: le16_value(data, 16),
                    pacc: le16_value(data, 18),
                    tacc: le16_value(data, 20),
                    static_hold_thresh: data[22],
                    dgps_timeout: data[23],
                    cno_thresh_num_svs: data[24],
                    cno_thresh: data[25],
                    pacc_adr: le16_value(data, 26),
                    static_hold_max_dist: le16_value(data, 28),
                    utc_standard: data[30],
                    res: [data[31], data[32], data[33], data[34], data[35]],
                },
            )
        } else {
            None
        }
    }

    fn decode(data: &[u8]) -> (value: Option<Self>) {
        if data.len() >= DATA_LEN {
            Some(
                Data {
                    mask: get_u16(data, 0),
                    dyn_model: get_u8(data, 2),
                    fix_mode: get_u8(data, 3),
                    fixed_alt: get_i32(data, 4),
                    fixed_alt_var: get_u32(data, 8),
                    min_elev: get_i8(data, 12),
                    dr_limit: get_u8(data, 13),
                    pdop: get_u16(data, 14),
                    tdop: get_u16(data, 16),
                    pacc: get_u16(data, 18),
                    tacc: get_u16(data, 20),
                    static_hold_thresh: get_u8(data, 22),
                    dgps_timeout: get_u8(data, 23),
                    cno_thresh_num_svs: get_u8(data, 24),
                    cno_thresh: get_u8(data, 25),
                    pacc_adr: get_u16(data, 26),
                    static_hold_max_dist: get_u16(data, 28),
                    utc_standard: get_u8(data, 30),
                    res: [
                        get_u8(data, 31),
                        get_u8(data, 32),
                        get_u8(data, 33),
                        get_u8(data, 34),
                        get_u8(data, 35),
                    ],
                },
            )
        } else {
            None
        }
    }
}

/// Reading back the bytes of a payload gives the payload.
pub proof fn lemma_data_round_trip(data: Data)
    ensures
        data.wire().len() == DATA_LEN,
        Data::parse(data.wire()) == Some(data),
{
    let bytes = data.wire();
    let back = Data::parse(bytes)->0;
    lemma_le_round_trip(data.mask, 0, 0, 0, 0);
    lemma_le_round_trip(0, twos32(data.fixed_alt), 0, 0, data.fixed_alt);
    lemma_le_round_trip(0, data.fixed_alt_var, 0, 0, 0);
    lemma_le_round_trip(0, 0, data.min_elev, 0, 0);
    lemma_le_round_trip(data.pdop, 0, 0, 0, 0);
    lemma_le_round_trip(data.tdop, 0, 0, 0, 0);
    lemma_le_round_trip(data.pacc, 0, 0, 0, 0);
    lemma_le_round_trip(data.tacc, 0, 0, 0, 0);
    lemma_le_round_trip(data.pacc_adr, 0, 0, 0, 0);
    lemma_le_round_trip(data.static_hold_max_dist, 0, 0, 0, 0);
    assert(back.res =~= data.res);
}

pub struct UbxCfgNav5 {}

impl UbxCfgNav5 {
    /// The message with every field zero, to be filled from an answer.
    pub fn new() -> (frame: UbxFrameWithData<Data>)
        ensures
            frame.name@ == "UBX-CFG-NAV5"@,
            frame.cid == UbxCID::new(CLS, ID),
            frame.data == (Data {
                mask: 0,
                dyn_model: 0,
                fix_mode: 0,
                fixed_alt: 0,
                fixed_alt_var: 0,
                min_elev: 0,
                dr_limit: 0,
                pdop: 0,
                tdop: 0,
                pacc: 0,
                tacc: 0,
                static_hold_thresh: 0,
                dgps_timeout: 0,
                cno_thresh_num_svs: 0,
                cno_thresh: 0,
                pacc_adr: 0,
                static_hold_max_dist: 0,
                utc_standard: 0,
                res: [0u8, 0u8, 0u8, 0u8, 0u8],
            }),
    {
        UbxFrameWithData::new("UBX-CFG-NAV5", UbxCID::new(CLS, ID))
    }
}

} // verus!
