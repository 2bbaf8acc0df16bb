//! UBX-CFG-ESFLA: lever arms between the points of the installation.

use vstd::prelude::*;

use crate::cid::UbxCID;
use crate::frame::{UbxFrameWithData, WireEncode};
use crate::wire::{le16, put_bytes, put_i16, put_u8, twos16};

verus! {

pub const CLS: u8 = 0x06;

pub const ID: u8 = 0x2F;

/// The two points that a lever arm joins.
#[derive(Debug, Clone, Copy, PartialEq, Eq, Structural)]
pub enum LeverArmType {
    VRPtoAntenna,
    VRPtoIMU,
    _IMUtoAntenna,
    _IMUtoVRP,
    _IMUtoCRP,
}

impl LeverArmType {
    /// The number that stands for the value on the wire.
    pub open spec fn spec_code(&self) -> u8 {
        match self {
            LeverArmType::VRPtoAntenna => 0,
            LeverArmType::VRPtoIMU => 1,
            LeverArmType::_IMUtoAntenna => 2,
            LeverArmType::_IMUtoVRP => 3,
            LeverArmType::_IMUtoCRP => 4,
        }
    }

    /// The number that stands for the value on the wire.
    #[verifier::when_used_as_spec(spec_code)]
    pub fn code(&self) -> (code: u8)
        ensures
            code == self.spec_code(),
    {
        match self {
            LeverArmType::VRPtoAntenna => 0,
            LeverArmType::VRPtoIMU => 1,
            LeverArmType::_IMUtoAntenna => 2,
            LeverArmType::_IMUtoVRP => 3,
            LeverArmType::_IMUtoCRP => 4,
        }
    }
}

impl Default for LeverArmType {
    fn default() -> (value: Self)
        ensures
            value == LeverArmType::VRPtoAntenna,
    {
        LeverArmType::VRPtoAntenna
    }
}

/// Payload of the message in the form that sets exactly one lever arm, in
/// centimetres. Several arms take several messages.
#[derive(Debug)]
pub struct DataCfgEsfla {
    pub version: u8,
    pub num_configs: u8,
    pub res1: [u8; 2],
    pub leverarm_type: LeverArmType,
    pub res2: u8,
    pub leverarm_x: i16,
    pub leverarm_y: i16,
    pub leverarm_z: i16,
}

impl Default for DataCfgEsfla {
    fn default() -> (data: Self)
        ensures
            data == (DataCfgEsfla {
                version: 0,
                num_configs: 0,
                res1: [0u8, 0u8],
                leverarm_type: LeverArmType::VRPtoAntenna,
                res2: 0,
                leverarm_x: 0,
                leverarm_y: 0,
                leverarm_z: 0,
            }),
    {
        DataCfgEsfla {
            version: 0,
            num_configs: 0,
            res1: [0u8, 0u8],
            leverarm_type: LeverArmType::VRPtoAntenna,
            res2: 0,
            leverarm_x: 0,
            leverarm_y: 0,
            leverarm_z: 0,
        }
    }
}

impl WireEncode for DataCfgEsfla {
    open spec fn wire(&self) -> Seq<u8> {
        seq![self.version]
            + seq![self.num_configs]
            + self.res1@
            + seq![self.leverarm_type.code()]
            + seq![self.res2]
            + le16(twos16(self.leverarm_x))
            + le16(twos16(self.leverarm_y))
            + le16(twos16(self.leverarm_z))
    }

    fn encode(&self) -> (bytes: Vec<u8>) {
        let mut bytes = Vec::new();
        put_u8(&mut bytes, self.version);
        put_u8(&mut bytes, self.num_configs);
        put_bytes(&mut bytes, self.res1.as_slice());
        put_u8(&mut bytes, self.leverarm_type.code());
        put_u8(&mut bytes, self.res2);
        put_i16(&mut bytes, self.leverarm_x);
        put_i16(&mut bytes, self.leverarm_y);
        put_i16(&mut bytes, self.leverarm_z);
        proof {
            assert(bytes@ =~= self.wire());
        }
        bytes
    }
}

impl DataCfgEsfla {
    /// The payload for one lever arm, with every length zero.
    pub fn new() -> (data: Self)
        ensures
            data == (DataCfgEsfla {
                version: 0,
                num_configs: 1,
                res1: [0u8, 0u8],
                leverarm_type: LeverArmType::VRPtoAntenna,
                res2: 0,
                leverarm_x: 0,
                leverarm_y: 0,
                leverarm_z: 0,
            }),
    {
        Self {
            version: 0x00,
            num_configs: 1,
            res1: [0u8, 0u8],
            leverarm_type: LeverArmType::VRPtoAntenna,
            res2: 0,
            leverarm_x: 0,
            leverarm_y: 0,
            leverarm_z: 0,
        }
    }
}

pub struct UbxCfgEsflaSet {}

impl UbxCfgEsflaSet {
    /// The message that sets one lever arm, with every length zero.
    pub fn new() -> (frame: UbxFrameWithData<DataCfgEsfla>)
        ensures
            frame.name@ == "UBX-CFG-ESFLA"@,
            frame.cid == UbxCID::new(CLS, ID),
            frame.data == (DataCfgEsfla {
                version: 0,
                num_configs: 1,
                res1: [0u8, 0u8],
                leverarm_type: LeverArmType::VRPtoAntenna,
                res2: 0,
                leverarm_x: 0,
                leverarm_y: 0,
                leverarm_z: 0,
            }),
    {
        UbxFrameWithData::init("UBX-CFG-ESFLA", UbxCID::new(CLS, ID), DataCfgEsfla::new())
    }
}

} // verus!
