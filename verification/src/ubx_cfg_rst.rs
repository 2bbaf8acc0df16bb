//! UBX-CFG-RST: reset of the receiver.

use vstd::prelude::*;

use crate::cid::UbxCID;
use crate::frame::{UbxFrameWithData, WireEncode};
use crate::wire::{le16, put_u16, put_u8};

verus! {

pub const CLS: u8 = 0x06;

pub const ID: u8 = 0x04;

/// Which parts of the battery-backed memory a reset clears.
#[derive(Debug, Clone, Copy, PartialEq, Eq, Structural)]
pub enum BbrMask {
    HotStart,
    _WarmStart,
    ColdStart,
}

impl BbrMask {
    /// The number that stands for the value on the wire.
    pub open spec fn spec_code(&self) -> u16 {
        match self {
            BbrMask::HotStart => 0x0000,
            BbrMask::_WarmStart => 0x0001,
            BbrMask::ColdStart => 0xFFFF,
        }
    }

    /// The number that stands for the value on the wire.
    #[verifier::when_used_as_spec(spec_code)]
    pub fn code(&self) -> (code: u16)
        ensures
            code == self.spec_code(),
    {
        match self {
            BbrMask::HotStart => 0x0000,
            BbrMask::_WarmStart => 0x0001,
            BbrMask::ColdStart => 0xFFFF,
        }
    }
}

impl Default for BbrMask {
    fn default() -> (value: Self)
        ensures
            value == BbrMask::ColdStart,
    {
        BbrMask::ColdStart
    }
}

/// How the receiver is reset.
#[derive(Debug, Clone, Copy, PartialEq, Eq, Structural)]
pub enum ResetMode {
    ImmediateHwReset,
    SwReset,
    _HwReset,
    Stop,
    _Start,
}

impl ResetMode {
    /// The number that stands for the value on the wire.
    pub open spec fn spec_code(&self) -> u8 {
        match self {
            ResetMode::ImmediateHwReset => 0x00,
            ResetMode::SwReset => 0x01,
            ResetMode::_HwReset => 0x04,
            ResetMode::Stop => 0x08,
            ResetMode::_Start => 0x09,
        }
    }

    /// The number that stands for the value on the wire.
    #[verifier::when_used_as_spec(spec_code)]
    pub fn code(&self) -> (code: u8)
        ensures
            code == self.spec_code(),
    {
        match self {
            ResetMode::ImmediateHwReset => 0x00,
            ResetMode::SwReset => 0x01,
            ResetMode::_HwReset => 0x04,
            ResetMode::Stop => 0x08,
            ResetMode::_Start => 0x09,
        }
    }
}

impl Default for ResetMode {
    fn default() -> (value: Self)
        ensures
            value == ResetMode::ImmediateHwReset,
    {
        ResetMode::ImmediateHwReset
    }
}

/// Payload of the message: what to clear and how to reset.
#[derive(Debug)]
pub struct DataCfgRst {
    pub nav_bbr_mask: BbrMask,
    pub reset_mode: ResetMode,
    pub res1: u8,
}

impl Default for DataCfgRst {
    fn default() -> (data: Self)
        ensures
            data == (DataCfgRst {
                nav_bbr_mask: BbrMask::ColdStart,
                reset_mode: ResetMode::ImmediateHwReset,
                res1: 0,
            }),
    {
        DataCfgRst {
            nav_bbr_mask: BbrMask::ColdStart,
            reset_mode: ResetMode::ImmediateHwReset,
            res1: 0,
        }
    }
}

impl WireEncode for DataCfgRst {
    open spec fn wire(&self) -> Seq<u8> {
        le16(self.nav_bbr_mask.code())
            + seq![self.reset_mode.code()]
            + seq![self.res1]
    }

    fn encode(&self) -> (bytes: Vec<u8>) {
        let mut bytes = Vec::new();
        put_u16(&mut bytes, self.nav_bbr_mask.code());
        put_u8(&mut bytes, self.reset_mode.code());
        put_u8(&mut bytes, self.res1);
        proof {
            assert(bytes@ =~= self.wire());
        }
        bytes
    }
}

impl DataCfgRst {
    pub fn from(nav_bbr_mask: BbrMask, reset_mode: ResetMode) -> (data: Self)
        ensures
            data == (DataCfgRst { nav_bbr_mask, reset_mode, res1: 0 }),
    {
        Self { nav_bbr_mask, reset_mode, res1: 0 }
    }
}

pub struct UbxCfgRstAction {}

impl UbxCfgRstAction {
    /// The command for a cold start: everything is cleared and the software
    /// is reset.
    pub fn cold_start() -> (frame: UbxFrameWithData<DataCfgRst>)
        ensures
            frame.name@ == "UBX-CFG-RST"@,
            frame.cid == UbxCID::new(CLS, ID),
            frame.data == (DataCfgRst {
                nav_bbr_mask: BbrMask::ColdStart,
                reset_mode: ResetMode::SwReset,
                res1: 0,
            }),
    {
        UbxFrameWithData::init(
            "UBX-CFG-RST",
            UbxCID::new(CLS, ID),
            DataCfgRst::from(BbrMask::ColdStart, ResetMode::SwReset),
        )
    }

    /// The command that stops the receiver and clears nothing.
    pub fn stop() -> (frame: UbxFrameWithData<DataCfgRst>)
        ensures
            frame.name@ == "UBX-CFG-RST"@,
            frame.cid == UbxCID::new(CLS, ID),
            frame.data == (DataCfgRst {
                nav_bbr_mask: BbrMask::HotStart,
                reset_mode: ResetMode::Stop,
                res1: 0,
            }),
    {
        UbxFrameWithData::init(
            "UBX-CFG-RST",
            UbxCID::new(CLS, ID),
            DataCfgRst::from(BbrMask::HotStart, ResetMode::Stop),
        )
    }
}

} // verus!
