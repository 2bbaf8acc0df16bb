//! UBX-CFG-CFG: clear, save and load the configuration.

use vstd::prelude::*;

use crate::cid::UbxCID;
use crate::frame::{UbxFrameWithData, WireEncode};
use crate::wire::{le32, put_u32};

verus! {

pub const CLS: u8 = 0x06;

pub const ID: u8 = 0x09;

/// Every section of the configuration.
pub const MASK_ALL: u32 = 0x00001F1F;

/// Payload of the message: which sections of the configuration to clear, to save and
/// to load.
#[derive(Debug)]
pub struct Data {
    pub clear_mask: u32,
    pub save_mask: u32,
    pub load_mask: u32,
}

impl Default for Data {
    fn default() -> (data: Self)
        ensures
            data == (Data {
                clear_mask: 0,
                save_mask: 0,
                load_mask: 0,
            }),
    {
        Data {
            clear_mask: 0,
            save_mask: 0,
            load_mask: 0,
        }
    }
}

impl WireEncode for Data {
    open spec fn wire(&self) -> Seq<u8> {
        le32(self.clear_mask)
            + le32(self.save_mask)
            + le32(self.load_mask)
    }

    fn encode(&self) -> (bytes: Vec<u8>) {
        let mut bytes = Vec::new();
        put_u32(&mut bytes, self.clear_mask);
        put_u32(&mut bytes, self.save_mask);
        put_u32(&mut bytes, self.load_mask);
        proof {
            assert(bytes@ =~= self.wire());
        }
        bytes
    }
}

impl Data {
        pub fn new(clear: u32, save: u32, load: u32) -> (data: Self)
            ensures
                data == (Data { clear_mask: clear, save_mask: save, load_mask: load }),
        {
            Self { clear_mask: clear, save_mask: save, load_mask: load }
        }
    }

    pub struct UbxCfgCfgAction {}

    impl UbxCfgCfgAction {
        /// The command that clears the stored configuration and loads the
        /// defaults.
        pub fn factory_reset() -> (frame: UbxFrameWithData<Data>)
            ensures
                frame.name@ == "UBX-CFG-CFG"@,
                frame.cid == UbxCID::new(CLS, ID),
                frame.data == (Data { clear_mask: MASK_ALL, save_mask: 0, load_mask: MASK_ALL }),
        {
            UbxFrameWithData::init(
            "UBX-CFG-CFG",
            UbxCID::new(CLS, ID),
            Data::new(MASK_ALL, 0, MASK_ALL),
        )
        }

        /// The command that saves the current configuration.
        pub fn persist() -> (frame: UbxFrameWithData<Data>)
            ensures
                frame.name@ == "UBX-CFG-CFG"@,
                frame.cid == UbxCID::new(CLS, ID),
                frame.data == (Data { clear_mask: 0, save_mask: MASK_ALL, load_mask: 0 }),
        {
            UbxFrameWithData::init("UBX-CFG-CFG", UbxCID::new(CLS, ID), Data::new(0, MASK_ALL, 0))
        }
    }

} // verus!
